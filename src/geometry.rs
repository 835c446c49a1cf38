//! Coordinates on a toroidal lattice stored row by row: the one-step wrap
//! rule, flat indices, and the four neighbours of a site.

use vstd::prelude::*;

verus! {

/// A coordinate at most one extent outside `[0, n)` brought back into it.
pub open spec fn wrapped(x: int, n: int) -> int {
    if x < 0 {
        x + n
    } else if x >= n {
        x - n
    } else {
        x
    }
}

/// Flat row-major index of the site at `(row, col)`, after wrapping both.
pub open spec fn site_index(row: int, col: int, width: int, height: int) -> int {
    wrapped(row, height) * width + wrapped(col, width)
}

/// The four neighbours of `(row, col)`, in the order south, north, east, west
/// (row + 1, row - 1, column + 1, column - 1), as flat indices.
pub open spec fn neighbour_sites(row: int, col: int, width: int, height: int) -> Seq<int> {
    seq![
        site_index(row + 1, col, width, height),
        site_index(row - 1, col, width, height),
        site_index(row, col + 1, width, height),
        site_index(row, col - 1, width, height),
    ]
}

/// The neighbours of the site with flat index `i`.
pub open spec fn neighbours_of(i: int, width: int, height: int) -> Seq<int> {
    neighbour_sites(i / width, i % width, width, height)
}

/// Brings `coord`, which lies within one `range` of `[0, range)`, back into
/// that interval.
pub fn wrap(coord: isize, range: isize) -> (r: usize)
    requires
        range > 0,
        -range <= coord < 2 * range,
    ensures
        r == wrapped(coord as int, range as int),
        r < range,
{
    let result = if coord < 0 {
        coord + range
    } else if coord >= range {
        coord - range
    } else {
        coord
    };
    result as usize
}

/// Row-major positions of in-range sites are distinct.
proof fn lemma_index_injective(r1: int, c1: int, r2: int, c2: int, width: int)
    requires
        0 <= r1,
        0 <= r2,
        0 <= c1 < width,
        0 <= c2 < width,
        r1 * width + c1 == r2 * width + c2,
    ensures
        r1 == r2,
        c1 == c2,
{
    if r1 < r2 {
        assert(r1 * width + c1 < r2 * width + c2) by (nonlinear_arith)
            requires
                r1 < r2,
                0 <= c1 < width,
                0 <= c2,
        ;
    } else if r2 < r1 {
        assert(r2 * width + c2 < r1 * width + c1) by (nonlinear_arith)
            requires
                r2 < r1,
                0 <= c2 < width,
                0 <= c1,
        ;
    }
}

/// Wrap rule: row `-1` is row `height - 1`, row `height` is row `0`, and
/// likewise for columns.
pub proof fn lemma_wrap_rule(row: int, col: int, width: int, height: int)
    requires
        width >= 1,
        height >= 1,
        0 <= row < height,
        0 <= col < width,
    ensures
        site_index(-1, col, width, height) == site_index(height - 1, col, width, height),
        site_index(height, col, width, height) == site_index(0, col, width, height),
        site_index(row, -1, width, height) == site_index(row, width - 1, width, height),
        site_index(row, width, width, height) == site_index(row, 0, width, height),
{
}

/// Neighbourhood symmetry: `j` is a neighbour of `i` exactly when `i` is a
/// neighbour of `j`.
pub proof fn lemma_neighbour_symmetry(i: int, j: int, width: int, height: int)
    requires
        width >= 1,
        height >= 1,
        0 <= i < width * height,
        0 <= j < width * height,
    ensures
        neighbours_of(i, width, height).contains(j) <==> neighbours_of(j, width, height).contains(i),
{
    lemma_flat_coordinates(i, width, height);
    lemma_flat_coordinates(j, width, height);
    if neighbours_of(i, width, height).contains(j) {
        lemma_neighbour_implies(i, j, width, height);
    }
    if neighbours_of(j, width, height).contains(i) {
        lemma_neighbour_implies(j, i, width, height);
    }
}

proof fn lemma_flat_coordinates(i: int, width: int, height: int)
    requires
        width >= 1,
        height >= 1,
        0 <= i < width * height,
    ensures
        0 <= i / width < height,
        0 <= i % width < width,
        site_index(i / width, i % width, width, height) == i,
{
    vstd::arithmetic::div_mod::lemma_fundamental_div_mod(i, width);
    vstd::arithmetic::div_mod::lemma_mod_pos_bound(i, width);
    let q = i / width;
    vstd::arithmetic::mul::lemma_mul_is_commutative(width, q);
    assert(0 <= q < height) by (nonlinear_arith)
        requires
            q == i / width,
            0 <= i < width * height,
            width >= 1,
    ;
}

proof fn lemma_neighbour_implies(i: int, j: int, width: int, height: int)
    requires
        width >= 1,
        height >= 1,
        0 <= i / width < height,
        0 <= i % width < width,
        0 <= j / width < height,
        0 <= j % width < width,
        site_index(i / width, i % width, width, height) == i,
        site_index(j / width, j % width, width, height) == j,
        neighbours_of(i, width, height).contains(j),
    ensures
        neighbours_of(j, width, height).contains(i),
{
    let (r1, c1) = (i / width, i % width);
    let (r2, c2) = (j / width, j % width);
    let n = neighbours_of(i, width, height);
    let m = neighbours_of(j, width, height);
    let k = choose|k: int| 0 <= k < 4 && n[k] == j;
    if k == 0 {
        lemma_index_injective(wrapped(r1 + 1, height), c1, r2, c2, width);
        assert(m[1] == i);
    } else if k == 1 {
        lemma_index_injective(wrapped(r1 - 1, height), c1, r2, c2, width);
        assert(m[0] == i);
    } else if k == 2 {
        lemma_index_injective(r1, wrapped(c1 + 1, width), r2, c2, width);
        assert(m[3] == i);
    } else {
        lemma_index_injective(r1, wrapped(c1 - 1, width), r2, c2, width);
        assert(m[2] == i);
    }
}

/// On a lattice at least three sites wide and high, every site has four
/// neighbours, all different from each other and from the site itself.
pub proof fn lemma_four_distinct_neighbours(i: int, width: int, height: int)
    requires
        width >= 3,
        height >= 3,
        0 <= i < width * height,
    ensures
        neighbours_of(i, width, height).len() == 4,
        forall|a: int, b: int|
            0 <= a < b < 4 ==> neighbours_of(i, width, height)[a] != neighbours_of(
                i,
                width,
                height,
            )[b],
        !neighbours_of(i, width, height).contains(i),
{
    lemma_flat_coordinates(i, width, height);
    let (r, c) = (i / width, i % width);
    let n = neighbours_of(i, width, height);
    let rows = seq![wrapped(r + 1, height), wrapped(r - 1, height), r, r];
    let cols = seq![c, c, wrapped(c + 1, width), wrapped(c - 1, width)];
    assert forall|a: int, b: int| 0 <= a < b < 4 implies n[a] != n[b] by {
        assert(n[a] == rows[a] * width + cols[a]);
        assert(n[b] == rows[b] * width + cols[b]);
        if n[a] == n[b] {
            lemma_index_injective(rows[a], cols[a], rows[b], cols[b], width);
        }
    }
    assert forall|a: int| 0 <= a < 4 implies n[a] != i by {
        assert(n[a] == rows[a] * width + cols[a]);
        if n[a] == i {
            lemma_index_injective(rows[a], cols[a], r, c, width);
        }
    }
}

} // verus!
