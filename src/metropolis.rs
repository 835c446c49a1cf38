//! The Metropolis acceptance rule for a single spin flip.
//!
//! With coupling `J = +1` the local field of a site is
//! `h = -sigma * (sum of the four neighbouring spins)`, an integer in
//! `{-4, -2, 0, 2, 4}`; flipping the site changes the energy by `-2h`. A flip
//! with `h >= 0` is always taken. One with `h < 0` is taken with probability
//! `exp(2 * beta * h)`: a uniform 32-bit draw `d` accepts it when
//! `d < threshold`, the threshold being that probability scaled by `2^32`.
//! Computing the two thresholds from a temperature takes floating point and
//! is the host's part.

use vstd::prelude::*;

verus! {

/// Scale of the acceptance thresholds: a probability `p` is `p * 2^32`.
pub const ACCEPTANCE_SCALE: u64 = 0x1_0000_0000;

/// Acceptance thresholds for the two uphill local fields, each a probability
/// scaled by `ACCEPTANCE_SCALE` (a value of the scale or more always accepts).
#[derive(Clone, Copy, Debug)]
pub struct Acceptance {
    /// For local field `-2`: `exp(-4 * beta) * 2^32`.
    pub at_minus_two: u64,
    /// For local field `-4`: `exp(-8 * beta) * 2^32`.
    pub at_minus_four: u64,
}

/// The value of a spin: `+1` up, `-1` down.
pub open spec fn spin_value(up: bool) -> int {
    if up {
        1
    } else {
        -1
    }
}

/// The threshold that applies to an uphill flip at local field `field`.
pub open spec fn threshold_for(acceptance: Acceptance, field: int) -> int {
    if field == -2 {
        acceptance.at_minus_two as int
    } else {
        acceptance.at_minus_four as int
    }
}

/// Whether a flip at local field `field` is taken, given the draw `draw`
/// (which is consulted only for `field < 0`).
pub open spec fn flip_taken(field: int, draw: int, acceptance: Acceptance) -> bool {
    field >= 0 || draw < threshold_for(acceptance, field)
}

/// The local field `-sigma * sum` of a site with spin `centre` and the four
/// neighbouring spins `south`, `north`, `east`, `west`.
pub open spec fn field_of(centre: bool, south: bool, north: bool, east: bool, west: bool) -> int {
    let sum = spin_value(south) + spin_value(north) + spin_value(east) + spin_value(west);
    if centre {
        -sum
    } else {
        sum
    }
}

/// Spin value of a site as an integer.
pub fn spin_of(up: bool) -> (r: i64)
    ensures
        r == spin_value(up),
{
    if up {
        1
    } else {
        -1
    }
}

/// The local field of a site from its spin and its neighbours' spins.
pub fn local_field(centre: bool, south: bool, north: bool, east: bool, west: bool) -> (r: i64)
    ensures
        r == field_of(centre, south, north, east, west),
        -4 <= r <= 4,
        r % 2 == 0,
{
    let sum = spin_of(south) + spin_of(north) + spin_of(east) + spin_of(west);
    if centre {
        -sum
    } else {
        sum
    }
}

/// Decides a flip at local field `field` with the uniform draw `draw`.
pub fn accepts(field: i64, draw: u32, acceptance: &Acceptance) -> (r: bool)
    ensures
        r == flip_taken(field as int, draw as int, *acceptance),
{
    if field >= 0 {
        true
    } else if field == -2 {
        (draw as u64) < acceptance.at_minus_two
    } else {
        (draw as u64) < acceptance.at_minus_four
    }
}

} // verus!
