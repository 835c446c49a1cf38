//! The simulator: a toroidal lattice of spins, a temperature, a run flag and
//! a seeded generator, advanced by Metropolis updates at random sites.

use crate::cell::Cellule;
use crate::geometry::{neighbour_sites, site_index, wrap};
use crate::metropolis::{accepts, field_of, flip_taken, local_field, Acceptance};
use crate::rng::{fair_coin, seeded, uniform_below, uniform_word};
use rand::rngs::StdRng;
use vstd::prelude::*;

verus! {

/// Lowest temperature, in thousandths; lower requests are raised to it.
pub const MIN_TEMPERATURE: u64 = 1;

/// Temperature change of one `IncreaseT` or `DecreaseT`, in thousandths.
pub const TEMPERATURE_STEP: u64 = 50;

/// Metropolis updates performed per `Tick` while running.
pub const STEPS_PER_TICK: u64 = 10_000;

/// Commands a host sends to the simulator.
pub enum Msg {
    Random,
    Start,
    Step,
    Reset,
    Stop,
    IncreaseT,
    DecreaseT,
    ToggleCellule(usize),
    Tick,
}

/// The simulator state. Temperatures are in thousandths (`2400` is `2.40`).
pub struct App {
    active: bool,
    cellules: Vec<Cellule>,
    cellules_width: usize,
    cellules_height: usize,
    temperature: u64,
    rng: StdRng,
}

/// All spins down, `n` sites.
pub open spec fn all_down(n: int) -> Seq<bool> {
    Seq::new(n as nat, |i: int| false)
}

/// The spins with the one at `i` flipped.
pub open spec fn toggled(spins: Seq<bool>, i: int) -> Seq<bool> {
    spins.update(i, !spins[i])
}

/// The local field of the site `(row, col)` of a `width` by `height` lattice.
pub open spec fn site_field(spins: Seq<bool>, row: int, col: int, width: int, height: int) -> int {
    let n = neighbour_sites(row, col, width, height);
    field_of(spins[site_index(row, col, width, height)], spins[n[0]], spins[n[1]], spins[n[2]], spins[n[3]])
}

/// A temperature request clamped to `[MIN_TEMPERATURE, u64::MAX]`.
pub open spec fn clamped_temperature(t: int) -> int {
    if t < MIN_TEMPERATURE {
        MIN_TEMPERATURE as int
    } else if t > u64::MAX {
        u64::MAX as int
    } else {
        t
    }
}

/// Dimensions that a lattice can have: both positive, with a site count
/// that fits in `isize`.
pub open spec fn valid_dimensions(width: int, height: int) -> bool {
    width >= 1 && height >= 1 && width * height <= isize::MAX
}

/// `after` is what one Metropolis update of `before` can give: some site was
/// chosen; a site with a non-negative local field was flipped, and any other
/// was flipped or left as it was.
pub open spec fn one_update(before: Seq<bool>, after: Seq<bool>, width: int, height: int) -> bool {
    exists|row: int, col: int|
        0 <= row < height && 0 <= col < width && #[trigger] update_at(
            before,
            after,
            row,
            col,
            width,
            height,
        )
}

/// `after` is `before` updated at the site `(row, col)`.
pub open spec fn update_at(
    before: Seq<bool>,
    after: Seq<bool>,
    row: int,
    col: int,
    width: int,
    height: int,
) -> bool {
    let i = site_index(row, col, width, height);
    &&& after == before || after == toggled(before, i)
    &&& site_field(before, row, col, width, height) >= 0 ==> after == toggled(before, i)
}

/// `after` is what `n` Metropolis updates of `before` can give.
pub open spec fn updates(before: Seq<bool>, after: Seq<bool>, n: nat, width: int, height: int) -> bool
    decreases n,
{
    if n == 0 {
        after == before
    } else {
        exists|mid: Seq<bool>|
            updates(before, mid, (n - 1) as nat, width, height) && #[trigger] one_update(
                mid,
                after,
                width,
                height,
            )
    }
}

/// Toggling the same site twice restores the lattice.
pub proof fn lemma_toggle_involution(spins: Seq<bool>, i: int)
    requires
        0 <= i < spins.len(),
    ensures
        toggled(toggled(spins, i), i) == spins,
{
    assert(toggled(toggled(spins, i), i) =~= spins);
}

/// Clearing is idempotent, and a clear after any lattice of `n` sites gives
/// the same all-down lattice.
pub proof fn lemma_reset_idempotent(spins: Seq<bool>, other: Seq<bool>)
    requires
        spins.len() == other.len(),
    ensures
        all_down(all_down(spins.len() as int).len() as int) == all_down(spins.len() as int),
        all_down(spins.len() as int) == all_down(other.len() as int),
        forall|i: int| 0 <= i < spins.len() ==> !#[trigger] all_down(spins.len() as int)[i],
{
}

proof fn lemma_extents_fit(width: int, height: int)
    requires
        valid_dimensions(width, height),
    ensures
        width <= width * height,
        height <= width * height,
{
    assert(width <= width * height && height <= width * height) by (nonlinear_arith)
        requires
            width >= 1,
            height >= 1,
    ;
}

impl App {
    /// The spins, row by row, `true` for up.
    pub closed spec fn spins(&self) -> Seq<bool> {
        self.cellules@.map_values(|c: Cellule| c@)
    }

    pub closed spec fn width(&self) -> int {
        self.cellules_width as int
    }

    pub closed spec fn height(&self) -> int {
        self.cellules_height as int
    }

    pub closed spec fn running(&self) -> bool {
        self.active
    }

    /// The temperature in thousandths.
    pub closed spec fn temperature_spec(&self) -> int {
        self.temperature as int
    }

    /// The state of the generator.
    pub closed spec fn generator(&self) -> StdRng {
        self.rng
    }

    pub closed spec fn wf(&self) -> bool {
        &&& valid_dimensions(self.cellules_width as int, self.cellules_height as int)
        &&& self.cellules@.len() == self.cellules_width * self.cellules_height
        &&& self.temperature >= MIN_TEMPERATURE
    }

    /// What well-formedness gives a caller: valid dimensions, one spin per
    /// site, and a temperature within `[MIN_TEMPERATURE, u64::MAX]`.
    pub proof fn lemma_wf_facts(&self)
        requires
            self.wf(),
        ensures
            valid_dimensions(self.width(), self.height()),
            self.width() <= isize::MAX,
            self.height() <= isize::MAX,
            self.spins().len() == self.width() * self.height(),
            MIN_TEMPERATURE <= self.temperature_spec() <= u64::MAX,
    {
        lemma_extents_fit(self.width(), self.height());
    }

    /// A `width` by `height` lattice with every spin down, running, at the
    /// temperature `temperature` (clamped), with a generator seeded by
    /// `seed`; `None` when the dimensions are not valid.
    pub fn new(width: usize, height: usize, temperature: u64, seed: u64) -> (r: Option<Self>)
        ensures
            r is Some <==> valid_dimensions(width as int, height as int),
            r matches Some(app) ==> {
                &&& app.wf()
                &&& app.width() == width
                &&& app.height() == height
                &&& app.spins() == all_down(width * height)
                &&& app.running()
                &&& app.temperature_spec() == clamped_temperature(temperature as int)
            },
    {
        if width == 0 || height == 0 {
            return None;
        }
        let count = match width.checked_mul(height) {
            Some(n) => n,
            None => return None,
        };
        if count > isize::MAX as usize {
            return None;
        }
        let mut cellules: Vec<Cellule> = Vec::new();
        let mut i: usize = 0;
        while i < count
            invariant
                i <= count,
                cellules@.len() == i,
                forall|k: int| 0 <= k < i ==> !(#[trigger] cellules@[k])@,
            decreases count - i,
        {
            cellules.push(Cellule::new_dead());
            i = i + 1;
        }
        let app = App {
            active: true,
            cellules,
            cellules_width: width,
            cellules_height: height,
            temperature: if temperature < MIN_TEMPERATURE { MIN_TEMPERATURE } else { temperature },
            rng: seeded(seed),
        };
        assert(app.spins() =~= all_down(width * height));
        Some(app)
    }

    /// Flat index of `(row, col)` after wrapping each by one extent.
    pub fn row_col_as_idx(&self, row: isize, col: isize) -> (r: usize)
        requires
            self.wf(),
            -self.height() <= row < 2 * self.height(),
            -self.width() <= col < 2 * self.width(),
        ensures
            r == site_index(row as int, col as int, self.width(), self.height()),
            r < self.spins().len(),
    {
        proof {
            lemma_extents_fit(self.width(), self.height());
        }
        let row = wrap(row, self.cellules_height as isize);
        let col = wrap(col, self.cellules_width as isize);
        proof {
            let (w, h) = (self.cellules_width as int, self.cellules_height as int);
            assert(row * w + col < w * h) by (nonlinear_arith)
                requires
                    0 <= row < h,
                    0 <= col < w,
            ;
        }
        row * self.cellules_width + col
    }

    /// The four neighbours of the in-range site `(row, col)`, in the order
    /// of `neighbour_sites`.
    pub fn neighbors_ising(&self, row: isize, col: isize) -> (r: [Cellule; 4])
        requires
            self.wf(),
            0 <= row < self.height(),
            0 <= col < self.width(),
        ensures
            forall|k: int|
                0 <= k < 4 ==> (#[trigger] r@[k])@ == self.spins()[neighbour_sites(
                    row as int,
                    col as int,
                    self.width(),
                    self.height(),
                )[k]],
    {
        proof {
            lemma_extents_fit(self.width(), self.height());
        }
        [
            self.cellules[self.row_col_as_idx(row + 1, col)],
            self.cellules[self.row_col_as_idx(row - 1, col)],
            self.cellules[self.row_col_as_idx(row, col + 1)],
            self.cellules[self.row_col_as_idx(row, col - 1)],
        ]
    }

    /// Flips the spin at flat index `idx`.
    pub fn toggle(&mut self, idx: usize)
        requires
            old(self).wf(),
            idx < old(self).spins().len(),
        ensures
            final(self).wf(),
            final(self).spins() == toggled(old(self).spins(), idx as int),
            final(self).width() == old(self).width(),
            final(self).height() == old(self).height(),
            final(self).running() == old(self).running(),
            final(self).temperature_spec() == old(self).temperature_spec(),
            final(self).generator() == old(self).generator(),
    {
        let mut cellule = self.cellules[idx];
        cellule.toggle();
        self.cellules.set(idx, cellule);
        assert(self.spins() =~= toggled(old(self).spins(), idx as int));
    }

    /// Sets every spin down.
    pub fn reset(&mut self)
        requires
            old(self).wf(),
        ensures
            final(self).wf(),
            final(self).spins() == all_down(old(self).spins().len() as int),
            final(self).width() == old(self).width(),
            final(self).height() == old(self).height(),
            final(self).running() == old(self).running(),
            final(self).temperature_spec() == old(self).temperature_spec(),
            final(self).generator() == old(self).generator(),
    {
        let n = self.cellules.len();
        let mut i: usize = 0;
        while i < n
            invariant
                i <= n,
                self.cellules@.len() == n,
                n == old(self).cellules@.len(),
                self.cellules_width == old(self).cellules_width,
                self.cellules_height == old(self).cellules_height,
                self.active == old(self).active,
                self.temperature == old(self).temperature,
                self.rng == old(self).rng,
                forall|k: int| 0 <= k < i ==> !(#[trigger] self.cellules@[k])@,
            decreases n - i,
        {
            let mut cellule = self.cellules[i];
            cellule.set_dead();
            self.cellules.set(i, cellule);
            i = i + 1;
        }
        assert(self.spins() =~= all_down(n as int));
    }

    /// Sets each spin up or down by a fair coin from the generator, one
    /// coin per site in row-major order.
    pub fn random_mutate(&mut self)
        requires
            old(self).wf(),
        ensures
            final(self).wf(),
            final(self).spins().len() == old(self).spins().len(),
            final(self).width() == old(self).width(),
            final(self).height() == old(self).height(),
            final(self).running() == old(self).running(),
            final(self).temperature_spec() == old(self).temperature_spec(),
    {
        let n = self.cellules.len();
        let mut coins: Vec<bool> = Vec::new();
        let mut i: usize = 0;
        while i < n
            invariant
                i <= n,
                n == self.cellules@.len(),
                coins@.len() == i,
                self.wf(),
                self.cellules_width == old(self).cellules_width,
                self.cellules_height == old(self).cellules_height,
                self.active == old(self).active,
                self.temperature == old(self).temperature,
                self.cellules == old(self).cellules,
            decreases n - i,
        {
            coins.push(fair_coin(&mut self.rng));
            i = i + 1;
        }
        self.set_spins(&coins);
    }

    /// Sets the spins, row by row, to `spins` (`true` for up).
    pub fn set_spins(&mut self, spins: &Vec<bool>)
        requires
            old(self).wf(),
            spins@.len() == old(self).spins().len(),
        ensures
            final(self).wf(),
            final(self).spins() == spins@,
            final(self).width() == old(self).width(),
            final(self).height() == old(self).height(),
            final(self).running() == old(self).running(),
            final(self).temperature_spec() == old(self).temperature_spec(),
            final(self).generator() == old(self).generator(),
    {
        let n = self.cellules.len();
        let mut i: usize = 0;
        while i < n
            invariant
                i <= n,
                n == spins@.len(),
                self.cellules@.len() == n,
                n == old(self).cellules@.len(),
                self.cellules_width == old(self).cellules_width,
                self.cellules_height == old(self).cellules_height,
                self.active == old(self).active,
                self.temperature == old(self).temperature,
                self.rng == old(self).rng,
                forall|k: int| 0 <= k < i ==> (#[trigger] self.cellules@[k])@ == spins@[k],
            decreases n - i,
        {
            let mut cellule = self.cellules[i];
            if spins[i] {
                cellule.set_alive();
            } else {
                cellule.set_dead();
            }
            self.cellules.set(i, cellule);
            i = i + 1;
        }
        assert(self.spins() =~= spins@);
    }

    /// One Metropolis update of the in-range site `(row, col)`: a site with
    /// a non-negative local field flips without a draw; any other flips when
    /// one 32-bit draw falls below its threshold. Returns whether it flipped.
    pub fn update_site(&mut self, row: usize, col: usize, acceptance: &Acceptance) -> (flipped: bool)
        requires
            old(self).wf(),
            row < old(self).height(),
            col < old(self).width(),
        ensures
            final(self).wf(),
            final(self).width() == old(self).width(),
            final(self).height() == old(self).height(),
            final(self).running() == old(self).running(),
            final(self).temperature_spec() == old(self).temperature_spec(),
            final(self).spins() == if flipped {
                toggled(
                    old(self).spins(),
                    site_index(row as int, col as int, old(self).width(), old(self).height()),
                )
            } else {
                old(self).spins()
            },
            site_field(old(self).spins(), row as int, col as int, old(self).width(), old(self).height()) >= 0
                ==> flipped && final(self).generator() == old(self).generator(),
            site_field(old(self).spins(), row as int, col as int, old(self).width(), old(self).height()) < 0
                ==> exists|draw: u32|
                flipped == #[trigger] flip_taken(
                    site_field(old(self).spins(), row as int, col as int, old(self).width(), old(self).height()),
                    draw as int,
                    *acceptance,
                ),
    {
        proof {
            lemma_extents_fit(self.width(), self.height());
        }
        let idx = self.row_col_as_idx(row as isize, col as isize);
        let neighbours = self.neighbors_ising(row as isize, col as isize);
        let field = local_field(
            self.cellules[idx].is_alive(),
            neighbours[0].is_alive(),
            neighbours[1].is_alive(),
            neighbours[2].is_alive(),
            neighbours[3].is_alive(),
        );
        assert(field == site_field(self.spins(), row as int, col as int, self.width(), self.height()));
        let flip = if field >= 0 {
            true
        } else {
            let draw = uniform_word(&mut self.rng);
            let taken = accepts(field, draw, acceptance);
            assert(taken == flip_taken(field as int, draw as int, *acceptance));
            taken
        };
        if flip {
            self.toggle(idx);
        }
        flip
    }

    /// One Metropolis update at a site drawn uniformly: the row first, then
    /// the column.
    pub fn step_ising(&mut self, acceptance: &Acceptance)
        requires
            old(self).wf(),
        ensures
            final(self).wf(),
            final(self).width() == old(self).width(),
            final(self).height() == old(self).height(),
            final(self).running() == old(self).running(),
            final(self).temperature_spec() == old(self).temperature_spec(),
            final(self).spins().len() == old(self).spins().len(),
            one_update(old(self).spins(), final(self).spins(), old(self).width(), old(self).height()),
    {
        let row = uniform_below(&mut self.rng, self.cellules_height);
        let col = uniform_below(&mut self.rng, self.cellules_width);
        self.update_site(row, col, acceptance);
        assert(update_at(
            old(self).spins(),
            self.spins(),
            row as int,
            col as int,
            self.width(),
            self.height(),
        ));
    }

    /// `n` Metropolis updates while running; nothing at all while stopped.
    pub fn burst(&mut self, n: u64, acceptance: &Acceptance)
        requires
            old(self).wf(),
        ensures
            final(self).wf(),
            final(self).width() == old(self).width(),
            final(self).height() == old(self).height(),
            final(self).running() == old(self).running(),
            final(self).temperature_spec() == old(self).temperature_spec(),
            final(self).spins().len() == old(self).spins().len(),
            old(self).running() ==> updates(
                old(self).spins(),
                final(self).spins(),
                n as nat,
                old(self).width(),
                old(self).height(),
            ),
            !old(self).running() ==> final(self).spins() == old(self).spins()
                && final(self).generator() == old(self).generator(),
    {
        if !self.active {
            return;
        }
        let mut i: u64 = 0;
        while i < n
            invariant
                i <= n,
                self.wf(),
                self.active,
                self.cellules_width == old(self).cellules_width,
                self.cellules_height == old(self).cellules_height,
                self.temperature == old(self).temperature,
                updates(old(self).spins(), self.spins(), i as nat, self.width(), self.height()),
            decreases n - i,
        {
            let ghost before = self.spins();
            self.step_ising(acceptance);
            assert(updates(old(self).spins(), before, i as nat, self.width(), self.height())
                && one_update(before, self.spins(), self.width(), self.height()));
            i = i + 1;
        }
    }

    pub fn start(&mut self)
        requires
            old(self).wf(),
        ensures
            final(self).running(),
            final(self).wf(),
            final(self).spins() == old(self).spins(),
            final(self).width() == old(self).width(),
            final(self).height() == old(self).height(),
            final(self).temperature_spec() == old(self).temperature_spec(),
    {
        self.active = true;
    }

    pub fn stop(&mut self)
        requires
            old(self).wf(),
        ensures
            !final(self).running(),
            final(self).wf(),
            final(self).spins() == old(self).spins(),
            final(self).width() == old(self).width(),
            final(self).height() == old(self).height(),
            final(self).temperature_spec() == old(self).temperature_spec(),
    {
        self.active = false;
    }

    pub fn is_running(&self) -> (r: bool)
        ensures
            r == self.running(),
    {
        self.active
    }

    /// The temperature in thousandths.
    pub fn temperature(&self) -> (r: u64)
        ensures
            r == self.temperature_spec(),
    {
        self.temperature
    }

    /// Sets the temperature (thousandths), raised to `MIN_TEMPERATURE` if lower.
    pub fn set_temperature(&mut self, temperature: u64)
        requires
            old(self).wf(),
        ensures
            final(self).wf(),
            final(self).temperature_spec() == clamped_temperature(temperature as int),
            final(self).spins() == old(self).spins(),
            final(self).width() == old(self).width(),
            final(self).height() == old(self).height(),
            final(self).running() == old(self).running(),
    {
        self.temperature = if temperature < MIN_TEMPERATURE {
            MIN_TEMPERATURE
        } else {
            temperature
        };
    }

    /// Moves the temperature by `delta` thousandths, clamped to
    /// `[MIN_TEMPERATURE, u64::MAX]`.
    pub fn adjust_temperature(&mut self, delta: i64)
        requires
            old(self).wf(),
        ensures
            final(self).wf(),
            final(self).temperature_spec() == clamped_temperature(
                old(self).temperature_spec() + delta,
            ),
            final(self).spins() == old(self).spins(),
            final(self).width() == old(self).width(),
            final(self).height() == old(self).height(),
            final(self).running() == old(self).running(),
    {
        let t: i128 = self.temperature as i128 + delta as i128;
        self.temperature = if t < MIN_TEMPERATURE as i128 {
            MIN_TEMPERATURE
        } else if t > u64::MAX as i128 {
            u64::MAX
        } else {
            t as u64
        };
    }

    /// A copy of the spins, row by row, `true` for up.
    pub fn snapshot(&self) -> (r: Vec<bool>)
        requires
            self.wf(),
        ensures
            r@ == self.spins(),
    {
        let mut r: Vec<bool> = Vec::new();
        let mut i: usize = 0;
        while i < self.cellules.len()
            invariant
                i <= self.cellules@.len(),
                r@ == self.spins().take(i as int),
            decreases self.cellules@.len() - i,
        {
            r.push(self.cellules[i].is_alive());
            i = i + 1;
            assert(r@ =~= self.spins().take(i as int));
        }
        assert(self.spins().take(i as int) =~= self.spins());
        r
    }

    /// `(width, height)`.
    pub fn dimensions(&self) -> (r: (usize, usize))
        ensures
            r.0 == self.width(),
            r.1 == self.height(),
    {
        (self.cellules_width, self.cellules_height)
    }

    /// Handles one command. Returns whether the lattice or the temperature
    /// may have changed, that is whether the host should redraw.
    pub fn update(&mut self, msg: Msg, acceptance: &Acceptance) -> (redraw: bool)
        requires
            old(self).wf(),
            msg matches Msg::ToggleCellule(idx) ==> idx < old(self).spins().len(),
        ensures
            final(self).wf(),
            final(self).width() == old(self).width(),
            final(self).height() == old(self).height(),
            final(self).spins().len() == old(self).spins().len(),
            final(self).running() == match msg {
                Msg::Start => true,
                Msg::Stop => false,
                _ => old(self).running(),
            },
            final(self).temperature_spec() == match msg {
                Msg::IncreaseT => clamped_temperature(old(self).temperature_spec() + TEMPERATURE_STEP),
                Msg::DecreaseT => clamped_temperature(old(self).temperature_spec() - TEMPERATURE_STEP),
                _ => old(self).temperature_spec(),
            },
            match msg {
                Msg::Random => final(self).spins().len() == old(self).spins().len(),
                Msg::Step => one_update(
                    old(self).spins(),
                    final(self).spins(),
                    old(self).width(),
                    old(self).height(),
                ),
                Msg::Reset => final(self).spins() == all_down(old(self).spins().len() as int),
                Msg::ToggleCellule(idx) => final(self).spins() == toggled(old(self).spins(), idx as int),
                Msg::Tick => if old(self).running() {
                    updates(
                        old(self).spins(),
                        final(self).spins(),
                        STEPS_PER_TICK as nat,
                        old(self).width(),
                        old(self).height(),
                    )
                } else {
                    final(self).spins() == old(self).spins()
                },
                _ => final(self).spins() == old(self).spins(),
            },
            redraw == match msg {
                Msg::Start | Msg::Stop => false,
                Msg::Tick => old(self).running(),
                _ => true,
            },
    {
        match msg {
            Msg::Random => {
                self.random_mutate();
                true
            },
            Msg::Start => {
                self.start();
                false
            },
            Msg::Step => {
                self.step_ising(acceptance);
                true
            },
            Msg::Reset => {
                self.reset();
                true
            },
            Msg::Stop => {
                self.stop();
                false
            },
            Msg::IncreaseT => {
                self.adjust_temperature(TEMPERATURE_STEP as i64);
                true
            },
            Msg::DecreaseT => {
                self.adjust_temperature(-(TEMPERATURE_STEP as i64));
                true
            },
            Msg::ToggleCellule(idx) => {
                self.toggle(idx);
                true
            },
            Msg::Tick => {
                if self.active {
                    self.burst(STEPS_PER_TICK, acceptance);
                    true
                } else {
                    false
                }
            },
        }
    }
}


} // verus!
