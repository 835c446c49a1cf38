use ising_lattice::cell::{Cellule, State};
use ising_lattice::geometry::wrap;
use ising_lattice::metropolis::{accepts, local_field, spin_of, Acceptance};
use ising_lattice::simulator::{App, Msg, MIN_TEMPERATURE, TEMPERATURE_STEP};

const NO_UPHILL: Acceptance = Acceptance { at_minus_two: 0, at_minus_four: 0 };

fn neighbour_indices(app: &App, i: usize) -> [usize; 4] {
    let (w, _) = app.dimensions();
    let (r, c) = ((i / w) as isize, (i % w) as isize);
    [
        app.row_col_as_idx(r + 1, c),
        app.row_col_as_idx(r - 1, c),
        app.row_col_as_idx(r, c + 1),
        app.row_col_as_idx(r, c - 1),
    ]
}

#[test]
fn cellule_states() {
    let mut c = Cellule::new_dead();
    assert!(!c.is_alive());
    assert!(c.state == State::Dead);
    c.set_alive();
    assert!(c.is_alive());
    c.toggle();
    assert!(!c.is_alive());
    c.toggle();
    assert!(c.state == State::Alive);
    c.set_dead();
    assert!(!c.is_alive());
}

#[test]
fn new_lattice_is_all_down() {
    let app = App::new(7, 5, 2400, 3).unwrap();
    let s = app.snapshot();
    assert_eq!(s.len(), 35);
    assert!(s.iter().all(|&up| !up));
    assert_eq!(app.dimensions(), (7, 5));
    assert!(app.is_running());
    assert_eq!(app.temperature(), 2400);
}

#[test]
fn new_rejects_bad_dimensions() {
    assert!(App::new(0, 4, 2400, 1).is_none());
    assert!(App::new(4, 0, 2400, 1).is_none());
    assert!(App::new(usize::MAX, 2, 2400, 1).is_none());
    assert!(App::new(1, 1, 2400, 1).is_some());
}

#[test]
fn new_clamps_temperature() {
    let app = App::new(2, 2, 0, 1).unwrap();
    assert_eq!(app.temperature(), MIN_TEMPERATURE);
}

#[test]
fn toggle_twice_restores() {
    let mut app = App::new(3, 3, 2400, 9).unwrap();
    let before = app.snapshot();
    app.toggle(7);
    let once = app.snapshot();
    assert!(once[7]);
    assert_eq!(once.iter().filter(|&&up| up).count(), 1);
    app.toggle(7);
    assert_eq!(app.snapshot(), before);
}

#[test]
fn reset_is_idempotent() {
    let mut app = App::new(6, 6, 2400, 11).unwrap();
    app.random_mutate();
    assert!(app.snapshot().iter().any(|&up| up));
    app.reset();
    let once = app.snapshot();
    assert!(once.iter().all(|&up| !up));
    app.reset();
    assert_eq!(app.snapshot(), once);
    assert_eq!(once.len(), 36);
}

#[test]
fn wrap_single_step() {
    assert_eq!(wrap(-1, 4), 3);
    assert_eq!(wrap(4, 4), 0);
    assert_eq!(wrap(7, 4), 3);
    assert_eq!(wrap(-4, 4), 0);
    assert_eq!(wrap(2, 4), 2);
}

#[test]
fn wrap_scenario_five_by_four() {
    let app = App::new(5, 4, 2400, 1).unwrap();
    assert_eq!(app.row_col_as_idx(-1, 0), 15);
    assert_eq!(app.row_col_as_idx(4, 0), 0);
    assert_eq!(app.row_col_as_idx(0, -1), 4);
    assert_eq!(app.row_col_as_idx(0, 5), 0);
    assert_eq!(app.row_col_as_idx(2, 3), 13);
    for c in 0..5isize {
        assert_eq!(app.row_col_as_idx(-1, c), app.row_col_as_idx(3, c));
        assert_eq!(app.row_col_as_idx(4, c), app.row_col_as_idx(0, c));
    }
    for r in 0..4isize {
        assert_eq!(app.row_col_as_idx(r, -1), app.row_col_as_idx(r, 4));
        assert_eq!(app.row_col_as_idx(r, 5), app.row_col_as_idx(r, 0));
    }
}

#[test]
fn neighbourhood_is_symmetric() {
    for &(w, h) in &[(5usize, 4usize), (3, 3), (2, 2), (1, 3)] {
        let app = App::new(w, h, 2400, 1).unwrap();
        for i in 0..w * h {
            for j in 0..w * h {
                let j_near_i = neighbour_indices(&app, i).contains(&j);
                let i_near_j = neighbour_indices(&app, j).contains(&i);
                assert_eq!(j_near_i, i_near_j);
            }
        }
    }
}

#[test]
fn four_distinct_neighbours() {
    let app = App::new(5, 4, 2400, 1).unwrap();
    for i in 0..20 {
        let mut n = neighbour_indices(&app, i).to_vec();
        assert!(!n.contains(&i));
        n.sort();
        n.dedup();
        assert_eq!(n.len(), 4);
    }
    // On a lattice two sites wide, east and west are the same site.
    let narrow = App::new(2, 4, 2400, 1).unwrap();
    let n = neighbour_indices(&narrow, 0);
    assert_eq!(n[2], n[3]);
}

#[test]
fn neighbours_read_the_lattice() {
    let mut app = App::new(3, 3, 2400, 1).unwrap();
    app.toggle(1);
    app.toggle(5);
    let n = app.neighbors_ising(1, 1);
    assert!(!n[0].is_alive());
    assert!(n[1].is_alive());
    assert!(n[2].is_alive());
    assert!(!n[3].is_alive());
}

#[test]
fn local_field_values() {
    assert_eq!(spin_of(true), 1);
    assert_eq!(spin_of(false), -1);
    assert_eq!(local_field(false, true, true, true, true), 4);
    assert_eq!(local_field(true, true, true, true, true), -4);
    assert_eq!(local_field(false, false, false, false, false), -4);
    assert_eq!(local_field(true, true, false, true, false), 0);
    assert_eq!(local_field(true, false, false, false, true), 2);
    assert_eq!(local_field(false, false, false, false, true), -2);
}

#[test]
fn acceptance_rule() {
    let acc = Acceptance { at_minus_two: 1000, at_minus_four: 10 };
    assert!(accepts(0, u32::MAX, &acc));
    assert!(accepts(4, u32::MAX, &acc));
    assert!(accepts(-2, 999, &acc));
    assert!(!accepts(-2, 1000, &acc));
    assert!(accepts(-4, 9, &acc));
    assert!(!accepts(-4, 10, &acc));
    assert!(!accepts(-4, 0, &NO_UPHILL));
}

#[test]
fn temperature_commands() {
    let mut app = App::new(2, 2, 2400, 1).unwrap();
    assert!(app.update(Msg::IncreaseT, &NO_UPHILL));
    assert_eq!(app.temperature(), 2400 + TEMPERATURE_STEP);
    assert!(app.update(Msg::DecreaseT, &NO_UPHILL));
    assert!(app.update(Msg::DecreaseT, &NO_UPHILL));
    assert_eq!(app.temperature(), 2350);
    app.set_temperature(30);
    app.adjust_temperature(-50);
    assert_eq!(app.temperature(), MIN_TEMPERATURE);
    app.set_temperature(0);
    assert_eq!(app.temperature(), MIN_TEMPERATURE);
    app.set_temperature(u64::MAX - 10);
    app.adjust_temperature(100);
    assert_eq!(app.temperature(), u64::MAX);
}

#[test]
fn run_flag_commands() {
    let mut app = App::new(2, 2, 2400, 1).unwrap();
    assert!(!app.update(Msg::Stop, &NO_UPHILL));
    assert!(!app.is_running());
    assert!(!app.update(Msg::Tick, &NO_UPHILL));
    assert!(!app.update(Msg::Start, &NO_UPHILL));
    assert!(app.is_running());
    assert!(app.update(Msg::ToggleCellule(3), &NO_UPHILL));
    assert!(app.snapshot()[3]);
    assert!(app.update(Msg::Reset, &NO_UPHILL));
    assert!(app.snapshot().iter().all(|&up| !up));
}

#[test]
fn set_spins_replaces_the_lattice() {
    let mut app = App::new(3, 2, 2400, 5).unwrap();
    app.toggle(0);
    let pattern = vec![false, true, true, false, true, false];
    app.set_spins(&pattern);
    assert_eq!(app.snapshot(), pattern);
    app.set_spins(&vec![false; 6]);
    assert!(app.snapshot().iter().all(|&up| !up));
}

#[test]
fn random_mutate_keeps_shape() {
    let mut app = App::new(9, 7, 2400, 31).unwrap();
    app.random_mutate();
    let s = app.snapshot();
    assert_eq!(s.len(), 63);
    assert!(s.iter().any(|&up| up));
    assert!(s.iter().any(|&up| !up));
    assert_eq!(app.dimensions(), (9, 7));
}
