//! One lattice site: a spin that is either up ("alive") or down ("dead").

use vstd::prelude::*;

verus! {

/// The two values of a spin: `Alive` is up (+1), `Dead` is down (-1).
#[derive(Clone, Copy, PartialEq, Eq, Structural, Debug)]
pub enum State {
    Alive,
    Dead,
}

/// A lattice site holding one spin.
#[derive(Clone, Copy, Debug)]
pub struct Cellule {
    pub state: State,
}

impl View for Cellule {
    /// `true` when the spin is up.
    type V = bool;

    open spec fn view(&self) -> bool {
        self.state == State::Alive
    }
}

impl Cellule {
    /// A site whose spin is down.
    pub fn new_dead() -> (r: Self)
        ensures
            r.state == State::Dead,
            !r@,
    {
        Self { state: State::Dead }
    }

    pub fn set_alive(&mut self)
        ensures
            final(self).state == State::Alive,
            final(self)@,
    {
        self.state = State::Alive;
    }

    pub fn set_dead(&mut self)
        ensures
            final(self).state == State::Dead,
            !final(self)@,
    {
        self.state = State::Dead;
    }

    pub fn is_alive(self) -> (r: bool)
        ensures
            r == self@,
            r == (self.state == State::Alive),
    {
        self.state == State::Alive
    }

    /// Flips the spin.
    pub fn toggle(&mut self)
        ensures
            final(self)@ == !old(self)@,
            final(self).state != old(self).state,
    {
        if self.is_alive() {
            self.set_dead()
        } else {
            self.set_alive()
        }
    }
}

} // verus!
