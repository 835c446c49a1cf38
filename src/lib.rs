//! A Monte Carlo simulator of the two-dimensional ferromagnetic Ising model
//! on a toroidal square lattice, advanced by single-spin Metropolis updates.

pub mod cell;
pub mod geometry;
pub mod metropolis;
mod rng;
pub mod simulator;
