//! A Game-of-Life style cellular automaton on a torus.
//!
//! [`Lattice`] is the mathematical value of a grid and carries the rules as
//! spec functions; [`Universe`] is the executable grid whose methods are
//! proved against them.

pub mod grid_math;
pub mod lattice;
pub mod laws;
pub mod random;
pub mod universe;

pub use lattice::Lattice;
pub use universe::{LatticeError, Universe};
