//! A two-state cellular automaton on a rectangular grid whose opposite
//! edges are adjacent.
//!
//! [`Universe`] is the engine: it owns the cells of the current generation,
//! replaces them by the next generation on [`Universe::tick`], and hands
//! them out as a slice or as text. What its functions compute is stated over
//! [`Grid`], the mathematical model of a generation; [`dynamics`] holds what
//! is proved of that model.

pub mod cell;
pub mod dynamics;
pub mod grid;
pub mod torus;
pub mod universe;

pub use cell::Cell;
pub use grid::Grid;
pub use universe::{SizeError, Universe};
