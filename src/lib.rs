//! Reduction of a C concrete syntax tree into a small program model.
//!
//! A depth-first walker delivers enter and exit notices for each node to a
//! reducer, a two-register automaton that grows the model while the walk is
//! still in flight.
pub mod model;
pub mod reducer;
pub mod syntax;
