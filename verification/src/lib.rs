//! A combinatorial model of the 3x3x3 twisty puzzle: twenty movable pieces,
//! the three-cycle primitives that permute them, and the interpreter that
//! turns face, slice and whole-cube notation into those primitives.

pub mod piece;
pub mod cube;
pub mod moves;
pub mod laws;
pub mod group;
