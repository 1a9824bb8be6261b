//! A stack machine that assembles linear expressions over numbered variables
//! and turns pairs of them into constraints for an incremental solver.
//!
//! The session keeps the variable table and the expression stack and decides,
//! instruction by instruction, what the stack becomes, which status is
//! reported and what is asked of the solving engine. The engine itself, and
//! the machine's arithmetic on reals, belong to the caller.

pub mod algebra;
pub mod element;
pub mod engine;
pub mod laws;
pub mod scalar;
pub mod session;
pub mod strength;
