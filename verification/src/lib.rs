//! A deterministic single-tape Turing machine: an unbounded tape with a
//! movable head, an immutable transition table, and a step-by-step execution
//! engine that runs until a halting transition (or a missing one) ends the
//! computation with an accept or reject verdict.

pub mod state_symbol_movement;
pub mod tape;
pub mod transition;
pub mod turing_machine;
