//! The atomic value types shared by the tape and the execution engine: control
//! states, tape symbols, and head movements.

use vstd::prelude::*;

verus! {

/// A control state of a Turing machine, identified by a single character.
///
/// States and symbols are distinct types even though both wrap a character,
/// so that one can never be used where the other is meant.
#[derive(Debug, Clone, Copy, PartialEq, Eq, Hash, Structural)]
pub struct State(char);

impl View for State {
    type V = char;

    closed spec fn view(&self) -> char {
        self.0
    }
}

impl State {
    /// Constructs a new State from the given char
    pub fn new(value: char) -> (state: State)
        ensures
            state@ == value,
    {
        State(value)
    }

    /// Returns the character this state is identified by
    pub fn value(&self) -> (value: char)
        ensures
            value == self@,
    {
        self.0
    }
}

/// A tape symbol, identified by a single character.
#[derive(Debug, Clone, Copy, PartialEq, Eq, Hash, Structural)]
pub struct Symbol(char);

impl View for Symbol {
    type V = char;

    closed spec fn view(&self) -> char {
        self.0
    }
}

impl Symbol {
    /// Constructs a new Symbol from the given char
    pub fn new(value: char) -> (symbol: Symbol)
        ensures
            symbol@ == value,
    {
        Symbol(value)
    }

    /// Returns the character this symbol is identified by
    pub fn value(&self) -> (value: char)
        ensures
            value == self@,
    {
        self.0
    }
}

/// A movement of the tape head: one cell to the left, one cell to the right,
/// or staying in place.
#[derive(Debug, Clone, Copy)]
pub enum Movement {
    Left,
    Right,
    Stay,
}

impl Movement {
    /// How far this movement shifts the head: -1, +1, or 0.
    pub open spec fn delta(self) -> int {
        match self {
            Movement::Left => -1,
            Movement::Right => 1,
            Movement::Stay => 0,
        }
    }
}

} // verus!
