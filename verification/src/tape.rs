//! The tape of a Turing machine: an unbounded, lazily-growing sequence of
//! symbols indexed by a signed position, with a movable read/write head.
//!
//! The tape is modelled by [`TapeView`]: a total assignment of a symbol to
//! every signed position, together with the head position and the blank
//! symbol. Physically, the tape holds two growable vectors — one for the
//! non-negative positions (the home cell at index 0 and rightward) and one for
//! the negative positions (nearest to home first) — and every position not yet
//! materialized carries the blank symbol. The head is always within the
//! materialized cells (the well-formedness invariant [`Tape::wf`]), so reads
//! and writes at the head never index out of bounds.

use vstd::prelude::*;

use crate::state_symbol_movement::{Movement, Symbol};

verus! {

/// The mathematical model of a tape: the blank symbol, a symbol at every
/// signed position, and the head position.
#[verifier::ext_equal]
pub ghost struct TapeView {
    /// The "blank" symbol for this tape
    pub blank: Symbol,
    /// The symbol at every signed position of the infinite tape
    pub contents: Map<int, Symbol>,
    /// The position of the head; 0 is the home position, positive positions
    /// lie to the right of it and negative positions to its left
    pub head: int,
}

impl TapeView {
    /// The symbol under the head.
    pub open spec fn read_head(self) -> Symbol {
        self.contents[self.head]
    }

    /// The tape after writing `symbol` at the head: only the cell under the
    /// head changes.
    pub open spec fn written(self, symbol: Symbol) -> TapeView {
        TapeView { contents: self.contents.insert(self.head, symbol), ..self }
    }

    /// The tape after one head movement: the contents are untouched, only the
    /// head shifts.
    pub open spec fn moved(self, movement: Movement) -> TapeView {
        TapeView { head: self.head + movement.delta(), ..self }
    }
}

/// The tape view after a whole sequence of head movements, applied in order.
pub open spec fn apply_movements(v: TapeView, movements: Seq<Movement>) -> TapeView
    decreases movements.len(),
{
    if movements.len() == 0 {
        v
    } else {
        apply_movements(v.moved(movements[0]), movements.drop_first())
    }
}

/// Movements only shift the head: no sequence of movements changes the
/// contents or the blank symbol of a tape.
pub proof fn lemma_movements_preserve_contents(v: TapeView, movements: Seq<Movement>)
    ensures
        apply_movements(v, movements).contents == v.contents,
        apply_movements(v, movements).blank == v.blank,
    decreases movements.len(),
{
    if movements.len() > 0 {
        lemma_movements_preserve_contents(v.moved(movements[0]), movements.drop_first());
    }
}

/// Round-trip addressing: after writing a symbol at the head and then making
/// any sequence of movements that brings the head back to the written
/// position, reading yields the written symbol.
pub proof fn lemma_round_trip(v: TapeView, symbol: Symbol, movements: Seq<Movement>)
    requires
        apply_movements(v.written(symbol), movements).head == v.head,
    ensures
        apply_movements(v.written(symbol), movements).read_head() == symbol,
{
    lemma_movements_preserve_contents(v.written(symbol), movements);
}

/// An unbounded tape with a movable head. See the module documentation for
/// the representation.
#[derive(Debug, Clone)]
pub struct Tape {
    /// The "blank" symbol for this tape
    blank_symbol: Symbol,
    /// The symbols from the home position moving to the right; the home
    /// position is at index 0
    right_symbols: Vec<Symbol>,
    /// The symbols to the left of the home position, not including it; index
    /// 0 is the symbol immediately to the left of the home position, and each
    /// next element is one cell further to the left
    left_symbols: Vec<Symbol>,
    /// The position of the head; must always be within the materialized cells
    head_pos: isize,
}

impl Tape {
    /// The symbol the representation stores for position `pos`: a position
    /// `pos >= 0` maps to the right vector at index `pos`, a position
    /// `pos < 0` maps to the left vector at index `-pos - 1`, and positions
    /// beyond the materialized cells carry the blank symbol.
    spec fn rep_at(self, pos: int) -> Symbol {
        if pos >= 0 {
            if pos < self.right_symbols@.len() {
                self.right_symbols@[pos]
            } else {
                self.blank_symbol
            }
        } else {
            if -pos - 1 < self.left_symbols@.len() {
                self.left_symbols@[-pos - 1]
            } else {
                self.blank_symbol
            }
        }
    }

    /// Well-formedness: the home cell is materialized, the materialized cells
    /// are addressable through `isize` indices, and the head is within them,
    /// so reading and writing at the head never indexes out of bounds.
    pub closed spec fn wf(self) -> bool {
        &&& 1 <= self.right_symbols@.len() <= isize::MAX as int
        &&& self.left_symbols@.len() <= isize::MAX as int
        &&& if self.head_pos >= 0 {
            self.head_pos < self.right_symbols@.len()
        } else {
            -(self.head_pos as int) - 1 < self.left_symbols@.len()
        }
    }

    /// Constructs a new Tape from caller-supplied initial content.
    /// `right_symbols` holds the symbols at positions 0, 1, 2, ... (home
    /// position first) and `left_symbols` the symbols at positions -1, -2, ...
    /// (nearest to home first); every other position carries `blank_symbol`.
    /// If `right_symbols` is empty, a single blank cell is inserted so the
    /// home position is always addressable. The head starts at position 0.
    pub fn new(blank_symbol: Symbol, right_symbols: Vec<Symbol>, left_symbols: Vec<Symbol>) -> (
        tape: Tape)
        requires
            right_symbols@.len() <= isize::MAX as int,
            left_symbols@.len() <= isize::MAX as int,
        ensures
            tape.wf(),
            tape@.blank == blank_symbol,
            tape@.head == 0,
            forall|pos: int|
                tape@.contents[pos] == (if 0 <= pos < right_symbols@.len() {
                    right_symbols@[pos]
                } else if -left_symbols@.len() <= pos < 0 {
                    left_symbols@[-pos - 1]
                } else {
                    blank_symbol
                }),
    {
        let mut right_symbols = right_symbols;

        // Ensure the home position (where the head starts) is in-bounds
        if right_symbols.len() == 0 {
            right_symbols.push(blank_symbol);
        }

        Tape { blank_symbol, right_symbols, left_symbols, head_pos: 0 }
    }

    /// Reads the symbol at the head's current position on the tape
    pub fn read(&self) -> (symbol: Symbol)
        requires
            self.wf(),
        ensures
            symbol == self@.read_head(),
    {
        if self.head_pos < 0 {
            self.left_symbols[(-self.head_pos - 1) as usize]
        } else {
            self.right_symbols[self.head_pos as usize]
        }
    }

    /// Writes a symbol at the head's current position on the tape
    pub fn write(&mut self, symbol: Symbol)
        requires
            old(self).wf(),
        ensures
            final(self).wf(),
            final(self)@ == old(self)@.written(symbol),
    {
        if self.head_pos < 0 {
            let index = (-self.head_pos - 1) as usize;
            self.left_symbols.set(index, symbol);
        } else {
            self.right_symbols.set(self.head_pos as usize, symbol);
        }
        proof {
            assert(self@.contents =~= old(self)@.contents.insert(old(self)@.head, symbol));
            assert(self@ =~= old(self)@.written(symbol));
        }
    }

    /// Moves the head's current position on the tape. Left decrements the
    /// head position, Right increments it, Stay is a no-op. Whenever the head
    /// would step outside the materialized cells, one additional blank cell is
    /// pushed onto the corresponding vector first, so reads and writes at the
    /// new head position stay in-bounds. The bounds on the head position only
    /// keep the materialized cells addressable through `isize` indices; memory
    /// would be exhausted long before they are reached.
    pub fn make_movement(&mut self, movement: Movement)
        requires
            old(self).wf(),
            movement is Left ==> isize::MIN + 1 < old(self)@.head,
            movement is Right ==> old(self)@.head < isize::MAX - 1,
        ensures
            final(self).wf(),
            final(self)@ == old(self)@.moved(movement),
    {
        match movement {
            Movement::Left => {
                if self.head_pos - 1 < -(self.left_symbols.len() as isize) {
                    self.left_symbols.push(self.blank_symbol);
                }
                self.head_pos = self.head_pos - 1;
            },
            Movement::Right => {
                if self.head_pos + 1 >= self.right_symbols.len() as isize {
                    self.right_symbols.push(self.blank_symbol);
                }
                self.head_pos = self.head_pos + 1;
            },
            Movement::Stay => {
                // Nothing to do here
            },
        }
        proof {
            assert(self@.contents =~= old(self)@.contents);
            assert(self@ =~= old(self)@.moved(movement));
        }
    }

    /// Reads the symbol at an arbitrary absolute position without disturbing
    /// the head; positions beyond the materialized cells read as the blank
    /// symbol. Intended for read-only inspection, such as building a
    /// visualization of the tape.
    pub fn read_pos(&self, pos: isize) -> (symbol: Symbol)
        ensures
            symbol == self@.contents[pos as int],
    {
        if pos < 0 {
            let index = (-(pos + 1)) as usize;
            if index < self.left_symbols.len() {
                self.left_symbols[index]
            } else {
                self.blank_symbol
            }
        } else {
            let index = pos as usize;
            if index < self.right_symbols.len() {
                self.right_symbols[index]
            } else {
                self.blank_symbol
            }
        }
    }

    /// Returns the head's current position on the tape
    pub fn head_pos(&self) -> (pos: isize)
        ensures
            pos == self@.head,
    {
        self.head_pos
    }
}

impl View for Tape {
    type V = TapeView;

    closed spec fn view(&self) -> TapeView {
        TapeView {
            blank: self.blank_symbol,
            contents: Map::new(|pos: int| true, |pos: int| self.rep_at(pos)),
            head: self.head_pos as int,
        }
    }
}

} // verus!
