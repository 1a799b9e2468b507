//! The execution engine of a Turing machine: an immutable schematic (initial
//! state, blank symbol, transition table) and the machine instances built from
//! it, which drive single steps of computation and report halting.

use std::rc::Rc;

use vstd::prelude::*;

use crate::state_symbol_movement::{State, Symbol};
use crate::tape::{Tape, TapeView};
use crate::transition::{
    entries_unique, lookup_transition, table_map, Transition,
};

verus! {

/// The kind of halt (either accepted or rejected)
#[derive(Debug, Clone, Copy, PartialEq, Eq, Structural)]
pub enum HaltKind {
    Accept,
    Reject,
}

/// The mathematical model of a schematic: the designated initial control
/// state, the blank symbol, and the transition table as a map.
#[verifier::ext_equal]
pub ghost struct SchematicView {
    /// The control state every machine built from this schematic starts in
    pub initial_state: State,
    /// The symbol that fills every tape cell not explicitly written
    pub blank_symbol: Symbol,
    /// The transition for each (state, symbol) pair that has one
    pub table: Map<(State, Symbol), Transition>,
}

/// The immutable description of a Turing machine program: initial state,
/// blank symbol, and transition table. Built once and shared read-only by
/// every machine instantiated from it, so several independent machines can
/// run from one description without copying the table.
#[derive(Debug, Clone)]
pub struct TuringMachineSchematic {
    initial_state: State,
    blank_symbol: Symbol,
    transitions: Rc<Vec<((State, Symbol), Transition)>>,
}

impl View for TuringMachineSchematic {
    type V = SchematicView;

    closed spec fn view(&self) -> SchematicView {
        SchematicView {
            initial_state: self.initial_state,
            blank_symbol: self.blank_symbol,
            table: table_map(self.transitions@),
        }
    }
}

impl TuringMachineSchematic {
    /// Well-formedness: the transition table has exactly one entry per
    /// (state, symbol) key it covers.
    pub closed spec fn wf(self) -> bool {
        entries_unique(self.transitions@)
    }

    /// Constructs a new TuringMachineSchematic. No two entries may share the
    /// same (state, symbol) key: a duplicate definition is a mistake of the
    /// caller (for parsed programs, a parse-time error), so a constructed
    /// schematic always holds an unambiguous table.
    pub fn new(
        initial_state: State,
        blank_symbol: Symbol,
        transitions: Vec<((State, Symbol), Transition)>,
    ) -> (schematic: TuringMachineSchematic)
        requires
            entries_unique(transitions@),
        ensures
            schematic.wf(),
            schematic@.initial_state == initial_state,
            schematic@.blank_symbol == blank_symbol,
            schematic@.table == table_map(transitions@),
    {
        TuringMachineSchematic { initial_state, blank_symbol, transitions: Rc::new(transitions) }
    }

    /// Gets the blank symbol for this turing machine schematic
    pub fn blank_symbol(&self) -> (symbol: Symbol)
        ensures
            symbol == self@.blank_symbol,
    {
        self.blank_symbol
    }
}

/// The mathematical model of a running machine: its control state, its tape,
/// the shared transition table, and the verdict once it has halted.
#[verifier::ext_equal]
pub ghost struct MachineView {
    /// The current control state
    pub state: State,
    /// The model of the machine's tape
    pub tape: TapeView,
    /// The transition table shared with the machine's schematic
    pub table: Map<(State, Symbol), Transition>,
    /// The verdict, or None while the machine is still running
    pub halt_kind: Option<HaltKind>,
}

impl MachineView {
    /// Whether the machine has halted.
    pub open spec fn halted(self) -> bool {
        self.halt_kind is Some
    }

    /// One step of computation at the model level. A halted machine is left
    /// unchanged. Otherwise the transition for (current state, symbol under
    /// the head) is applied: a non-halting transition writes its symbol, then
    /// moves the head, then enters its new state; a halting transition records
    /// the verdict and touches nothing else; and a missing transition halts
    /// the machine with `Reject`, exactly as if `Halting(Reject)` were
    /// defined for that pair.
    pub open spec fn stepped(self) -> MachineView {
        if self.halted() {
            self
        } else {
            let key = (self.state, self.tape.read_head());
            if self.table.contains_key(key) {
                match self.table[key] {
                    Transition::NonHalting { symbol_to_write, new_state, movement } => MachineView {
                        state: new_state,
                        tape: self.tape.written(symbol_to_write).moved(movement),
                        ..self
                    },
                    Transition::Halting(halt_kind) => MachineView {
                        halt_kind: Some(halt_kind),
                        ..self
                    },
                }
            } else {
                MachineView { halt_kind: Some(HaltKind::Reject), ..self }
            }
        }
    }
}

/// The machine after `n` steps of computation.
pub open spec fn stepped_n(m: MachineView, n: nat) -> MachineView
    decreases n,
{
    if n == 0 {
        m
    } else {
        stepped_n(m, (n - 1) as nat).stepped()
    }
}

/// Stepping a halted machine changes nothing: once `halted()` is true, one
/// more step leaves the state, the verdict, and the tape exactly as they are.
pub proof fn lemma_step_after_halt_is_noop(m: MachineView)
    requires
        m.halted(),
    ensures
        m.stepped() == m,
{
}

/// Once halted, a machine is frozen: any number of further steps changes
/// nothing.
pub proof fn lemma_halted_machine_is_frozen(m: MachineView, n: nat)
    requires
        m.halted(),
    ensures
        stepped_n(m, n) == m,
    decreases n,
{
    if n > 0 {
        lemma_halted_machine_is_frozen(m, (n - 1) as nat);
    }
}

/// Implicit reject: a running machine whose table has no transition for
/// (current state, symbol under the head) halts with `Reject` on the next
/// step, with the tape and the control state unchanged from just before it.
pub proof fn lemma_missing_transition_rejects(m: MachineView)
    requires
        !m.halted(),
        !m.table.contains_key((m.state, m.tape.read_head())),
    ensures
        m.stepped().halt_kind == Some(HaltKind::Reject),
        m.stepped().tape == m.tape,
        m.stepped().state == m.state,
{
}

/// A Turing machine in execution: it owns its control state and its tape,
/// shares the transition table of the schematic it was built from, and keeps
/// the verdict once a halting transition has been taken.
#[derive(Debug, Clone)]
pub struct TuringMachine {
    state: State,
    tape: Tape,
    transitions: Rc<Vec<((State, Symbol), Transition)>>,
    halt_kind: Option<HaltKind>,
}

impl View for TuringMachine {
    type V = MachineView;

    closed spec fn view(&self) -> MachineView {
        MachineView {
            state: self.state,
            tape: self.tape@,
            table: table_map(self.transitions@),
            halt_kind: self.halt_kind,
        }
    }
}

impl TuringMachine {
    /// Well-formedness: the tape is well-formed and the shared table has
    /// exactly one entry per key.
    pub closed spec fn wf(self) -> bool {
        &&& self.tape.wf()
        &&& entries_unique(self.transitions@)
    }

    /// Constructs a new TuringMachine from a schematic and an initial tape.
    /// The machine starts running (not halted) in the schematic's initial
    /// state, sharing the schematic's transition table.
    pub fn new(schematic: &TuringMachineSchematic, tape: Tape) -> (machine: TuringMachine)
        requires
            schematic.wf(),
            tape.wf(),
        ensures
            machine.wf(),
            machine@.state == schematic@.initial_state,
            machine@.tape == tape@,
            machine@.table == schematic@.table,
            machine@.halt_kind is None,
    {
        TuringMachine {
            state: schematic.initial_state,
            tape,
            transitions: Rc::clone(&schematic.transitions),
            halt_kind: None,
        }
    }

    /// Performs a single step of computation, as [`MachineView::stepped`]
    /// describes: a no-op once halted; otherwise the symbol at the head is
    /// read and the transition for the current state and that symbol is
    /// performed, a missing transition halting the machine with `Reject`.
    /// The bounds on the head position only keep the tape's cells addressable
    /// through `isize` indices; memory would be exhausted long before the
    /// head could reach them.
    pub fn step(&mut self)
        requires
            old(self).wf(),
            !old(self)@.halted() ==> isize::MIN + 1 < old(self)@.tape.head < isize::MAX - 1,
        ensures
            final(self).wf(),
            final(self)@ == old(self)@.stepped(),
    {
        if self.halted() {
            return ;
        }
        let symbol = self.tape.read();
        let transition = lookup_transition(&self.transitions, self.state, symbol);

        match transition {
            Some(Transition::NonHalting { symbol_to_write, new_state, movement }) => {
                self.tape.write(symbol_to_write);
                self.tape.make_movement(movement);
                self.state = new_state;
            },
            Some(Transition::Halting(halt_kind)) => {
                self.halt_kind = Some(halt_kind);
            },
            None => {
                self.halt_kind = Some(HaltKind::Reject);
            },
        }
        proof {
            assert(self@ =~= old(self)@.stepped());
        }
    }

    /// Returns true iff the turing machine has halted
    pub fn halted(&self) -> (halted: bool)
        ensures
            halted == self@.halted(),
    {
        self.halt_kind.is_some()
    }

    /// Returns the halt kind (accepted or rejected), or None if the turing
    /// machine hasn't halted
    pub fn halt_kind(&self) -> (halt_kind: Option<HaltKind>)
        ensures
            halt_kind == self@.halt_kind,
    {
        self.halt_kind
    }

    /// Returns the machine's current control state
    pub fn current_state(&self) -> (state: State)
        ensures
            state == self@.state,
    {
        self.state
    }

    /// Gives read-only access to the machine's tape, for inspection such as
    /// building a visualization
    pub fn tape(&self) -> (tape: &Tape)
        ensures
            tape@ == self@.tape,
    {
        &self.tape
    }
}

} // verus!
