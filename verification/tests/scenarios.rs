//! End-to-end runs of a schematic that decides whether the count of leading
//! marks to the right of the home position is at most the count of marks to
//! its left.
//!
//! The machine pairs marks off from the outside in: it first replaces the home
//! cell with a marker `H` (counting a mark found there as one right mark and
//! paying for it by erasing one left mark), then repeatedly erases the
//! outermost remaining right mark followed by the outermost remaining left
//! mark. If the right side runs out first (or together with the left), the
//! right count was at most the left count: Accept. If the left side runs out
//! while a right mark was just erased, the right count was larger: Reject.

use turing::state_symbol_movement::{Movement, State, Symbol};
use turing::tape::Tape;
use turing::transition::Transition;
use turing::turing_machine::{HaltKind, TuringMachine, TuringMachineSchematic};

fn sym(c: char) -> Symbol {
    Symbol::new(c)
}

fn state(c: char) -> State {
    State::new(c)
}

fn entry(
    from_state: char,
    from_symbol: char,
    write: char,
    movement: Movement,
    next: char,
) -> ((State, Symbol), Transition) {
    (
        (state(from_state), sym(from_symbol)),
        Transition::NonHalting {
            symbol_to_write: sym(write),
            new_state: state(next),
            movement,
        },
    )
}

fn halt(from_state: char, from_symbol: char, kind: HaltKind) -> ((State, Symbol), Transition) {
    ((state(from_state), sym(from_symbol)), Transition::Halting(kind))
}

/// The schematic deciding "count of leading right marks <= count of left
/// marks" over mark 'x' and blank '_'. States:
/// - 's': at home, start; mark the home cell with 'H'
/// - 'a': just right of home, looking for any remaining right mark
/// - 'b': inside the block of right marks, moving to its outer end
/// - 'c': on the outermost right mark, erasing it
/// - 'd': travelling left over right marks back to the home marker
/// - 'f': just left of home, looking for any remaining left mark
/// - 'g': inside the block of left marks, moving to its outer end
/// - 'h': on the outermost left mark, erasing it
/// - 'i': travelling right over left marks back to the home marker
fn comparison_schematic() -> TuringMachineSchematic {
    let entries = vec![
        entry('s', '_', 'H', Movement::Right, 'a'),
        entry('s', 'x', 'H', Movement::Left, 'f'),
        halt('a', '_', HaltKind::Accept),
        entry('a', 'x', 'x', Movement::Right, 'b'),
        entry('b', 'x', 'x', Movement::Right, 'b'),
        entry('b', '_', '_', Movement::Left, 'c'),
        entry('c', 'x', '_', Movement::Left, 'd'),
        entry('d', 'x', 'x', Movement::Left, 'd'),
        entry('d', 'H', 'H', Movement::Left, 'f'),
        halt('f', '_', HaltKind::Reject),
        entry('f', 'x', 'x', Movement::Left, 'g'),
        entry('g', 'x', 'x', Movement::Left, 'g'),
        entry('g', '_', '_', Movement::Right, 'h'),
        entry('h', 'x', '_', Movement::Right, 'i'),
        entry('i', 'x', 'x', Movement::Right, 'i'),
        entry('i', 'H', 'H', Movement::Right, 'a'),
    ];
    TuringMachineSchematic::new(state('s'), sym('_'), entries)
}

fn run_to_halt(machine: &mut TuringMachine) -> HaltKind {
    let mut steps: usize = 0;
    while !machine.halted() {
        machine.step();
        steps += 1;
        assert!(steps < 10_000, "machine failed to halt");
    }
    machine.halt_kind().unwrap()
}

fn marks(count: usize) -> Vec<Symbol> {
    std::iter::repeat(sym('x')).take(count).collect()
}

#[test]
fn three_right_marks_against_seven_left_marks_accepts() {
    // Right side: blank home cell followed by 3 marks; left side: 7 marks.
    // 3 <= 7, so the machine accepts.
    let schematic = comparison_schematic();
    let mut right = vec![sym('_')];
    right.extend(marks(3));
    let tape = Tape::new(schematic.blank_symbol(), right, marks(7));
    let mut machine = TuringMachine::new(&schematic, tape);
    assert_eq!(run_to_halt(&mut machine), HaltKind::Accept);
}

#[test]
fn seven_right_marks_against_three_left_marks_rejects() {
    // The same schematic with the counts reversed: 7 marks on the right
    // (starting at the home cell), 3 on the left. 7 <= 3 fails: Reject.
    let schematic = comparison_schematic();
    let tape = Tape::new(schematic.blank_symbol(), marks(7), marks(3));
    let mut machine = TuringMachine::new(&schematic, tape);
    assert_eq!(run_to_halt(&mut machine), HaltKind::Reject);
}

#[test]
fn equal_counts_accept() {
    let schematic = comparison_schematic();
    let mut right = vec![sym('_')];
    right.extend(marks(4));
    let tape = Tape::new(schematic.blank_symbol(), right, marks(4));
    let mut machine = TuringMachine::new(&schematic, tape);
    assert_eq!(run_to_halt(&mut machine), HaltKind::Accept);
}

#[test]
fn no_right_marks_accept() {
    let schematic = comparison_schematic();
    let tape = Tape::new(schematic.blank_symbol(), Vec::new(), marks(2));
    let mut machine = TuringMachine::new(&schematic, tape);
    assert_eq!(run_to_halt(&mut machine), HaltKind::Accept);
}

#[test]
fn one_right_mark_and_no_left_marks_rejects() {
    let schematic = comparison_schematic();
    let mut right = vec![sym('_')];
    right.extend(marks(1));
    let tape = Tape::new(schematic.blank_symbol(), right, Vec::new());
    let mut machine = TuringMachine::new(&schematic, tape);
    assert_eq!(run_to_halt(&mut machine), HaltKind::Reject);
}
