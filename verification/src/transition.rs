//! Transitions of a Turing machine, and the model of a transition table.
//!
//! A transition table is supplied as a sequence of `((state, symbol),
//! transition)` entries with pairwise distinct keys; its mathematical content
//! is the finite map [`table_map`] from keys to transitions.

use vstd::prelude::*;

use crate::state_symbol_movement::{Movement, State, Symbol};
use crate::turing_machine::HaltKind;

verus! {

/// A transition for a turing machine
#[derive(Debug, Clone, Copy)]
pub enum Transition {
    NonHalting {
        /// The symbol to write at the head's current position, before moving
        symbol_to_write: Symbol,
        /// The new state to enter
        new_state: State,
        /// The movement to make
        movement: Movement,
    },
    Halting(HaltKind),
}

/// The map from (state, symbol) keys to transitions that a sequence of table
/// entries describes; a later entry for a key would win over an earlier one,
/// but the tables used here have pairwise distinct keys.
pub open spec fn table_map(entries: Seq<((State, Symbol), Transition)>) -> Map<
    (State, Symbol),
    Transition,
>
    decreases entries.len(),
{
    if entries.len() == 0 {
        Map::empty()
    } else {
        table_map(entries.drop_last()).insert(entries.last().0, entries.last().1)
    }
}

/// No two entries share the same (state, symbol) key.
pub open spec fn entries_unique(entries: Seq<((State, Symbol), Transition)>) -> bool {
    forall|i: int, j: int|
        0 <= i < j < entries.len() ==> (#[trigger] entries[i]).0 != (#[trigger] entries[j]).0
}

/// Every entry of a table with pairwise distinct keys is found in its map.
pub proof fn lemma_table_map_entry(entries: Seq<((State, Symbol), Transition)>, i: int)
    requires
        entries_unique(entries),
        0 <= i < entries.len(),
    ensures
        table_map(entries).contains_key(entries[i].0),
        table_map(entries)[entries[i].0] == entries[i].1,
    decreases entries.len(),
{
    if i < entries.len() - 1 {
        assert(entries.drop_last()[i] == entries[i]);
        lemma_table_map_entry(entries.drop_last(), i);
    }
}

/// A key that occurs in no entry is absent from the table's map.
pub proof fn lemma_table_map_missing(
    entries: Seq<((State, Symbol), Transition)>,
    key: (State, Symbol),
)
    requires
        forall|i: int| 0 <= i < entries.len() ==> (#[trigger] entries[i]).0 != key,
    ensures
        !table_map(entries).contains_key(key),
    decreases entries.len(),
{
    if entries.len() > 0 {
        lemma_table_map_missing(entries.drop_last(), key);
    }
}

/// Looks up the transition for the given (state, symbol) key in a table with
/// pairwise distinct keys, or returns None if the table has no entry for it.
pub fn lookup_transition(
    entries: &Vec<((State, Symbol), Transition)>,
    state: State,
    symbol: Symbol,
) -> (transition: Option<Transition>)
    requires
        entries_unique(entries@),
    ensures
        match transition {
            Some(t) => table_map(entries@).contains_key((state, symbol)) && table_map(entries@)[(
                state,
                symbol,
            )] == t,
            None => !table_map(entries@).contains_key((state, symbol)),
        },
{
    let mut i: usize = 0;
    while i < entries.len()
        invariant
            entries_unique(entries@),
            i <= entries@.len(),
            forall|j: int| 0 <= j < i ==> (#[trigger] entries@[j]).0 != (state, symbol),
        decreases entries@.len() - i,
    {
        let entry = entries[i];
        if entry.0.0 == state && entry.0.1 == symbol {
            proof {
                lemma_table_map_entry(entries@, i as int);
            }
            return Some(entry.1);
        }
        i = i + 1;
    }
    proof {
        lemma_table_map_missing(entries@, (state, symbol));
    }
    None
}

} // verus!
