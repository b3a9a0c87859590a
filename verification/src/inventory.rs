//! Building the full ordered list of entries for a run.
//!
//! The caller enumerates the dot directory and probes each name's home path;
//! each raw entry arrives as the name with its probe, or as the record of a
//! failed directory read. The inventory classifies every readable entry and
//! keeps a placeholder for every unreadable one, in enumeration order.

use vstd::prelude::*;
use crate::classify::{classify, classify_spec};
use crate::dotfile::Dot;
use crate::ignore::IgnoreSet;
use crate::state::{Probe, State};

verus! {

/// One raw directory entry, as the caller's enumeration reported it.
#[derive(Debug)]
pub enum RawEntry {
    /// A readable entry: its base file name, and what the non-following
    /// probe of its home path found.
    Read { file: String, probe: Probe },
    /// The directory read itself failed for this entry.
    Unreadable,
}

/// The entry the inventory records for one raw directory entry: a classified
/// entry for a readable one, a placeholder in state `Error` for an
/// unreadable one.
pub open spec fn entry_spec(
    from_dir: String,
    to_dir: String,
    ignores: Set<Seq<char>>,
    raw: RawEntry,
) -> Dot {
    match raw {
        RawEntry::Read { file, probe } => Dot {
            from: Some(from_dir),
            to: Some(to_dir),
            file: Some(file),
            state: classify_spec(file@, to_dir@, ignores, probe),
        },
        RawEntry::Unreadable => Dot { from: None, to: None, file: None, state: State::Error },
    }
}

/// Classifies every raw entry, in enumeration order: one entry out for every
/// entry in, unreadable ones kept as placeholders.
pub fn build_inventory(
    from_dir: &String,
    to_dir: &String,
    ignores: &IgnoreSet,
    entries: Vec<RawEntry>,
) -> (dots: Vec<Dot>)
    ensures
        dots@.len() == entries@.len(),
        forall|i: int|
            0 <= i < entries@.len() ==> dots@[i] == entry_spec(
                *from_dir,
                *to_dir,
                ignores@,
                entries@[i],
            ),
{
    let mut dots: Vec<Dot> = Vec::new();
    let mut i: usize = 0;
    while i < entries.len()
        invariant
            i <= entries.len(),
            dots@.len() == i,
            forall|j: int|
                0 <= j < i ==> dots@[j] == entry_spec(*from_dir, *to_dir, ignores@, entries@[j]),
        decreases entries.len() - i,
    {
        let dot = match &entries[i] {
            RawEntry::Read { file, probe } => {
                let state = classify(file, to_dir, ignores, probe);
                Dot {
                    from: Some(from_dir.clone()),
                    to: Some(to_dir.clone()),
                    file: Some(file.clone()),
                    state,
                }
            },
            RawEntry::Unreadable => Dot {
                from: None,
                to: None,
                file: None,
                state: State::Error,
            },
        };
        assert(dot == entry_spec(*from_dir, *to_dir, ignores@, entries@[i as int]));
        dots.push(dot);
        i = i + 1;
    }
    dots
}

/// The entries of `entries` whose state is `state`, in order.
pub open spec fn with_state(entries: Seq<Dot>, state: State) -> Seq<Dot>
    decreases entries.len(),
{
    if entries.len() == 0 {
        Seq::empty()
    } else if entries.last().state == state {
        with_state(entries.drop_last(), state).push(entries.last())
    } else {
        with_state(entries.drop_last(), state)
    }
}

/// Copies out the entries in the given state, keeping their order: the
/// candidates a link run offers are the `Unlinked` ones, an unlink run the
/// `Linked` ones.
pub fn filter_by_state(entries: &Vec<Dot>, state: State) -> (r: Vec<Dot>)
    ensures
        r@ == with_state(entries@, state),
{
    let mut r: Vec<Dot> = Vec::new();
    let mut i: usize = 0;
    proof {
        assert(entries@.subrange(0, 0) =~= Seq::<Dot>::empty());
    }
    while i < entries.len()
        invariant
            i <= entries.len(),
            r@ == with_state(entries@.subrange(0, i as int), state),
        decreases entries.len() - i,
    {
        let ghost prefix = entries@.subrange(0, i as int);
        let e = &entries[i];
        if e.state == state {
            let dot = e.clone();
            r.push(dot);
        }
        i = i + 1;
        proof {
            let next = entries@.subrange(0, i as int);
            assert(next.drop_last() =~= prefix);
            assert(next.last() == entries@[i - 1]);
        }
    }
    proof {
        assert(entries@.subrange(0, entries@.len() as int) =~= entries@);
    }
    r
}

} // verus!
