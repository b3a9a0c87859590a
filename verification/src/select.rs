//! Applying the selector's answer to the candidate entries.
//!
//! The interactive picker is an external collaborator: it is shown the
//! candidate names and returns a subset of those strings. Only the exact
//! names of candidates count — a returned string that names no candidate
//! selects nothing.

use vstd::prelude::*;
use crate::dotfile::{file_name_spec, Dot};

verus! {

/// The entries of `entries` whose file name is among `chosen`, in order.
pub open spec fn selected_of(entries: Seq<Dot>, chosen: Set<Seq<char>>) -> Seq<Dot>
    decreases entries.len(),
{
    if entries.len() == 0 {
        Seq::empty()
    } else if chosen.contains(file_name_spec(entries.last())) {
        selected_of(entries.drop_last(), chosen).push(entries.last())
    } else {
        selected_of(entries.drop_last(), chosen)
    }
}

/// The names the selector is shown: one per candidate entry, in order.
pub fn candidate_names(entries: &Vec<Dot>) -> (names: Vec<String>)
    ensures
        names.deep_view().len() == entries@.len(),
        forall|i: int|
            0 <= i < entries@.len() ==> names.deep_view()[i] == file_name_spec(entries@[i]),
{
    let mut names: Vec<String> = Vec::new();
    let mut i: usize = 0;
    while i < entries.len()
        invariant
            i <= entries.len(),
            names.deep_view().len() == i,
            forall|j: int| 0 <= j < i ==> names.deep_view()[j] == file_name_spec(entries@[j]),
        decreases entries.len() - i,
    {
        let ghost before = names.deep_view();
        let name = entries[i].file_name();
        let ghost added = name@;
        names.push(name);
        i = i + 1;
        proof {
            assert(names.deep_view() =~= before.push(added));
        }
    }
    names
}

/// Whether `name` equals one of `names`.
fn name_in(names: &Vec<String>, name: &String) -> (b: bool)
    ensures
        b == names.deep_view().contains(name@),
{
    let mut i: usize = 0;
    while i < names.len()
        invariant
            i <= names.len(),
            forall|j: int| 0 <= j < i ==> names.deep_view()[j] != name@,
        decreases names.len() - i,
    {
        if names[i] == *name {
            assert(names.deep_view()[i as int] == name@);
            return true;
        }
        i = i + 1;
    }
    assert(!names.deep_view().contains(name@));
    false
}

/// Copies out the entries whose file name the selector chose, keeping their
/// order. A chosen string that is no candidate's name selects nothing.
pub fn select_by_names(entries: &Vec<Dot>, chosen: &Vec<String>) -> (r: Vec<Dot>)
    ensures
        r@ == selected_of(entries@, chosen.deep_view().to_set()),
{
    let ghost chosen_set = chosen.deep_view().to_set();
    let mut r: Vec<Dot> = Vec::new();
    let mut i: usize = 0;
    proof {
        assert(entries@.subrange(0, 0) =~= Seq::<Dot>::empty());
    }
    while i < entries.len()
        invariant
            i <= entries.len(),
            chosen_set == chosen.deep_view().to_set(),
            r@ == selected_of(entries@.subrange(0, i as int), chosen_set),
        decreases entries.len() - i,
    {
        let ghost prefix = entries@.subrange(0, i as int);
        let e = &entries[i];
        let name = e.file_name();
        if name_in(chosen, &name) {
            let dot = e.clone();
            r.push(dot);
        }
        i = i + 1;
        proof {
            let next = entries@.subrange(0, i as int);
            assert(next.drop_last() =~= prefix);
            assert(next.last() == entries@[i - 1]);
        }
    }
    proof {
        assert(entries@.subrange(0, entries@.len() as int) =~= entries@);
    }
    r
}

} // verus!
