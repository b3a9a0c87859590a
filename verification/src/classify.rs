//! Classification of one candidate file name against the home directory.
//!
//! The decision is made from values alone: the name, the canonical dot
//! directory, the ignore set, and what a non-following symlink probe of the
//! home path found. Ignore status always wins; a failed link read — the path
//! absent, or occupied by something that is no symlink — counts as unlinked;
//! a symlink is compared by exact path equality against the file's dot-side
//! path.

use vstd::prelude::*;
use crate::ignore::IgnoreSet;
use crate::path::{join_path, join_spec};
use crate::state::{Probe, State};

verus! {

/// The state of the name `file` given the probe of its home path: `Ignored`
/// when the name is in `ignores`, before any link evidence counts; otherwise
/// `Linked` exactly when the probe found a symlink storing the file's
/// dot-side path, `LinkedElsewhere` for a symlink storing any other path, and
/// `Unlinked` when no symlink is there.
pub open spec fn classify_spec(
    file: Seq<char>,
    to_dir: Seq<char>,
    ignores: Set<Seq<char>>,
    probe: Probe,
) -> State {
    if ignores.contains(file) {
        State::Ignored
    } else {
        match probe {
            Probe::Symlink(t) => if t@ == join_spec(to_dir, file) {
                State::Linked
            } else {
                State::LinkedElsewhere
            },
            Probe::Occupied => State::Unlinked,
            Probe::Absent => State::Unlinked,
        }
    }
}

/// Classifies the name `file`, whose symlink would live at `from_dir/file`
/// and point at `to_dir/file`, from the probe of the home path. Read-only:
/// the decision is a function of its arguments alone.
pub fn classify(file: &String, to_dir: &String, ignores: &IgnoreSet, probe: &Probe) -> (s: State)
    ensures
        s == classify_spec(file@, to_dir@, ignores@, *probe),
{
    if ignores.contains(file) {
        return State::Ignored;
    }
    match probe {
        Probe::Symlink(t) => {
            let full_to = join_path(to_dir, file);
            if *t == full_to {
                State::Linked
            } else {
                State::LinkedElsewhere
            }
        },
        Probe::Occupied => State::Unlinked,
        Probe::Absent => State::Unlinked,
    }
}

/// Two probes that found the same thing: both symlinks storing equal target
/// paths, or both the same kind of non-symlink outcome.
pub open spec fn probe_equiv(a: Probe, b: Probe) -> bool {
    match (a, b) {
        (Probe::Symlink(t1), Probe::Symlink(t2)) => t1@ == t2@,
        (Probe::Occupied, Probe::Occupied) => true,
        (Probe::Absent, Probe::Absent) => true,
        _ => false,
    }
}

/// Classification is idempotent: classifying the same name twice over an
/// unchanged filesystem — two probes that found the same thing — yields the
/// same state.
pub proof fn lemma_classify_idempotent(
    file: String,
    to_dir: String,
    ignores: Set<Seq<char>>,
    first: Probe,
    second: Probe,
)
    requires
        probe_equiv(first, second),
    ensures
        classify_spec(file@, to_dir@, ignores, first) == classify_spec(
            file@,
            to_dir@,
            ignores,
            second,
        ),
{
}

/// Ignore status always wins: a name in the ignore set classifies as
/// `Ignored` whatever the probe found — a correct symlink, a foreign one, or
/// nothing at all.
pub proof fn lemma_ignore_precedence(
    file: String,
    to_dir: String,
    ignores: Set<Seq<char>>,
    probe: Probe,
)
    requires
        ignores.contains(file@),
    ensures
        classify_spec(file@, to_dir@, ignores, probe) == State::Ignored,
{
}

/// A divergent link is detected: a symlink whose stored target is anything
/// other than the file's dot-side path classifies as `LinkedElsewhere`,
/// never `Linked` or `Unlinked`.
pub proof fn lemma_divergent_link(
    file: String,
    to_dir: String,
    ignores: Set<Seq<char>>,
    target: String,
)
    requires
        !ignores.contains(file@),
        target@ != join_spec(to_dir@, file@),
    ensures
        classify_spec(file@, to_dir@, ignores, Probe::Symlink(target))
            == State::LinkedElsewhere,
{
}

} // verus!
