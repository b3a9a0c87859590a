//! Deciding the link and unlink operations.
//!
//! Classification and reconciliation are separated in time, and the
//! filesystem is shared: another process may have changed the home path in
//! between. Each operation therefore re-validates its precondition against a
//! fresh probe of the path, handed in by the caller, instead of trusting the
//! stale classification. A decision that succeeds is returned as a request —
//! the exact paths to act on — which the caller performs; a decision that
//! fails carries the per-entry error and requests nothing, so a failure can
//! never touch the filesystem. Batches decide every entry: one entry's
//! failure never keeps the rest from being attempted.

use vstd::prelude::*;
use crate::classify::classify_spec;
use crate::dotfile::{Dot, EntryError};
use crate::path::join_spec;
use crate::state::{Probe, State};

verus! {

/// Why one entry could not be linked.
#[derive(Clone, Copy, Debug, PartialEq, Eq, Structural)]
pub enum LinkError {
    /// The entry carries no file name.
    MissingFile,
    /// The entry lacks the home or the dot directory.
    MissingPath,
    /// Something already exists at the home path — a race since
    /// classification.
    AlreadyExists,
    /// The symlink syscall itself failed; reported by the caller that
    /// performed the request.
    IOError,
}

/// Why one entry could not be unlinked.
#[derive(Clone, Copy, Debug, PartialEq, Eq, Structural)]
pub enum UnlinkError {
    /// The entry carries no file name.
    MissingFile,
    /// The entry lacks the home directory.
    MissingPath,
    /// The home path is occupied by something that is no symlink; it is left
    /// untouched.
    NotASymlink,
    /// Nothing exists at the home path.
    NotFound,
    /// The removal syscall itself failed; reported by the caller that
    /// performed the request.
    IOError,
}

/// A link operation the caller is asked to perform: create a symlink at
/// `path` whose stored target is `target`.
#[derive(Debug, PartialEq, Eq)]
pub struct LinkRequest {
    /// The home-side path where the symlink is created.
    pub path: String,
    /// The dot-side path the symlink stores.
    pub target: String,
}

/// Whether linking `entry` is allowed given the fresh probe `node` of its
/// home path, and the error when it is not: a link needs the entry's name and
/// both directories, and a home path where nothing exists yet.
pub open spec fn link_check(entry: Dot, node: Probe) -> Result<(), LinkError> {
    if entry.file is None {
        Err(LinkError::MissingFile)
    } else if entry.from is None {
        Err(LinkError::MissingPath)
    } else if entry.to is None {
        Err(LinkError::MissingPath)
    } else if !(node is Absent) {
        Err(LinkError::AlreadyExists)
    } else {
        Ok(())
    }
}

/// Everything `link` promises of its result: it succeeds exactly when
/// `link_check` allows it, it fails with the error `link_check` names, and a
/// successful request carries the entry's exact home-side and dot-side
/// paths.
pub open spec fn link_post(entry: Dot, node: Probe, r: Result<LinkRequest, LinkError>) -> bool {
    &&& (r is Ok <==> link_check(entry, node) is Ok)
    &&& (r matches Err(e) ==> Err::<(), LinkError>(e) == link_check(entry, node))
    &&& (r matches Ok(req) ==> {
        &&& node is Absent
        &&& entry.file matches Some(f) && (entry.from matches Some(d) && req.path@ == join_spec(
            d@,
            f@,
        )) && (entry.to matches Some(d) && req.target@ == join_spec(d@, f@))
    })
}

/// Decides the link operation for one entry against a fresh probe of its
/// home path. On success the returned request names the symlink to create;
/// on failure nothing is requested and the path stays untouched.
pub fn link(entry: &Dot, node: &Probe) -> (r: Result<LinkRequest, LinkError>)
    ensures
        link_post(*entry, *node, r),
{
    let path = match entry.from() {
        Ok(p) => p,
        Err(EntryError::MissingFile) => {
            return Err(LinkError::MissingFile);
        },
        Err(EntryError::MissingPath) => {
            return Err(LinkError::MissingPath);
        },
    };
    let target = match entry.to() {
        Ok(p) => p,
        Err(EntryError::MissingFile) => {
            return Err(LinkError::MissingFile);
        },
        Err(EntryError::MissingPath) => {
            return Err(LinkError::MissingPath);
        },
    };
    match node {
        Probe::Absent => Ok(LinkRequest { path, target }),
        _ => Err(LinkError::AlreadyExists),
    }
}

/// Whether unlinking `entry` is allowed given the fresh probe `node` of its
/// home path, and the error when it is not: only a symlink is ever removed,
/// whatever the stale classification said.
pub open spec fn unlink_check(entry: Dot, node: Probe) -> Result<(), UnlinkError> {
    if entry.file is None {
        Err(UnlinkError::MissingFile)
    } else if entry.from is None {
        Err(UnlinkError::MissingPath)
    } else {
        match node {
            Probe::Symlink(_) => Ok(()),
            Probe::Occupied => Err(UnlinkError::NotASymlink),
            Probe::Absent => Err(UnlinkError::NotFound),
        }
    }
}

/// Everything `unlink` promises of its result: it succeeds exactly when
/// `unlink_check` allows it, it fails with the error `unlink_check` names,
/// and a successful request carries the entry's exact home-side path.
pub open spec fn unlink_post(entry: Dot, node: Probe, r: Result<String, UnlinkError>) -> bool {
    &&& (r is Ok <==> unlink_check(entry, node) is Ok)
    &&& (r matches Err(e) ==> Err::<(), UnlinkError>(e) == unlink_check(entry, node))
    &&& (r matches Ok(p) ==> {
        &&& node is Symlink
        &&& entry.file matches Some(f) && (entry.from matches Some(d) && p@ == join_spec(d@, f@))
    })
}

/// Decides the unlink operation for one entry against a fresh probe of its
/// home path. On success the returned path is the symlink to remove; on
/// failure nothing is requested, so whatever occupies the path is never
/// deleted.
pub fn unlink(entry: &Dot, node: &Probe) -> (r: Result<String, UnlinkError>)
    ensures
        unlink_post(*entry, *node, r),
{
    let path = match entry.from() {
        Ok(p) => p,
        Err(EntryError::MissingFile) => {
            return Err(UnlinkError::MissingFile);
        },
        Err(EntryError::MissingPath) => {
            return Err(UnlinkError::MissingPath);
        },
    };
    match node {
        Probe::Symlink(_) => Ok(path),
        Probe::Occupied => Err(UnlinkError::NotASymlink),
        Probe::Absent => Err(UnlinkError::NotFound),
    }
}

/// Decides the link operation for every selected entry, each against its own
/// fresh probe, in order: one outcome per entry, and each outcome depends on
/// that entry and its probe alone, so one failure never keeps the remaining
/// entries from being decided.
pub fn link_batch(entries: &Vec<Dot>, nodes: &Vec<Probe>) -> (results: Vec<
    Result<LinkRequest, LinkError>,
>)
    requires
        nodes@.len() == entries@.len(),
    ensures
        results@.len() == entries@.len(),
        forall|i: int|
            0 <= i < entries@.len() ==> link_post(entries@[i], nodes@[i], #[trigger] results@[i]),
{
    let mut results: Vec<Result<LinkRequest, LinkError>> = Vec::new();
    let mut i: usize = 0;
    while i < entries.len()
        invariant
            i <= entries.len(),
            nodes@.len() == entries@.len(),
            results@.len() == i,
            forall|j: int|
                0 <= j < i ==> link_post(entries@[j], nodes@[j], #[trigger] results@[j]),
        decreases entries.len() - i,
    {
        let r = link(&entries[i], &nodes[i]);
        results.push(r);
        i = i + 1;
    }
    results
}

/// Decides the unlink operation for every selected entry, each against its
/// own fresh probe, in order: one outcome per entry, independent of the
/// others.
pub fn unlink_batch(entries: &Vec<Dot>, nodes: &Vec<Probe>) -> (results: Vec<
    Result<String, UnlinkError>,
>)
    requires
        nodes@.len() == entries@.len(),
    ensures
        results@.len() == entries@.len(),
        forall|i: int|
            0 <= i < entries@.len() ==> unlink_post(
                entries@[i],
                nodes@[i],
                #[trigger] results@[i],
            ),
{
    let mut results: Vec<Result<String, UnlinkError>> = Vec::new();
    let mut i: usize = 0;
    while i < entries.len()
        invariant
            i <= entries.len(),
            nodes@.len() == entries@.len(),
            results@.len() == i,
            forall|j: int|
                0 <= j < i ==> unlink_post(entries@[j], nodes@[j], #[trigger] results@[j]),
        decreases entries.len() - i,
    {
        let r = unlink(&entries[i], &nodes[i]);
        results.push(r);
        i = i + 1;
    }
    results
}

/// The link round trip. An entry with a name and both directories links from
/// an empty home path; the symlink the request creates — one storing the
/// entry's dot-side path — classifies as `Linked`; unlinking that symlink is
/// allowed; and the empty path it leaves classifies as `Unlinked` again. The
/// name must not be ignored, since ignore status would win over any link
/// evidence.
pub proof fn lemma_link_round_trip(
    file: String,
    from_dir: String,
    to_dir: String,
    ignores: Set<Seq<char>>,
    created: Probe,
)
    requires
        !ignores.contains(file@),
        created matches Probe::Symlink(t) && t@ == join_spec(to_dir@, file@),
    ensures
        link_check(
            Dot {
                from: Some(from_dir),
                to: Some(to_dir),
                file: Some(file),
                state: State::Unlinked,
            },
            Probe::Absent,
        ) is Ok,
        classify_spec(file@, to_dir@, ignores, created) == State::Linked,
        unlink_check(
            Dot { from: Some(from_dir), to: Some(to_dir), file: Some(file), state: State::Linked },
            created,
        ) is Ok,
        classify_spec(file@, to_dir@, ignores, Probe::Absent) == State::Unlinked,
{
}

/// Unlink is non-destructive. When something other than a symlink occupies
/// the home path — a regular file sharing a dotfile's name, say — every
/// outcome `unlink` may return for the entry is the `NotASymlink` error, and
/// an error requests no removal, so the occupying file is never deleted.
pub proof fn lemma_unlink_non_destructive(entry: Dot, r: Result<String, UnlinkError>)
    requires
        entry.file is Some,
        entry.from is Some,
        unlink_post(entry, Probe::Occupied, r),
    ensures
        r == Err::<String, UnlinkError>(UnlinkError::NotASymlink),
{
}

/// Link and unlink are idempotent per entry. Repeating a link against the
/// symlink the first link created finds the path taken and fails with
/// `AlreadyExists`; repeating an unlink against the emptiness the first
/// unlink left fails with `NotFound`. A failed decision requests nothing, so
/// the repetition changes nothing.
pub proof fn lemma_reconcile_idempotent(entry: Dot, created: Probe)
    requires
        entry.file is Some,
        entry.from is Some,
        entry.to is Some,
        created is Symlink,
    ensures
        link_check(entry, created) == Err::<(), LinkError>(LinkError::AlreadyExists),
        unlink_check(entry, Probe::Absent) == Err::<(), UnlinkError>(UnlinkError::NotFound),
{
}

/// Batch partial failure. In any outcome sequence a link batch may produce,
/// a slot whose own entry and probe pass the link check succeeds, whatever
/// errors every other slot suffered: one entry's failure never blocks the
/// rest.
pub proof fn lemma_batch_partial_failure(
    entries: Seq<Dot>,
    nodes: Seq<Probe>,
    results: Seq<Result<LinkRequest, LinkError>>,
    i: int,
)
    requires
        entries.len() == nodes.len(),
        results.len() == entries.len(),
        forall|k: int|
            0 <= k < entries.len() ==> link_post(entries[k], nodes[k], #[trigger] results[k]),
        0 <= i < entries.len(),
        link_check(entries[i], nodes[i]) is Ok,
    ensures
        results[i] is Ok,
{
}

} // verus!
