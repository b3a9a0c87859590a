//! The candidate entries a run works on.
//!
//! A [`Dot`] is one directory entry as the inventory records it: the home
//! directory it would be linked into, the dot directory the link points at,
//! the base file name, and its classified state. An unreadable directory
//! entry is kept as a placeholder with no usable name or paths, so that it
//! can be reported instead of silently dropped. A [`Dotfile`] pairs the two
//! full paths of one file, built from directories the caller has already
//! canonicalized.

use vstd::prelude::*;
use crate::path::{join_path, join_spec};
use crate::state::State;

verus! {

/// Why a full path could not be produced for an entry.
#[derive(Clone, Copy, Debug, PartialEq, Eq, Structural)]
pub enum EntryError {
    /// The entry carries no file name.
    MissingFile,
    /// The entry carries no directory on the side that was asked for.
    MissingPath,
}

/// One candidate entry of a run.
#[derive(Debug, PartialEq, Eq)]
pub struct Dot {
    /// The home directory: the side where the symlink lives.
    pub from: Option<String>,
    /// The dot directory: the side the symlink points at.
    pub to: Option<String>,
    /// The base file name, never a path. `None` only for placeholder entries
    /// whose directory read failed.
    pub file: Option<String>,
    /// The entry's classification.
    pub state: State,
}

/// The name a `Dot` presents to the selector: its file name, or the empty
/// string for a placeholder entry.
pub open spec fn file_name_spec(d: Dot) -> Seq<char> {
    match d.file {
        Some(f) => f@,
        None => Seq::empty(),
    }
}

impl Dot {
    /// The entry's file name, empty for a placeholder entry.
    pub fn file_name(&self) -> (r: String)
        ensures
            r@ == file_name_spec(*self),
    {
        match &self.file {
            Some(f) => f.clone(),
            None => String::new(),
        }
    }

    /// The full home-side path of the entry: where its symlink lives.
    pub fn from(&self) -> (r: Result<String, EntryError>)
        ensures
            self.file is None ==> r == Err::<String, EntryError>(EntryError::MissingFile),
            self.file is Some && self.from is None ==> r == Err::<String, EntryError>(
                EntryError::MissingPath,
            ),
            self.file matches Some(f) ==> (self.from matches Some(d) ==> (r matches Ok(p)
                && p@ == join_spec(d@, f@))),
    {
        let file = match &self.file {
            Some(f) => f,
            None => {
                return Err(EntryError::MissingFile);
            },
        };
        match &self.from {
            Some(dir) => Ok(join_path(dir, file)),
            None => Err(EntryError::MissingPath),
        }
    }

    /// The full dot-side path of the entry: what its symlink points at.
    pub fn to(&self) -> (r: Result<String, EntryError>)
        ensures
            self.file is None ==> r == Err::<String, EntryError>(EntryError::MissingFile),
            self.file is Some && self.to is None ==> r == Err::<String, EntryError>(
                EntryError::MissingPath,
            ),
            self.file matches Some(f) ==> (self.to matches Some(d) ==> (r matches Ok(p)
                && p@ == join_spec(d@, f@))),
    {
        let file = match &self.file {
            Some(f) => f,
            None => {
                return Err(EntryError::MissingFile);
            },
        };
        match &self.to {
            Some(dir) => Ok(join_path(dir, file)),
            None => Err(EntryError::MissingPath),
        }
    }
}

impl Clone for Dot {
    /// An exact copy: filtering an inventory hands out copies of its entries.
    fn clone(&self) -> (res: Self)
        ensures
            res == *self,
    {
        Dot {
            from: clone_opt(&self.from),
            to: clone_opt(&self.to),
            file: clone_opt(&self.file),
            state: self.state,
        }
    }
}

/// An exact copy of an optional string.
fn clone_opt(o: &Option<String>) -> (r: Option<String>)
    ensures
        r == *o,
{
    match o {
        Some(s) => Some(s.clone()),
        None => None,
    }
}

/// The two full paths of one candidate file, from directories the caller has
/// already canonicalized; a side whose directory is unknown stays `None`.
#[derive(Debug, PartialEq, Eq, Hash)]
pub struct Dotfile {
    /// The full home-side path: where the symlink lives.
    pub from: Option<String>,
    /// The full dot-side path: what the symlink points at.
    pub to: Option<String>,
    /// The file's state; a fresh pair is recorded as [`State::Unlinked`]
    /// until a classification is performed.
    pub state: State,
}

impl Dotfile {
    /// Joins `file` onto each resolved directory that is present. The caller
    /// resolves and canonicalizes the directories; a directory it could not
    /// resolve arrives as `None` and leaves that side empty.
    pub fn new(from_dir: Option<String>, to_dir: Option<String>, file: &String) -> (d: Dotfile)
        ensures
            d.from is Some <==> from_dir is Some,
            d.to is Some <==> to_dir is Some,
            from_dir matches Some(dir) ==> (d.from matches Some(p) && p@ == join_spec(
                dir@,
                file@,
            )),
            to_dir matches Some(dir) ==> (d.to matches Some(p) && p@ == join_spec(dir@, file@)),
            d.state == State::Unlinked,
    {
        let from = match &from_dir {
            Some(dir) => Some(join_path(dir, file)),
            None => None,
        };
        let to = match &to_dir {
            Some(dir) => Some(join_path(dir, file)),
            None => None,
        };
        Dotfile { from, to, state: State::Unlinked }
    }
}

} // verus!
