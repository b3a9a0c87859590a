//! The link states a candidate file can be in, and the evidence a symlink
//! probe of the target path yields.

use vstd::prelude::*;

verus! {

/// The classification of one candidate file against the home directory.
#[derive(Clone, Copy, Debug, PartialEq, Eq, Hash, Structural)]
pub enum State {
    /// The home path is a symlink whose stored target is the file's path in
    /// the dot directory.
    Linked,
    /// The home path is no symlink: it is absent, or a regular file or
    /// directory occupies it.
    Unlinked,
    /// The home path is a symlink, but it points somewhere other than the
    /// file's path in the dot directory.
    LinkedElsewhere,
    /// The name is in the ignore set; no link check is made for it.
    Ignored,
    /// The directory entry itself could not be read, so the entry carries no
    /// usable name or paths.
    Error,
}

/// What a non-following probe of one home path found. The caller performs the
/// probe (a link read, never a stat that follows the link) and hands the
/// outcome in as a value.
#[derive(Debug, PartialEq, Eq)]
pub enum Probe {
    /// The path is a symlink storing this target path, dangling or not.
    Symlink(String),
    /// Something other than a symlink occupies the path.
    Occupied,
    /// Nothing exists at the path.
    Absent,
}

} // verus!
