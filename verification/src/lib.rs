//! Reconciliation engine for a dotfile directory.
//!
//! The library classifies each candidate file of a source ("dot") directory
//! against the user's home directory — correctly linked, unlinked, linked
//! somewhere else, ignored, or unreadable — and decides the idempotent link
//! and unlink operations that move a file between these states. Paths are
//! handled as plain strings that the caller has already canonicalized;
//! directory enumeration, symlink probing and the actual syscalls stay with
//! the caller, which hands their outcomes in as values.

mod classify;
mod dotfile;
mod ignore;
mod inventory;
mod path;
mod reconcile;
mod select;
mod state;

pub use classify::classify;
pub use classify::classify_spec;
pub use classify::lemma_classify_idempotent;
pub use classify::lemma_divergent_link;
pub use classify::lemma_ignore_precedence;
pub use classify::probe_equiv;
pub use dotfile::file_name_spec;
pub use dotfile::Dot;
pub use dotfile::Dotfile;
pub use dotfile::EntryError;
pub use ignore::ignored_names;
pub use ignore::lemma_ignored_names_exact;
pub use ignore::nonempty_of;
pub use ignore::split_commas;
pub use ignore::IgnoreSet;
pub use inventory::build_inventory;
pub use inventory::entry_spec;
pub use inventory::filter_by_state;
pub use inventory::with_state;
pub use inventory::RawEntry;
pub use path::expand_tilde;
pub use path::expand_tilde_spec;
pub use path::join_path;
pub use path::join_spec;
pub use reconcile::lemma_batch_partial_failure;
pub use reconcile::lemma_link_round_trip;
pub use reconcile::lemma_reconcile_idempotent;
pub use reconcile::lemma_unlink_non_destructive;
pub use reconcile::link;
pub use reconcile::link_batch;
pub use reconcile::link_check;
pub use reconcile::link_post;
pub use reconcile::unlink;
pub use reconcile::unlink_batch;
pub use reconcile::unlink_check;
pub use reconcile::unlink_post;
pub use reconcile::LinkError;
pub use reconcile::LinkRequest;
pub use reconcile::UnlinkError;
pub use select::candidate_names;
pub use select::select_by_names;
pub use select::selected_of;
pub use state::Probe;
pub use state::State;
