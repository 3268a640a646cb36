//! What one run reads of a repository, as plain values.

use vstd::prelude::*;
use crate::status::StatusEntry;

verus! {

/// The operation that a repository is in the middle of.
#[derive(Clone, Copy, Debug, PartialEq, Eq, Structural)]
pub enum RepositoryState {
    /// No operation is under way.
    Clean,
    /// A merge.
    Merge,
    /// A revert.
    Revert,
    /// A revert of several commits.
    RevertSequence,
    /// A cherry-pick.
    CherryPick,
    /// A cherry-pick of several commits.
    CherryPickSequence,
    /// A bisect.
    Bisect,
    /// A rebase.
    Rebase,
    /// An interactive rebase.
    RebaseInteractive,
    /// A rebase that merges.
    RebaseMerge,
    /// Patches from a mailbox are being applied.
    ApplyMailbox,
    /// Patches from a mailbox are being applied, or a rebase is under way.
    ApplyMailboxOrRebase,
}

impl RepositoryState {
    /// The words that are shown for the operation; none for a clean
    /// repository.
    pub open spec fn label_text(self) -> Option<Seq<char>> {
        match self {
            RepositoryState::Clean => None,
            RepositoryState::Merge => Some("Merge"@),
            RepositoryState::Revert => Some("Revert"@),
            RepositoryState::RevertSequence => Some("Revert Sequence"@),
            RepositoryState::CherryPick => Some("Cherry-pick"@),
            RepositoryState::CherryPickSequence => Some("Cherry-pick Sequence"@),
            RepositoryState::Bisect => Some("Bisect"@),
            RepositoryState::Rebase => Some("Rebase"@),
            RepositoryState::RebaseInteractive => Some("Rebase Interactive"@),
            RepositoryState::RebaseMerge => Some("Rebase Merge"@),
            RepositoryState::ApplyMailbox => Some("Apply Mailbox"@),
            RepositoryState::ApplyMailboxOrRebase => Some("Apply Mailbox or Rebase"@),
        }
    }

    /// The words that are shown for the operation; none for a clean
    /// repository.
    pub fn label(self) -> (label: Option<&'static str>)
        ensures
            match label {
                Some(words) => self.label_text() == Some(words@),
                None => self.label_text() is None,
            },
            label is None <==> self == RepositoryState::Clean,
    {
        match self {
            RepositoryState::Clean => None,
            RepositoryState::Merge => Some("Merge"),
            RepositoryState::Revert => Some("Revert"),
            RepositoryState::RevertSequence => Some("Revert Sequence"),
            RepositoryState::CherryPick => Some("Cherry-pick"),
            RepositoryState::CherryPickSequence => Some("Cherry-pick Sequence"),
            RepositoryState::Bisect => Some("Bisect"),
            RepositoryState::Rebase => Some("Rebase"),
            RepositoryState::RebaseInteractive => Some("Rebase Interactive"),
            RepositoryState::RebaseMerge => Some("Rebase Merge"),
            RepositoryState::ApplyMailbox => Some("Apply Mailbox"),
            RepositoryState::ApplyMailboxOrRebase => Some("Apply Mailbox or Rebase"),
        }
    }
}

/// The head of a repository, once it has been resolved.
#[derive(Clone, Debug, PartialEq, Eq)]
pub struct Head {
    /// The short name of the reference, where it has one.
    pub shorthand: Option<String>,
    /// The id of the commit that the head leads to, in hexadecimal, where the
    /// head leads to a commit.
    pub commit_id: Option<String>,
}

/// What was read of a repository. A field that could not be read is `None`.
#[derive(Clone, Debug, PartialEq, Eq)]
pub struct Snapshot {
    /// The head; `None` where it cannot be resolved, as on a branch without
    /// commits.
    pub head: Option<Head>,
    /// The entries of the working tree's status.
    pub statuses: Option<Vec<StatusEntry>>,
    /// The operation under way.
    pub state: RepositoryState,
}

} // verus!
