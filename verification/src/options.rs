//! The settings of one run.

use vstd::prelude::*;

verus! {

/// What one run shows, and in which colours.
#[derive(Clone, Copy, Debug, PartialEq, Eq, Structural)]
pub struct Options {
    /// Index of the colour scheme; an index without a scheme selects plain text.
    pub color_scheme: usize,
    /// Whether the branch name is shown.
    pub git_branch: bool,
    /// How many characters of the commit id are shown; zero shows none.
    pub git_commit_id: usize,
    /// Whether the counts of changed files and the running operation are shown.
    pub git_state: bool,
}

impl Options {
    /// The settings of a run without arguments: nothing is shown, in plain text.
    pub fn new() -> (options: Options)
        ensures
            options == (Options {
                color_scheme: 0,
                git_branch: false,
                git_commit_id: 0,
                git_state: false,
            }),
    {
        Options { color_scheme: 0, git_branch: false, git_commit_id: 0, git_state: false }
    }

    /// Whether the line shows the branch name, so that the head's short name
    /// has to be read.
    pub fn shows_branch(&self) -> (shown: bool)
        ensures
            shown == self.git_branch,
    {
        self.git_branch
    }

    /// Whether the line shows the commit id, so that the head's commit has to
    /// be read.
    pub fn shows_commit_id(&self) -> (shown: bool)
        ensures
            shown == (self.git_commit_id > 0),
    {
        self.git_commit_id > 0
    }

    /// Whether the line shows the state of the working tree, so that the
    /// status and the operation under way have to be read.
    pub fn shows_state(&self) -> (shown: bool)
        ensures
            shown == self.git_state,
    {
        self.git_state
    }
}

} // verus!
