//! What the controller asks the surrounding binary to perform.
//!
//! Key handling never touches the repository itself: it mutates controller
//! state and hands back one of these requests, which the binary carries out
//! against the repository before the next frame.

use vstd::prelude::*;

verus! {

/// A repository operation requested by one key press. `Nothing` means the
/// key was consumed by the controller alone.
pub enum Action {
    Nothing,
    /// Stage the file at this path.
    StageFile(String),
    /// Restore the staged entry at this path to its committed state.
    UnstageFile(String),
    /// Check out a branch. For a remote branch, `local_name` is the name of
    /// the local tracking branch to create; for a local branch it equals
    /// `name`.
    Checkout { remote: bool, name: String, local_name: String },
    /// Delete the local branch with this name.
    DeleteBranch(String),
    /// Create a local branch with this name at the current head.
    CreateBranch(String),
    /// Create a commit from the index with this message.
    Commit(String),
    /// The operator confirmed the push dialog; gather repository facts and
    /// call the push pipeline.
    ConfirmPush,
    /// Show the commit-message popup.
    OpenCommitPopup,
    /// Show the push confirmation dialog.
    OpenPushDialog,
}

} // verus!
