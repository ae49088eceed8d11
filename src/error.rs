//! The ways a selection or a link update can fail.
use vstd::prelude::*;

verus! {

/// Why the switcher cannot go on.
#[derive(Clone, Copy, Debug, PartialEq, Eq, Structural)]
pub enum SwitchError {
    /// The home directory of the user could not be determined.
    HomeDirUnavailable,
    /// The persisted workspace name is not among the workspace directories.
    WorkspaceNotFound,
    /// The persisted environment name is not among the environments of the
    /// persisted workspace.
    EnvironmentNotFound,
    /// The selected workspace has no directory.
    WorkspaceDirMissing,
}

} // verus!
