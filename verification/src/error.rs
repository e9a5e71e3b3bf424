//! The failures that end a start or restart.

use vstd::prelude::*;

verus! {

/// Why the backend could not be started.
#[derive(Clone, Debug)]
pub enum SetupError {
    /// The backend directory could not be determined.
    PathResolution,
    /// The operating system refused to start the backend process.
    Launch {
        /// The operating system's description of the refusal.
        reason: String,
    },
}

/// The mathematical content of a [`SetupError`].
pub enum SetupErrorView {
    PathResolution,
    Launch { reason: Seq<char> },
}

impl View for SetupError {
    type V = SetupErrorView;

    open spec fn view(&self) -> SetupErrorView {
        match self {
            SetupError::PathResolution => SetupErrorView::PathResolution,
            SetupError::Launch { reason } => SetupErrorView::Launch { reason: reason@ },
        }
    }
}

impl SetupError {
    /// Whether the failure is one of path resolution.
    pub fn is_path_resolution(&self) -> (yes: bool)
        ensures
            yes == (self@ is PathResolution),
    {
        match self {
            SetupError::PathResolution => true,
            SetupError::Launch { .. } => false,
        }
    }
}

} // verus!
