//! The failure taxonomy of a publish run. Every failure is terminal for the
//! run except a failed propagation probe, which is retried until the shared
//! deadline elapses.

use vstd::prelude::*;

verus! {

/// One fatal failure kind of a publish run.
#[derive(Clone, Copy, Debug, PartialEq, Eq, Structural)]
pub enum PublishError {
    /// The release version text is not a semantic version.
    VersionSyntaxFailure,
    /// An artifact fetch errored or returned a non-success status.
    NetworkFailure,
    /// Cloning a remote repository failed (unreachable remote or rejected
    /// authentication).
    CloneFailure,
    /// Writing a staged file failed.
    IoFailure,
    /// Staging a written file into the repository index failed.
    IndexFailure,
    /// Committing found no parent commit (brand-new empty repository).
    NoParentFailure,
    /// A push was rejected for authentication reasons.
    AuthFailure,
    /// A push was rejected as not fast-forward.
    NonFastForwardFailure,
    /// An external index-generation or signing tool failed.
    ExternalToolFailure,
    /// A manifest template did not compile or render.
    TemplateSyntaxError,
    /// The propagation deadline elapsed before every target became
    /// reachable.
    TimeoutFailure,
}

} // verus!
