//! Error taxonomy of the operations.
//!
//! Filesystem failures are reported by the environment as a [`FsErrorKind`]
//! and surfaced verbatim; protocol violations (a second deferred-delete
//! registration, a path with no parent directory) have variants of their own.

use vstd::prelude::*;

verus! {

/// The kind of a failure reported by the environment for a filesystem or
/// process action.  The driving front end maps the platform's error to the
/// nearest kind; kinds the model does not distinguish map to `Other`.
#[derive(Clone, Copy, Debug, PartialEq, Eq, Structural)]
pub enum FsErrorKind {
    /// The source path of a copy or rename does not exist.
    NotFound,
    /// The current user may not perform the action.
    PermissionDenied,
    /// A rename was attempted across filesystems.
    CrossDevice,
    /// The platform cannot perform the action at all (for instance it has
    /// no delete-on-close disposition, or the process table cannot be read).
    Unsupported,
    /// Any other failure.
    Other,
}

/// An error returned by one of the operations.
#[derive(Clone, Copy, Debug, PartialEq, Eq, Structural)]
pub enum OpError {
    /// A filesystem action failed; the kind is surfaced verbatim.
    Fs(FsErrorKind),
    /// A deferred delete or replace was already scheduled in this process;
    /// the single registration slot is never overwritten.
    AlreadyScheduled,
    /// A path that was asked for its parent directory has none.
    NoParentDirectory,
    /// The running executable's path has no parent directory, so no sibling
    /// temporary file can be created next to it.
    NoExecutableParent,
    /// The protected path that must be vacated has no parent directory to
    /// relocate into.
    NoProtectedParent,
}

impl OpError {
    /// The diagnostic text of this error.
    pub open spec fn message_spec(self) -> Seq<char> {
        match self {
            OpError::Fs(FsErrorKind::NotFound) => "file not found"@,
            OpError::Fs(FsErrorKind::PermissionDenied) => "permission denied"@,
            OpError::Fs(FsErrorKind::CrossDevice) => "rename across filesystems"@,
            OpError::Fs(FsErrorKind::Unsupported) => "operation not supported here"@,
            OpError::Fs(FsErrorKind::Other) => "filesystem error"@,
            OpError::AlreadyScheduled => "deletion already scheduled"@,
            OpError::NoParentDirectory => "path has no parent"@,
            OpError::NoExecutableParent => "executable has no known parent folder"@,
            OpError::NoProtectedParent => "protected path has no parent"@,
        }
    }

    /// The diagnostic text of this error.
    pub fn message(&self) -> (r: &'static str)
        ensures
            r@ == self.message_spec(),
    {
        match self {
            OpError::Fs(FsErrorKind::NotFound) => "file not found",
            OpError::Fs(FsErrorKind::PermissionDenied) => "permission denied",
            OpError::Fs(FsErrorKind::CrossDevice) => "rename across filesystems",
            OpError::Fs(FsErrorKind::Unsupported) => "operation not supported here",
            OpError::Fs(FsErrorKind::Other) => "filesystem error",
            OpError::AlreadyScheduled => "deletion already scheduled",
            OpError::NoParentDirectory => "path has no parent",
            OpError::NoExecutableParent => "executable has no known parent folder",
            OpError::NoProtectedParent => "protected path has no parent",
        }
    }
}

} // verus!
