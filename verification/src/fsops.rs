//! The actions the machines ask for and the events that answer them.
//!
//! A machine never touches the filesystem itself.  Each step returns an
//! [`Action`]; the unverified front end performs it with the platform's
//! filesystem and process primitives and feeds the outcome back as the next
//! [`Event`].  The meaning the library assumes of each action is written at
//! its variant; the laws proved over runs hold of any front end that honours
//! those meanings.

use vstd::prelude::*;
use crate::errors::{FsErrorKind, OpError};
use crate::paths::is_under_spec;

verus! {

/// One filesystem or process action the front end is asked to perform.
#[derive(Debug, PartialEq, Eq)]
pub enum Action {
    /// Resolve the running executable's image path: the current executable,
    /// canonicalized, with a symbolic link read through.  Answered by
    /// `Event::ExeResolved` or `Event::Failed`.
    ResolveExe,
    /// Look up the system's temporary directory.  Answered by
    /// `Event::TempDirIs` or `Event::Failed`.
    QueryTempDir,
    /// Read the permission bits of the file at `path` (the permissions
    /// snapshot).  Answered by `Event::ModeRead` or `Event::Failed`.
    ReadMode { path: String },
    /// Create a fresh, empty temporary file inside `dir` whose name starts
    /// with `prefix`.  The file must be new: an existing path is never
    /// reused or overwritten.  Answered by `Event::TempCreated` (carrying
    /// the new file's path) or `Event::Failed`.
    CreateTempIn { dir: String, prefix: String },
    /// Copy the whole file at `from` to `to`, permission bits included.
    /// Answered by `Event::Succeeded` or `Event::Failed`.
    CopyFile { from: String, to: String },
    /// Write the replacement bytes the caller holds into the file at `to`,
    /// then flush.  Answered by `Event::Succeeded` or `Event::Failed`.
    WriteBytes { to: String },
    /// Apply the permission bits `mode` to the file at `path`.  Answered by
    /// `Event::Succeeded` or `Event::Failed`.
    SetMode { path: String, mode: u32 },
    /// Rename `from` onto `to`, atomically: a concurrent observer of `to`
    /// sees the old entry or the new one, never a mixture.  Answered by
    /// `Event::Succeeded` or `Event::Failed`.
    Rename { from: String, to: String },
    /// Remove the directory entry at `path`.  Answered by
    /// `Event::Succeeded` or `Event::Failed`.
    RemoveFile { path: String },
    /// Remove the directory tree rooted at `path`.  Answered by
    /// `Event::Succeeded` or `Event::Failed`.
    RemoveTree { path: String },
    /// Open the file at `path` reading, sharing reads and deletes, with the
    /// platform's delete-on-close disposition, and hold the handle.
    /// Answered by `Event::Succeeded` or `Event::Failed` (for instance with
    /// `Unsupported` where no such disposition exists).
    OpenDeleteOnClose { path: String },
    /// Spawn the file at `exe` as a detached child process with `target` as
    /// its one argument.  Answered by `Event::Succeeded` or `Event::Failed`.
    SpawnWatcher { exe: String, target: String },
    /// Sleep for the short fixed grace period that gives the spawned child
    /// time to open its own handle.  Answered by `Event::Succeeded`.
    SleepGrace,
    /// Close the delete-on-close handle held since `OpenDeleteOnClose`.
    /// Answered by `Event::Succeeded`.
    CloseShadowHandle,
    /// The operation is over with this result; no further step may be taken.
    Finish { result: Result<(), OpError> },
}

/// The outcome of the previously requested action.
#[derive(Debug, PartialEq, Eq)]
pub enum Event {
    /// Starts a freshly constructed operation.
    Start,
    /// The running image's resolved path.
    ExeResolved { exe: String },
    /// The system's temporary directory.
    TempDirIs { dir: String },
    /// The permission bits that were read.
    ModeRead { mode: u32 },
    /// The path of the temporary file that was created.
    TempCreated { path: String },
    /// The action completed.
    Succeeded,
    /// The action failed with this kind of error.
    Failed { err: FsErrorKind },
}

/// The path whose contents the action creates or replaces, if any: the
/// destination of a copy, of a byte write, or of a rename.
pub open spec fn content_target(a: Action) -> Option<Seq<char>> {
    match a {
        Action::CopyFile { from: _, to } => Some(to@),
        Action::WriteBytes { to } => Some(to@),
        Action::Rename { from: _, to } => Some(to@),
        _ => None,
    }
}

/// The action removes the directory entry at `p`: it deletes `p`, renames
/// `p` away, or deletes a tree containing `p`.  Creating a fresh temporary
/// file removes nothing: the front end never reuses an existing name for it.
pub open spec fn removes_path(a: Action, p: Seq<char>) -> bool {
    match a {
        Action::RemoveFile { path } => p == path@,
        Action::RemoveTree { path } => is_under_spec(p, path@),
        Action::Rename { from, to: _ } => p == from@,
        _ => false,
    }
}

/// The action changes what an observer of the path `p` can see: it removes
/// `p`, writes content at `p`, or changes `p`'s permission bits.
pub open spec fn touches_path(a: Action, p: Seq<char>) -> bool {
    ||| removes_path(a, p)
    ||| content_target(a) == Some(p)
    ||| (a matches Action::SetMode { path, mode: _ } && path@ == p)
}

} // verus!
