//! The watcher side of the deferred strategy.
//!
//! When any process starts, a hook that runs before normal program logic
//! asks [`startup_role`] what this process is.  A normal image proceeds
//! untouched; an image whose file name carries the shadow-copy marker is a
//! watcher: it waits for its parent to exit, deletes the file named by its
//! one argument, spawns a short-lived helper so its own delete-on-close
//! handle is not the last reference at the worst moment, and exits.  The
//! decisions of that flow are here; the blocking and the raw process-table
//! walk stay in the front end, which feeds their outcomes in as plain
//! values.

use vstd::prelude::*;
use crate::paths::{ends_with_spec, ends_with_str};
use crate::namegen::{selfdelete_suffix, selfdelete_suffix_str};

verus! {

/// What a freshly started process is, read off its image path and argument
/// list before any normal program logic runs.
pub enum StartupRole {
    /// No shadow-copy marker: continue with the normal program.
    Normal,
    /// The image is a shadow copy but the argument convention is broken:
    /// exit with a failure status, running nothing further.
    WatcherBadArgs,
    /// The image is a shadow copy: act as the watcher and delete the file
    /// at `target` once the parent has exited.
    Watcher { target: String },
}

/// Decides the role of the current process: a watcher is recognized by the
/// shadow-copy suffix on its image path, and its deletion target is its
/// second argument (the first being the program name).
pub fn startup_role(exe: &str, args: &Vec<String>) -> (r: StartupRole)
    ensures
        !ends_with_spec(exe@, selfdelete_suffix()) ==> r is Normal,
        ends_with_spec(exe@, selfdelete_suffix()) && args@.len() != 2 ==> r is WatcherBadArgs,
        ends_with_spec(exe@, selfdelete_suffix()) && args@.len() == 2 ==> (
        r matches StartupRole::Watcher { target } && target@ == args@[1]@),
{
    if !ends_with_str(exe, selfdelete_suffix_str()) {
        StartupRole::Normal
    } else if args.len() != 2 {
        StartupRole::WatcherBadArgs
    } else {
        StartupRole::Watcher { target: args[1].clone() }
    }
}

/// One row of a process-table snapshot: a process and its recorded parent.
#[derive(Clone, Copy, Debug, PartialEq, Eq, Structural)]
pub struct ProcessEntry {
    /// The process's own identifier.
    pub pid: u32,
    /// The identifier of the process that created it.
    pub parent_pid: u32,
}

/// The parent of the first entry for `me` in the snapshot, if any.  The
/// lookup is inherently racy — by the time the caller uses the answer, the
/// identifier may already name a different process; the platform offers
/// nothing stronger, and the design accepts it.
pub open spec fn find_parent_spec(entries: Seq<ProcessEntry>, me: u32) -> Option<u32>
    decreases entries.len(),
{
    if entries.len() == 0 {
        None
    } else if entries[0].pid == me {
        Some(entries[0].parent_pid)
    } else {
        find_parent_spec(entries.skip(1), me)
    }
}

/// Walks the snapshot for the entry of process `me` and returns its
/// recorded parent.
pub fn find_parent_pid(entries: &Vec<ProcessEntry>, me: u32) -> (r: Option<u32>)
    ensures
        r == find_parent_spec(entries@, me),
{
    let n = entries.len();
    let mut k: usize = 0;
    proof {
        assert(entries@.skip(0) =~= entries@);
    }
    while k < n
        invariant
            k <= n,
            n == entries@.len(),
            find_parent_spec(entries@, me) == find_parent_spec(entries@.skip(k as int), me),
        decreases n - k,
    {
        let e = entries[k];
        proof {
            assert(entries@.skip(k as int)[0] == entries@[k as int]);
            assert(entries@.skip(k as int).skip(1) =~= entries@.skip(k as int + 1));
        }
        if e.pid == me {
            return Some(e.parent_pid);
        }
        k = k + 1;
    }
    None
}

/// The verdict of one parent-exit wait, from what the environment reported:
/// whether the process table could be snapshotted, the parent found for the
/// watcher's own entry, whether a wait handle to that parent could be
/// opened, and whether the wait signalled termination.  A snapshot failure
/// or a missing own entry is an error; a parent that cannot even be opened
/// has already exited, which is success.
pub fn parent_wait_outcome(
    snapshot_ok: bool,
    own_parent: Option<u32>,
    open_ok: bool,
    wait_signalled: bool,
) -> (r: bool)
    ensures
        r == (snapshot_ok && own_parent is Some && (!open_ok || wait_signalled)),
{
    snapshot_ok && own_parent.is_some() && (!open_ok || wait_signalled)
}

/// What the watcher does once its wait and its delete attempt are over.
#[derive(Clone, Copy, Debug, PartialEq, Eq, Structural)]
pub struct WatcherOutcome {
    /// Spawn the short-lived helper process that keeps the delete-on-close
    /// handle from being the last reference closed; only worth doing when
    /// the deletion actually happened.
    pub spawn_purge: bool,
    /// The watcher's exit status: zero on success, one otherwise, readable
    /// only by log scraping — there is no caller left to report to.
    pub exit_code: i32,
}

/// Decides the watcher's final actions from whether the parent wait and the
/// deletion of the target succeeded.
pub fn watcher_outcome(parent_wait_ok: bool, delete_ok: bool) -> (r: WatcherOutcome)
    ensures
        r.spawn_purge == (parent_wait_ok && delete_ok),
        r.exit_code == (if parent_wait_ok && delete_ok {
            0int
        } else {
            1int
        }),
{
    if parent_wait_ok && delete_ok {
        WatcherOutcome { spawn_purge: true, exit_code: 0 }
    } else {
        WatcherOutcome { spawn_purge: false, exit_code: 1 }
    }
}

} // verus!
