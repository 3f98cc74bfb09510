//! Self-deletion and self-replacement of a running executable, modelled as
//! verified decision logic.
//!
//! A running program that wants to delete or replace its own on-disk image
//! cannot always do so directly: some platforms forbid unlinking or
//! overwriting an executable that is in use.  This library contains the
//! decision core of both strategies — the direct swap (unlink, or copy plus
//! atomic rename) and the deferred one (relocate the image, arm a shadow
//! copy for delete-on-close, spawn a watcher process that waits for the
//! parent to exit) — as state machines over plain path strings.  Each step
//! consumes an event reporting the outcome of the previous filesystem action
//! and returns the next action to perform; the thin unverified front end
//! performs the actions and feeds the outcomes back.
//!
//! The machines are exact: every transition is pinned by a specification
//! relation, and the key guarantees — the image path is only ever published
//! by an atomic rename of a fully prepared file, the permission snapshot is
//! reapplied before publication, the deferred schedule is registered at most
//! once per process, a tree delete touches nothing outside its directory —
//! are proved as lemmas over runs of those relations.

use vstd::prelude::*;

pub mod deferred;
pub mod direct;
pub mod errors;
pub mod fsops;
pub mod namegen;
pub mod paths;
pub mod registry;
pub mod watcher;

use crate::deferred::{DeferredKind, DeferredOp, deferred_step_rel};
use crate::direct::{
    DirectDelete,
    DirectReplace,
    DirectTreeDelete,
    ReplaceSource,
    delete_step_rel,
    replace_step_rel,
    tree_step_rel,
};
use crate::errors::OpError;
use crate::fsops::{Action, Event};
use crate::registry::PendingDeleteRegistration;

verus! {

/// How the four operations are realized on the current platform: directly,
/// where a running executable's directory entry may be unlinked or swapped,
/// or deferred, where it may not.
#[derive(Clone, Copy, Debug, PartialEq, Eq, Structural)]
pub enum Strategy {
    /// Unlink, or copy and atomically rename.
    Direct,
    /// Relocate, shadow-copy, arm delete-on-close, spawn a watcher.
    Deferred,
}

/// A delete or replace operation in progress: one of the strategy machines.
/// The front end drives it with [`Operation::step`] until it is done,
/// performing each returned action and feeding the outcome back.
pub enum Operation {
    /// A direct self-delete.
    DirectDelete(DirectDelete),
    /// A direct protected-path tree delete.
    DirectTreeDelete(DirectTreeDelete),
    /// A direct self-replace.
    DirectReplace(DirectReplace),
    /// A deferred delete or replace.
    Deferred(DeferredOp),
}

/// The transition relation of [`Operation`]: the inner machine steps by its
/// own relation, and only the deferred one may take the pending-delete slot.
pub open spec fn op_step_rel(
    pre: Operation,
    ev: Event,
    post: Operation,
    act: Action,
    reg_pre: PendingDeleteRegistration,
    reg_post: PendingDeleteRegistration,
) -> bool {
    match (pre, post) {
        (Operation::DirectDelete(a), Operation::DirectDelete(b)) => reg_post == reg_pre
            && delete_step_rel(a.state, ev, b.state, act),
        (Operation::DirectTreeDelete(a), Operation::DirectTreeDelete(b)) => reg_post == reg_pre
            && b.dir == a.dir && tree_step_rel(a.dir@, a.state, ev, b.state, act),
        (Operation::DirectReplace(a), Operation::DirectReplace(b)) => reg_post == reg_pre
            && b.source == a.source && replace_step_rel(a.source, a.state, ev, b.state, act),
        (Operation::Deferred(a), Operation::Deferred(b)) => b.kind == a.kind
            && deferred_step_rel(a.kind, a.state, ev, b.state, act, reg_pre, reg_post),
        _ => false,
    }
}

impl Operation {
    /// The events this operation can consume next.
    pub open spec fn accepts(self, ev: Event) -> bool {
        match self {
            Operation::DirectDelete(m) => m.accepts(ev),
            Operation::DirectTreeDelete(m) => m.accepts(ev),
            Operation::DirectReplace(m) => m.accepts(ev),
            Operation::Deferred(m) => m.accepts(ev),
        }
    }

    /// The operation is over.
    pub open spec fn done_spec(self) -> Option<Result<(), OpError>> {
        match self {
            Operation::DirectDelete(m) => match m.state {
                direct::DeleteState::Done { result } => Some(result),
                _ => None,
            },
            Operation::DirectTreeDelete(m) => match m.state {
                direct::TreeState::Done { result } => Some(result),
                _ => None,
            },
            Operation::DirectReplace(m) => match m.state {
                direct::ReplaceState::Done { result } => Some(result),
                _ => None,
            },
            Operation::Deferred(m) => match m.state {
                deferred::DeferredState::Done { result } => Some(result),
                _ => None,
            },
        }
    }

    /// The result once the operation is over, and `None` before that.
    pub fn outcome(&self) -> (r: Option<Result<(), OpError>>)
        ensures
            r == self.done_spec(),
    {
        match self {
            Operation::DirectDelete(m) => match &m.state {
                direct::DeleteState::Done { result } => Some(*result),
                _ => None,
            },
            Operation::DirectTreeDelete(m) => match &m.state {
                direct::TreeState::Done { result } => Some(*result),
                _ => None,
            },
            Operation::DirectReplace(m) => match &m.state {
                direct::ReplaceState::Done { result } => Some(*result),
                _ => None,
            },
            Operation::Deferred(m) => match &m.state {
                deferred::DeferredState::Done { result } => Some(*result),
                _ => None,
            },
        }
    }

    /// Whether the operation can consume `ev` now.
    pub fn can_accept(&self, ev: &Event) -> (b: bool)
        ensures
            b == self.accepts(*ev),
    {
        match self {
            Operation::DirectDelete(m) => m.can_accept(ev),
            Operation::DirectTreeDelete(m) => m.can_accept(ev),
            Operation::DirectReplace(m) => m.can_accept(ev),
            Operation::Deferred(m) => m.can_accept(ev),
        }
    }

    /// Consumes the outcome of the previous action and returns the next
    /// one.  `reg` is the process's single pending-delete slot; only the
    /// deferred strategy ever takes it.
    pub fn step(&mut self, reg: &mut PendingDeleteRegistration, ev: Event) -> (act: Action)
        requires
            old(self).accepts(ev),
        ensures
            op_step_rel(*old(self), ev, *final(self), act, *old(reg), *final(reg)),
    {
        match self {
            Operation::DirectDelete(m) => m.step(ev),
            Operation::DirectTreeDelete(m) => m.step(ev),
            Operation::DirectReplace(m) => m.step(ev),
            Operation::Deferred(m) => m.step(reg, ev),
        }
    }
}

/// Begins a self-delete: the running image is removed at once under the
/// direct strategy, or scheduled for removal after this process exits under
/// the deferred one.
pub fn self_delete(strategy: Strategy) -> (r: Operation)
    ensures
        match r {
            Operation::DirectDelete(m) => strategy is Direct && m.state is Init,
            Operation::Deferred(m) => strategy is Deferred && m.state is Init && m.kind == (
            DeferredKind::Delete { protected: None }),
            _ => false,
        },
{
    match strategy {
        Strategy::Direct => Operation::DirectDelete(DirectDelete::new()),
        Strategy::Deferred => Operation::Deferred(
            DeferredOp::new(DeferredKind::Delete { protected: None }),
        ),
    }
}

/// Begins the removal of the directory tree at `protected_dir`, which must
/// not be the directory the machinery itself works in: the direct strategy
/// removes the tree outright, while the deferred one schedules the image's
/// deletion without leaving anything of its own inside that directory.
pub fn self_delete_outside_path(strategy: Strategy, protected_dir: String) -> (r: Operation)
    ensures
        match r {
            Operation::DirectTreeDelete(m) => strategy is Direct && m.state is Init && m.dir
                == protected_dir,
            Operation::Deferred(m) => strategy is Deferred && m.state is Init && m.kind == (
            DeferredKind::Delete { protected: Some(protected_dir) }),
            _ => false,
        },
{
    match strategy {
        Strategy::Direct => Operation::DirectTreeDelete(DirectTreeDelete::new(protected_dir)),
        Strategy::Deferred => Operation::Deferred(
            DeferredOp::new(DeferredKind::Delete { protected: Some(protected_dir) }),
        ),
    }
}

/// Begins a self-replace from the file at `new_executable`: after a
/// successful run the image path holds that file's content with the old
/// permission bits, published by one atomic rename.
pub fn self_replace(strategy: Strategy, new_executable: String) -> (r: Operation)
    ensures
        match r {
            Operation::DirectReplace(m) => strategy is Direct && m.state is Init && m.source == (
            ReplaceSource::FromPath { path: new_executable }),
            Operation::Deferred(m) => strategy is Deferred && m.state is Init && m.kind == (
            DeferredKind::Replace { source: ReplaceSource::FromPath { path: new_executable } }),
            _ => false,
        },
{
    match strategy {
        Strategy::Direct => Operation::DirectReplace(
            DirectReplace::new(ReplaceSource::FromPath { path: new_executable }),
        ),
        Strategy::Deferred => Operation::Deferred(
            DeferredOp::new(
                DeferredKind::Replace {
                    source: ReplaceSource::FromPath { path: new_executable },
                },
            ),
        ),
    }
}

/// Begins a self-replace from bytes the caller holds; the front end writes
/// them when the machine asks for the fill.
pub fn self_replace_with(strategy: Strategy) -> (r: Operation)
    ensures
        match r {
            Operation::DirectReplace(m) => strategy is Direct && m.state is Init && m.source
                is FromBytes,
            Operation::Deferred(m) => strategy is Deferred && m.state is Init && m.kind == (
            DeferredKind::Replace { source: ReplaceSource::FromBytes }),
            _ => false,
        },
{
    match strategy {
        Strategy::Direct => Operation::DirectReplace(DirectReplace::new(ReplaceSource::FromBytes)),
        Strategy::Deferred => Operation::Deferred(
            DeferredOp::new(DeferredKind::Replace { source: ReplaceSource::FromBytes }),
        ),
    }
}

} // verus!
