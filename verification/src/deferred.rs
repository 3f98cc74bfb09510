//! The deferred strategy.
//!
//! Where the platform forbids unlinking or overwriting an in-use executable,
//! the same observable outcome is arranged indirectly: the image (or, for a
//! replace, the image after it was moved aside) is renamed to a marker name,
//! a shadow copy of it is made, the copy is opened with a delete-on-close
//! disposition and registered in the process's single pending-delete slot,
//! and the copy is spawned as a watcher process that waits for this process
//! to exit and then deletes the relocated file.  A replace finishes by
//! filling a marker-named temporary next to the image and renaming it onto
//! the image path.
//!
//! One machine drives both the deferred delete (with an optional protected
//! directory to vacate) and the deferred replace.  Every transition is
//! pinned by [`deferred_step_rel`]; the publication and watcher-handoff laws
//! are proved over runs of it.

use vstd::prelude::*;
use vstd::pervasive::unreached;
use crate::errors::{FsErrorKind, OpError};
use crate::fsops::{Action, Event, content_target};
use crate::paths::{
    parent_of_spec,
    parent_of,
    file_stem_spec,
    file_stem_of,
    ends_with_spec,
    is_under_spec,
    lemma_file_stem_no_sep,
    lemma_parent_shorter,
};
use crate::namegen::{
    generated_name_ok,
    get_temp_executable_name,
    lemma_generated_name_ends_with,
    lemma_generated_name_stays_out,
    lemma_marker_suffixes_sep_free,
    relocated_suffix,
    relocated_suffix_str,
    selfdelete_suffix,
    selfdelete_suffix_str,
    temp_suffix,
    temp_suffix_str,
};
use crate::registry::PendingDeleteRegistration;
use crate::direct::{ReplaceSource, fill_action_ok};

verus! {

/// What a deferred operation is for.
pub enum DeferredKind {
    /// Delete the running image.  When a protected directory is given and
    /// the image cannot be renamed into the temporary directory, the
    /// machinery falls back to that directory's parent, so that nothing of
    /// it is left inside the directory about to be vacated.
    Delete { protected: Option<String> },
    /// Replace the running image with the given content.
    Replace { source: ReplaceSource },
}

/// Position of a deferred operation.
pub enum DeferredState {
    /// Waiting for `Event::Start`.
    Init,
    /// The image path is being resolved.
    ResolvingExe,
    /// (Replace only.)  The image is being renamed aside so its path
    /// becomes free for the replacement.
    MovingAside { exe: String, old_exe: String },
    /// The system temporary directory is being looked up; `target` is the
    /// file whose deferred deletion is being arranged.
    GettingTempDir { exe: String, target: String },
    /// `target` is being renamed to `relocated` inside `tempdir`.
    Relocating { exe: String, target: String, relocated: String, tempdir: String },
    /// The relocated file is being shadow-copied; the watcher will delete
    /// `victim`.
    ShadowCopying { exe: String, shadow: String, victim: String },
    /// (Protected fallback.)  `target` is being copied to the shadow name
    /// in the protected directory's parent, before `target` itself is
    /// renamed to `relocated`.
    ProtectedCopying { exe: String, shadow: String, target: String, relocated: String },
    /// (Protected fallback.)  The target is being renamed to `victim`,
    /// which the watcher will delete.
    ProtectedMoving { exe: String, shadow: String, victim: String },
    /// (Same-directory fallback.)  The target is being shadow-copied next
    /// to itself; the watcher will delete `victim`, the target itself.
    SameDirCopying { exe: String, shadow: String, victim: String },
    /// The shadow copy is being opened delete-on-close; the registration
    /// was just made.
    Arming { exe: String, shadow: String, victim: String },
    /// The shadow copy is being spawned as the watcher.
    Spawning { exe: String, shadow: String, victim: String },
    /// The post-spawn grace period is running.
    Settling { exe: String },
    /// The parent's delete-on-close handle is being closed.
    ClosingHandle { exe: String },
    /// (Replace only.)  The replacement content is being put into the
    /// marker-named temporary `tnew` next to the image.
    PlacingNew { exe: String, tnew: String },
    /// (Replace only.)  `tnew` is being renamed onto the image path.
    Publishing { exe: String, tnew: String },
    /// Finished.
    Done { result: Result<(), OpError> },
}

/// A deferred operation: its purpose, its position, and the generator that
/// randomizes its marker names.
pub struct DeferredOp {
    /// What the operation is for.
    pub kind: DeferredKind,
    /// The machine's position.
    pub state: DeferredState,
    /// Randomness for fresh marker names.
    pub rng: fastrand::Rng,
}

/// The machine is done with result `r` and says so.
pub open spec fn deferred_finished(post: DeferredState, act: Action, r: Result<(), OpError>) -> bool {
    post == (DeferredState::Done { result: r }) && act == (Action::Finish { result: r })
}

/// The registration-and-arming transition shared by the three paths into
/// `Arming`: with the process slot already taken the operation fails with
/// `AlreadyScheduled` and the slot is untouched; otherwise the slot records
/// the shadow and its victim and the shadow is opened delete-on-close.
pub open spec fn arm_rel(
    exe: Seq<char>,
    shadow: String,
    victim: String,
    post: DeferredState,
    act: Action,
    reg_pre: PendingDeleteRegistration,
    reg_post: PendingDeleteRegistration,
) -> bool {
    if reg_pre.is_armed() {
        reg_post == reg_pre && deferred_finished(post, act, Err(OpError::AlreadyScheduled))
    } else {
        &&& reg_post == reg_pre.register_spec(shadow, victim).0
        &&& (post matches DeferredState::Arming { exe: e, shadow: sh, victim: v } && e@ == exe
            && sh@ == shadow@ && v@ == victim@)
        &&& (act matches Action::OpenDeleteOnClose { path } && path@ == shadow@)
    }
}

/// The transition relation of [`DeferredOp`]: from `pre`, consuming `ev`,
/// the machine moves to `post`, asks for `act`, and takes the pending-delete
/// slot from `reg_pre` to `reg_post`.  Fresh marker names are pinned up to
/// their random core by `generated_name_ok`.
pub open spec fn deferred_step_rel(
    kind: DeferredKind,
    pre: DeferredState,
    ev: Event,
    post: DeferredState,
    act: Action,
    reg_pre: PendingDeleteRegistration,
    reg_post: PendingDeleteRegistration,
) -> bool {
    match pre {
        DeferredState::Init => reg_post == reg_pre && ev is Start && post is ResolvingExe
            && act is ResolveExe,
        DeferredState::ResolvingExe => match ev {
            Event::ExeResolved { exe } => reg_post == reg_pre && match kind {
                DeferredKind::Delete { protected: _ } => (post
                    matches DeferredState::GettingTempDir { exe: e, target: t } && e@ == exe@ && t@
                    == exe@ && act is QueryTempDir),
                DeferredKind::Replace { source: _ } => if parent_of_spec(exe@) is Some {
                    post matches DeferredState::MovingAside { exe: e, old_exe } && e@ == exe@
                        && generated_name_ok(
                        old_exe@,
                        parent_of_spec(exe@).unwrap(),
                        file_stem_spec(exe@),
                        relocated_suffix(),
                    ) && (act matches Action::Rename { from, to } && from@ == exe@ && to@
                        == old_exe@)
                } else {
                    deferred_finished(post, act, Err(OpError::NoExecutableParent))
                },
            },
            Event::Failed { err } => reg_post == reg_pre && deferred_finished(
                post,
                act,
                Err(OpError::Fs(err)),
            ),
            _ => false,
        },
        DeferredState::MovingAside { exe, old_exe } => match ev {
            Event::Succeeded => reg_post == reg_pre && (post
                matches DeferredState::GettingTempDir { exe: e, target: t } && e@ == exe@ && t@
                == old_exe@ && act is QueryTempDir),
            Event::Failed { err } => reg_post == reg_pre && deferred_finished(
                post,
                act,
                Err(OpError::Fs(err)),
            ),
            _ => false,
        },
        DeferredState::GettingTempDir { exe, target } => match ev {
            Event::TempDirIs { dir } => reg_post == reg_pre && (post
                matches DeferredState::Relocating { exe: e, target: t, relocated, tempdir } && e@
                == exe@ && t@ == target@ && tempdir@ == dir@ && generated_name_ok(
                relocated@,
                dir@,
                file_stem_spec(exe@),
                relocated_suffix(),
            ) && (act matches Action::Rename { from, to } && from@ == target@ && to@
                == relocated@)),
            Event::Failed { err } => reg_post == reg_pre && deferred_finished(
                post,
                act,
                Err(OpError::Fs(err)),
            ),
            _ => false,
        },
        DeferredState::Relocating { exe, target, relocated, tempdir } => match ev {
            Event::Succeeded => reg_post == reg_pre && (post
                matches DeferredState::ShadowCopying { exe: e, shadow, victim } && e@ == exe@
                && victim@ == relocated@ && generated_name_ok(
                shadow@,
                tempdir@,
                file_stem_spec(exe@),
                selfdelete_suffix(),
            ) && (act matches Action::CopyFile { from, to } && from@ == relocated@ && to@
                == shadow@)),
            Event::Failed { err: _ } => reg_post == reg_pre && match kind {
                DeferredKind::Delete { protected: Some(pp) } => if parent_of_spec(pp@) is Some {
                    post matches DeferredState::ProtectedCopying {
                        exe: e,
                        shadow,
                        target: t,
                        relocated: r2,
                    } && e@ == exe@ && t@ == target@ && generated_name_ok(
                        shadow@,
                        parent_of_spec(pp@).unwrap(),
                        file_stem_spec(exe@),
                        selfdelete_suffix(),
                    ) && generated_name_ok(
                        r2@,
                        parent_of_spec(pp@).unwrap(),
                        file_stem_spec(exe@),
                        relocated_suffix(),
                    ) && (act matches Action::CopyFile { from, to } && from@ == target@ && to@
                        == shadow@)
                } else {
                    deferred_finished(post, act, Err(OpError::NoProtectedParent))
                },
                _ => if parent_of_spec(target@) is Some {
                    post matches DeferredState::SameDirCopying { exe: e, shadow, victim } && e@
                        == exe@ && victim@ == target@ && generated_name_ok(
                        shadow@,
                        parent_of_spec(target@).unwrap(),
                        file_stem_spec(exe@),
                        selfdelete_suffix(),
                    ) && (act matches Action::CopyFile { from, to } && from@ == target@ && to@
                        == shadow@)
                } else {
                    deferred_finished(post, act, Err(OpError::NoParentDirectory))
                },
            },
            _ => false,
        },
        DeferredState::ShadowCopying { exe, shadow, victim } => match ev {
            Event::Succeeded => arm_rel(exe@, shadow, victim, post, act, reg_pre, reg_post),
            Event::Failed { err } => reg_post == reg_pre && deferred_finished(
                post,
                act,
                Err(OpError::Fs(err)),
            ),
            _ => false,
        },
        DeferredState::ProtectedCopying { exe, shadow, target, relocated } => match ev {
            Event::Succeeded => reg_post == reg_pre && (post
                matches DeferredState::ProtectedMoving { exe: e, shadow: sh, victim } && e@ == exe@
                && sh@ == shadow@ && victim@ == relocated@ && (act matches Action::Rename {
                from,
                to,
            } && from@ == target@ && to@ == relocated@)),
            Event::Failed { err } => reg_post == reg_pre && deferred_finished(
                post,
                act,
                Err(OpError::Fs(err)),
            ),
            _ => false,
        },
        DeferredState::ProtectedMoving { exe, shadow, victim } => match ev {
            Event::Succeeded => arm_rel(exe@, shadow, victim, post, act, reg_pre, reg_post),
            Event::Failed { err } => reg_post == reg_pre && deferred_finished(
                post,
                act,
                Err(OpError::Fs(err)),
            ),
            _ => false,
        },
        DeferredState::SameDirCopying { exe, shadow, victim } => match ev {
            Event::Succeeded => arm_rel(exe@, shadow, victim, post, act, reg_pre, reg_post),
            Event::Failed { err } => reg_post == reg_pre && deferred_finished(
                post,
                act,
                Err(OpError::Fs(err)),
            ),
            _ => false,
        },
        DeferredState::Arming { exe, shadow, victim } => match ev {
            Event::Succeeded => reg_post == reg_pre && (post matches DeferredState::Spawning {
                exe: e,
                shadow: sh,
                victim: v,
            } && e@ == exe@ && sh@ == shadow@ && v@ == victim@ && (
            act matches Action::SpawnWatcher { exe: we, target } && we@ == shadow@ && target@
                == victim@)),
            Event::Failed { err } => reg_post == reg_pre && deferred_finished(
                post,
                act,
                Err(OpError::Fs(err)),
            ),
            _ => false,
        },
        DeferredState::Spawning { exe, shadow: _, victim: _ } => match ev {
            Event::Succeeded => reg_post == reg_pre && (post matches DeferredState::Settling {
                exe: e,
            } && e@ == exe@ && act is SleepGrace),
            Event::Failed { err } => reg_post == reg_pre && deferred_finished(
                post,
                act,
                Err(OpError::Fs(err)),
            ),
            _ => false,
        },
        DeferredState::Settling { exe } => match ev {
            Event::Succeeded => reg_post == reg_pre && (post
                matches DeferredState::ClosingHandle { exe: e } && e@ == exe@
                && act is CloseShadowHandle),
            _ => false,
        },
        DeferredState::ClosingHandle { exe } => match ev {
            Event::Succeeded => reg_post == reg_pre && match kind {
                DeferredKind::Delete { protected: _ } => deferred_finished(post, act, Ok(())),
                DeferredKind::Replace { source } => if parent_of_spec(exe@) is Some {
                    post matches DeferredState::PlacingNew { exe: e, tnew } && e@ == exe@
                        && generated_name_ok(
                        tnew@,
                        parent_of_spec(exe@).unwrap(),
                        file_stem_spec(exe@),
                        temp_suffix(),
                    ) && fill_action_ok(source, act, tnew@)
                } else {
                    deferred_finished(post, act, Err(OpError::NoExecutableParent))
                },
            },
            _ => false,
        },
        DeferredState::PlacingNew { exe, tnew } => match ev {
            Event::Succeeded => reg_post == reg_pre && (post matches DeferredState::Publishing {
                exe: e,
                tnew: t,
            } && e@ == exe@ && t@ == tnew@ && (act matches Action::Rename { from, to } && from@
                == tnew@ && to@ == exe@)),
            Event::Failed { err } => reg_post == reg_pre && deferred_finished(
                post,
                act,
                Err(OpError::Fs(err)),
            ),
            _ => false,
        },
        DeferredState::Publishing { exe: _, tnew: _ } => match ev {
            Event::Succeeded => reg_post == reg_pre && deferred_finished(post, act, Ok(())),
            Event::Failed { err } => reg_post == reg_pre && deferred_finished(
                post,
                act,
                Err(OpError::Fs(err)),
            ),
            _ => false,
        },
        DeferredState::Done { result: _ } => false,
    }
}

/// Builds a fresh marker name for the operation on `exe`, hinted by the
/// image's file stem.
fn gen_marker_name(rng: &mut fastrand::Rng, base: &str, exe: &str, suffix: &str) -> (r: String)
    ensures
        generated_name_ok(r@, base@, file_stem_spec(exe@), suffix@),
{
    let hint = file_stem_of(exe);
    match &hint {
        Some(h) => get_temp_executable_name(rng, base, Some(h), suffix),
        None => get_temp_executable_name(rng, base, None, suffix),
    }
}

/// The registration-and-arming step shared by the three paths into
/// `Arming`.
fn do_arm(
    reg: &mut PendingDeleteRegistration,
    exe: &String,
    shadow: &String,
    victim: &String,
) -> (r: (DeferredState, Action))
    ensures
        arm_rel(exe@, *shadow, *victim, r.0, r.1, *old(reg), *final(reg)),
{
    if reg.armed() {
        (
            DeferredState::Done { result: Err(OpError::AlreadyScheduled) },
            Action::Finish { result: Err(OpError::AlreadyScheduled) },
        )
    } else {
        let _registered = reg.register(shadow.clone(), victim.clone());
        (
            DeferredState::Arming {
                exe: exe.clone(),
                shadow: shadow.clone(),
                victim: victim.clone(),
            },
            Action::OpenDeleteOnClose { path: shadow.clone() },
        )
    }
}

impl DeferredOp {
    /// A fresh machine for the given purpose, with its own name randomizer.
    pub fn new(kind: DeferredKind) -> (r: Self)
        ensures
            r.state is Init,
            r.kind == kind,
    {
        DeferredOp { kind, state: DeferredState::Init, rng: fastrand::Rng::new() }
    }

    /// The events this machine can consume next.
    pub open spec fn accepts(self, ev: Event) -> bool {
        match self.state {
            DeferredState::Init => ev is Start,
            DeferredState::ResolvingExe => ev is ExeResolved || ev is Failed,
            DeferredState::MovingAside { .. } => ev is Succeeded || ev is Failed,
            DeferredState::GettingTempDir { .. } => ev is TempDirIs || ev is Failed,
            DeferredState::Relocating { .. } => ev is Succeeded || ev is Failed,
            DeferredState::ShadowCopying { .. } => ev is Succeeded || ev is Failed,
            DeferredState::ProtectedCopying { .. } => ev is Succeeded || ev is Failed,
            DeferredState::ProtectedMoving { .. } => ev is Succeeded || ev is Failed,
            DeferredState::SameDirCopying { .. } => ev is Succeeded || ev is Failed,
            DeferredState::Arming { .. } => ev is Succeeded || ev is Failed,
            DeferredState::Spawning { .. } => ev is Succeeded || ev is Failed,
            DeferredState::Settling { .. } => ev is Succeeded,
            DeferredState::ClosingHandle { .. } => ev is Succeeded,
            DeferredState::PlacingNew { .. } => ev is Succeeded || ev is Failed,
            DeferredState::Publishing { .. } => ev is Succeeded || ev is Failed,
            DeferredState::Done { .. } => false,
        }
    }

    /// Whether the machine can consume `ev` now.
    pub fn can_accept(&self, ev: &Event) -> (b: bool)
        ensures
            b == self.accepts(*ev),
    {
        match (&self.state, ev) {
            (DeferredState::Init, Event::Start) => true,
            (DeferredState::ResolvingExe, Event::ExeResolved { .. }) => true,
            (DeferredState::ResolvingExe, Event::Failed { .. }) => true,
            (DeferredState::GettingTempDir { .. }, Event::TempDirIs { .. }) => true,
            (DeferredState::GettingTempDir { .. }, Event::Failed { .. }) => true,
            (DeferredState::Settling { .. }, Event::Succeeded) => true,
            (DeferredState::Settling { .. }, _) => false,
            (DeferredState::ClosingHandle { .. }, Event::Succeeded) => true,
            (DeferredState::ClosingHandle { .. }, _) => false,
            (DeferredState::MovingAside { .. }, Event::Succeeded)
            | (DeferredState::Relocating { .. }, Event::Succeeded)
            | (DeferredState::ShadowCopying { .. }, Event::Succeeded)
            | (DeferredState::ProtectedCopying { .. }, Event::Succeeded)
            | (DeferredState::ProtectedMoving { .. }, Event::Succeeded)
            | (DeferredState::SameDirCopying { .. }, Event::Succeeded)
            | (DeferredState::Arming { .. }, Event::Succeeded)
            | (DeferredState::Spawning { .. }, Event::Succeeded)
            | (DeferredState::PlacingNew { .. }, Event::Succeeded)
            | (DeferredState::Publishing { .. }, Event::Succeeded) => true,
            (DeferredState::MovingAside { .. }, Event::Failed { .. })
            | (DeferredState::Relocating { .. }, Event::Failed { .. })
            | (DeferredState::ShadowCopying { .. }, Event::Failed { .. })
            | (DeferredState::ProtectedCopying { .. }, Event::Failed { .. })
            | (DeferredState::ProtectedMoving { .. }, Event::Failed { .. })
            | (DeferredState::SameDirCopying { .. }, Event::Failed { .. })
            | (DeferredState::Arming { .. }, Event::Failed { .. })
            | (DeferredState::Spawning { .. }, Event::Failed { .. })
            | (DeferredState::PlacingNew { .. }, Event::Failed { .. })
            | (DeferredState::Publishing { .. }, Event::Failed { .. }) => true,
            _ => false,
        }
    }

    /// Consumes the outcome of the previous action and returns the next
    /// one, registering in `reg` when the schedule is armed.
    pub fn step(&mut self, reg: &mut PendingDeleteRegistration, ev: Event) -> (act: Action)
        requires
            old(self).accepts(ev),
        ensures
            final(self).kind == old(self).kind,
            deferred_step_rel(
                old(self).kind,
                old(self).state,
                ev,
                final(self).state,
                act,
                *old(reg),
                *final(reg),
            ),
    {
        let (post, act): (DeferredState, Action) = match (&self.state, ev) {
            (DeferredState::Init, Event::Start) => (
                DeferredState::ResolvingExe,
                Action::ResolveExe,
            ),
            (DeferredState::ResolvingExe, Event::ExeResolved { exe }) => match &self.kind {
                DeferredKind::Delete { protected: _ } => {
                    let t = exe.clone();
                    (DeferredState::GettingTempDir { exe, target: t }, Action::QueryTempDir)
                },
                DeferredKind::Replace { source: _ } => match parent_of(exe.as_str()) {
                    Some(dir) => {
                        let old_exe = gen_marker_name(
                            &mut self.rng,
                            dir.as_str(),
                            exe.as_str(),
                            relocated_suffix_str(),
                        );
                        let from = exe.clone();
                        let to = old_exe.clone();
                        (
                            DeferredState::MovingAside { exe, old_exe },
                            Action::Rename { from, to },
                        )
                    },
                    None => Self::stop(OpError::NoExecutableParent),
                },
            },
            (DeferredState::ResolvingExe, Event::Failed { err }) => Self::stop(OpError::Fs(err)),
            (DeferredState::MovingAside { exe, old_exe }, Event::Succeeded) => (
                DeferredState::GettingTempDir { exe: exe.clone(), target: old_exe.clone() },
                Action::QueryTempDir,
            ),
            (DeferredState::MovingAside { .. }, Event::Failed { err }) => Self::stop(
                OpError::Fs(err),
            ),
            (DeferredState::GettingTempDir { exe, target }, Event::TempDirIs { dir }) => {
                let relocated = gen_marker_name(
                    &mut self.rng,
                    dir.as_str(),
                    exe.as_str(),
                    relocated_suffix_str(),
                );
                let from = target.clone();
                let to = relocated.clone();
                (
                    DeferredState::Relocating {
                        exe: exe.clone(),
                        target: target.clone(),
                        relocated,
                        tempdir: dir,
                    },
                    Action::Rename { from, to },
                )
            },
            (DeferredState::GettingTempDir { .. }, Event::Failed { err }) => Self::stop(
                OpError::Fs(err),
            ),
            (
                DeferredState::Relocating { exe, target: _, relocated, tempdir },
                Event::Succeeded,
            ) => {
                let shadow = gen_marker_name(
                    &mut self.rng,
                    tempdir.as_str(),
                    exe.as_str(),
                    selfdelete_suffix_str(),
                );
                let from = relocated.clone();
                let to = shadow.clone();
                (
                    DeferredState::ShadowCopying {
                        exe: exe.clone(),
                        shadow,
                        victim: relocated.clone(),
                    },
                    Action::CopyFile { from, to },
                )
            },
            (
                DeferredState::Relocating { exe, target, relocated: _, tempdir: _ },
                Event::Failed { err: _ },
            ) => {
                let protected = match &self.kind {
                    DeferredKind::Delete { protected: Some(pp) } => Some(pp),
                    _ => None,
                };
                match protected {
                    Some(pp) => match parent_of(pp.as_str()) {
                        Some(base) => {
                            let shadow = gen_marker_name(
                                &mut self.rng,
                                base.as_str(),
                                exe.as_str(),
                                selfdelete_suffix_str(),
                            );
                            let relocated = gen_marker_name(
                                &mut self.rng,
                                base.as_str(),
                                exe.as_str(),
                                relocated_suffix_str(),
                            );
                            let from = target.clone();
                            let to = shadow.clone();
                            (
                                DeferredState::ProtectedCopying {
                                    exe: exe.clone(),
                                    shadow,
                                    target: target.clone(),
                                    relocated,
                                },
                                Action::CopyFile { from, to },
                            )
                        },
                        None => Self::stop(OpError::NoProtectedParent),
                    },
                    None => match parent_of(target.as_str()) {
                        Some(base) => {
                            let shadow = gen_marker_name(
                                &mut self.rng,
                                base.as_str(),
                                exe.as_str(),
                                selfdelete_suffix_str(),
                            );
                            let from = target.clone();
                            let to = shadow.clone();
                            (
                                DeferredState::SameDirCopying {
                                    exe: exe.clone(),
                                    shadow,
                                    victim: target.clone(),
                                },
                                Action::CopyFile { from, to },
                            )
                        },
                        None => Self::stop(OpError::NoParentDirectory),
                    },
                }
            },
            (DeferredState::ShadowCopying { exe, shadow, victim }, Event::Succeeded) => do_arm(
                reg,
                exe,
                shadow,
                victim,
            ),
            (DeferredState::ShadowCopying { .. }, Event::Failed { err }) => Self::stop(
                OpError::Fs(err),
            ),
            (
                DeferredState::ProtectedCopying { exe, shadow, target, relocated },
                Event::Succeeded,
            ) => {
                let from = target.clone();
                let to = relocated.clone();
                (
                    DeferredState::ProtectedMoving {
                        exe: exe.clone(),
                        shadow: shadow.clone(),
                        victim: relocated.clone(),
                    },
                    Action::Rename { from, to },
                )
            },
            (DeferredState::ProtectedCopying { .. }, Event::Failed { err }) => Self::stop(
                OpError::Fs(err),
            ),
            (DeferredState::ProtectedMoving { exe, shadow, victim }, Event::Succeeded) => do_arm(
                reg,
                exe,
                shadow,
                victim,
            ),
            (DeferredState::ProtectedMoving { .. }, Event::Failed { err }) => Self::stop(
                OpError::Fs(err),
            ),
            (DeferredState::SameDirCopying { exe, shadow, victim }, Event::Succeeded) => do_arm(
                reg,
                exe,
                shadow,
                victim,
            ),
            (DeferredState::SameDirCopying { .. }, Event::Failed { err }) => Self::stop(
                OpError::Fs(err),
            ),
            (DeferredState::Arming { exe, shadow, victim }, Event::Succeeded) => {
                let we = shadow.clone();
                let target = victim.clone();
                (
                    DeferredState::Spawning {
                        exe: exe.clone(),
                        shadow: shadow.clone(),
                        victim: victim.clone(),
                    },
                    Action::SpawnWatcher { exe: we, target },
                )
            },
            (DeferredState::Arming { .. }, Event::Failed { err }) => Self::stop(OpError::Fs(err)),
            (DeferredState::Spawning { exe, shadow: _, victim: _ }, Event::Succeeded) => (
                DeferredState::Settling { exe: exe.clone() },
                Action::SleepGrace,
            ),
            (DeferredState::Spawning { .. }, Event::Failed { err }) => Self::stop(
                OpError::Fs(err),
            ),
            (DeferredState::Settling { exe }, Event::Succeeded) => (
                DeferredState::ClosingHandle { exe: exe.clone() },
                Action::CloseShadowHandle,
            ),
            (DeferredState::ClosingHandle { exe }, Event::Succeeded) => match &self.kind {
                DeferredKind::Delete { protected: _ } => (
                    DeferredState::Done { result: Ok(()) },
                    Action::Finish { result: Ok(()) },
                ),
                DeferredKind::Replace { source } => match parent_of(exe.as_str()) {
                    Some(dir) => {
                        let tnew = gen_marker_name(
                            &mut self.rng,
                            dir.as_str(),
                            exe.as_str(),
                            temp_suffix_str(),
                        );
                        let fill = match source {
                            ReplaceSource::FromPath { path } => Action::CopyFile {
                                from: path.clone(),
                                to: tnew.clone(),
                            },
                            ReplaceSource::FromBytes => Action::WriteBytes { to: tnew.clone() },
                        };
                        (DeferredState::PlacingNew { exe: exe.clone(), tnew }, fill)
                    },
                    None => Self::stop(OpError::NoExecutableParent),
                },
            },
            (DeferredState::PlacingNew { exe, tnew }, Event::Succeeded) => {
                let from = tnew.clone();
                let to = exe.clone();
                (
                    DeferredState::Publishing { exe: exe.clone(), tnew: tnew.clone() },
                    Action::Rename { from, to },
                )
            },
            (DeferredState::PlacingNew { .. }, Event::Failed { err }) => Self::stop(
                OpError::Fs(err),
            ),
            (DeferredState::Publishing { .. }, Event::Succeeded) => (
                DeferredState::Done { result: Ok(()) },
                Action::Finish { result: Ok(()) },
            ),
            (DeferredState::Publishing { .. }, Event::Failed { err }) => Self::stop(
                OpError::Fs(err),
            ),
            _ => unreached(),
        };
        self.state = post;
        act
    }

    /// A finished pair surfacing `e`.
    fn stop(e: OpError) -> (r: (DeferredState, Action))
        ensures
            deferred_finished(r.0, r.1, Err(e)),
    {
        (DeferredState::Done { result: Err(e) }, Action::Finish { result: Err(e) })
    }
}

/// `steps` is a run of the deferred machine from state `s0` with the
/// pending-delete slot at `reg0`: each entry is the event consumed, the
/// state entered, the action emitted, and the slot after the step.
pub open spec fn deferred_run(
    kind: DeferredKind,
    s0: DeferredState,
    reg0: PendingDeleteRegistration,
    steps: Seq<(Event, DeferredState, Action, PendingDeleteRegistration)>,
) -> bool
    decreases steps.len(),
{
    steps.len() == 0 || {
        &&& deferred_step_rel(kind, s0, steps[0].0, steps[0].1, steps[0].2, reg0, steps[0].3)
        &&& deferred_run(kind, steps[0].1, steps[0].3, steps.skip(1))
    }
}

/// The state from which step `i` of a run from `s0` was taken.
pub open spec fn dstate_before(
    s0: DeferredState,
    steps: Seq<(Event, DeferredState, Action, PendingDeleteRegistration)>,
    i: int,
) -> DeferredState {
    if i == 0 {
        s0
    } else {
        steps[i - 1].1
    }
}

/// The slot contents from which step `i` of a run from `reg0` was taken.
pub open spec fn dreg_before(
    reg0: PendingDeleteRegistration,
    steps: Seq<(Event, DeferredState, Action, PendingDeleteRegistration)>,
    i: int,
) -> PendingDeleteRegistration {
    if i == 0 {
        reg0
    } else {
        steps[i - 1].3
    }
}

/// Every step of a run is an instance of the step relation.
pub proof fn lemma_deferred_run_index(
    kind: DeferredKind,
    s0: DeferredState,
    reg0: PendingDeleteRegistration,
    steps: Seq<(Event, DeferredState, Action, PendingDeleteRegistration)>,
    i: int,
)
    requires
        deferred_run(kind, s0, reg0, steps),
        0 <= i < steps.len(),
    ensures
        deferred_step_rel(
            kind,
            dstate_before(s0, steps, i),
            steps[i].0,
            steps[i].1,
            steps[i].2,
            dreg_before(reg0, steps, i),
            steps[i].3,
        ),
    decreases i,
{
    if i > 0 {
        lemma_deferred_run_index(kind, steps[0].1, steps[0].3, steps.skip(1), i - 1);
        assert(steps.skip(1)[i - 1] == steps[i]);
        if i - 1 > 0 {
            assert(steps.skip(1)[i - 2] == steps[i - 1]);
        }
    }
}

/// Every image resolution in the run answered `im`.
pub open spec fn d_resolves_to(
    steps: Seq<(Event, DeferredState, Action, PendingDeleteRegistration)>,
    im: Seq<char>,
) -> bool {
    forall|i: int|
        0 <= i < steps.len() ==> ((#[trigger] steps[i]).0 matches Event::ExeResolved { exe }
            ==> exe@ == im)
}

/// `im` carries none of the three marker suffixes — true of any ordinary
/// program's image path, whose name the deferred machinery never chose.
pub open spec fn unmarked(im: Seq<char>) -> bool {
    &&& !ends_with_spec(im, selfdelete_suffix())
    &&& !ends_with_spec(im, relocated_suffix())
    &&& !ends_with_spec(im, temp_suffix())
}

/// The image path a state has recorded, if any.
pub open spec fn dstate_image(s: DeferredState) -> Option<Seq<char>> {
    match s {
        DeferredState::MovingAside { exe, old_exe: _ } => Some(exe@),
        DeferredState::GettingTempDir { exe, target: _ } => Some(exe@),
        DeferredState::Relocating { exe, target: _, relocated: _, tempdir: _ } => Some(exe@),
        DeferredState::ShadowCopying { exe, shadow: _, victim: _ } => Some(exe@),
        DeferredState::ProtectedCopying { exe, shadow: _, target: _, relocated: _ } => Some(exe@),
        DeferredState::ProtectedMoving { exe, shadow: _, victim: _ } => Some(exe@),
        DeferredState::SameDirCopying { exe, shadow: _, victim: _ } => Some(exe@),
        DeferredState::Arming { exe, shadow: _, victim: _ } => Some(exe@),
        DeferredState::Spawning { exe, shadow: _, victim: _ } => Some(exe@),
        DeferredState::Settling { exe } => Some(exe@),
        DeferredState::ClosingHandle { exe } => Some(exe@),
        DeferredState::PlacingNew { exe, tnew: _ } => Some(exe@),
        DeferredState::Publishing { exe, tnew: _ } => Some(exe@),
        _ => None,
    }
}

/// The run invariant: any recorded image path is the resolved one, every
/// shadow name carries the shadow-copy suffix, the slot behind an armed or
/// spawned schedule records exactly the shadow and its victim, and the
/// in-flight replacement name is a marker temporary next to the image.
pub open spec fn deferred_inv(
    s: DeferredState,
    reg: PendingDeleteRegistration,
    im: Seq<char>,
) -> bool {
    &&& (dstate_image(s) matches Some(e) ==> e == im)
    &&& (s matches DeferredState::ShadowCopying { exe: _, shadow, victim: _ } ==> ends_with_spec(
        shadow@,
        selfdelete_suffix(),
    ))
    &&& (s matches DeferredState::ProtectedCopying { exe: _, shadow, target: _, relocated }
        ==> ends_with_spec(shadow@, selfdelete_suffix()) && ends_with_spec(
        relocated@,
        relocated_suffix(),
    ))
    &&& (s matches DeferredState::ProtectedMoving { exe: _, shadow, victim: _ }
        ==> ends_with_spec(shadow@, selfdelete_suffix()))
    &&& (s matches DeferredState::SameDirCopying { exe: _, shadow, victim: _ }
        ==> ends_with_spec(shadow@, selfdelete_suffix()))
    &&& (s matches DeferredState::Arming { exe: _, shadow, victim } ==> ends_with_spec(
        shadow@,
        selfdelete_suffix(),
    ) && (reg.slot matches Some(sd) && sd.shadow@ == shadow@ && sd.target@ == victim@))
    &&& (s matches DeferredState::Spawning { exe: _, shadow, victim } ==> ends_with_spec(
        shadow@,
        selfdelete_suffix(),
    ) && (reg.slot matches Some(sd) && sd.shadow@ == shadow@ && sd.target@ == victim@))
    &&& (s matches DeferredState::PlacingNew { exe: _, tnew } ==> generated_name_ok(
        tnew@,
        parent_of_spec(im).unwrap(),
        file_stem_spec(im),
        temp_suffix(),
    ))
    &&& (s matches DeferredState::Publishing { exe: _, tnew } ==> generated_name_ok(
        tnew@,
        parent_of_spec(im).unwrap(),
        file_stem_spec(im),
        temp_suffix(),
    ))
}

/// The run invariant holds after every step of a run from `Init`.
pub proof fn lemma_deferred_inv(
    kind: DeferredKind,
    reg0: PendingDeleteRegistration,
    steps: Seq<(Event, DeferredState, Action, PendingDeleteRegistration)>,
    im: Seq<char>,
    k: int,
)
    requires
        deferred_run(kind, DeferredState::Init, reg0, steps),
        d_resolves_to(steps, im),
        0 <= k < steps.len(),
    ensures
        deferred_inv(steps[k].1, steps[k].3, im),
    decreases k,
{
    lemma_deferred_run_index(kind, DeferredState::Init, reg0, steps, k);
    if k > 0 {
        lemma_deferred_inv(kind, reg0, steps, im, k - 1);
    }
    let pre = dstate_before(DeferredState::Init, steps, k);
    match pre {
        DeferredState::Relocating { exe, target, relocated, tempdir } => {
            match steps[k].1 {
                DeferredState::ShadowCopying { exe: _, shadow, victim: _ } => {
                    lemma_generated_name_ends_with(
                        shadow@,
                        tempdir@,
                        file_stem_spec(exe@),
                        selfdelete_suffix(),
                    );
                },
                DeferredState::ProtectedCopying { exe: _, shadow, target: _, relocated: r2 } => {
                    match kind {
                        DeferredKind::Delete { protected: Some(pp) } => {
                            lemma_generated_name_ends_with(
                                shadow@,
                                parent_of_spec(pp@).unwrap(),
                                file_stem_spec(exe@),
                                selfdelete_suffix(),
                            );
                            lemma_generated_name_ends_with(
                                r2@,
                                parent_of_spec(pp@).unwrap(),
                                file_stem_spec(exe@),
                                relocated_suffix(),
                            );
                        },
                        _ => {},
                    }
                },
                DeferredState::SameDirCopying { exe: _, shadow, victim: _ } => {
                    lemma_generated_name_ends_with(
                        shadow@,
                        parent_of_spec(target@).unwrap(),
                        file_stem_spec(exe@),
                        selfdelete_suffix(),
                    );
                },
                _ => {},
            }
        },
        _ => {},
    }
}

/// The shape of the deferred publication at step `i`: the marker temporary
/// `t`, fully filled from the replacement source at the step before, was
/// renamed onto the image path.
pub open spec fn deferred_publication_shape(
    kind: DeferredKind,
    steps: Seq<(Event, DeferredState, Action, PendingDeleteRegistration)>,
    im: Seq<char>,
    i: int,
    t: Seq<char>,
) -> bool {
    &&& 1 <= i < steps.len()
    &&& t != im
    &&& generated_name_ok(t, parent_of_spec(im).unwrap(), file_stem_spec(im), temp_suffix())
    &&& (steps[i].2 matches Action::Rename { from, to } && from@ == t && to@ == im)
    &&& steps[i].0 is Succeeded
    &&& (kind matches DeferredKind::Replace { source } && fill_action_ok(
        source,
        steps[i - 1].2,
        t,
    ))
}

/// Atomicity of the deferred replace.  In any run of the deferred machine
/// on an image whose path carries no marker suffix, the only step whose
/// content lands at the image path is an atomic rename of a marker-named
/// sibling temporary that the previous step had fully filled from the
/// replacement source — the image path is never written directly, by this
/// machine's relocations and shadow copies included, so an observer of it
/// never sees partial content.
pub proof fn lemma_deferred_publication(
    kind: DeferredKind,
    reg0: PendingDeleteRegistration,
    steps: Seq<(Event, DeferredState, Action, PendingDeleteRegistration)>,
    im: Seq<char>,
    i: int,
)
    requires
        deferred_run(kind, DeferredState::Init, reg0, steps),
        d_resolves_to(steps, im),
        unmarked(im),
        0 <= i < steps.len(),
        content_target(steps[i].2) == Some(im),
    ensures
        exists|t: Seq<char>| deferred_publication_shape(kind, steps, im, i, t),
{
    lemma_deferred_run_index(kind, DeferredState::Init, reg0, steps, i);
    let pre = dstate_before(DeferredState::Init, steps, i);
    if i > 0 {
        lemma_deferred_inv(kind, reg0, steps, im, i - 1);
    }
    match pre {
        DeferredState::ResolvingExe => {
            match steps[i].1 {
                DeferredState::MovingAside { exe: _, old_exe } => {
                    lemma_generated_name_ends_with(
                        old_exe@,
                        parent_of_spec(im).unwrap(),
                        file_stem_spec(im),
                        relocated_suffix(),
                    );
                },
                _ => {},
            }
        },
        DeferredState::GettingTempDir { exe: _, target: _ } => {
            match steps[i].1 {
                DeferredState::Relocating { exe: _, target: _, relocated, tempdir } => {
                    lemma_generated_name_ends_with(
                        relocated@,
                        tempdir@,
                        file_stem_spec(im),
                        relocated_suffix(),
                    );
                },
                _ => {},
            }
        },
        DeferredState::Relocating { exe: _, target, relocated: _, tempdir } => {
            match steps[i].1 {
                DeferredState::ShadowCopying { exe: _, shadow, victim: _ } => {
                    lemma_generated_name_ends_with(
                        shadow@,
                        tempdir@,
                        file_stem_spec(im),
                        selfdelete_suffix(),
                    );
                },
                DeferredState::ProtectedCopying { exe: _, shadow, target: _, relocated: _ } => {
                    match kind {
                        DeferredKind::Delete { protected: Some(pp) } => {
                            lemma_generated_name_ends_with(
                                shadow@,
                                parent_of_spec(pp@).unwrap(),
                                file_stem_spec(im),
                                selfdelete_suffix(),
                            );
                        },
                        _ => {},
                    }
                },
                DeferredState::SameDirCopying { exe: _, shadow, victim: _ } => {
                    lemma_generated_name_ends_with(
                        shadow@,
                        parent_of_spec(target@).unwrap(),
                        file_stem_spec(im),
                        selfdelete_suffix(),
                    );
                },
                _ => {},
            }
        },
        DeferredState::ClosingHandle { exe: _ } => {
            match steps[i].1 {
                DeferredState::PlacingNew { exe: _, tnew } => {
                    lemma_generated_name_ends_with(
                        tnew@,
                        parent_of_spec(im).unwrap(),
                        file_stem_spec(im),
                        temp_suffix(),
                    );
                },
                _ => {},
            }
        },
        DeferredState::PlacingNew { exe: _, tnew } => {
            lemma_generated_name_ends_with(
                tnew@,
                parent_of_spec(im).unwrap(),
                file_stem_spec(im),
                temp_suffix(),
            );
            lemma_deferred_run_index(kind, DeferredState::Init, reg0, steps, i - 1);
            assert(deferred_publication_shape(kind, steps, im, i, tnew@));
        },
        _ => {},
    }
}

/// The protected directory is left alone.  In a deferred delete that was
/// given a protected directory `pp` to vacate, no step ever creates content
/// strictly inside `pp`: the relocated image and the shadow copy live in the
/// temporary directory — which the front end reports as not lying under `pp`
/// — or, in the fallback, in `pp`'s own parent.  Only a freak collision of a
/// whole generated path with `pp` itself is left open.
pub proof fn lemma_deferred_protected_stays_out(
    kind: DeferredKind,
    reg0: PendingDeleteRegistration,
    steps: Seq<(Event, DeferredState, Action, PendingDeleteRegistration)>,
    im: Seq<char>,
    pp: Seq<char>,
    i: int,
)
    requires
        deferred_run(kind, DeferredState::Init, reg0, steps),
        d_resolves_to(steps, im),
        kind matches DeferredKind::Delete { protected: Some(p) } && p@ == pp,
        forall|j: int|
            0 <= j < steps.len() ==> ((#[trigger] steps[j]).0 matches Event::TempDirIs { dir }
                ==> !is_under_spec(dir@, pp)),
        0 <= i < steps.len(),
    ensures
        content_target(steps[i].2) matches Some(q) ==> (is_under_spec(q, pp) ==> q == pp),
{
    lemma_deferred_run_index(kind, DeferredState::Init, reg0, steps, i);
    let pre = dstate_before(DeferredState::Init, steps, i);
    if i > 0 {
        lemma_deferred_inv(kind, reg0, steps, im, i - 1);
    }
    lemma_marker_suffixes_sep_free();
    lemma_file_stem_no_sep(im);
    let hint = file_stem_spec(im);
    match pre {
        DeferredState::GettingTempDir { exe: _, target: _ } => {
            match (steps[i].0, steps[i].1) {
                (
                    Event::TempDirIs { dir },
                    DeferredState::Relocating { exe: _, target: _, relocated, tempdir: _ },
                ) => {
                    lemma_generated_name_stays_out(
                        relocated@,
                        dir@,
                        hint,
                        relocated_suffix(),
                        pp,
                    );
                },
                _ => {},
            }
        },
        DeferredState::Relocating { exe: _, target: _, relocated: _, tempdir } => {
            match steps[i].0 {
                Event::Succeeded => {
                    lemma_deferred_run_index(kind, DeferredState::Init, reg0, steps, i - 1);
                    match steps[i].1 {
                        DeferredState::ShadowCopying { exe: _, shadow, victim: _ } => {
                            lemma_generated_name_stays_out(
                                shadow@,
                                tempdir@,
                                hint,
                                selfdelete_suffix(),
                                pp,
                            );
                        },
                        _ => {},
                    }
                },
                Event::Failed { err: _ } => {
                    if parent_of_spec(pp) is Some {
                        lemma_parent_shorter(pp);
                        match steps[i].1 {
                            DeferredState::ProtectedCopying {
                                exe: _,
                                shadow,
                                target: _,
                                relocated: _,
                            } => {
                                lemma_generated_name_stays_out(
                                    shadow@,
                                    parent_of_spec(pp).unwrap(),
                                    hint,
                                    selfdelete_suffix(),
                                    pp,
                                );
                            },
                            _ => {},
                        }
                    }
                },
                _ => {},
            }
        },
        DeferredState::ProtectedCopying { exe: _, shadow: _, target: _, relocated } => {
            lemma_deferred_run_index(kind, DeferredState::Init, reg0, steps, i - 1);
            if parent_of_spec(pp) is Some {
                lemma_parent_shorter(pp);
                lemma_generated_name_stays_out(
                    relocated@,
                    parent_of_spec(pp).unwrap(),
                    hint,
                    relocated_suffix(),
                    pp,
                );
            }
        },
        DeferredState::MovingAside { exe: _, old_exe: _ } => {
            lemma_deferred_run_index(kind, DeferredState::Init, reg0, steps, i - 1);
            assert(false);
        },
        DeferredState::PlacingNew { exe: _, tnew: _ } => {
            lemma_deferred_run_index(kind, DeferredState::Init, reg0, steps, i - 1);
            assert(false);
        },
        DeferredState::Publishing { exe: _, tnew: _ } => {
            lemma_deferred_run_index(kind, DeferredState::Init, reg0, steps, i - 1);
            lemma_deferred_run_index(kind, DeferredState::Init, reg0, steps, i - 2);
            assert(false);
        },
        _ => {},
    }
}

/// Every successful deferred replace went through the publication: a run of
/// the replace kind that ends in success did, at its second-to-last step,
/// rename the fully filled marker temporary onto the image path.
pub proof fn lemma_deferred_success_has_publication(
    kind: DeferredKind,
    reg0: PendingDeleteRegistration,
    steps: Seq<(Event, DeferredState, Action, PendingDeleteRegistration)>,
    im: Seq<char>,
    i: int,
)
    requires
        deferred_run(kind, DeferredState::Init, reg0, steps),
        d_resolves_to(steps, im),
        unmarked(im),
        kind is Replace,
        0 <= i < steps.len(),
        steps[i].1 == (DeferredState::Done { result: Ok::<(), OpError>(()) }),
    ensures
        1 <= i,
        exists|t: Seq<char>| #[trigger] deferred_publication_shape(kind, steps, im, i - 1, t),
{
    lemma_deferred_run_index(kind, DeferredState::Init, reg0, steps, i);
    let pre = dstate_before(DeferredState::Init, steps, i);
    match pre {
        DeferredState::Publishing { exe, tnew } => {
            lemma_deferred_inv(kind, reg0, steps, im, i - 1);
            lemma_deferred_run_index(kind, DeferredState::Init, reg0, steps, i - 1);
            lemma_deferred_publication(kind, reg0, steps, im, i - 1);
        },
        _ => {
            assert(false);
        },
    }
}

/// Watcher handoff.  Every watcher the machine asks to spawn runs from a
/// shadow copy whose file name carries the shadow-copy suffix, and the
/// process's pending-delete slot records exactly that shadow and the target
/// handed to the watcher as its one argument.  With the startup hook's
/// contract this closes the loop: the spawned process recognizes itself by
/// that suffix, adopts the watcher role, and deletes exactly the registered
/// target once this process has exited.
pub proof fn lemma_deferred_watcher_handoff(
    kind: DeferredKind,
    reg0: PendingDeleteRegistration,
    steps: Seq<(Event, DeferredState, Action, PendingDeleteRegistration)>,
    im: Seq<char>,
    i: int,
)
    requires
        deferred_run(kind, DeferredState::Init, reg0, steps),
        d_resolves_to(steps, im),
        0 <= i < steps.len(),
        steps[i].2 is SpawnWatcher,
    ensures
        steps[i].2 matches Action::SpawnWatcher { exe: sh, target } ==> {
            &&& ends_with_spec(sh@, selfdelete_suffix())
            &&& (steps[i].3.slot matches Some(sd) && sd.shadow@ == sh@ && sd.target@ == target@)
        },
{
    lemma_deferred_run_index(kind, DeferredState::Init, reg0, steps, i);
    if i > 0 {
        lemma_deferred_inv(kind, reg0, steps, im, i - 1);
    }
}

} // verus!
