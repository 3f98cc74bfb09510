//! The direct swap strategy.
//!
//! On platforms where a running executable's directory entry may be removed
//! or replaced while mapped, deletion is a plain unlink and replacement is a
//! copy into a sibling temporary file followed by one atomic rename onto the
//! image path.  Three machines cover the strategy: delete the image, delete
//! a directory tree that does not contain the image, and replace the image
//! from a path or from caller-held bytes.  Every transition is pinned by a
//! step relation, and the atomicity and permission laws are proved over runs
//! of the replace relation.

use vstd::prelude::*;
use vstd::pervasive::unreached;
use crate::errors::{FsErrorKind, OpError};
use crate::fsops::{Action, Event, touches_path};
use crate::paths::{parent_of_spec, parent_of, is_under_spec};
use crate::namegen::{temp_prefix_spec, temp_prefix_for};

verus! {

/// Where the replacement content comes from: a file the caller names, or
/// bytes the caller holds (which the front end writes when asked to).
pub enum ReplaceSource {
    /// Copy the file at this path.
    FromPath { path: String },
    /// Write the caller's in-memory buffer.
    FromBytes,
}

/// Position of a direct self-delete.
pub enum DeleteState {
    /// Waiting for `Event::Start`.
    Init,
    /// The image path is being resolved.
    ResolvingExe,
    /// The image's directory entry is being removed.
    Removing { exe: String },
    /// Finished.
    Done { result: Result<(), OpError> },
}

/// Direct self-delete: resolve the image path, remove its directory entry.
/// The inode persists until the process exits; the path is gone at once.
pub struct DirectDelete {
    /// The machine's position.
    pub state: DeleteState,
}

/// The transition relation of [`DirectDelete`]: from `pre`, consuming `ev`,
/// the machine moves to `post` and asks for `act`.
pub open spec fn delete_step_rel(
    pre: DeleteState,
    ev: Event,
    post: DeleteState,
    act: Action,
) -> bool {
    match pre {
        DeleteState::Init => ev is Start && post is ResolvingExe && act is ResolveExe,
        DeleteState::ResolvingExe => match ev {
            Event::ExeResolved { exe } => post matches DeleteState::Removing { exe: e } && e@
                == exe@ && (act matches Action::RemoveFile { path } && path@ == exe@),
            Event::Failed { err } => delete_finished(post, act, Err(OpError::Fs(err))),
            _ => false,
        },
        DeleteState::Removing { exe: _ } => match ev {
            Event::Succeeded => delete_finished(post, act, Ok(())),
            Event::Failed { err } => delete_finished(post, act, Err(OpError::Fs(err))),
            _ => false,
        },
        DeleteState::Done { result: _ } => false,
    }
}

/// The machine is done with result `r` and says so.
pub open spec fn delete_finished(post: DeleteState, act: Action, r: Result<(), OpError>) -> bool {
    post == (DeleteState::Done { result: r }) && act == (Action::Finish { result: r })
}

impl DirectDelete {
    /// A fresh machine.
    pub fn new() -> (r: Self)
        ensures
            r.state is Init,
    {
        DirectDelete { state: DeleteState::Init }
    }

    /// The events this machine can consume next.
    pub open spec fn accepts(self, ev: Event) -> bool {
        match self.state {
            DeleteState::Init => ev is Start,
            DeleteState::ResolvingExe => ev is ExeResolved || ev is Failed,
            DeleteState::Removing { .. } => ev is Succeeded || ev is Failed,
            DeleteState::Done { .. } => false,
        }
    }

    /// Whether the machine can consume `ev` now.
    pub fn can_accept(&self, ev: &Event) -> (b: bool)
        ensures
            b == self.accepts(*ev),
    {
        match (&self.state, ev) {
            (DeleteState::Init, Event::Start) => true,
            (DeleteState::ResolvingExe, Event::ExeResolved { .. }) => true,
            (DeleteState::ResolvingExe, Event::Failed { .. }) => true,
            (DeleteState::Removing { .. }, Event::Succeeded) => true,
            (DeleteState::Removing { .. }, Event::Failed { .. }) => true,
            _ => false,
        }
    }

    /// Consumes the outcome of the previous action and returns the next one.
    pub fn step(&mut self, ev: Event) -> (act: Action)
        requires
            old(self).accepts(ev),
        ensures
            delete_step_rel(old(self).state, ev, final(self).state, act),
    {
        let (post, act): (DeleteState, Action) = match (&self.state, ev) {
            (DeleteState::Init, Event::Start) => (DeleteState::ResolvingExe, Action::ResolveExe),
            (DeleteState::ResolvingExe, Event::ExeResolved { exe }) => {
                let path = exe.clone();
                (DeleteState::Removing { exe }, Action::RemoveFile { path })
            },
            (DeleteState::ResolvingExe, Event::Failed { err }) => (
                DeleteState::Done { result: Err(OpError::Fs(err)) },
                Action::Finish { result: Err(OpError::Fs(err)) },
            ),
            (DeleteState::Removing { .. }, Event::Succeeded) => (
                DeleteState::Done { result: Ok(()) },
                Action::Finish { result: Ok(()) },
            ),
            (DeleteState::Removing { .. }, Event::Failed { err }) => (
                DeleteState::Done { result: Err(OpError::Fs(err)) },
                Action::Finish { result: Err(OpError::Fs(err)) },
            ),
            _ => unreached(),
        };
        self.state = post;
        act
    }
}

/// Position of a protected-path tree delete.
pub enum TreeState {
    /// Waiting for `Event::Start`.
    Init,
    /// The tree is being removed.
    Removing,
    /// Finished.
    Done { result: Result<(), OpError> },
}

/// Direct delete of a whole directory tree that does not contain the
/// running image: one recursive removal.
pub struct DirectTreeDelete {
    /// The root of the tree to remove.
    pub dir: String,
    /// The machine's position.
    pub state: TreeState,
}

/// The transition relation of [`DirectTreeDelete`].
pub open spec fn tree_step_rel(
    dir: Seq<char>,
    pre: TreeState,
    ev: Event,
    post: TreeState,
    act: Action,
) -> bool {
    match pre {
        TreeState::Init => ev is Start && post is Removing && (act matches Action::RemoveTree {
            path,
        } && path@ == dir),
        TreeState::Removing => match ev {
            Event::Succeeded => post == (TreeState::Done { result: Ok(()) }) && act == (
            Action::Finish { result: Ok(()) }),
            Event::Failed { err } => post == (TreeState::Done {
                result: Err(OpError::Fs(err)),
            }) && act == (Action::Finish { result: Err(OpError::Fs(err)) }),
            _ => false,
        },
        TreeState::Done { result: _ } => false,
    }
}

impl DirectTreeDelete {
    /// A fresh machine for the tree rooted at `dir`.
    pub fn new(dir: String) -> (r: Self)
        ensures
            r.state is Init,
            r.dir == dir,
    {
        DirectTreeDelete { dir, state: TreeState::Init }
    }

    /// The events this machine can consume next.
    pub open spec fn accepts(self, ev: Event) -> bool {
        match self.state {
            TreeState::Init => ev is Start,
            TreeState::Removing => ev is Succeeded || ev is Failed,
            TreeState::Done { .. } => false,
        }
    }

    /// Whether the machine can consume `ev` now.
    pub fn can_accept(&self, ev: &Event) -> (b: bool)
        ensures
            b == self.accepts(*ev),
    {
        match (&self.state, ev) {
            (TreeState::Init, Event::Start) => true,
            (TreeState::Removing, Event::Succeeded) => true,
            (TreeState::Removing, Event::Failed { .. }) => true,
            _ => false,
        }
    }

    /// Consumes the outcome of the previous action and returns the next one.
    pub fn step(&mut self, ev: Event) -> (act: Action)
        requires
            old(self).accepts(ev),
        ensures
            final(self).dir == old(self).dir,
            tree_step_rel(old(self).dir@, old(self).state, ev, final(self).state, act),
    {
        let (post, act): (TreeState, Action) = match (&self.state, ev) {
            (TreeState::Init, Event::Start) => {
                let path = self.dir.clone();
                (TreeState::Removing, Action::RemoveTree { path })
            },
            (TreeState::Removing, Event::Succeeded) => (
                TreeState::Done { result: Ok(()) },
                Action::Finish { result: Ok(()) },
            ),
            (TreeState::Removing, Event::Failed { err }) => (
                TreeState::Done { result: Err(OpError::Fs(err)) },
                Action::Finish { result: Err(OpError::Fs(err)) },
            ),
            _ => unreached(),
        };
        self.state = post;
        act
    }
}

/// Position of a direct self-replace.
pub enum ReplaceState {
    /// Waiting for `Event::Start`.
    Init,
    /// The image path is being resolved.
    ResolvingExe,
    /// The permissions snapshot is being read.
    ReadingMode { exe: String },
    /// A sibling temporary file is being created in the image's directory.
    CreatingTemp { exe: String, mode: u32 },
    /// The replacement content is being put into the temporary file.
    Filling { exe: String, mode: u32, tmp: String },
    /// The snapshot is being reapplied to the temporary file.
    SettingMode { exe: String, mode: u32, tmp: String },
    /// The temporary file is being renamed onto the image path.
    Renaming { exe: String, mode: u32, tmp: String },
    /// The rename failed; the temporary file is being removed, best effort,
    /// before the rename's own error is surfaced.
    CleaningUp { err: FsErrorKind },
    /// Finished.
    Done { result: Result<(), OpError> },
}

/// Direct self-replace: snapshot the image's permission bits, fill a sibling
/// temporary file with the replacement, reapply the snapshot, and publish it
/// with one atomic rename.  The sibling directory is required: a rename
/// across directories may cross filesystems and is not atomic.
pub struct DirectReplace {
    /// Where the replacement content comes from.
    pub source: ReplaceSource,
    /// The machine's position.
    pub state: ReplaceState,
}

/// The fill action a source asks for: copy the named file onto `tmp`, or
/// write the caller's bytes into `tmp`.
pub open spec fn fill_action_ok(source: ReplaceSource, act: Action, tmp: Seq<char>) -> bool {
    match source {
        ReplaceSource::FromPath { path } => act matches Action::CopyFile { from, to } && from@
            == path@ && to@ == tmp,
        ReplaceSource::FromBytes => act matches Action::WriteBytes { to } && to@ == tmp,
    }
}

/// The machine is done with result `r` and says so.
pub open spec fn replace_finished(post: ReplaceState, act: Action, r: Result<(), OpError>) -> bool {
    post == (ReplaceState::Done { result: r }) && act == (Action::Finish { result: r })
}

/// The transition relation of [`DirectReplace`].
pub open spec fn replace_step_rel(
    source: ReplaceSource,
    pre: ReplaceState,
    ev: Event,
    post: ReplaceState,
    act: Action,
) -> bool {
    match pre {
        ReplaceState::Init => ev is Start && post is ResolvingExe && act is ResolveExe,
        ReplaceState::ResolvingExe => match ev {
            Event::ExeResolved { exe } => post matches ReplaceState::ReadingMode { exe: e } && e@
                == exe@ && (act matches Action::ReadMode { path } && path@ == exe@),
            Event::Failed { err } => replace_finished(post, act, Err(OpError::Fs(err))),
            _ => false,
        },
        ReplaceState::ReadingMode { exe } => match ev {
            Event::ModeRead { mode } => if parent_of_spec(exe@) is Some {
                post matches ReplaceState::CreatingTemp { exe: e, mode: m } && e@ == exe@ && m
                    == mode && (act matches Action::CreateTempIn { dir, prefix } && Some(dir@)
                    == parent_of_spec(exe@) && prefix@ == temp_prefix_spec(exe@))
            } else {
                replace_finished(post, act, Err(OpError::NoExecutableParent))
            },
            Event::Failed { err } => replace_finished(post, act, Err(OpError::Fs(err))),
            _ => false,
        },
        ReplaceState::CreatingTemp { exe, mode } => match ev {
            Event::TempCreated { path } => post matches ReplaceState::Filling {
                exe: e,
                mode: m,
                tmp,
            } && e@ == exe@ && m == mode && tmp@ == path@ && fill_action_ok(source, act, path@),
            Event::Failed { err } => replace_finished(post, act, Err(OpError::Fs(err))),
            _ => false,
        },
        ReplaceState::Filling { exe, mode, tmp } => match ev {
            Event::Succeeded => post matches ReplaceState::SettingMode {
                exe: e,
                mode: m,
                tmp: t,
            } && e@ == exe@ && m == mode && t@ == tmp@ && (act matches Action::SetMode {
                path,
                mode: am,
            } && path@ == tmp@ && am == mode),
            Event::Failed { err } => replace_finished(post, act, Err(OpError::Fs(err))),
            _ => false,
        },
        ReplaceState::SettingMode { exe, mode, tmp } => match ev {
            Event::Succeeded => post matches ReplaceState::Renaming { exe: e, mode: m, tmp: t }
                && e@ == exe@ && m == mode && t@ == tmp@ && (act matches Action::Rename {
                from,
                to,
            } && from@ == tmp@ && to@ == exe@),
            Event::Failed { err } => replace_finished(post, act, Err(OpError::Fs(err))),
            _ => false,
        },
        ReplaceState::Renaming { exe: _, mode: _, tmp } => match ev {
            Event::Succeeded => replace_finished(post, act, Ok(())),
            Event::Failed { err } => post == (ReplaceState::CleaningUp { err }) && (
            act matches Action::RemoveFile { path } && path@ == tmp@),
            _ => false,
        },
        ReplaceState::CleaningUp { err } => match ev {
            Event::Succeeded => replace_finished(post, act, Err(OpError::Fs(err))),
            Event::Failed { err: _ } => replace_finished(post, act, Err(OpError::Fs(err))),
            _ => false,
        },
        ReplaceState::Done { result: _ } => false,
    }
}

impl DirectReplace {
    /// A fresh machine with the given content source.
    pub fn new(source: ReplaceSource) -> (r: Self)
        ensures
            r.state is Init,
            r.source == source,
    {
        DirectReplace { source, state: ReplaceState::Init }
    }

    /// The events this machine can consume next.
    pub open spec fn accepts(self, ev: Event) -> bool {
        match self.state {
            ReplaceState::Init => ev is Start,
            ReplaceState::ResolvingExe => ev is ExeResolved || ev is Failed,
            ReplaceState::ReadingMode { .. } => ev is ModeRead || ev is Failed,
            ReplaceState::CreatingTemp { .. } => ev is TempCreated || ev is Failed,
            ReplaceState::Filling { .. } => ev is Succeeded || ev is Failed,
            ReplaceState::SettingMode { .. } => ev is Succeeded || ev is Failed,
            ReplaceState::Renaming { .. } => ev is Succeeded || ev is Failed,
            ReplaceState::CleaningUp { .. } => ev is Succeeded || ev is Failed,
            ReplaceState::Done { .. } => false,
        }
    }

    /// Whether the machine can consume `ev` now.
    pub fn can_accept(&self, ev: &Event) -> (b: bool)
        ensures
            b == self.accepts(*ev),
    {
        match (&self.state, ev) {
            (ReplaceState::Init, Event::Start) => true,
            (ReplaceState::ResolvingExe, Event::ExeResolved { .. }) => true,
            (ReplaceState::ReadingMode { .. }, Event::ModeRead { .. }) => true,
            (ReplaceState::CreatingTemp { .. }, Event::TempCreated { .. }) => true,
            (ReplaceState::Filling { .. }, Event::Succeeded) => true,
            (ReplaceState::SettingMode { .. }, Event::Succeeded) => true,
            (ReplaceState::Renaming { .. }, Event::Succeeded) => true,
            (ReplaceState::CleaningUp { .. }, Event::Succeeded) => true,
            (ReplaceState::Done { .. }, _) => false,
            (_, Event::Failed { .. }) => !matches!(&self.state, ReplaceState::Init),
            _ => false,
        }
    }

    /// Consumes the outcome of the previous action and returns the next one.
    pub fn step(&mut self, ev: Event) -> (act: Action)
        requires
            old(self).accepts(ev),
        ensures
            final(self).source == old(self).source,
            replace_step_rel(old(self).source, old(self).state, ev, final(self).state, act),
    {
        let (post, act): (ReplaceState, Action) = match (&self.state, ev) {
            (ReplaceState::Init, Event::Start) => (
                ReplaceState::ResolvingExe,
                Action::ResolveExe,
            ),
            (ReplaceState::ResolvingExe, Event::ExeResolved { exe }) => {
                let path = exe.clone();
                (ReplaceState::ReadingMode { exe }, Action::ReadMode { path })
            },
            (ReplaceState::ResolvingExe, Event::Failed { err }) => Self::fail_pair(err),
            (ReplaceState::ReadingMode { exe }, Event::ModeRead { mode }) => {
                match parent_of(exe.as_str()) {
                    Some(dir) => {
                        let prefix = temp_prefix_for(exe.as_str());
                        let e = exe.clone();
                        (
                            ReplaceState::CreatingTemp { exe: e, mode },
                            Action::CreateTempIn { dir, prefix },
                        )
                    },
                    None => (
                        ReplaceState::Done { result: Err(OpError::NoExecutableParent) },
                        Action::Finish { result: Err(OpError::NoExecutableParent) },
                    ),
                }
            },
            (ReplaceState::ReadingMode { .. }, Event::Failed { err }) => Self::fail_pair(err),
            (ReplaceState::CreatingTemp { exe, mode }, Event::TempCreated { path }) => {
                let e = exe.clone();
                let m = *mode;
                let tmp = path.clone();
                let fill = match &self.source {
                    ReplaceSource::FromPath { path: src } => Action::CopyFile {
                        from: src.clone(),
                        to: path,
                    },
                    ReplaceSource::FromBytes => Action::WriteBytes { to: path },
                };
                (ReplaceState::Filling { exe: e, mode: m, tmp }, fill)
            },
            (ReplaceState::CreatingTemp { .. }, Event::Failed { err }) => Self::fail_pair(err),
            (ReplaceState::Filling { exe, mode, tmp }, Event::Succeeded) => {
                let path = tmp.clone();
                let m = *mode;
                (
                    ReplaceState::SettingMode { exe: exe.clone(), mode: m, tmp: tmp.clone() },
                    Action::SetMode { path, mode: m },
                )
            },
            (ReplaceState::Filling { .. }, Event::Failed { err }) => Self::fail_pair(err),
            (ReplaceState::SettingMode { exe, mode, tmp }, Event::Succeeded) => {
                let from = tmp.clone();
                let to = exe.clone();
                (
                    ReplaceState::Renaming { exe: exe.clone(), mode: *mode, tmp: tmp.clone() },
                    Action::Rename { from, to },
                )
            },
            (ReplaceState::SettingMode { .. }, Event::Failed { err }) => Self::fail_pair(err),
            (ReplaceState::Renaming { .. }, Event::Succeeded) => (
                ReplaceState::Done { result: Ok(()) },
                Action::Finish { result: Ok(()) },
            ),
            (ReplaceState::Renaming { exe: _, mode: _, tmp }, Event::Failed { err }) => {
                let path = tmp.clone();
                (ReplaceState::CleaningUp { err }, Action::RemoveFile { path })
            },
            (ReplaceState::CleaningUp { err }, Event::Succeeded) => Self::fail_pair(*err),
            (ReplaceState::CleaningUp { err }, Event::Failed { err: _ }) => Self::fail_pair(*err),
            _ => unreached(),
        };
        self.state = post;
        act
    }

    /// A finished pair surfacing the filesystem error `err`.
    fn fail_pair(err: FsErrorKind) -> (r: (ReplaceState, Action))
        ensures
            replace_finished(r.0, r.1, Err(OpError::Fs(err))),
    {
        (
            ReplaceState::Done { result: Err(OpError::Fs(err)) },
            Action::Finish { result: Err(OpError::Fs(err)) },
        )
    }
}

/// `steps` is a run of the replace machine from `s0`: each entry is the
/// event consumed, the state entered, and the action emitted, and each
/// consecutive pair is related by the step relation.
pub open spec fn replace_run(
    source: ReplaceSource,
    s0: ReplaceState,
    steps: Seq<(Event, ReplaceState, Action)>,
) -> bool
    decreases steps.len(),
{
    steps.len() == 0 || {
        &&& replace_step_rel(source, s0, steps[0].0, steps[0].1, steps[0].2)
        &&& replace_run(source, steps[0].1, steps.skip(1))
    }
}

/// The state from which step `i` of a run from `s0` was taken.
pub open spec fn state_before(
    s0: ReplaceState,
    steps: Seq<(Event, ReplaceState, Action)>,
    i: int,
) -> ReplaceState {
    if i == 0 {
        s0
    } else {
        steps[i - 1].1
    }
}

/// Every step of a run is an instance of the step relation.
pub proof fn lemma_replace_run_index(
    source: ReplaceSource,
    s0: ReplaceState,
    steps: Seq<(Event, ReplaceState, Action)>,
    i: int,
)
    requires
        replace_run(source, s0, steps),
        0 <= i < steps.len(),
    ensures
        replace_step_rel(source, state_before(s0, steps, i), steps[i].0, steps[i].1, steps[i].2),
    decreases i,
{
    if i > 0 {
        lemma_replace_run_index(source, steps[0].1, steps.skip(1), i - 1);
        assert(steps.skip(1)[i - 1] == steps[i]);
        if i - 1 > 0 {
            assert(steps.skip(1)[i - 2] == steps[i - 1]);
        }
    }
}

/// The image path a state has recorded, if any.
pub open spec fn state_image(s: ReplaceState) -> Option<Seq<char>> {
    match s {
        ReplaceState::ReadingMode { exe } => Some(exe@),
        ReplaceState::CreatingTemp { exe, mode: _ } => Some(exe@),
        ReplaceState::Filling { exe, mode: _, tmp: _ } => Some(exe@),
        ReplaceState::SettingMode { exe, mode: _, tmp: _ } => Some(exe@),
        ReplaceState::Renaming { exe, mode: _, tmp: _ } => Some(exe@),
        _ => None,
    }
}

/// The temporary path a state has recorded, if any.
pub open spec fn state_tmp(s: ReplaceState) -> Option<Seq<char>> {
    match s {
        ReplaceState::Filling { exe: _, mode: _, tmp } => Some(tmp@),
        ReplaceState::SettingMode { exe: _, mode: _, tmp } => Some(tmp@),
        ReplaceState::Renaming { exe: _, mode: _, tmp } => Some(tmp@),
        _ => None,
    }
}

/// Every image resolution in the run answered `im`.
pub open spec fn resolves_to(steps: Seq<(Event, ReplaceState, Action)>, im: Seq<char>) -> bool {
    forall|i: int|
        0 <= i < steps.len() ==> ((#[trigger] steps[i]).0 matches Event::ExeResolved { exe }
            ==> exe@ == im)
}

/// No temporary file in the run was created at `im`.  This holds of any
/// honest front end: the temporary-file maker only ever creates a fresh
/// file, and the image already exists.
pub open spec fn temps_avoid(steps: Seq<(Event, ReplaceState, Action)>, im: Seq<char>) -> bool {
    forall|i: int|
        0 <= i < steps.len() ==> ((#[trigger] steps[i]).0 matches Event::TempCreated { path }
            ==> path@ != im)
}

/// The run invariant behind the atomicity law: any recorded image path is
/// the resolved one, and any recorded temporary path differs from it.
pub open spec fn replace_inv(s: ReplaceState, im: Seq<char>) -> bool {
    &&& (state_image(s) matches Some(e) ==> e == im)
    &&& (state_tmp(s) matches Some(t) ==> t != im)
}

/// The run invariant holds after every step of a run from `Init`.
pub proof fn lemma_replace_inv(
    source: ReplaceSource,
    steps: Seq<(Event, ReplaceState, Action)>,
    im: Seq<char>,
    k: int,
)
    requires
        replace_run(source, ReplaceState::Init, steps),
        resolves_to(steps, im),
        temps_avoid(steps, im),
        0 <= k < steps.len(),
    ensures
        replace_inv(steps[k].1, im),
    decreases k,
{
    lemma_replace_run_index(source, ReplaceState::Init, steps, k);
    if k > 0 {
        lemma_replace_inv(source, steps, im, k - 1);
    }
}

/// The shape of the one publication step and its preparation: at step `i`
/// the temporary file `t` was renamed onto the image path, the rename
/// succeeded, the permission snapshot `m` had been reapplied to `t` at step
/// `i - 1`, `t` had been fully filled from the source at step `i - 2`, was
/// created fresh at step `i - 3` in the image's own directory, and `m` is
/// exactly what the read of the image's permission bits answered.
pub open spec fn publication_shape(
    source: ReplaceSource,
    steps: Seq<(Event, ReplaceState, Action)>,
    im: Seq<char>,
    i: int,
    t: Seq<char>,
    m: u32,
) -> bool {
    &&& 4 <= i < steps.len()
    &&& t != im
    &&& (steps[i].2 matches Action::Rename { from, to } && from@ == t && to@ == im)
    &&& steps[i].0 is Succeeded
    &&& (steps[i - 1].2 matches Action::SetMode { path, mode } && path@ == t && mode == m)
    &&& steps[i - 1].0 is Succeeded
    &&& fill_action_ok(source, steps[i - 2].2, t)
    &&& (steps[i - 2].0 matches Event::TempCreated { path } && path@ == t)
    &&& (steps[i - 3].2 matches Action::CreateTempIn { dir, prefix: _ } && Some(dir@)
        == parent_of_spec(im))
    &&& (steps[i - 3].0 matches Event::ModeRead { mode } && mode == m)
    &&& (steps[i - 4].2 matches Action::ReadMode { path } && path@ == im)
}

/// Atomicity and permission preservation of a direct replace.  In any run
/// of the replace machine on the image `im`, the only step that touches the
/// image path at all is a successful atomic rename whose source is a fresh
/// sibling temporary file that had already received the full replacement
/// content and the image's own permission bits.  In particular the image
/// path is never written directly, never removed, and never holds partial
/// content, and a run with no such rename leaves it untouched.
pub proof fn lemma_replace_publication(
    source: ReplaceSource,
    steps: Seq<(Event, ReplaceState, Action)>,
    im: Seq<char>,
    i: int,
)
    requires
        replace_run(source, ReplaceState::Init, steps),
        resolves_to(steps, im),
        temps_avoid(steps, im),
        0 <= i < steps.len(),
        touches_path(steps[i].2, im),
    ensures
        exists|t: Seq<char>, m: u32| publication_shape(source, steps, im, i, t, m),
{
    lemma_replace_run_index(source, ReplaceState::Init, steps, i);
    let pre = state_before(ReplaceState::Init, steps, i);
    if i > 0 {
        lemma_replace_inv(source, steps, im, i - 1);
    }
    match pre {
        ReplaceState::SettingMode { exe, mode, tmp } => {
            // the only transition that touches the image: the publication
            assert(i >= 1);
            lemma_replace_run_index(source, ReplaceState::Init, steps, i - 1);
            assert(i >= 2);
            lemma_replace_run_index(source, ReplaceState::Init, steps, i - 2);
            assert(i >= 3);
            lemma_replace_run_index(source, ReplaceState::Init, steps, i - 3);
            assert(i >= 4);
            lemma_replace_run_index(source, ReplaceState::Init, steps, i - 4);
            if i - 4 > 0 {
                lemma_replace_inv(source, steps, im, i - 5);
            }
            assert(publication_shape(source, steps, im, i, tmp@, mode));
        },
        _ => {
            assert(false);
        },
    }
}

/// Every successful direct replace went through the publication: a run that
/// ends in success did, at its second-to-last step, rename the prepared
/// temporary onto the image path, with the full content and the permission
/// snapshot already in place.
pub proof fn lemma_replace_success_has_publication(
    source: ReplaceSource,
    steps: Seq<(Event, ReplaceState, Action)>,
    im: Seq<char>,
    i: int,
)
    requires
        replace_run(source, ReplaceState::Init, steps),
        resolves_to(steps, im),
        temps_avoid(steps, im),
        0 <= i < steps.len(),
        steps[i].1 == (ReplaceState::Done { result: Ok::<(), OpError>(()) }),
    ensures
        1 <= i,
        exists|t: Seq<char>, m: u32| #[trigger] publication_shape(source, steps, im, i - 1, t, m),
{
    lemma_replace_run_index(source, ReplaceState::Init, steps, i);
    let pre = state_before(ReplaceState::Init, steps, i);
    match pre {
        ReplaceState::Renaming { exe, mode, tmp } => {
            lemma_replace_inv(source, steps, im, i - 1);
            lemma_replace_run_index(source, ReplaceState::Init, steps, i - 1);
            lemma_replace_publication(source, steps, im, i - 1);
        },
        _ => {
            assert(false);
        },
    }
}

/// `steps` is a run of the protected-path tree delete machine from `s0`.
pub open spec fn tree_run(
    dir: Seq<char>,
    s0: TreeState,
    steps: Seq<(Event, TreeState, Action)>,
) -> bool
    decreases steps.len(),
{
    steps.len() == 0 || {
        &&& tree_step_rel(dir, s0, steps[0].0, steps[0].1, steps[0].2)
        &&& tree_run(dir, steps[0].1, steps.skip(1))
    }
}

/// No self-corruption under a protected-path delete: a run of the tree
/// delete machine for `dir` touches only paths under `dir`; any path not
/// under it — the running image's own path in particular — is never removed,
/// written, or re-moded by any step.
pub proof fn lemma_tree_delete_stays_inside(
    dir: Seq<char>,
    steps: Seq<(Event, TreeState, Action)>,
    p: Seq<char>,
    i: int,
)
    requires
        tree_run(dir, TreeState::Init, steps),
        0 <= i < steps.len(),
        !is_under_spec(p, dir),
    ensures
        !touches_path(steps[i].2, p),
    decreases i,
{
    if i == 0 {
    } else {
        lemma_tree_delete_stays_inside_from(dir, steps[0].1, steps.skip(1), p, i - 1);
        assert(steps.skip(1)[i - 1] == steps[i]);
    }
}

/// Helper for [`lemma_tree_delete_stays_inside`]: the same claim for a run
/// from any state of the tree machine.
proof fn lemma_tree_delete_stays_inside_from(
    dir: Seq<char>,
    s0: TreeState,
    steps: Seq<(Event, TreeState, Action)>,
    p: Seq<char>,
    i: int,
)
    requires
        tree_run(dir, s0, steps),
        0 <= i < steps.len(),
        !is_under_spec(p, dir),
    ensures
        !touches_path(steps[i].2, p),
    decreases i,
{
    if i > 0 {
        lemma_tree_delete_stays_inside_from(dir, steps[0].1, steps.skip(1), p, i - 1);
        assert(steps.skip(1)[i - 1] == steps[i]);
    }
}

} // verus!
