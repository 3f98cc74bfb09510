use std::collections::HashMap;

use self_replace::errors::{FsErrorKind, OpError};
use self_replace::fsops::{Action, Event};
use self_replace::registry::PendingDeleteRegistration;
use self_replace::watcher::{startup_role, StartupRole};
use self_replace::{
    self_delete, self_delete_outside_path, self_replace, self_replace_with, Operation, Strategy,
};

#[derive(Clone, Debug, PartialEq, Eq)]
struct ModelFile {
    content: Vec<u8>,
    mode: u32,
}

/// A tiny model of the filesystem and process world the front end would
/// drive the machines against.
struct World {
    fs: HashMap<String, ModelFile>,
    exe: String,
    temp_dir: String,
    next_temp: u32,
    bytes: Option<Vec<u8>>,
    spawned: Vec<(String, String)>,
    handle_open: Option<String>,
    fail_next_rename: Option<FsErrorKind>,
    fail_rename_into: Option<String>,
    fail_open: Option<FsErrorKind>,
}

impl World {
    fn new(exe: &str) -> World {
        World {
            fs: HashMap::new(),
            exe: String::from(exe),
            temp_dir: String::from("/tmp"),
            next_temp: 0,
            bytes: None,
            spawned: Vec::new(),
            handle_open: None,
            fail_next_rename: None,
            fail_rename_into: None,
            fail_open: None,
        }
    }

    fn put(&mut self, path: &str, content: &[u8], mode: u32) {
        self.fs.insert(String::from(path), ModelFile { content: content.to_vec(), mode });
    }

    fn rename_should_fail(&mut self, to: &str) -> Option<FsErrorKind> {
        if let Some(err) = self.fail_next_rename.take() {
            return Some(err);
        }
        if let Some(prefix) = &self.fail_rename_into {
            if to.starts_with(prefix.as_str()) {
                return Some(FsErrorKind::CrossDevice);
            }
        }
        None
    }

    fn perform(&mut self, act: &Action) -> Option<Event> {
        match act {
            Action::ResolveExe => Some(Event::ExeResolved { exe: self.exe.clone() }),
            Action::QueryTempDir => Some(Event::TempDirIs { dir: self.temp_dir.clone() }),
            Action::ReadMode { path } => match self.fs.get(path) {
                Some(f) => Some(Event::ModeRead { mode: f.mode }),
                None => Some(Event::Failed { err: FsErrorKind::NotFound }),
            },
            Action::CreateTempIn { dir, prefix } => {
                let path = format!("{}/{}{:08}", dir, prefix, self.next_temp);
                self.next_temp += 1;
                assert!(!self.fs.contains_key(&path), "a temporary file is always fresh");
                self.fs.insert(path.clone(), ModelFile { content: Vec::new(), mode: 0o600 });
                Some(Event::TempCreated { path })
            },
            Action::CopyFile { from, to } => match self.fs.get(from).cloned() {
                Some(f) => {
                    self.fs.insert(to.clone(), f);
                    Some(Event::Succeeded)
                },
                None => Some(Event::Failed { err: FsErrorKind::NotFound }),
            },
            Action::WriteBytes { to } => {
                let bytes = self.bytes.clone().expect("the caller holds replacement bytes");
                match self.fs.get_mut(to) {
                    Some(f) => f.content = bytes,
                    None => {
                        self.fs.insert(to.clone(), ModelFile { content: bytes, mode: 0o600 });
                    },
                }
                Some(Event::Succeeded)
            },
            Action::SetMode { path, mode } => match self.fs.get_mut(path) {
                Some(f) => {
                    f.mode = *mode;
                    Some(Event::Succeeded)
                },
                None => Some(Event::Failed { err: FsErrorKind::NotFound }),
            },
            Action::Rename { from, to } => {
                if let Some(err) = self.rename_should_fail(to) {
                    return Some(Event::Failed { err });
                }
                match self.fs.remove(from) {
                    Some(f) => {
                        self.fs.insert(to.clone(), f);
                        Some(Event::Succeeded)
                    },
                    None => Some(Event::Failed { err: FsErrorKind::NotFound }),
                }
            },
            Action::RemoveFile { path } => match self.fs.remove(path) {
                Some(_) => Some(Event::Succeeded),
                None => Some(Event::Failed { err: FsErrorKind::NotFound }),
            },
            Action::RemoveTree { path } => {
                let prefix = format!("{}/", path);
                self.fs.retain(|k, _| k != path && !k.starts_with(&prefix));
                Some(Event::Succeeded)
            },
            Action::OpenDeleteOnClose { path } => {
                if let Some(err) = self.fail_open.take() {
                    return Some(Event::Failed { err });
                }
                self.handle_open = Some(path.clone());
                Some(Event::Succeeded)
            },
            Action::SpawnWatcher { exe, target } => {
                self.spawned.push((exe.clone(), target.clone()));
                Some(Event::Succeeded)
            },
            Action::SleepGrace => Some(Event::Succeeded),
            Action::CloseShadowHandle => {
                self.handle_open = None;
                Some(Event::Succeeded)
            },
            Action::Finish { .. } => None,
        }
    }

    /// Drives the operation to completion, checking along the way that no
    /// action ever writes content directly to the image path.
    fn drive(&mut self, op: &mut Operation, reg: &mut PendingDeleteRegistration) -> Result<(), OpError> {
        let mut ev = Event::Start;
        loop {
            let act = op.step(reg, ev);
            match &act {
                Action::CopyFile { from: _, to } => {
                    assert_ne!(to, &self.exe, "content must reach the image only by rename");
                },
                Action::WriteBytes { to } => {
                    assert_ne!(to, &self.exe, "content must reach the image only by rename");
                },
                _ => {},
            }
            match self.perform(&act) {
                Some(next) => ev = next,
                None => match act {
                    Action::Finish { result } => return result,
                    _ => unreachable!(),
                },
            }
        }
    }
}

#[test]
fn test_self_delete() {
    // the image deletes itself: afterwards its path no longer resolves
    let mut w = World::new("/work/deletes-itself");
    w.put("/work/deletes-itself", b"image", 0o755);
    let mut op = self_delete(Strategy::Direct);
    let mut reg = PendingDeleteRegistration::new();
    assert_eq!(w.drive(&mut op, &mut reg), Ok(()));
    assert!(!w.fs.contains_key("/work/deletes-itself"));
}

#[test]
fn direct_delete_surfaces_the_filesystem_error() {
    let mut w = World::new("/work/tool");
    let mut op = self_delete(Strategy::Direct);
    let mut reg = PendingDeleteRegistration::new();
    assert_eq!(w.drive(&mut op, &mut reg), Err(OpError::Fs(FsErrorKind::NotFound)));
}

#[test]
fn test_self_replace() {
    // the image replaces itself with the hello executable: afterwards its
    // path holds exactly the new content with the old permission bits
    let mut w = World::new("/work/replaces-itself");
    w.put("/work/replaces-itself", b"old-program", 0o755);
    w.put("/work/hello", b"Hello World!", 0o644);
    let mut op = self_replace(Strategy::Direct, String::from("/work/hello"));
    let mut reg = PendingDeleteRegistration::new();
    assert_eq!(w.drive(&mut op, &mut reg), Ok(()));
    let image = w.fs.get("/work/replaces-itself").expect("the image path must still resolve");
    assert_eq!(image.content, b"Hello World!".to_vec());
    assert_eq!(image.mode, 0o755, "the old permission bits are preserved");
    let hello = w.fs.get("/work/hello").expect("the source is left for the caller to delete");
    assert_eq!(hello.content, b"Hello World!".to_vec());
}

#[test]
fn replace_from_bytes() {
    let mut w = World::new("/work/tool");
    w.put("/work/tool", b"old", 0o700);
    w.bytes = Some(b"new content".to_vec());
    let mut op = self_replace_with(Strategy::Direct);
    let mut reg = PendingDeleteRegistration::new();
    assert_eq!(w.drive(&mut op, &mut reg), Ok(()));
    let image = w.fs.get("/work/tool").unwrap();
    assert_eq!(image.content, b"new content".to_vec());
    assert_eq!(image.mode, 0o700);
}

#[test]
fn replace_with_missing_source_leaves_the_image_untouched() {
    // a replacement from a path that does not exist fails with not-found
    // and the image keeps its content and permission bits
    let mut w = World::new("/work/tool");
    w.put("/work/tool", b"original", 0o755);
    let mut op = self_replace(Strategy::Direct, String::from("/work/no-such-file"));
    let mut reg = PendingDeleteRegistration::new();
    assert_eq!(w.drive(&mut op, &mut reg), Err(OpError::Fs(FsErrorKind::NotFound)));
    let image = w.fs.get("/work/tool").unwrap();
    assert_eq!(image.content, b"original".to_vec());
    assert_eq!(image.mode, 0o755);
}

#[test]
fn replace_without_a_parent_directory_fails() {
    let mut w = World::new("tool");
    w.put("tool", b"original", 0o755);
    let mut op = self_replace(Strategy::Direct, String::from("/work/new"));
    let mut reg = PendingDeleteRegistration::new();
    assert_eq!(w.drive(&mut op, &mut reg), Err(OpError::NoExecutableParent));
    assert_eq!(
        OpError::NoExecutableParent.message(),
        "executable has no known parent folder"
    );
    assert_eq!(w.fs.get("tool").unwrap().content, b"original".to_vec());
}

#[test]
fn replace_cleans_its_temporary_when_the_rename_fails() {
    let mut w = World::new("/work/tool");
    w.put("/work/tool", b"original", 0o755);
    w.put("/work/new", b"next", 0o644);
    w.fail_next_rename = Some(FsErrorKind::PermissionDenied);
    let mut op = self_replace(Strategy::Direct, String::from("/work/new"));
    let mut reg = PendingDeleteRegistration::new();
    assert_eq!(w.drive(&mut op, &mut reg), Err(OpError::Fs(FsErrorKind::PermissionDenied)));
    let image = w.fs.get("/work/tool").unwrap();
    assert_eq!(image.content, b"original".to_vec());
    assert_eq!(image.mode, 0o755);
    // the filled temporary was removed, best effort, before surfacing
    assert!(
        !w.fs.keys().any(|k| k.contains(".__temp__")),
        "no in-flight temporary may be left behind"
    );
}

#[test]
fn test_self_delete_outside_path() {
    // the whole directory tree disappears, and the image, which lives
    // elsewhere, is untouched
    let mut w = World::new("/work/deletes-itself-outside-path");
    w.put("/work/deletes-itself-outside-path", b"image", 0o755);
    w.put("/data/a", b"1", 0o644);
    w.put("/data/sub/b", b"2", 0o644);
    let mut op = self_delete_outside_path(Strategy::Direct, String::from("/data"));
    let mut reg = PendingDeleteRegistration::new();
    assert_eq!(w.drive(&mut op, &mut reg), Ok(()));
    assert!(!w.fs.contains_key("/data/a"));
    assert!(!w.fs.contains_key("/data/sub/b"));
    let image = w.fs.get("/work/deletes-itself-outside-path").unwrap();
    assert_eq!(image.content, b"image".to_vec());
    assert_eq!(image.mode, 0o755);
}

#[test]
fn deferred_delete_arms_a_watcher() {
    let mut w = World::new("/work/tool");
    w.put("/work/tool", b"image", 0o755);
    let mut op = self_delete(Strategy::Deferred);
    let mut reg = PendingDeleteRegistration::new();
    assert_eq!(w.drive(&mut op, &mut reg), Ok(()));

    // the image path is free; the original now lives under a relocated
    // marker name in the temporary directory
    assert!(!w.fs.contains_key("/work/tool"));
    assert_eq!(w.spawned.len(), 1);
    let (shadow, victim) = w.spawned[0].clone();
    assert!(shadow.starts_with("/tmp/."));
    assert!(shadow.ends_with(".__selfdelete__.exe"));
    assert!(victim.ends_with(".__relocated__.exe"));
    assert_eq!(w.fs.get(&victim).unwrap().content, b"image".to_vec());
    assert_eq!(w.fs.get(&shadow).unwrap().content, b"image".to_vec());

    // the single slot records exactly what was armed
    let slot = reg.slot.as_ref().expect("the schedule must be registered");
    assert_eq!(slot.shadow, shadow);
    assert_eq!(slot.target, victim);

    // the spawned process recognizes itself and deletes the victim once
    // the parent has exited
    let args = vec![shadow.clone(), victim.clone()];
    match startup_role(&shadow, &args) {
        StartupRole::Watcher { target } => {
            assert_eq!(target, victim);
            w.fs.remove(&target);
        },
        _ => panic!("the shadow copy must adopt the watcher role"),
    }
    assert!(!w.fs.contains_key(&victim), "the relocated image is eventually gone");
}

#[test]
fn deferred_schedule_is_registered_only_once() {
    let mut w = World::new("/work/tool");
    w.put("/work/tool", b"image", 0o755);
    let mut reg = PendingDeleteRegistration::new();

    let mut first = self_delete(Strategy::Deferred);
    assert_eq!(w.drive(&mut first, &mut reg), Ok(()));

    // the image is back for the second attempt; only the slot persists
    w.put("/work/tool", b"image", 0o755);
    let mut second = self_delete(Strategy::Deferred);
    assert_eq!(w.drive(&mut second, &mut reg), Err(OpError::AlreadyScheduled));
}

#[test]
fn deferred_replace_publishes_the_new_content() {
    let mut w = World::new("/work/tool");
    w.put("/work/tool", b"old-program", 0o755);
    w.put("/work/hello", b"Hello World!", 0o644);
    let mut op = self_replace(Strategy::Deferred, String::from("/work/hello"));
    let mut reg = PendingDeleteRegistration::new();
    assert_eq!(w.drive(&mut op, &mut reg), Ok(()));
    let image = w.fs.get("/work/tool").expect("the image path must resolve again");
    assert_eq!(image.content, b"Hello World!".to_vec());
    assert_eq!(w.spawned.len(), 1, "the old image's deletion is scheduled");
    assert!(w.spawned[0].0.ends_with(".__selfdelete__.exe"));
}

#[test]
fn deferred_protected_delete_stays_out_of_the_protected_directory() {
    let mut w = World::new("/data/app/tool");
    w.put("/data/app/tool", b"image", 0o755);
    // renames into the temporary directory fail, as across filesystems
    w.fail_rename_into = Some(String::from("/tmp/"));
    let mut op = self_delete_outside_path(Strategy::Deferred, String::from("/data/app"));
    let mut reg = PendingDeleteRegistration::new();
    assert_eq!(w.drive(&mut op, &mut reg), Ok(()));

    // the machinery left nothing of its own inside the protected
    // directory: shadow and relocated image live in its parent
    let (shadow, victim) = w.spawned[0].clone();
    assert!(shadow.starts_with("/data/."));
    assert!(!shadow.starts_with("/data/app/"));
    assert!(victim.starts_with("/data/."));
    assert!(!victim.starts_with("/data/app/"));
    assert!(!w.fs.contains_key("/data/app/tool"));
    assert!(
        !w.fs.keys().any(|k| k.starts_with("/data/app/")),
        "nothing new may be created under the directory being vacated"
    );
}

#[test]
fn deferred_replace_surfaces_a_cross_device_rename() {
    let mut w = World::new("/work/tool");
    w.put("/work/tool", b"image", 0o755);
    w.put("/work/new", b"next", 0o644);
    // the very first rename, moving the image aside, fails
    w.fail_next_rename = Some(FsErrorKind::CrossDevice);
    let mut op = self_replace(Strategy::Deferred, String::from("/work/new"));
    let mut reg = PendingDeleteRegistration::new();
    assert_eq!(w.drive(&mut op, &mut reg), Err(OpError::Fs(FsErrorKind::CrossDevice)));
    assert_eq!(w.fs.get("/work/tool").unwrap().content, b"image".to_vec());
}

#[test]
fn deferred_delete_surfaces_a_missing_disposition() {
    let mut w = World::new("/work/tool");
    w.put("/work/tool", b"image", 0o755);
    w.fail_open = Some(FsErrorKind::Unsupported);
    let mut op = self_delete(Strategy::Deferred);
    let mut reg = PendingDeleteRegistration::new();
    assert_eq!(w.drive(&mut op, &mut reg), Err(OpError::Fs(FsErrorKind::Unsupported)));
    // the single slot was taken before the failure and is never given back
    assert!(reg.armed());
}

#[test]
fn protected_path_without_a_parent_fails() {
    let mut w = World::new("/tool");
    w.put("/tool", b"image", 0o755);
    // force the fallback, whose protected path has no parent to move into
    w.fail_rename_into = Some(String::from("/tmp/"));
    let mut op = self_delete_outside_path(Strategy::Deferred, String::from("/"));
    let mut reg = PendingDeleteRegistration::new();
    assert_eq!(w.drive(&mut op, &mut reg), Err(OpError::NoProtectedParent));
}

#[test]
fn direct_replace_surfaces_an_unclassified_error() {
    let mut w = World::new("/work/tool");
    w.put("/work/tool", b"original", 0o755);
    w.put("/work/new", b"next", 0o644);
    w.fail_next_rename = Some(FsErrorKind::Other);
    let mut op = self_replace(Strategy::Direct, String::from("/work/new"));
    let mut reg = PendingDeleteRegistration::new();
    assert_eq!(w.drive(&mut op, &mut reg), Err(OpError::Fs(FsErrorKind::Other)));
}

#[test]
fn every_error_has_its_message() {
    assert_eq!(OpError::Fs(FsErrorKind::NotFound).message(), "file not found");
    assert_eq!(OpError::Fs(FsErrorKind::PermissionDenied).message(), "permission denied");
    assert_eq!(OpError::Fs(FsErrorKind::CrossDevice).message(), "rename across filesystems");
    assert_eq!(OpError::Fs(FsErrorKind::Unsupported).message(), "operation not supported here");
    assert_eq!(OpError::Fs(FsErrorKind::Other).message(), "filesystem error");
    assert_eq!(OpError::AlreadyScheduled.message(), "deletion already scheduled");
    assert_eq!(OpError::NoParentDirectory.message(), "path has no parent");
    assert_eq!(OpError::NoExecutableParent.message(), "executable has no known parent folder");
    assert_eq!(OpError::NoProtectedParent.message(), "protected path has no parent");
}
