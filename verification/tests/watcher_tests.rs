use self_replace::watcher::{
    find_parent_pid, parent_wait_outcome, startup_role, watcher_outcome, ProcessEntry,
    StartupRole,
};

#[test]
fn normal_image_keeps_running() {
    let args = vec![String::from("/usr/bin/tool")];
    match startup_role("/usr/bin/tool", &args) {
        StartupRole::Normal => {},
        _ => panic!("an unmarked image must proceed normally"),
    }
}

#[test]
fn shadow_image_becomes_watcher() {
    let exe = "/tmp/.tool.abcdefghijklmnopqrstuvwxyzabcdef.__selfdelete__.exe";
    let args = vec![String::from(exe), String::from("/tmp/.tool.x.__relocated__.exe")];
    match startup_role(exe, &args) {
        StartupRole::Watcher { target } => {
            assert_eq!(target, "/tmp/.tool.x.__relocated__.exe");
        },
        _ => panic!("a marked image with two arguments must become the watcher"),
    }
}

#[test]
fn shadow_image_with_broken_arguments_exits() {
    let exe = "/tmp/.x.__selfdelete__.exe";
    let none: Vec<String> = vec![String::from(exe)];
    match startup_role(exe, &none) {
        StartupRole::WatcherBadArgs => {},
        _ => panic!("a marked image without its target argument must fail"),
    }
    let extra = vec![String::from(exe), String::from("a"), String::from("b")];
    match startup_role(exe, &extra) {
        StartupRole::WatcherBadArgs => {},
        _ => panic!("a marked image with extra arguments must fail"),
    }
}

#[test]
fn parent_lookup_finds_first_entry() {
    let table = vec![
        ProcessEntry { pid: 1, parent_pid: 0 },
        ProcessEntry { pid: 40, parent_pid: 1 },
        ProcessEntry { pid: 41, parent_pid: 40 },
    ];
    assert_eq!(find_parent_pid(&table, 41), Some(40));
    assert_eq!(find_parent_pid(&table, 40), Some(1));
    assert_eq!(find_parent_pid(&table, 99), None);
    assert_eq!(find_parent_pid(&Vec::new(), 1), None);
}

#[test]
fn wait_verdicts() {
    // parent found, wait signalled: success
    assert!(parent_wait_outcome(true, Some(40), true, true));
    // parent cannot even be opened: treated as already exited
    assert!(parent_wait_outcome(true, Some(40), false, false));
    // own entry missing from the table: error
    assert!(!parent_wait_outcome(true, None, true, true));
    // the table itself cannot be read: error
    assert!(!parent_wait_outcome(false, Some(40), true, true));
    // wait returned without the termination signal: error
    assert!(!parent_wait_outcome(true, Some(40), true, false));
}

#[test]
fn watcher_final_actions() {
    let ok = watcher_outcome(true, true);
    assert!(ok.spawn_purge);
    assert_eq!(ok.exit_code, 0);
    let bad_wait = watcher_outcome(false, true);
    assert!(!bad_wait.spawn_purge);
    assert_eq!(bad_wait.exit_code, 1);
    let bad_delete = watcher_outcome(true, false);
    assert!(!bad_delete.spawn_purge);
    assert_eq!(bad_delete.exit_code, 1);
}
