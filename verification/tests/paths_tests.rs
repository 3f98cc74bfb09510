use self_replace::errors::OpError;
use self_replace::paths::{
    ends_with_str, file_name_of, file_stem_of, get_directory_of, parent_of, path_is_under,
    path_join,
};

#[test]
fn parent_of_ordinary_path() {
    assert_eq!(parent_of("/usr/bin/tool").as_deref(), Some("/usr/bin"));
    assert_eq!(parent_of("/a/b").as_deref(), Some("/a"));
    assert_eq!(parent_of("a/b").as_deref(), Some("a"));
}

#[test]
fn parent_of_near_root() {
    assert_eq!(parent_of("/tool").as_deref(), Some("/"));
    assert_eq!(parent_of("/"), None);
    assert_eq!(parent_of("tool"), None);
    assert_eq!(parent_of(""), None);
}

#[test]
fn get_directory_of_reports_missing_parent() {
    assert_eq!(get_directory_of("/opt/x").ok().as_deref(), Some("/opt"));
    assert_eq!(get_directory_of("bare"), Err(OpError::NoParentDirectory));
    assert_eq!(
        OpError::NoParentDirectory.message(),
        "path has no parent"
    );
}

#[test]
fn file_name_and_stem() {
    assert_eq!(file_name_of("/a/b/prog.exe"), "prog.exe");
    assert_eq!(file_name_of("prog"), "prog");
    assert_eq!(file_name_of("/a/b/"), "");
    assert_eq!(file_stem_of("/a/b/prog.exe").as_deref(), Some("prog"));
    assert_eq!(file_stem_of("archive.tar.gz").as_deref(), Some("archive.tar"));
    assert_eq!(file_stem_of(".hidden").as_deref(), Some(".hidden"));
    assert_eq!(file_stem_of("plain").as_deref(), Some("plain"));
    assert_eq!(file_stem_of("/a/b/"), None);
}

#[test]
fn join_handles_trailing_separator() {
    assert_eq!(path_join("/tmp", "x"), "/tmp/x");
    assert_eq!(path_join("/tmp/", "x"), "/tmp/x");
    assert_eq!(path_join("", "x"), "/x");
}

#[test]
fn ends_with_exact_suffix() {
    assert!(ends_with_str("prog.__selfdelete__.exe", ".__selfdelete__.exe"));
    assert!(!ends_with_str("prog.exe", ".__selfdelete__.exe"));
    assert!(ends_with_str("abc", ""));
    assert!(!ends_with_str("", "a"));
}

#[test]
fn under_requires_component_boundary() {
    assert!(path_is_under("/a/b/c", "/a/b"));
    assert!(path_is_under("/a/b", "/a/b"));
    assert!(!path_is_under("/a/bc", "/a/b"));
    assert!(!path_is_under("/a", "/a/b"));
    assert!(!path_is_under("/x/y", "/a"));
}
