use self_replace::namegen::{
    get_temp_executable_name, relocated_suffix_str, selfdelete_suffix_str, temp_prefix_for,
    temp_suffix_str,
};

#[test]
fn suffixes_are_the_documented_markers() {
    assert_eq!(selfdelete_suffix_str(), ".__selfdelete__.exe");
    assert_eq!(relocated_suffix_str(), ".__relocated__.exe");
    assert_eq!(temp_suffix_str(), ".__temp__.exe");
}

#[test]
fn temp_prefix_carries_the_stem() {
    assert_eq!(temp_prefix_for("/usr/bin/mytool"), ".mytool.__temp__");
    assert_eq!(temp_prefix_for("/a/prog.exe"), ".prog.__temp__");
    assert_eq!(temp_prefix_for("/a/b/"), ".__temp__");
}

#[test]
fn generated_name_has_the_documented_shape() {
    let mut rng = fastrand::Rng::new();
    let hint = String::from("mytool");
    let name = get_temp_executable_name(&mut rng, "/tmp", Some(&hint), ".__selfdelete__.exe");
    let file = name.strip_prefix("/tmp/").expect("name must live in the base directory");
    let rest = file.strip_prefix(".mytool.").expect("name must start with dot, hint, dot");
    let core = rest
        .strip_suffix(".__selfdelete__.exe")
        .expect("name must end with the marker suffix");
    assert_eq!(core.len(), 32);
    assert!(core.chars().all(|c| c.is_ascii_lowercase()));
}

#[test]
fn generated_name_without_hint() {
    let mut rng = fastrand::Rng::new();
    let name = get_temp_executable_name(&mut rng, "/var/tmp", None, ".__relocated__.exe");
    let file = name.strip_prefix("/var/tmp/").expect("name must live in the base directory");
    let rest = file.strip_prefix('.').expect("name must start with a dot");
    let core = rest
        .strip_suffix(".__relocated__.exe")
        .expect("name must end with the marker suffix");
    assert_eq!(core.len(), 32);
    assert!(core.chars().all(|c| c.is_ascii_lowercase()));
}

#[test]
fn generated_names_are_randomized() {
    let mut rng = fastrand::Rng::new();
    let a = get_temp_executable_name(&mut rng, "/tmp", None, ".__temp__.exe");
    let b = get_temp_executable_name(&mut rng, "/tmp", None, ".__temp__.exe");
    assert_ne!(a, b);
}
