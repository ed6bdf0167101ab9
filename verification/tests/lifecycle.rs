use pro::error::ProError;
use pro::lifecycle::{
    create_project, is_valid_project_name, open_project, remove_project, PROJECT_TEMPLATE,
};

fn names(v: &[&str]) -> Vec<String> {
    v.iter().map(|s| s.to_string()).collect()
}

#[test]
fn valid_names_stay_inside_the_workspace() {
    assert!(is_valid_project_name("foo"));
    assert!(is_valid_project_name("foo-bar_2"));
    assert!(is_valid_project_name("...three-dots"));
    assert!(!is_valid_project_name(""));
    assert!(!is_valid_project_name("."));
    assert!(!is_valid_project_name(".."));
    assert!(!is_valid_project_name("a/b"));
    assert!(!is_valid_project_name("../escape"));
    assert!(!is_valid_project_name("/absolute"));
}

#[test]
fn open_builds_the_editor_command() {
    let projects = names(&["foo", "bar"]);
    let flags = names(&["--no-fork"]);
    let cmd = open_project("foo", "/ws", "neovide", &flags, &projects).unwrap();
    assert_eq!(cmd.program, "neovide");
    assert_eq!(cmd.current_dir, Some("/ws/foo".to_string()));
    assert_eq!(cmd.args, names(&["/ws/foo", "--no-fork"]));
}

#[test]
fn open_fails_with_not_found_for_unlisted_names() {
    let projects = names(&["foo"]);
    let flags: Vec<String> = Vec::new();
    let r = open_project("ghost", "/ws", "code", &flags, &projects);
    assert!(matches!(r, Err(ProError::NotFound)));
    let none: Vec<String> = Vec::new();
    let r = open_project("foo", "/ws", "code", &flags, &none);
    assert!(matches!(r, Err(ProError::NotFound)));
}

#[test]
fn create_builds_the_scaffolding_command() {
    let cmd = create_project("newproj", "/ws").unwrap();
    assert_eq!(cmd.program, "pnpx");
    assert_eq!(cmd.current_dir, None);
    assert_eq!(cmd.args, names(&["degit", PROJECT_TEMPLATE, "/ws/newproj"]));
}

#[test]
fn create_rejects_escaping_names() {
    assert!(matches!(create_project("../up", "/ws"), Err(ProError::InvalidName)));
    assert!(matches!(create_project("", "/ws"), Err(ProError::InvalidName)));
}

#[test]
fn remove_builds_the_deletion_command() {
    let cmd = remove_project("old", "/ws").unwrap();
    assert_eq!(cmd.program, "rm");
    assert_eq!(cmd.current_dir, None);
    assert_eq!(cmd.args, names(&["-rf", "/ws/old"]));
}

#[test]
fn remove_rejects_escaping_names() {
    assert!(matches!(remove_project("..", "/ws"), Err(ProError::InvalidName)));
    assert!(matches!(remove_project(".", "/ws"), Err(ProError::InvalidName)));
    assert!(matches!(remove_project("a/../../etc", "/ws"), Err(ProError::InvalidName)));
    assert!(matches!(remove_project("", "/ws"), Err(ProError::InvalidName)));
}
