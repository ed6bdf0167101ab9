use pro::registry::{
    check_exists, get_project_language, get_project_path, get_projects, is_hidden, FsEntry,
    ProjectType,
};
use pro::error::ProError;

fn entry(name: &str, is_dir: bool) -> FsEntry {
    FsEntry { name: name.to_string(), is_dir }
}

fn names(v: &[&str]) -> Vec<String> {
    v.iter().map(|s| s.to_string()).collect()
}

#[test]
fn is_hidden_on_dot_names() {
    assert!(is_hidden(".hidden"));
    assert!(is_hidden("."));
    assert!(!is_hidden("visible"));
    assert!(!is_hidden(""));
    assert!(!is_hidden("has.dot"));
}

#[test]
fn projects_are_non_hidden_directories() {
    let entries = vec![
        entry("foo", true),
        entry("bar", true),
        entry(".hidden", true),
        entry("notes.txt", false),
        entry(".gitignore", false),
    ];
    let projects = get_projects(&entries);
    assert_eq!(projects, names(&["foo", "bar"]));
}

#[test]
fn empty_workspace_has_no_projects() {
    let entries: Vec<FsEntry> = Vec::new();
    let projects = get_projects(&entries);
    assert!(projects.is_empty());
}

#[test]
fn removed_name_is_no_longer_listed() {
    let before = vec![entry("keep", true), entry("gone", true)];
    assert_eq!(get_projects(&before), names(&["keep", "gone"]));
    let after = vec![entry("keep", true)];
    let listed = get_projects(&after);
    assert!(!listed.contains(&"gone".to_string()));
    assert_eq!(listed, names(&["keep"]));
}

#[test]
fn classify_each_marker() {
    let cases: Vec<(&str, ProjectType)> = vec![
        ("tsconfig.json", ProjectType::Typescript),
        ("Cargo.toml", ProjectType::Rust),
        ("mix.exs", ProjectType::Elixir),
        ("deps.edn", ProjectType::Clojure),
        ("project.clj", ProjectType::Clojure),
        ("shadow-cljs.edn", ProjectType::ClojureScript),
    ];
    for (marker, expected) in cases {
        let files = names(&["README.md", marker, "src"]);
        assert_eq!(get_project_language(&files), Some(expected));
    }
}

#[test]
fn classify_without_marker_is_unclassified() {
    let files = names(&["README.md", "src", "docs"]);
    assert_eq!(get_project_language(&files), None);
    let empty: Vec<String> = Vec::new();
    assert_eq!(get_project_language(&empty), None);
}

#[test]
fn classify_follows_the_fixed_marker_order() {
    let files = names(&["Cargo.toml", "tsconfig.json"]);
    assert_eq!(get_project_language(&files), Some(ProjectType::Typescript));
    let files = names(&["project.clj", "mix.exs"]);
    assert_eq!(get_project_language(&files), Some(ProjectType::Elixir));
}

#[test]
fn classify_tracks_the_listing_as_it_changes() {
    let mut files = names(&["README.md"]);
    assert_eq!(get_project_language(&files), None);
    files.push("Cargo.toml".to_string());
    assert_eq!(get_project_language(&files), Some(ProjectType::Rust));
    files.pop();
    assert_eq!(get_project_language(&files), None);
    assert_eq!(get_project_language(&files), get_project_language(&files));
}

#[test]
fn exists_iff_listed() {
    let entries = vec![entry("foo", true), entry(".bar", true), entry("file", false)];
    let projects = get_projects(&entries);
    assert!(check_exists(&projects, "foo").is_ok());
    assert_eq!(check_exists(&projects, ".bar"), Err(ProError::NotFound));
    assert_eq!(check_exists(&projects, "file"), Err(ProError::NotFound));
    assert_eq!(check_exists(&projects, "ghost"), Err(ProError::NotFound));
}

#[test]
fn project_path_joins_workspace_and_name() {
    assert_eq!(get_project_path("proj", "/ws"), "/ws/proj");
    assert_eq!(get_project_path("a", ""), "/a");
}
