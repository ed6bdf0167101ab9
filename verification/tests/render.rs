use pro::registry::ProjectType;
use pro::render::{
    format_typed_pr, format_untyped_pr, list_dir, pr_type_to_str, proj_to_str, ProjectListing,
};

fn listing(name: &str, files: &[&str]) -> ProjectListing {
    ProjectListing {
        name: name.to_string(),
        files: files.iter().map(|s| s.to_string()).collect(),
    }
}

// The color override is process-wide state, so everything that depends on it
// runs in this one test, in order.
#[test]
fn rendering_with_and_without_color() {
    colored::control::set_override(true);
    assert_eq!(pr_type_to_str(ProjectType::Rust), "\u{1b}[31mRust\u{1b}[0m");
    assert_eq!(pr_type_to_str(ProjectType::Typescript), "\u{1b}[34mTypescript\u{1b}[0m");
    assert_eq!(pr_type_to_str(ProjectType::Elixir), "\u{1b}[35mElixir\u{1b}[0m");
    assert_eq!(pr_type_to_str(ProjectType::Clojure), "\u{1b}[32mClojure\u{1b}[0m");
    assert_eq!(format_untyped_pr("bar"), "\t\u{1b}[1mbar\u{1b}[0m");

    colored::control::set_override(false);
    assert_eq!(pr_type_to_str(ProjectType::Typescript), "Typescript");
    assert_eq!(pr_type_to_str(ProjectType::Rust), "Rust");
    assert_eq!(pr_type_to_str(ProjectType::Elixir), "Elixir");
    assert_eq!(pr_type_to_str(ProjectType::Clojure), "Clojure");
    assert_eq!(pr_type_to_str(ProjectType::ClojureScript), "ClojureScript");

    assert_eq!(format_untyped_pr("bar"), "\tbar");
    assert_eq!(format_typed_pr("foo", 2, "Rust"), "\tfoo    - Rust");
    assert_eq!(format_typed_pr("foo", 0, "Rust"), "\tfoo  - Rust");
    assert_eq!(proj_to_str("foo", 0, Some(ProjectType::Rust)), "\tfoo  - Rust");
    assert_eq!(proj_to_str("bar", 1, None), "\tbar");

    let projects = vec![
        listing("foo", &["Cargo.toml"]),
        listing("barbar", &[]),
        listing("ts", &["tsconfig.json"]),
    ];
    let lines = list_dir(&projects, None);
    assert_eq!(
        lines,
        vec![
            "\tfoo     - Rust".to_string(),
            "\tbarbar".to_string(),
            "\tts      - Typescript".to_string(),
        ]
    );

    let projects = vec![listing("foo", &["Cargo.toml"]), listing("bar", &[])];
    let lines = list_dir(&projects, Some("rust"));
    assert_eq!(lines, vec!["\tfoo  - Rust".to_string()]);
    let none = list_dir(&projects, Some("elixir"));
    assert!(none.is_empty());

    colored::control::unset_override();
}
