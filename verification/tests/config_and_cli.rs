use pro::cli::{parse_args, CliAction};
use pro::config::{
    at_home, config_path, config_plan, create_default_config, file_exists, home_joined,
    ConfigPlan,
};

fn args(v: &[&str]) -> Vec<String> {
    v.iter().map(|s| s.to_string()).collect()
}

#[test]
fn default_config_uses_neovide_and_no_flags() {
    let config = create_default_config("/home/someone/projects");
    assert_eq!(config.project_path, "/home/someone/projects");
    assert_eq!(config.code_editor, "neovide");
    assert!(config.editor_flags.is_empty());
}

#[test]
fn joining_under_home_inserts_one_separator() {
    assert_eq!(home_joined("/home/someone".to_string(), "projects"), "/home/someone/projects");
    assert_eq!(home_joined("".to_string(), "x"), "/x");
}

#[test]
fn an_existing_record_is_read_and_a_missing_one_is_created() {
    let read = config_plan(
        true,
        "/home/someone/.config/pro/config.toml".to_string(),
        String::new(),
    );
    match read {
        ConfigPlan::ReadExisting { path } => {
            assert_eq!(path, "/home/someone/.config/pro/config.toml");
        }
        _ => panic!("an existing record must be read, not recreated"),
    }

    let created = config_plan(
        false,
        "/home/someone/.config/pro/config.toml".to_string(),
        "/home/someone/projects".to_string(),
    );
    match created {
        ConfigPlan::CreateDefault { config } => {
            assert_eq!(config.project_path, "/home/someone/projects");
            assert_eq!(config.code_editor, "neovide");
            assert!(config.editor_flags.is_empty());
        }
        _ => panic!("a missing record must be created with the defaults"),
    }
}

#[test]
fn at_home_paths_end_with_the_subpath() {
    if let Ok(path) = at_home("projects") {
        assert!(path.ends_with("/projects"));
    }
    if let Ok(path) = config_path() {
        assert!(path.ends_with("/.config/pro/config.toml"));
    }
}

#[test]
fn file_exists_probes_the_filesystem() {
    assert!(file_exists("/".to_string()));
    assert!(!file_exists("/surely/not/a/path/that/exists/anywhere".to_string()));
}

#[test]
fn each_subcommand_parses() {
    assert!(matches!(parse_args(&args(&["list"])), CliAction::List { lang: None }));
    match parse_args(&args(&["list", "-lang", "rust"])) {
        CliAction::List { lang: Some(l) } => assert_eq!(l, "rust"),
        _ => panic!("expected a filtered list"),
    }
    assert!(matches!(parse_args(&args(&["version"])), CliAction::Version));
    match parse_args(&args(&["open", "foo"])) {
        CliAction::Open { name } => assert_eq!(name, "foo"),
        _ => panic!("expected an open action"),
    }
    match parse_args(&args(&["path", "foo"])) {
        CliAction::Path { name } => assert_eq!(name, "foo"),
        _ => panic!("expected a path action"),
    }
    match parse_args(&args(&["create", "foo"])) {
        CliAction::Create { name } => assert_eq!(name, "foo"),
        _ => panic!("expected a create action"),
    }
    match parse_args(&args(&["remove", "foo"])) {
        CliAction::Remove { name } => assert_eq!(name, "foo"),
        _ => panic!("expected a remove action"),
    }
    assert!(matches!(parse_args(&args(&["help"])), CliAction::Help));
    assert!(matches!(parse_args(&args(&["comps"])), CliAction::Comps));
    assert!(matches!(parse_args(&args(&["serve"])), CliAction::Serve));
}

#[test]
fn anything_else_is_a_usage_hint() {
    assert!(matches!(parse_args(&args(&[])), CliAction::Usage));
    assert!(matches!(parse_args(&args(&["dance"])), CliAction::Usage));
    assert!(matches!(parse_args(&args(&["list", "rust"])), CliAction::Usage));
    assert!(matches!(parse_args(&args(&["list", "-lang"])), CliAction::Usage));
    assert!(matches!(parse_args(&args(&["open"])), CliAction::Usage));
    assert!(matches!(parse_args(&args(&["open", "a", "b"])), CliAction::Usage));
}
