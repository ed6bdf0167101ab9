//! The configuration the manager runs under: where the workspace lives,
//! which editor opens a project, and which flags that editor gets.
//!
//! The configuration is persisted by the binary as a small structured text
//! record under the user's home directory; the library decides where that
//! record lives, what the defaults are, and whether a fresh record must be
//! written.

use vstd::prelude::*;
use std::path::Path;

verus! {

/// An immutable snapshot of the persisted configuration.
pub struct ProConfig {
    /// The workspace root that holds all managed projects.
    pub project_path: String,
    /// The command that opens a project.
    pub code_editor: String,
    /// Extra arguments handed to the editor, in order.
    pub editor_flags: Vec<String>,
}

/// Relies on `home::home_dir`: the user's home directory, if the platform
/// reports one. The result depends on the environment, so nothing is
/// promised of it; a home path that is not valid Unicode is treated as
/// absent rather than reported.
#[verifier::external_body]
fn home_dir_path() -> Option<String> {
    match home::home_dir() {
        Some(path) => match path.to_str() {
            Some(s) => Some(s.to_owned()),
            None => None,
        },
        None => None,
    }
}

/// The user's home directory, or an error when the platform reports none.
fn home_dir() -> Result<String, ()> {
    match home_dir_path() {
        Some(path) => Ok(path),
        None => Err(()),
    }
}

/// Relies on `std::path::Path::exists`: whether the path names anything on
/// disk right now. The result depends on the filesystem, so nothing is
/// promised of it.
#[verifier::external_body]
pub fn file_exists(filepath: String) -> bool {
    let ref_path: &str = filepath.as_ref();
    let path = Path::new(ref_path);
    path.exists()
}

/// `path` ends in a separator followed by `sub`: the shape of every path
/// the library builds under the home directory.
pub open spec fn path_under_home(path: Seq<char>, sub: Seq<char>) -> bool {
    &&& path.len() >= sub.len() + 1
    &&& path.subrange(path.len() - sub.len(), path.len() as int) == sub
    &&& path[path.len() - sub.len() - 1] == '/'
}

/// Joins a home directory and a subpath with one separator.
pub fn home_joined(home_path: String, subpath: &str) -> (path: String)
    ensures
        path@ == home_path@ + seq!['/'] + subpath@,
{
    let ghost home_view = home_path@;
    let mut path = home_path;
    path.append("/");
    path.append(subpath);
    proof {
        reveal_strlit("/");
        assert(path@ =~= home_view + seq!['/'] + subpath@);
    }
    path
}

/// The path of `subpath` directly under the home directory, or an error
/// when no home directory is known. Whatever the environment reported as
/// home, the result ends in a separator and `subpath`.
pub fn at_home(subpath: &str) -> (r: Result<String, ()>)
    ensures
        r matches Ok(path) ==> path_under_home(path@, subpath@),
{
    let home_path = home_dir()?;
    let path = home_joined(home_path, subpath);
    proof {
        assert(path@.subrange(path@.len() - subpath@.len(), path@.len() as int)
            =~= subpath@);
        assert(path@[path@.len() - subpath@.len() - 1] == '/');
    }
    Ok(path)
}

/// Where the configuration record lives: `.config/pro/config.toml` under
/// the home directory.
pub fn config_path() -> (r: Result<String, ()>)
    ensures
        r matches Ok(path) ==> path_under_home(path@, ".config/pro/config.toml"@),
{
    at_home(".config/pro/config.toml")
}

/// The configuration a fresh installation starts from: the given workspace
/// root, the `neovide` editor, and no editor flags.
pub fn create_default_config(projects_dir: &str) -> (config: ProConfig)
    ensures
        config.project_path@ == projects_dir@,
        config.code_editor@ == "neovide"@,
        config.editor_flags@.len() == 0,
{
    ProConfig {
        project_path: projects_dir.to_owned(),
        code_editor: "neovide".to_owned(),
        editor_flags: Vec::new(),
    }
}

/// What the binary must do to obtain a configuration.
pub enum ConfigPlan {
    /// No record exists yet: create the workspace directory and the record,
    /// persist this default configuration, and run with it.
    CreateDefault { config: ProConfig },
    /// A record exists at this path: read and parse it.
    ReadExisting { path: String },
}

/// Decides the plan from the existence probe's outcome: an existing record
/// at `path` is read; a missing one means the defaults are created, with
/// `projects_path` as the workspace root. `projects_path` is read only when
/// no record exists.
pub fn config_plan(record_exists: bool, path: String, projects_path: String) -> (p: ConfigPlan)
    ensures
        record_exists ==> p == (ConfigPlan::ReadExisting { path }),
        !record_exists ==> (p matches ConfigPlan::CreateDefault { config }
            && config.project_path@ == projects_path@ && config.code_editor@ == "neovide"@
            && config.editor_flags@.len() == 0),
{
    if record_exists {
        ConfigPlan::ReadExisting { path }
    } else {
        ConfigPlan::CreateDefault { config: create_default_config(projects_path.as_str()) }
    }
}

/// Decides how the configuration is obtained this run: the record is probed
/// at its fixed path, an existing one is read, and a missing one has the
/// defaults created under a `projects` workspace in the home directory —
/// [`config_plan`] ties the plan to the probe. Fails only when no home
/// directory is known.
pub fn prepare_config() -> (r: Result<ConfigPlan, ()>)
    ensures
        r matches Ok(ConfigPlan::CreateDefault { config }) ==> {
            &&& path_under_home(config.project_path@, "projects"@)
            &&& config.code_editor@ == "neovide"@
            &&& config.editor_flags@.len() == 0
        },
        r matches Ok(ConfigPlan::ReadExisting { path }) ==> path_under_home(
            path@,
            ".config/pro/config.toml"@,
        ),
{
    let path = match config_path() {
        Ok(path) => path,
        Err(()) => {
            return Err(());
        },
    };
    if !file_exists(path.clone()) {
        let projects_path = match at_home("projects") {
            Ok(p) => p,
            Err(()) => {
                return Err(());
            },
        };
        Ok(config_plan(false, path, projects_path))
    } else {
        Ok(config_plan(true, path, String::new()))
    }
}

} // verus!
