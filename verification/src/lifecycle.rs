//! Lifecycle operations: create, open and remove a project.
//!
//! Each operation delegates the actual work to an external process. The
//! library validates the request and assembles the exact command to run —
//! program, working directory and arguments — and the binary spawns it.
//! Names that could resolve outside the workspace are rejected here, before
//! any path is built.

use vstd::prelude::*;
use crate::error::ProError;
use crate::registry::{check_exists, get_project_path, project_path_of};
use crate::text::str_eq;

verus! {

/// The template every new project is scaffolded from.
pub const PROJECT_TEMPLATE: &'static str = "tyrkinn/frontend-templates/chakra-jotai-vitest";

/// An external process to spawn: the program, an optional working
/// directory, and the argument list in order.
pub struct ExternalCommand {
    pub program: String,
    pub current_dir: Option<String>,
    pub args: Vec<String>,
}

/// A project name is safe to join to the workspace path when it is not
/// empty, is not a dot segment, and holds no path separator: the joined
/// path then resolves strictly inside the workspace.
pub open spec fn valid_project_name(name: Seq<char>) -> bool {
    &&& name.len() > 0
    &&& name != "."@
    &&& name != ".."@
    &&& forall|i: int| 0 <= i < name.len() ==> name[i] != '/'
}

/// Checks that a caller-supplied project name cannot escape the workspace.
pub fn is_valid_project_name(name: &str) -> (valid: bool)
    ensures
        valid == valid_project_name(name@),
{
    let len = name.unicode_len();
    if len == 0 {
        return false;
    }
    if str_eq(name, ".") || str_eq(name, "..") {
        return false;
    }
    let mut i: usize = 0;
    while i < len
        invariant
            i <= len,
            len == name@.len(),
            name@ != "."@,
            name@ != ".."@,
            len > 0,
            forall|j: int| 0 <= j < i ==> name@[j] != '/',
        decreases len - i,
    {
        if name.get_char(i) == '/' {
            return false;
        }
        i += 1;
    }
    true
}

fn clone_strings(v: &Vec<String>) -> (r: Vec<String>)
    ensures
        r.deep_view() == v.deep_view(),
{
    let mut r: Vec<String> = Vec::new();
    let mut i: usize = 0;
    while i < v.len()
        invariant
            i <= v@.len(),
            r.deep_view() == v.deep_view().take(i as int),
        decreases v@.len() - i,
    {
        let ghost prev = r.deep_view();
        r.push(v[i].clone());
        proof {
            assert(r.deep_view() =~= prev.push(v@[i as int]@));
            assert(v.deep_view().take(i + 1) =~= v.deep_view().take(i as int).push(
                v@[i as int]@,
            ));
        }
        i += 1;
    }
    proof {
        assert(v.deep_view().take(v@.len() as int) =~= v.deep_view());
    }
    r
}

/// Prepares the command that opens a listed project in the editor: the
/// editor runs with the project directory as working directory and gets
/// that same path, then the configured flags, as arguments. A name that is
/// not among the listed projects is refused with `NotFound`.
pub fn open_project(
    project_name: &str,
    dir_url: &str,
    code_editor: &str,
    editor_flags: &Vec<String>,
    projects: &Vec<String>,
) -> (r: Result<ExternalCommand, ProError>)
    ensures
        r is Ok <==> projects.deep_view().contains(project_name@),
        r is Err ==> r == Err::<ExternalCommand, ProError>(ProError::NotFound),
        r matches Ok(cmd) ==> {
            &&& cmd.program@ == code_editor@
            &&& cmd.current_dir matches Some(d) && d@ == project_path_of(
                dir_url@,
                project_name@,
            )
            &&& cmd.args.deep_view() == seq![project_path_of(dir_url@, project_name@)]
                + editor_flags.deep_view()
        },
{
    if let Err(e) = check_exists(projects, project_name) {
        return Err(e);
    }
    let current_dir = get_project_path(project_name, dir_url);
    let mut args: Vec<String> = Vec::new();
    args.push(current_dir.clone());
    let mut flags = clone_strings(editor_flags);
    args.append(&mut flags);
    proof {
        assert(args.deep_view() =~= seq![project_path_of(dir_url@, project_name@)]
            + editor_flags.deep_view());
    }
    Ok(ExternalCommand {
        program: code_editor.to_owned(),
        current_dir: Some(current_dir),
        args,
    })
}

/// Prepares the command that scaffolds a new project from the fixed
/// template into `workspace/name`. A name that could escape the workspace
/// is refused with `InvalidName`.
pub fn create_project(project_name: &str, dir_url: &str) -> (r: Result<
    ExternalCommand,
    ProError,
>)
    ensures
        r is Ok <==> valid_project_name(project_name@),
        r is Err ==> r == Err::<ExternalCommand, ProError>(ProError::InvalidName),
        r matches Ok(cmd) ==> {
            &&& cmd.program@ == "pnpx"@
            &&& cmd.current_dir is None
            &&& cmd.args.deep_view() == seq![
                "degit"@,
                PROJECT_TEMPLATE@,
                project_path_of(dir_url@, project_name@),
            ]
        },
{
    if !is_valid_project_name(project_name) {
        return Err(ProError::InvalidName);
    }
    let mut args: Vec<String> = Vec::new();
    args.push("degit".to_owned());
    args.push(PROJECT_TEMPLATE.to_owned());
    args.push(get_project_path(project_name, dir_url));
    proof {
        assert(args.deep_view() =~= seq![
            "degit"@,
            PROJECT_TEMPLATE@,
            project_path_of(dir_url@, project_name@),
        ]);
    }
    Ok(ExternalCommand { program: "pnpx".to_owned(), current_dir: None, args })
}

/// Prepares the command that deletes `workspace/name` recursively. The
/// deletion is unconditional — it does not require the name to be a listed
/// project, and deleting a path that does not exist succeeds — so a name
/// that could resolve outside the workspace is refused with `InvalidName`
/// before any path is built.
pub fn remove_project(project_name: &str, dir_url: &str) -> (r: Result<
    ExternalCommand,
    ProError,
>)
    ensures
        r is Ok <==> valid_project_name(project_name@),
        r is Err ==> r == Err::<ExternalCommand, ProError>(ProError::InvalidName),
        r matches Ok(cmd) ==> {
            &&& cmd.program@ == "rm"@
            &&& cmd.current_dir is None
            &&& cmd.args.deep_view() == seq![
                "-rf"@,
                project_path_of(dir_url@, project_name@),
            ]
        },
{
    if !is_valid_project_name(project_name) {
        return Err(ProError::InvalidName);
    }
    let mut args: Vec<String> = Vec::new();
    args.push("-rf".to_owned());
    args.push(get_project_path(project_name, dir_url));
    proof {
        assert(args.deep_view() =~= seq![
            "-rf"@,
            project_path_of(dir_url@, project_name@),
        ]);
    }
    Ok(ExternalCommand { program: "rm".to_owned(), current_dir: None, args })
}

} // verus!
