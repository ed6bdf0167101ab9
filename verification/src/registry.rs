//! The project registry: which entries of the workspace root count as
//! projects, what language a project's files imply, and where a project
//! lives.
//!
//! The registry works on directory listings handed in as plain values; the
//! binary reads the filesystem and passes the entries here. A project is an
//! immediate, non-hidden subdirectory of the workspace root, identified by
//! its name.

use vstd::prelude::*;
use crate::error::ProError;
use crate::text::str_eq;

verus! {

/// One entry of a directory listing, as the binary reads it from disk.
pub struct FsEntry {
    /// The entry's file name (not a path).
    pub name: String,
    /// Whether the entry is a directory.
    pub is_dir: bool,
}

/// A project's inferred primary language.
#[derive(Debug, Clone, Copy, PartialEq, Eq, Structural)]
pub enum ProjectType {
    Typescript,
    Rust,
    Elixir,
    Clojure,
    ClojureScript,
}

/// A name is hidden when it starts with `.`.
pub open spec fn is_hidden_name(name: Seq<char>) -> bool {
    name.len() > 0 && name[0] == '.'
}

/// Whether a directory entry with this name is hidden (its name starts
/// with `.`). Hidden entries are never listed as projects.
pub fn is_hidden(name: &str) -> (hidden: bool)
    ensures
        hidden == is_hidden_name(name@),
{
    let len = name.unicode_len();
    if len == 0 {
        false
    } else {
        name.get_char(0) == '.'
    }
}

/// Whether a directory entry counts as a project: a directory whose name is
/// not hidden.
pub open spec fn entry_is_project(e: FsEntry) -> bool {
    e.is_dir && !is_hidden_name(e.name@)
}

/// The names of the projects among `entries`, in listing order.
pub open spec fn projects_of(entries: Seq<FsEntry>) -> Seq<Seq<char>>
    decreases entries.len(),
{
    if entries.len() == 0 {
        Seq::empty()
    } else {
        let rest = projects_of(entries.drop_last());
        if entry_is_project(entries.last()) {
            rest.push(entries.last().name@)
        } else {
            rest
        }
    }
}

/// Lists the projects among the workspace root's entries: every directory
/// whose name does not start with `.`, in listing order.
pub fn get_projects(entries: &Vec<FsEntry>) -> (projects: Vec<String>)
    ensures
        projects.deep_view() == projects_of(entries@),
{
    let mut projects: Vec<String> = Vec::new();
    let mut i: usize = 0;
    while i < entries.len()
        invariant
            i <= entries@.len(),
            projects.deep_view() == projects_of(entries@.take(i as int)),
        decreases entries@.len() - i,
    {
        proof {
            assert(entries@.take(i + 1).drop_last() =~= entries@.take(i as int));
            assert(entries@.take(i + 1).last() == entries@[i as int]);
        }
        let ghost prev = projects.deep_view();
        if entries[i].is_dir && !is_hidden(entries[i].name.as_str()) {
            projects.push(entries[i].name.clone());
            proof {
                assert(projects.deep_view() =~= prev.push(entries@[i as int].name@));
            }
        }
        i += 1;
    }
    proof {
        assert(entries@.take(entries@.len() as int) =~= entries@);
    }
    projects
}

/// A name is listed among the projects of `entries` exactly when some entry
/// carries that name, is a directory, and is not hidden.
pub proof fn lemma_projects_of_membership(entries: Seq<FsEntry>, name: Seq<char>)
    ensures
        projects_of(entries).contains(name) <==> exists|i: int|
            0 <= i < entries.len() && entry_is_project(#[trigger] entries[i])
                && entries[i].name@ == name,
    decreases entries.len(),
{
    if entries.len() == 0 {
    } else {
        let prefix = entries.drop_last();
        lemma_projects_of_membership(prefix, name);
        let rest = projects_of(prefix);
        if entry_is_project(entries.last()) && entries.last().name@ == name {
            assert(projects_of(entries)[rest.len() as int] == name);
            assert(projects_of(entries).contains(name));
        }
        if projects_of(entries).contains(name) {
            let j = choose|j: int|
                0 <= j < projects_of(entries).len() && projects_of(entries)[j] == name;
            if j < rest.len() {
                assert(rest.contains(name));
                let i = choose|i: int|
                    0 <= i < prefix.len() && entry_is_project(#[trigger] prefix[i])
                        && prefix[i].name@ == name;
                assert(entries[i] == prefix[i]);
            } else {
                assert(entry_is_project(entries.last()) && entries.last().name@ == name);
                assert(entries[entries.len() - 1] == entries.last());
            }
        }
        if exists|i: int|
            0 <= i < entries.len() && entry_is_project(#[trigger] entries[i])
                && entries[i].name@ == name {
            let i = choose|i: int|
                0 <= i < entries.len() && entry_is_project(#[trigger] entries[i])
                    && entries[i].name@ == name;
            if i < entries.len() - 1 {
                assert(prefix[i] == entries[i]);
                assert(rest.contains(name));
                let j = choose|j: int| 0 <= j < rest.len() && rest[j] == name;
                assert(projects_of(entries)[j] == name);
                assert(projects_of(entries).contains(name));
            }
        }
    }
}

/// Once every entry carrying a name is gone from the workspace listing, that
/// name is no longer listed as a project.
pub proof fn lemma_removed_not_listed(entries: Seq<FsEntry>, name: Seq<char>)
    requires
        forall|i: int| 0 <= i < entries.len() ==> (#[trigger] entries[i].name@) != name,
    ensures
        !projects_of(entries).contains(name),
{
    lemma_projects_of_membership(entries, name);
}

/// Whether `target` occurs among `names`, character for character.
pub fn contains_str(names: &Vec<String>, target: &str) -> (found: bool)
    ensures
        found == names.deep_view().contains(target@),
{
    let mut i: usize = 0;
    while i < names.len()
        invariant
            i <= names@.len(),
            forall|j: int| 0 <= j < i ==> names.deep_view()[j] != target@,
        decreases names@.len() - i,
    {
        if str_eq(names[i].as_str(), target) {
            assert(names.deep_view()[i as int] == target@);
            return true;
        }
        i += 1;
    }
    false
}

/// Checks that `project_name` is among the listed projects; reports
/// `NotFound` otherwise. Guards the operations that must not act on a path
/// assembled from an unrelated name.
pub fn check_exists(projects: &Vec<String>, project_name: &str) -> (r: Result<(), ProError>)
    ensures
        r is Ok <==> projects.deep_view().contains(project_name@),
        r is Err ==> r == Err::<(), ProError>(ProError::NotFound),
{
    if !contains_str(projects, project_name) {
        Err(ProError::NotFound)
    } else {
        Ok(())
    }
}

/// The path of the project named `name` inside the workspace `dir`.
pub open spec fn project_path_of(dir: Seq<char>, name: Seq<char>) -> Seq<char> {
    dir + seq!['/'] + name
}

/// The full path of a project: the workspace root, a separator, the name.
pub fn get_project_path(project_name: &str, projects_dir: &str) -> (path: String)
    ensures
        path@ == project_path_of(projects_dir@, project_name@),
{
    let mut path = projects_dir.to_owned();
    path.append("/");
    path.append(project_name);
    proof {
        reveal_strlit("/");
        assert(path@ =~= project_path_of(projects_dir@, project_name@));
    }
    path
}

/// The language implied by a project's immediate file listing: the first
/// marker file of the fixed mapping that occurs in the listing, the markers
/// tried in one documented order.
pub open spec fn language_of(files: Seq<Seq<char>>) -> Option<ProjectType> {
    if files.contains("tsconfig.json"@) {
        Some(ProjectType::Typescript)
    } else if files.contains("Cargo.toml"@) {
        Some(ProjectType::Rust)
    } else if files.contains("mix.exs"@) {
        Some(ProjectType::Elixir)
    } else if files.contains("deps.edn"@) {
        Some(ProjectType::Clojure)
    } else if files.contains("project.clj"@) {
        Some(ProjectType::Clojure)
    } else if files.contains("shadow-cljs.edn"@) {
        Some(ProjectType::ClojureScript)
    } else {
        None
    }
}

/// Infers a project's language from its immediate file listing alone: the
/// markers are probed in a fixed order, and a project without any marker
/// file is left unclassified (`None`).
pub fn get_project_language(project_files: &Vec<String>) -> (language: Option<ProjectType>)
    ensures
        language == language_of(project_files.deep_view()),
{
    if contains_str(project_files, "tsconfig.json") {
        Some(ProjectType::Typescript)
    } else if contains_str(project_files, "Cargo.toml") {
        Some(ProjectType::Rust)
    } else if contains_str(project_files, "mix.exs") {
        Some(ProjectType::Elixir)
    } else if contains_str(project_files, "deps.edn") {
        Some(ProjectType::Clojure)
    } else if contains_str(project_files, "project.clj") {
        Some(ProjectType::Clojure)
    } else if contains_str(project_files, "shadow-cljs.edn") {
        Some(ProjectType::ClojureScript)
    } else {
        None
    }
}

/// A file listing is left unclassified exactly when it holds none of the six
/// marker files; with a marker present, the listing is classified.
pub proof fn lemma_unclassified_iff_no_marker(files: Seq<Seq<char>>)
    ensures
        language_of(files) is None <==> (!files.contains("tsconfig.json"@)
            && !files.contains("Cargo.toml"@) && !files.contains("mix.exs"@)
            && !files.contains("deps.edn"@) && !files.contains("project.clj"@)
            && !files.contains("shadow-cljs.edn"@)),
{
}

} // verus!
