//! Rendering the project list for the command line: one line per project,
//! the name in bold, padded to the longest name, and the inferred language
//! color-coded beside it.
//!
//! The styling comes from the `colored` crate, which either wraps a text in
//! an ANSI style-and-reset pair or leaves it alone, depending on the
//! process's environment; every contract here states both outcomes.

use vstd::prelude::*;
use colored::Colorize;
use crate::registry::{get_project_language, language_of, ProjectType};
use crate::text::{push_char, repeat_spaces, spaces, str_eq};

verus! {

/// `body` wrapped in the ANSI sequence for `code` and the reset sequence.
pub open spec fn ansi_wrapped(code: Seq<char>, body: Seq<char>) -> Seq<char> {
    seq!['\u{1b}', '['] + code + seq!['m'] + body + seq!['\u{1b}', '[', '0', 'm']
}

/// `out` renders `body` under the ANSI code `code`: either coloring was off
/// and the text is unchanged, or it is wrapped in the style and reset
/// sequences.
pub open spec fn styled(out: Seq<char>, body: Seq<char>, code: Seq<char>) -> bool {
    out == body || out == ansi_wrapped(code, body)
}

/// The text holds no escape character, so no rendering re-escapes anything
/// inside it.
pub open spec fn no_escape_char(s: Seq<char>) -> bool {
    forall|i: int| 0 <= i < s.len() ==> s[i] != '\u{1b}'
}

/// Relies on colored's `Colorize::bold` and the `ColoredString` rendering:
/// depending on the process's environment the text comes back unchanged or
/// wrapped in the bold sequence and the reset sequence. Stated only for
/// text without an escape character, since the rendering re-escapes an
/// embedded reset sequence.
#[verifier::external_body]
fn bold_str(s: &str) -> (r: String)
    ensures
        no_escape_char(s@) ==> styled(r@, s@, seq!['1']),
{
    s.bold().to_string()
}

/// Relies on colored's `Colorize::blue` and the `ColoredString` rendering,
/// as for `bold_str`: the text unchanged or wrapped in the blue foreground
/// sequence and the reset sequence.
#[verifier::external_body]
fn blue_str(s: &str) -> (r: String)
    ensures
        no_escape_char(s@) ==> styled(r@, s@, seq!['3', '4']),
{
    s.blue().to_string()
}

/// Relies on colored's `Colorize::red` and the `ColoredString` rendering,
/// as for `bold_str`.
#[verifier::external_body]
fn red_str(s: &str) -> (r: String)
    ensures
        no_escape_char(s@) ==> styled(r@, s@, seq!['3', '1']),
{
    s.red().to_string()
}

/// Relies on colored's `Colorize::green` and the `ColoredString` rendering,
/// as for `bold_str`.
#[verifier::external_body]
fn green_str(s: &str) -> (r: String)
    ensures
        no_escape_char(s@) ==> styled(r@, s@, seq!['3', '2']),
{
    s.green().to_string()
}

/// Relies on colored's `Colorize::purple` and the `ColoredString`
/// rendering, as for `bold_str`: purple is the magenta foreground.
#[verifier::external_body]
fn purple_str(s: &str) -> (r: String)
    ensures
        no_escape_char(s@) ==> styled(r@, s@, seq!['3', '5']),
{
    s.purple().to_string()
}

/// The display name of a language tag.
pub open spec fn type_name_of(pr_type: ProjectType) -> Seq<char> {
    match pr_type {
        ProjectType::Typescript => "Typescript"@,
        ProjectType::Rust => "Rust"@,
        ProjectType::Elixir => "Elixir"@,
        ProjectType::Clojure => "Clojure"@,
        ProjectType::ClojureScript => "ClojureScript"@,
    }
}

/// The ANSI foreground code each language tag is rendered under.
pub open spec fn type_color_of(pr_type: ProjectType) -> Seq<char> {
    match pr_type {
        ProjectType::Typescript => seq!['3', '4'],
        ProjectType::Rust => seq!['3', '1'],
        ProjectType::Elixir => seq!['3', '5'],
        ProjectType::Clojure => seq!['3', '2'],
        ProjectType::ClojureScript => seq!['3', '2'],
    }
}

/// Renders a language tag's name in its color: blue for Typescript, red for
/// Rust, purple for Elixir, green for the Clojure family.
pub fn pr_type_to_str(pr_type: ProjectType) -> (r: String)
    ensures
        styled(r@, type_name_of(pr_type), type_color_of(pr_type)),
{
    match pr_type {
        ProjectType::Typescript => {
            proof {
                reveal_strlit("Typescript");
                assert(no_escape_char("Typescript"@));
            }
            blue_str("Typescript")
        },
        ProjectType::Rust => {
            proof {
                reveal_strlit("Rust");
                assert(no_escape_char("Rust"@));
            }
            red_str("Rust")
        },
        ProjectType::Elixir => {
            proof {
                reveal_strlit("Elixir");
                assert(no_escape_char("Elixir"@));
            }
            purple_str("Elixir")
        },
        ProjectType::Clojure => {
            proof {
                reveal_strlit("Clojure");
                assert(no_escape_char("Clojure"@));
            }
            green_str("Clojure")
        },
        ProjectType::ClojureScript => {
            proof {
                reveal_strlit("ClojureScript");
                assert(no_escape_char("ClojureScript"@));
            }
            green_str("ClojureScript")
        },
    }
}

/// The layout of a classified project's line: a tab, the (possibly styled)
/// name, a space, the padding, ` - `, and the (possibly styled) tag.
pub open spec fn typed_line(bold_name: Seq<char>, space_count: nat, tag: Seq<char>) -> Seq<char> {
    seq!['\t'] + bold_name + seq![' '] + spaces(space_count) + seq![' ', '-', ' '] + tag
}

/// `line` lays out `name` (bold or plain), the padding, and the rendered
/// tag `tag`.
pub open spec fn typed_line_ok(line: Seq<char>, name: Seq<char>, space_count: nat, tag: Seq<char>) -> bool {
    exists|b: Seq<char>| #[trigger] styled(b, name, seq!['1']) && line == typed_line(
        b,
        space_count,
        tag,
    )
}

/// One line for a classified project: the bold name padded with
/// `space_count` spaces, then the rendered language tag.
pub fn format_typed_pr(pr_name: &str, space_count: usize, str_pr_type: &str) -> (r: String)
    ensures
        no_escape_char(pr_name@) ==> typed_line_ok(
            r@,
            pr_name@,
            space_count as nat,
            str_pr_type@,
        ),
{
    let bold_name = bold_str(pr_name);
    let mut line = String::new();
    push_char(&mut line, '\t');
    line.append(bold_name.as_str());
    push_char(&mut line, ' ');
    let padding = repeat_spaces(space_count);
    line.append(padding.as_str());
    push_char(&mut line, ' ');
    push_char(&mut line, '-');
    push_char(&mut line, ' ');
    line.append(str_pr_type);
    proof {
        if no_escape_char(pr_name@) {
            assert(line@ =~= typed_line(bold_name@, space_count as nat, str_pr_type@));
        }
    }
    line
}

/// `line` lays out `name` (bold or plain) after a tab, with no tag.
pub open spec fn untyped_line_ok(line: Seq<char>, name: Seq<char>) -> bool {
    exists|b: Seq<char>| #[trigger] styled(b, name, seq!['1']) && line == seq!['\t'] + b
}

/// One line for an unclassified project: a tab and the bold name.
pub fn format_untyped_pr(pr_name: &str) -> (r: String)
    ensures
        no_escape_char(pr_name@) ==> untyped_line_ok(r@, pr_name@),
{
    let bold_name = bold_str(pr_name);
    let mut line = String::new();
    push_char(&mut line, '\t');
    line.append(bold_name.as_str());
    proof {
        if no_escape_char(pr_name@) {
            assert(line@ =~= seq!['\t'] + bold_name@);
        }
    }
    line
}

/// `line` is the rendering of a project named `name` with padding
/// `space_count` and inferred language `lang`.
pub open spec fn renders_project_line(
    line: Seq<char>,
    name: Seq<char>,
    space_count: nat,
    lang: Option<ProjectType>,
) -> bool {
    match lang {
        Some(t) => exists|c: Seq<char>| #[trigger] styled(c, type_name_of(t), type_color_of(t))
            && typed_line_ok(line, name, space_count, c),
        None => untyped_line_ok(line, name),
    }
}

/// One line for a project: with its tag rendered and laid out beside the
/// padded bold name when the project is classified, bare otherwise.
pub fn proj_to_str(pr_name: &str, space_count: usize, project_type: Option<ProjectType>) -> (r:
    String)
    ensures
        no_escape_char(pr_name@) ==> renders_project_line(
            r@,
            pr_name@,
            space_count as nat,
            project_type,
        ),
{
    match project_type {
        Some(pr_type) => {
            let str_pr_type = pr_type_to_str(pr_type);
            format_typed_pr(pr_name, space_count, str_pr_type.as_str())
        },
        None => format_untyped_pr(pr_name),
    }
}

/// A project as the list command sees it: its name and its immediate file
/// listing, both read by the binary.
pub struct ProjectListing {
    pub name: String,
    pub files: Vec<String>,
}

/// The UTF-8 byte length of a text, as `str::len` reports it; the padding
/// aligns on byte lengths.
pub open spec fn byte_len(s: Seq<char>) -> usize {
    vstd::utf8::encode_utf8(s).len() as usize
}

/// The longest project name's byte length.
pub open spec fn max_name_byte_len(projects: Seq<ProjectListing>) -> usize
    decreases projects.len(),
{
    if projects.len() == 0 {
        0
    } else {
        let rest = max_name_byte_len(projects.drop_last());
        let last = byte_len(projects.last().name@);
        if last > rest {
            last
        } else {
            rest
        }
    }
}

/// No name is longer than the longest name.
pub proof fn lemma_max_name_bound(projects: Seq<ProjectListing>)
    ensures
        forall|i: int| 0 <= i < projects.len() ==> byte_len(#[trigger] projects[i].name@)
            <= max_name_byte_len(projects),
    decreases projects.len(),
{
    if projects.len() > 0 {
        lemma_max_name_bound(projects.drop_last());
        assert forall|i: int| 0 <= i < projects.len() implies byte_len(
            #[trigger] projects[i].name@,
        ) <= max_name_byte_len(projects) by {
            if i < projects.len() - 1 {
                assert(projects.drop_last()[i] == projects[i]);
            } else {
                assert(projects[i] == projects.last());
            }
        }
    }
}

fn max_name_len(projects: &Vec<ProjectListing>) -> (max: usize)
    ensures
        max == max_name_byte_len(projects@),
{
    let mut max: usize = 0;
    let mut i: usize = 0;
    while i < projects.len()
        invariant
            i <= projects@.len(),
            max == max_name_byte_len(projects@.take(i as int)),
        decreases projects@.len() - i,
    {
        proof {
            assert(projects@.take(i + 1).drop_last() =~= projects@.take(i as int));
            assert(projects@.take(i + 1).last() == projects@[i as int]);
        }
        let len = projects[i].name.as_str().len();
        if len > max {
            max = len;
        }
        i += 1;
    }
    proof {
        assert(projects@.take(projects@.len() as int) =~= projects@);
    }
    max
}

/// The lowercase keyword naming a language tag, as the list filter takes
/// it.
pub open spec fn lang_keyword_of(pr_type: ProjectType) -> Seq<char> {
    match pr_type {
        ProjectType::Typescript => "typescript"@,
        ProjectType::Rust => "rust"@,
        ProjectType::Elixir => "elixir"@,
        ProjectType::Clojure => "clojure"@,
        ProjectType::ClojureScript => "clojurescript"@,
    }
}

fn lang_keyword(pr_type: ProjectType) -> (r: &'static str)
    ensures
        r@ == lang_keyword_of(pr_type),
{
    match pr_type {
        ProjectType::Typescript => "typescript",
        ProjectType::Rust => "rust",
        ProjectType::Elixir => "elixir",
        ProjectType::Clojure => "clojure",
        ProjectType::ClojureScript => "clojurescript",
    }
}

/// The project is classified and its language's keyword is `lang`.
pub open spec fn lang_matches(p: ProjectListing, lang: Seq<char>) -> bool {
    match language_of(p.files.deep_view()) {
        Some(t) => lang_keyword_of(t) == lang,
        None => false,
    }
}

/// The projects whose language keyword is `lang`, in listing order.
pub open spec fn filtered_projects(projects: Seq<ProjectListing>, lang: Seq<char>) -> Seq<
    ProjectListing,
>
    decreases projects.len(),
{
    if projects.len() == 0 {
        Seq::empty()
    } else {
        let rest = filtered_projects(projects.drop_last(), lang);
        if lang_matches(projects.last(), lang) {
            rest.push(projects.last())
        } else {
            rest
        }
    }
}

/// Every line of `lines` renders the project of `projects` at the same
/// position, padded against the longest name's byte length `maxb`.
pub open spec fn all_lines_ok(
    lines: Seq<Seq<char>>,
    projects: Seq<ProjectListing>,
    maxb: usize,
) -> bool {
    &&& lines.len() == projects.len()
    &&& forall|i: int|
        0 <= i < projects.len() && no_escape_char(#[trigger] projects[i].name@)
            ==> renders_project_line(
            lines[i],
            projects[i].name@,
            (maxb - byte_len(projects[i].name@)) as nat,
            language_of(projects[i].files.deep_view()),
        )
}

fn render_lines(projects: &Vec<ProjectListing>, maxb: usize) -> (lines: Vec<String>)
    requires
        forall|i: int| 0 <= i < projects@.len() ==> byte_len(#[trigger] projects@[i].name@)
            <= maxb,
    ensures
        all_lines_ok(lines.deep_view(), projects@, maxb),
{
    let mut lines: Vec<String> = Vec::new();
    let mut i: usize = 0;
    while i < projects.len()
        invariant
            i <= projects@.len(),
            forall|k: int| 0 <= k < projects@.len() ==> byte_len(
                #[trigger] projects@[k].name@,
            ) <= maxb,
            all_lines_ok(lines.deep_view(), projects@.take(i as int), maxb),
        decreases projects@.len() - i,
    {
        let ghost prev = lines.deep_view();
        let language = get_project_language(&projects[i].files);
        let name_len = projects[i].name.as_str().len();
        let line = proj_to_str(projects[i].name.as_str(), maxb - name_len, language);
        lines.push(line);
        proof {
            assert(lines.deep_view() =~= prev.push(line@));
            assert(projects@.take(i + 1).drop_last() =~= projects@.take(i as int));
        }
        i += 1;
    }
    proof {
        assert(projects@.take(projects@.len() as int) =~= projects@);
    }
    lines
}

fn render_filtered_lines(projects: &Vec<ProjectListing>, maxb: usize, lang: &str) -> (lines:
    Vec<String>)
    requires
        forall|i: int| 0 <= i < projects@.len() ==> byte_len(#[trigger] projects@[i].name@)
            <= maxb,
    ensures
        all_lines_ok(lines.deep_view(), filtered_projects(projects@, lang@), maxb),
{
    let mut lines: Vec<String> = Vec::new();
    let mut i: usize = 0;
    while i < projects.len()
        invariant
            i <= projects@.len(),
            forall|k: int| 0 <= k < projects@.len() ==> byte_len(
                #[trigger] projects@[k].name@,
            ) <= maxb,
            all_lines_ok(
                lines.deep_view(),
                filtered_projects(projects@.take(i as int), lang@),
                maxb,
            ),
        decreases projects@.len() - i,
    {
        proof {
            assert(projects@.take(i + 1).drop_last() =~= projects@.take(i as int));
            assert(projects@.take(i + 1).last() == projects@[i as int]);
        }
        let language = get_project_language(&projects[i].files);
        let keep = match language {
            Some(t) => str_eq(lang_keyword(t), lang),
            None => false,
        };
        if keep {
            let ghost prev = lines.deep_view();
            let name_len = projects[i].name.as_str().len();
            let line = proj_to_str(projects[i].name.as_str(), maxb - name_len, language);
            lines.push(line);
            proof {
                assert(lines.deep_view() =~= prev.push(line@));
                let f = filtered_projects(projects@.take(i + 1), lang@);
                assert(f == filtered_projects(projects@.take(i as int), lang@).push(
                    projects@[i as int],
                ));
                assert(f.drop_last() == filtered_projects(projects@.take(i as int), lang@));
                assert(all_lines_ok(lines.deep_view(), f, maxb));
            }
        }
        i += 1;
    }
    proof {
        assert(projects@.take(projects@.len() as int) =~= projects@);
    }
    lines
}

/// The lines the list command prints: with no filter, one line per project;
/// with a language filter, one line per matching project and nothing else.
/// All padding is against the longest name in the whole workspace.
pub open spec fn list_lines_ok(
    lines: Seq<Seq<char>>,
    projects: Seq<ProjectListing>,
    lang: Option<Seq<char>>,
) -> bool {
    let maxb = max_name_byte_len(projects);
    match lang {
        None => all_lines_ok(lines, projects, maxb),
        Some(l) => all_lines_ok(lines, filtered_projects(projects, l), maxb),
    }
}

/// Renders the project list: every project, or — with a language keyword —
/// only the projects of that language.
pub fn list_dir(projects: &Vec<ProjectListing>, lang: Option<&str>) -> (lines: Vec<String>)
    ensures
        list_lines_ok(
            lines.deep_view(),
            projects@,
            match lang {
                Some(l) => Some(l@),
                None => None,
            },
        ),
{
    proof {
        lemma_max_name_bound(projects@);
    }
    let maxb = max_name_len(projects);
    match lang {
        None => render_lines(projects, maxb),
        Some(lang_raw) => render_filtered_lines(projects, maxb, lang_raw),
    }
}

} // verus!
