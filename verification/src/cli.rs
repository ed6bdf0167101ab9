//! The command-line dispatcher: a fixed vocabulary of subcommands, parsed
//! from the argument vector into the operation to run. The binary reads the
//! process's arguments, hands them here, and carries the decision out.

use vstd::prelude::*;
use crate::text::str_eq;

verus! {

/// What one invocation asks for.
pub enum CliAction {
    /// List the projects, optionally only those of one language.
    List { lang: Option<String> },
    /// Print the version line.
    Version,
    /// Open the named project in the editor.
    Open { name: String },
    /// Print the named project's full path.
    Path { name: String },
    /// Create the named project from the template.
    Create { name: String },
    /// Remove the named project.
    Remove { name: String },
    /// Print the help message.
    Help,
    /// Print the shell-completion script.
    Comps,
    /// Start the HTTP control surface.
    Serve,
    /// Anything else: print the one-line usage hint.
    Usage,
}

/// The whole subcommand vocabulary, by exact arity and words: `list`,
/// `list -lang LANG`, `version`, `open NAME`, `path NAME`, `create NAME`,
/// `remove NAME`, `help`, `comps`, `serve`, and the usage hint for every
/// other argument vector.
pub open spec fn cli_action_spec(args: Seq<Seq<char>>, a: CliAction) -> bool {
    if args.len() == 1 && args[0] == "list"@ {
        a == CliAction::List { lang: None }
    } else if args.len() == 3 && args[0] == "list"@ && args[1] == "-lang"@ {
        a matches CliAction::List { lang: Some(l) } && l@ == args[2]
    } else if args.len() == 1 && args[0] == "version"@ {
        a is Version
    } else if args.len() == 2 && args[0] == "open"@ {
        a matches CliAction::Open { name } && name@ == args[1]
    } else if args.len() == 2 && args[0] == "path"@ {
        a matches CliAction::Path { name } && name@ == args[1]
    } else if args.len() == 2 && args[0] == "create"@ {
        a matches CliAction::Create { name } && name@ == args[1]
    } else if args.len() == 2 && args[0] == "remove"@ {
        a matches CliAction::Remove { name } && name@ == args[1]
    } else if args.len() == 1 && args[0] == "help"@ {
        a is Help
    } else if args.len() == 1 && args[0] == "comps"@ {
        a is Comps
    } else if args.len() == 1 && args[0] == "serve"@ {
        a is Serve
    } else {
        a is Usage
    }
}

/// Parses the argument vector (without the program name) into the action
/// to run, exactly as [`cli_action_spec`] lays the vocabulary down.
pub fn parse_args(args: &Vec<String>) -> (a: CliAction)
    ensures
        cli_action_spec(args.deep_view(), a),
{
    if args.len() == 1 {
        if str_eq(args[0].as_str(), "list") {
            CliAction::List { lang: None }
        } else if str_eq(args[0].as_str(), "version") {
            CliAction::Version
        } else if str_eq(args[0].as_str(), "help") {
            CliAction::Help
        } else if str_eq(args[0].as_str(), "comps") {
            CliAction::Comps
        } else if str_eq(args[0].as_str(), "serve") {
            CliAction::Serve
        } else {
            CliAction::Usage
        }
    } else if args.len() == 2 {
        if str_eq(args[0].as_str(), "open") {
            CliAction::Open { name: args[1].clone() }
        } else if str_eq(args[0].as_str(), "path") {
            CliAction::Path { name: args[1].clone() }
        } else if str_eq(args[0].as_str(), "create") {
            CliAction::Create { name: args[1].clone() }
        } else if str_eq(args[0].as_str(), "remove") {
            CliAction::Remove { name: args[1].clone() }
        } else {
            CliAction::Usage
        }
    } else if args.len() == 3 && str_eq(args[0].as_str(), "list") && str_eq(
        args[1].as_str(),
        "-lang",
    ) {
        CliAction::List { lang: Some(args[2].clone()) }
    } else {
        CliAction::Usage
    }
}

} // verus!
