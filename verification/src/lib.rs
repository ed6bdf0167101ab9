//! A personal developer-workspace manager: it tracks a directory of local
//! software projects, infers each project's primary language from marker
//! files, and prepares lifecycle actions (list, create from a template, open
//! in an editor, remove) for a command line and a tiny HTTP control surface.
//!
//! The library holds the registry, lifecycle and routing logic; reading
//! directories, spawning processes and serving HTTP are left to the binary,
//! which hands the library plain values (directory listings, request paths)
//! and carries out the commands the library prepares.

pub mod cli;
pub mod config;
pub mod error;
pub mod lifecycle;
pub mod registry;
pub mod render;
pub mod text;
pub mod website;

use vstd::prelude::*;

verus! {

} // verus!
