//! The error taxonomy of the workspace manager.

use vstd::prelude::*;

verus! {

/// Which lifecycle operation an external process was carrying out when it
/// failed.
#[derive(Debug, Clone, Copy, PartialEq, Eq, Structural)]
pub enum LifecycleStage {
    Create,
    Open,
    Remove,
}

/// What can go wrong in the registry and the lifecycle operations.
#[derive(Debug, Clone, Copy, PartialEq, Eq, Structural)]
pub enum ProError {
    /// The workspace or a project directory could not be enumerated.
    Registry,
    /// A named project is not among the listed projects.
    NotFound,
    /// A project name that could escape the workspace (empty, `.`, `..`,
    /// or holding a path separator) was rejected before any path was built.
    InvalidName,
    /// A delegated external process could not be spawned or reported failure.
    External(LifecycleStage),
}

} // verus!
