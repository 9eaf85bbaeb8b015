//! Host-requirement evaluation for companion game-server tooling.
//!
//! The library decides whether the host machine satisfies a fixed set of
//! prerequisites (operating system, CPU architecture, presence of the Steam
//! client) and, when Steam is present, locates the install directories of a
//! known set of game titles through Steam's local installation registry.

pub mod probe;
pub mod report;
pub mod evaluator;

pub use report::RequirementState;
pub use report::Requirements;
