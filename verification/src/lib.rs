//! Build orchestration for the vendored Pluto sources: every decision of a
//! build (toolchain settings, per-architecture additions, source selection,
//! link metadata) is computed here from plain values and proved against its
//! contract. Running the compiler and touching the file system is left to the
//! caller.

pub mod arch;
pub mod artifacts;
pub mod builder;
pub mod compiler;
pub mod environment;
pub mod paths;
pub mod plan;
pub mod stdlib;
pub mod text;
pub mod toolchain;

pub use artifacts::Artifacts;
pub use builder::{Build, MissingSetting, Profile};
pub use plan::{BuildPlan, CompileUnit};
pub use environment::Environment;
pub use toolchain::ToolchainConfig;
