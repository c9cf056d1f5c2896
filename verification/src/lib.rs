//! Staging of the process-environment configuration that the Qt plugin
//! loader and its platform-abstraction layer read at startup.
//!
//! The library models the two environment variables as explicit staged
//! values: a plugin search path built by joining a list of directories
//! with the path-list separator, and a flag that asks the native layer
//! not to install its own signal handlers.  Writing the staged values
//! into the real process environment is left to the caller.

pub mod environment;
pub mod paths;

pub use environment::DeploymentError;
pub use environment::QtEnvironment;
pub use paths::join_paths;
pub use paths::parent_dir;
pub use paths::JoinPathsError;
