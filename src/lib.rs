//! Resolution engine of a per-project runtime-version launcher: which
//! version to run, where its executables live, and the search path under
//! which they should run.
pub mod error;
pub mod layout;
pub mod paths;
pub mod prefix;
pub mod resolution;
pub mod search_path;
pub mod settings;
pub mod version;
