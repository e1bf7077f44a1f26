//! Standard per-user filesystem locations, resolved from a snapshot of the
//! process environment by override-then-fallback rules, and project-scoped
//! directories derived from a normalized application name.
//!
//! Paths are modeled as plain strings; an override value is honoured only
//! when it is an absolute path, and every query is a pure function of the
//! snapshot it is given.

pub mod base;
pub mod names;
pub mod paths;
pub mod project;

pub use base::BaseDirectories;
pub use base::DirsError;
pub use base::EnvSnapshot;
pub use base::UserFolder;
pub use base::user_folder_key;
pub use names::strip_qualification;
pub use names::trim_and_replace_spaces_with_hyphens_then_lowercase;
pub use project::ProjectDirectories;
