use vstd::prelude::*;

verus! {

/// Errors surfaced by the configuration subsystem.
#[derive(Debug, Clone, PartialEq, Eq)]
pub enum AppError {
    /// A file system operation failed on `path`.
    Io { path: String, message: String },
    /// Configuration text at `path` is not a well-formed TOML table.
    Toml { path: String, message: String },
    /// A configuration-level failure (for example, no home directory).
    Config(String),
    /// Serializing or parsing JSON failed.
    Json(String),
    /// The provider registry reported a failure.
    Database(String),
}

} // verus!
