//! Persisting a value to a structured text file in an OS-standard configuration
//! or data directory, and reading environment overrides from a `.env` file.
//!
//! Directory creation and file access belong to the caller; the library holds the
//! decisions around them: how each low-level failure is classified, when a missing
//! file turns into a default value, and how an overlay file is parsed and looked up.
use vstd::prelude::*;

pub mod env;
pub mod error;
pub mod location;
pub mod persist;

pub use crate::env::Env;
pub use crate::error::PersistError;
pub use crate::location::{DirectoryKind, Identity};

verus! {

/// How a value came out of `load_or_default`.
#[derive(Debug)]
pub enum LoadState<T> {
    /// The file was absent or unreadable, so a default instance was built in memory.
    Default(T),
    /// The value was read from the file.
    Loaded(T),
}

impl<T> LoadState<T> {
    /// The value, however it was obtained.
    pub fn into_inner(self) -> (r: T)
        ensures
            r == match self {
                LoadState::Default(v) => v,
                LoadState::Loaded(v) => v,
            },
    {
        match self {
            LoadState::Default(v) => v,
            LoadState::Loaded(v) => v,
        }
    }

    /// Whether the value was read from the file.
    pub fn is_loaded(&self) -> (r: bool)
        ensures
            r == (self is Loaded),
    {
        match self {
            LoadState::Default(_) => false,
            LoadState::Loaded(_) => true,
        }
    }
}

} // verus!
