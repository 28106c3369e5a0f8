//! Error taxonomy of the orchestration core.
//!
//! Every failure is reported to the caller as one of these variants; no
//! condition in this core terminates the host process.

use vstd::prelude::*;

verus! {

/// Application error.
#[derive(Debug, Clone, PartialEq, Eq)]
pub enum AppError {
    /// Configuration error: a schedule or settings store was unreadable or
    /// malformed.
    ConfigError(String),
    /// Platform error: a chain of OS commands was exhausted without success.
    PlatformError(String),
    /// Wallpaper error: missing asset, field mismatch, spawn failure, or an
    /// explicitly unimplemented operation.
    WallpaperError(String),
    /// Plugin error.
    PluginError(String),
    /// I/O error, carried as its diagnostic text.
    IoError(String),
    /// Serialization error, carried as its diagnostic text.
    SerializationError(String),
    /// The current platform has no wallpaper manager.
    UnsupportedPlatform,
    /// Any other error.
    Other(String),
}

impl AppError {
    /// The diagnostic text carried by this error, if any.
    pub fn message(&self) -> (r: String)
        ensures
            r@ == self.spec_message(),
    {
        match self {
            AppError::ConfigError(s) => s.clone(),
            AppError::PlatformError(s) => s.clone(),
            AppError::WallpaperError(s) => s.clone(),
            AppError::PluginError(s) => s.clone(),
            AppError::IoError(s) => s.clone(),
            AppError::SerializationError(s) => s.clone(),
            AppError::UnsupportedPlatform => String::new(),
            AppError::Other(s) => s.clone(),
        }
    }

    /// The diagnostic text carried by this error, as a sequence of characters.
    pub open spec fn spec_message(&self) -> Seq<char> {
        match self {
            AppError::ConfigError(s) => s@,
            AppError::PlatformError(s) => s@,
            AppError::WallpaperError(s) => s@,
            AppError::PluginError(s) => s@,
            AppError::IoError(s) => s@,
            AppError::SerializationError(s) => s@,
            AppError::UnsupportedPlatform => Seq::<char>::empty(),
            AppError::Other(s) => s@,
        }
    }
}

/// Result type for the application.
pub type AppResult<T> = Result<T, AppError>;

} // verus!
