//! Verified core of a desktop-wallpaper orchestrator.
//!
//! The crate models the lifecycle of the one active wallpaper backend, the
//! trigger-based scheduler that swaps it, the platform-specific fallback
//! chains of external tools, best-effort helper-process discovery, and the
//! resource accounting that gates resource-heavy backends.

use vstd::prelude::*;

pub mod config;
pub mod error;
pub mod experiments;
pub mod gallery;
pub mod platform;
pub mod plugin;
pub mod process;
pub mod resources;
pub mod schedule;
pub mod text;
pub mod types;
pub mod wallpapers;
pub mod widgets;
pub mod window;

verus! {

/// The scheduler loop's fixed tick interval, in seconds.
pub const SCHEDULER_TICK_SECS: u64 = 60;

} // verus!
