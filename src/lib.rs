//! Change-detection cache for a batch image-distribution tool.
//!
//! The library decides, for each source file, whether it is unchanged since
//! an earlier run (a hit) or must be processed again (a miss). A miss hands
//! back a pending record that becomes durable only when the caller commits it
//! after its own work succeeded.

pub mod fingerprint;
pub mod timefmt;
pub mod cache;
pub mod volume;
pub mod config;
pub mod files;
