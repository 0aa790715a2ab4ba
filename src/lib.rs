//! Runtime patching of a host executable's memory image: a byte-patch engine
//! that checks expected pre-image bytes before writing, and the reconciliation
//! watchers that repair state the host reverts on its own.
//!
//! Everything that touches raw memory or the operating system happens outside
//! this crate; here are the decisions, over plain values, with their contracts.
pub mod config;
pub mod engine;
pub mod memory;
pub mod patch;
pub mod patches;
pub mod watcher;
pub mod window;
