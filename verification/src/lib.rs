//! Build-and-run agent core for driving an iOS toolchain from another host.
//!
//! The library holds the agent's verified logic: the shared state store,
//! the project cache, the build orchestration decisions, the log fan-out,
//! and the simulator adapter's output normalization. Process spawning,
//! HTTP serving and disk access live outside the library and hand it
//! plain values.

pub mod api;
pub mod archive;
pub mod cli;
pub mod clock;
pub mod config;
pub mod error;
pub mod fanout;
pub mod health;
pub mod logs;
pub mod project;
pub mod simctl;
pub mod storage;
pub mod store;
pub mod styles;
pub mod text;
pub mod tui;
pub mod xcode;
