//! Core logic of a process-driving test harness for the Phase Space engine.
//!
//! The harness launches the engine as a child process, learns its listen
//! address from its output, talks to it over a framed wire protocol and
//! gives test code a session to seed entities, advance ticks, inspect
//! telemetry and shut the engine down.
//!
//! This crate holds the decisions of that harness, and of the reference
//! engine that it is tested against, as verified functions from what was
//! observed to what is done next. Processes, sockets, threads and clocks are
//! the caller's.

pub mod codec;
pub mod config;
pub mod error;
pub mod harness;
pub mod journal;
pub mod logs;
pub mod process;
pub mod protocol;
pub mod responses;
pub mod server;
pub mod session;
pub mod startup;
pub mod text;
pub mod ticks;
pub mod time;

pub use config::{EngineConfig, ScenarioConfig, SpawnSpec};
pub use error::{HarnessError, HarnessResult};
pub use harness::EngineHarness;
pub use journal::Journal;
pub use logs::{LogLine, LogStream};
pub use session::Session;
