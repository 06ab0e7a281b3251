//! Telemetry bridge for a game-server bot: lifecycle events become live gauges
//! and structured log records.

pub mod config;
pub mod errors;
pub mod history;
pub mod logging;
pub mod metrics;
pub mod plugin;
pub mod text;
