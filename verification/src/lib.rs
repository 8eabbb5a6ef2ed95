//! Power-telemetry and estimation engine.
//!
//! The engine estimates a machine's instantaneous electrical power draw,
//! converts it into cumulative energy and cost, and distinguishes baseline
//! (idle) consumption from usage surplus attributable to active work.
//!
//! All physical quantities are carried as scaled integers so that every
//! computation is exact and verifiable:
//! - power in milliwatts (`mw`)
//! - energy in milliwatt-hours (`mwh`)
//! - counter energy in microjoules (`uj`)
//! - loads, percentages and confidences in per-mille (`pm`, 0..=1000)
//! - money in micro currency units (`micro`)
//! - temperatures in millidegrees Celsius (`mc`)
//! - durations in milliseconds (`ms`), wall-clock stamps in unix seconds.

pub mod baseline;
pub mod cache;
pub mod config;
pub mod elevation;
pub mod error;
pub mod tdp;
pub mod text;
pub mod gpu;
pub mod i18n;
pub mod laws;
pub mod monitor;
pub mod nvml_gpu;
pub mod parse;
pub mod pricing;
pub mod processes;
pub mod session;
pub mod sources;
pub mod types;
pub mod version;
