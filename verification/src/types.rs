//! Common data types of the engine.
//!
//! Each type is a plain-value snapshot: created once per sample tick and
//! immutable after construction. Callers receive copies, never shared
//! references into the engine.

use vstd::prelude::*;

verus! {

/// A single power reading from the hardware.
#[derive(Debug, Clone)]
pub struct PowerReading {
    /// Total power consumption in milliwatts.
    pub power_mw: u64,
    /// Unix timestamp (seconds) of the reading.
    pub timestamp: i64,
    /// Source of the reading (e.g. "rapl", "battery", "estimated").
    pub source: String,
    /// Per-component breakdown if available (component name, milliwatts).
    pub components: Option<Vec<(String, u64)>>,
    /// Whether this is an estimated value rather than a sensor measurement.
    pub is_estimated: bool,
}

impl PowerReading {
    /// Build a reading; the caller supplies the wall-clock stamp.
    pub fn new(power_mw: u64, timestamp: i64, source: &str, is_estimated: bool) -> (r: Self)
        ensures
            r.power_mw == power_mw,
            r.timestamp == timestamp,
            r.source@ == source@,
            r.components is None,
            r.is_estimated == is_estimated,
    {
        PowerReading {
            power_mw,
            timestamp,
            source: source.to_owned(),
            components: None,
            is_estimated,
        }
    }

    /// Attach a per-component breakdown to the reading.
    pub fn with_components(self, components: Vec<(String, u64)>) -> (r: Self)
        ensures
            r.power_mw == self.power_mw,
            r.timestamp == self.timestamp,
            r.source == self.source,
            r.components == Some(components),
            r.is_estimated == self.is_estimated,
    {
        PowerReading { components: Some(components), ..self }
    }
}

/// Result of a baseline detection pass.
#[derive(Debug, Clone)]
pub struct BaselineDetection {
    /// Detected baseline power in milliwatts.
    pub detected_mw: u64,
    /// Number of samples the detection was computed from.
    pub sample_count: usize,
    /// Confidence of the detection in per-mille (0..=1000).
    pub confidence_pm: u64,
}

/// CPU metrics snapshot.
#[derive(Debug, Clone)]
pub struct CpuMetrics {
    pub name: String,
    /// Average load over all logical processors, per-mille (0..=1000).
    pub usage_pm: u64,
    /// Per-core load, per-mille each.
    pub per_core_usage_pm: Vec<u64>,
    pub frequency_mhz: Option<u64>,
    /// Package temperature in millidegrees Celsius.
    pub temperature_mc: Option<u64>,
    pub core_count: usize,
    pub thread_count: usize,
    /// Per-core clock frequencies in MHz (extended collection only).
    pub per_core_frequency_mhz: Option<Vec<u64>>,
    /// Per-core temperatures in millidegrees Celsius.
    pub per_core_temperature_mc: Option<Vec<u64>>,
}

/// GPU metrics snapshot.
#[derive(Debug, Clone)]
pub struct GpuMetrics {
    pub name: String,
    /// GPU utilization, per-mille (0..=1000).
    pub usage_pm: Option<u64>,
    pub power_mw: Option<u64>,
    pub temperature_mc: Option<u64>,
    pub vram_used_mb: Option<u64>,
    pub vram_total_mb: Option<u64>,
    pub clock_mhz: Option<u64>,
    /// Which bridge produced the data (e.g. "nvml", "nvidia-smi").
    pub source: String,
    pub memory_clock_mhz: Option<u64>,
    pub fan_speed_percent: Option<u64>,
}

/// Memory (RAM) metrics snapshot.
#[derive(Debug, Clone)]
pub struct MemoryMetrics {
    pub used_bytes: u64,
    pub total_bytes: u64,
    /// Usage as per-mille of total (0..=1000).
    pub usage_pm: u64,
    pub swap_used_bytes: Option<u64>,
    pub swap_total_bytes: Option<u64>,
    pub swap_usage_pm: Option<u64>,
    /// Physical memory speed in MHz (immutable hardware descriptor).
    pub memory_speed_mhz: Option<u64>,
    pub memory_type: Option<String>,
}

/// A voltage sensor reading, in millivolts.
#[derive(Debug, Clone)]
pub struct VoltageReading {
    pub name: String,
    pub value_mv: u64,
}

/// System fan metrics.
#[derive(Debug, Clone)]
pub struct FanMetrics {
    pub fans: Vec<FanReading>,
}

/// Individual fan reading.
#[derive(Debug, Clone)]
pub struct FanReading {
    pub name: String,
    pub speed_rpm: Option<u64>,
    pub speed_percent: Option<u64>,
}

/// System-wide hardware metrics.
#[derive(Debug, Clone)]
pub struct SystemMetrics {
    pub cpu: CpuMetrics,
    pub gpu: Option<GpuMetrics>,
    pub memory: MemoryMetrics,
    pub timestamp: i64,
    /// Collected only on extended cycles.
    pub fans: Option<FanMetrics>,
    /// Collected only on extended cycles.
    pub voltages: Option<Vec<VoltageReading>>,
}

/// Process metrics for the top-process display.
#[derive(Debug, Clone)]
pub struct ProcessMetrics {
    pub pid: u32,
    pub name: String,
    /// CPU load attributed to the process, per-mille.
    pub cpu_pm: u64,
    pub memory_bytes: u64,
    /// Memory share of total, per-mille.
    pub memory_pm: u64,
    /// GPU share, per-mille, if any signal was observed.
    pub gpu_pm: Option<u64>,
    pub is_pinned: bool,
}

/// Session category for organizing tracking sessions.
#[derive(Debug, Clone)]
pub struct SessionCategory {
    pub emoji: String,
    pub name: String,
}

/// Tracking session for baseline/surplus accounting.
#[derive(Debug, Clone)]
pub struct Session {
    pub id: Option<i64>,
    pub start_time: i64,
    pub end_time: Option<i64>,
    pub baseline_mw: u64,
    pub total_mwh: u64,
    pub surplus_mwh: u64,
    pub surplus_cost_micro: u64,
    pub label: Option<String>,
    pub category: Option<String>,
}

impl Session {
    /// Start a session now (the caller supplies the wall-clock stamp).
    pub fn new(baseline_mw: u64, start_time: i64, label: Option<String>) -> (r: Self)
        ensures
            r.id is None,
            r.start_time == start_time,
            r.end_time is None,
            r.baseline_mw == baseline_mw,
            r.total_mwh == 0,
            r.surplus_mwh == 0,
            r.surplus_cost_micro == 0,
            r.label == label,
            r.category is None,
    {
        Session {
            id: None,
            start_time,
            end_time: None,
            baseline_mw,
            total_mwh: 0,
            surplus_mwh: 0,
            surplus_cost_micro: 0,
            label,
            category: None,
        }
    }
}

/// Metrics that need fast updates: refreshed on every fast tick.
#[derive(Debug, Clone)]
pub struct CriticalMetrics {
    pub power_mw: u64,
    /// Session average power in milliwatts.
    pub avg_power_mw: u64,
    pub cpu_usage_pm: u64,
    pub gpu_usage_pm: Option<u64>,
    pub gpu_power_mw: Option<u64>,
    /// Cumulative energy since session start, in milliwatt-hours.
    pub cumulative_mwh: u64,
    /// Cost since session start, in micro currency units.
    pub current_cost_micro: u64,
    pub hourly_cost_micro: u64,
    pub daily_cost_micro: u64,
    pub monthly_cost_micro: u64,
    pub session_duration_secs: u64,
    pub active_session: Option<Session>,
    pub source: String,
    pub is_estimated: bool,
    pub timestamp: i64,
}

/// Metrics refreshed at the slow cadence: processes, temperatures, VRAM.
#[derive(Debug, Clone)]
pub struct DetailedMetrics {
    pub system_metrics: Option<SystemMetrics>,
    pub top_processes: Vec<ProcessMetrics>,
    pub timestamp: i64,
    /// Whether extended metrics (per-core freq, fans) were collected this cycle.
    pub extended_collected: bool,
}

} // verus!
