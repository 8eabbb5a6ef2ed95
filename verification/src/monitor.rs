//! The composite power monitor and the monitor facade.
//!
//! The composite backend combines a load-based CPU power estimate with real
//! GPU wattage from the vendor runtime or, failing that, from an external
//! diagnostic tool whose output the slow path feeds into the caches. Its fast
//! path never performs a blocking external call: it recomputes the CPU term
//! from the load sample it is handed and reads GPU data from cache only.

use vstd::prelude::*;
use crate::cache::CachedValue;
use crate::error::SensorProbe;
use crate::gpu::{GpuInfo, GpuSource};
use crate::nvml_gpu::{query_gpu_metrics, query_gpu_power, NvmlState};
use crate::sources::InnerPowerSource;
use crate::tdp::{spec_load_sum, EstimationMonitor};
use crate::types::{
    CpuMetrics, DetailedMetrics, FanMetrics, GpuMetrics, MemoryMetrics, PowerReading,
    ProcessMetrics, SystemMetrics, VoltageReading,
};

verus! {

/// Staleness tolerance of the fast path's GPU cache reads, in milliseconds.
pub open spec fn spec_fast_path_ttl_ms() -> int {
    10_000
}

/// The idle share of the CPU's TDP in the composite estimate, per-mille.
pub open spec fn spec_composite_idle_pm() -> int {
    150
}

/// CPU power from TDP and load: the idle floor plus the load's share of the
/// active span.
pub open spec fn spec_cpu_power_mw(tdp_mw: int, load_pm: int) -> int {
    tdp_mw * spec_composite_idle_pm() / 1000 + load_pm * (tdp_mw * (1000
        - spec_composite_idle_pm()) / 1000) / 1000
}

/// Base power of the rest of the system, in milliwatts: portable machines
/// draw less.
pub open spec fn spec_base_power_mw(is_laptop: bool) -> int {
    if is_laptop {
        10_000
    } else {
        30_000
    }
}

/// The source tag the composite monitor stamps on its readings: the CPU
/// numbers come from the system-information sampler, plus the GPU bridge
/// in use.
pub open spec fn spec_composite_source_tag(gpu_source: GpuSource) -> Seq<char> {
    match gpu_source {
        GpuSource::NvmlNvidia => "sysinfo+nvml"@,
        GpuSource::Nvidia => "sysinfo+nvidia"@,
        GpuSource::Amd => "sysinfo+amd"@,
        GpuSource::NoGpu => "sysinfo"@,
    }
}

/// The composite monitor: CPU estimate plus measured GPU wattage, with one
/// independent TTL cache per slow metric.
pub struct WmiMonitor {
    gpu_source: GpuSource,
    nvml_state: Option<NvmlState>,
    cpu_tdp_mw: u64,
    is_laptop: bool,
    /// GPU power from the CLI bridge (the vendor runtime is fast enough to
    /// skip caching on the slow path).
    gpu_cache: Option<CachedValue<Option<GpuInfo>>>,
    /// Full GPU metrics.
    gpu_metrics_cache: Option<CachedValue<Option<GpuMetrics>>>,
    /// CPU package temperature in millidegrees.
    cpu_temp_cache: Option<CachedValue<Option<u64>>>,
    /// System fan speeds.
    fan_cache: Option<CachedValue<Option<FanMetrics>>>,
    /// Memory descriptor (speed MHz, type): immutable hardware, cached for
    /// the process lifetime after the first successful read.
    memory_info_cache: Option<(Option<u64>, Option<String>)>,
}

impl WmiMonitor {
    pub closed spec fn spec_gpu_source(&self) -> GpuSource {
        self.gpu_source
    }

    pub closed spec fn spec_cpu_tdp_mw(&self) -> u64 {
        self.cpu_tdp_mw
    }

    pub closed spec fn spec_is_laptop(&self) -> bool {
        self.is_laptop
    }

    pub closed spec fn spec_gpu_cache(&self) -> Option<CachedValue<Option<GpuInfo>>> {
        self.gpu_cache
    }

    pub closed spec fn spec_gpu_metrics_cache(&self) -> Option<CachedValue<Option<GpuMetrics>>> {
        self.gpu_metrics_cache
    }

    pub closed spec fn spec_cpu_temp_cache(&self) -> Option<CachedValue<Option<u64>>> {
        self.cpu_temp_cache
    }

    pub closed spec fn spec_fan_cache(&self) -> Option<CachedValue<Option<FanMetrics>>> {
        self.fan_cache
    }

    pub closed spec fn spec_memory_info_cache(&self) -> Option<(Option<u64>, Option<String>)> {
        self.memory_info_cache
    }

    /// The TDP is plausible and every cached GPU power is plausible.
    pub open spec fn wf(&self) -> bool {
        &&& 0 < self.spec_cpu_tdp_mw() <= 1_000_000_000
        &&& match self.spec_gpu_cache() {
            Some(c) => match c.spec_value() {
                Some(g) => g.power_mw <= 10_000_000_000,
                None => true,
            },
            None => true,
        }
    }

    /// Every cache entry was captured no later than `now_ms`.
    pub open spec fn caches_by(&self, now_ms: u64) -> bool {
        &&& match self.spec_gpu_cache() {
            Some(c) => c.spec_captured_at() <= now_ms,
            None => true,
        }
        &&& match self.spec_gpu_metrics_cache() {
            Some(c) => c.spec_captured_at() <= now_ms,
            None => true,
        }
        &&& match self.spec_cpu_temp_cache() {
            Some(c) => c.spec_captured_at() <= now_ms,
            None => true,
        }
        &&& match self.spec_fan_cache() {
            Some(c) => c.spec_captured_at() <= now_ms,
            None => true,
        }
    }

    /// A fresh composite monitor with empty caches.
    pub fn new(
        gpu_source: GpuSource,
        nvml_state: Option<NvmlState>,
        cpu_tdp_mw: u64,
        is_laptop: bool,
    ) -> (r: Self)
        requires
            0 < cpu_tdp_mw <= 1_000_000_000,
        ensures
            r.wf(),
            r.caches_by(0),
            r.spec_gpu_source() == gpu_source,
            r.spec_cpu_tdp_mw() == cpu_tdp_mw,
            r.spec_is_laptop() == is_laptop,
            r.spec_gpu_cache() is None,
            r.spec_gpu_metrics_cache() is None,
            r.spec_cpu_temp_cache() is None,
            r.spec_fan_cache() is None,
            r.spec_memory_info_cache() is None,
    {
        WmiMonitor {
            gpu_source,
            nvml_state,
            cpu_tdp_mw,
            is_laptop,
            gpu_cache: None,
            gpu_metrics_cache: None,
            cpu_temp_cache: None,
            fan_cache: None,
            memory_info_cache: None,
        }
    }

    /// The detected GPU source.
    pub fn gpu_source(&self) -> (r: GpuSource)
        ensures
            r == self.spec_gpu_source(),
    {
        self.gpu_source
    }

    /// CPU power estimate from the TDP and an average load sample.
    pub fn calculate_cpu_power(&self, cpu_load_pm: u64) -> (r: u64)
        requires
            self.wf(),
            cpu_load_pm <= 1000,
        ensures
            r == spec_cpu_power_mw(self.spec_cpu_tdp_mw() as int, cpu_load_pm as int),
            r <= self.spec_cpu_tdp_mw(),
    {
        let tdp = self.cpu_tdp_mw;
        proof {
            assert(tdp * 150 <= 1_000_000_000 * 150int) by (nonlinear_arith)
                requires
                    tdp <= 1_000_000_000,
            ;
            assert(tdp * 850 <= 1_000_000_000 * 850int) by (nonlinear_arith)
                requires
                    tdp <= 1_000_000_000,
            ;
        }
        let idle_mw: u64 = tdp * 150 / 1000;
        let active_span_mw: u64 = tdp * 850 / 1000;
        proof {
            assert(cpu_load_pm * active_span_mw <= 1000 * active_span_mw) by (nonlinear_arith)
                requires
                    cpu_load_pm <= 1000,
            ;
            vstd::arithmetic::div_mod::lemma_div_is_ordered(
                (cpu_load_pm * active_span_mw) as int,
                1000 * (active_span_mw as int),
                1000,
            );
            assert(1000 * (active_span_mw as int) / 1000 == active_span_mw) by (nonlinear_arith);
            // The idle floor plus the whole active span never exceeds the TDP.
            vstd::arithmetic::div_mod::lemma_div_is_ordered(
                (tdp * 150) as int,
                (tdp as int) * 1000,
                1000,
            );
            assert(tdp * 150 + tdp * 850 == tdp as int * 1000) by (nonlinear_arith);
            let a = (tdp * 150) as int;
            let b = (tdp * 850) as int;
            vstd::arithmetic::div_mod::lemma_fundamental_div_mod(a, 1000);
            vstd::arithmetic::div_mod::lemma_fundamental_div_mod(b, 1000);
            vstd::arithmetic::div_mod::lemma_mod_bound(a, 1000);
            vstd::arithmetic::div_mod::lemma_mod_bound(b, 1000);
            assert((a / 1000 + b / 1000) * 1000 <= (tdp as int) * 1000) by (nonlinear_arith)
                requires
                    a == 1000 * (a / 1000) + a % 1000 && b == 1000 * (b / 1000) + b % 1000 && a
                        % 1000 >= 0 && b % 1000 >= 0 && a + b == tdp as int * 1000,
            ;
            vstd::arithmetic::mul::lemma_mul_inequality_converse(
                a / 1000 + b / 1000,
                tdp as int,
                1000,
            );
        }
        idle_mw + cpu_load_pm * active_span_mw / 1000
    }

    /// Base power of the rest of the system.
    pub fn estimate_base_power(&self) -> (r: u64)
        ensures
            r == spec_base_power_mw(self.spec_is_laptop()),
    {
        if self.is_laptop {
            10_000
        } else {
            30_000
        }
    }

    /// Total power from the CPU estimate, an optional real GPU wattage, and
    /// the base power.
    pub fn compose_power(&self, cpu_load_pm: u64, gpu_power_mw: Option<u64>) -> (r: u64)
        requires
            self.wf(),
            cpu_load_pm <= 1000,
            gpu_power_mw matches Some(g) ==> g <= 10_000_000_000,
        ensures
            r == spec_cpu_power_mw(self.spec_cpu_tdp_mw() as int, cpu_load_pm as int)
                + spec_base_power_mw(self.spec_is_laptop()) + (match gpu_power_mw {
                Some(g) => g as int,
                None => 0,
            }),
    {
        let cpu = self.calculate_cpu_power(cpu_load_pm);
        let base = self.estimate_base_power();
        match gpu_power_mw {
            Some(g) => cpu + base + g,
            None => cpu + base,
        }
    }

    /// Store a GPU power result obtained by the slow path's CLI bridge.
    pub fn store_gpu_power(&mut self, now_ms: u64, value: Option<GpuInfo>)
        requires
            old(self).wf(),
            value matches Some(g) ==> g.power_mw <= 10_000_000_000,
        ensures
            final(self).wf(),
            final(self).spec_gpu_cache() matches Some(c) && c.spec_value() == value
                && c.spec_captured_at() == now_ms,
            final(self).spec_gpu_metrics_cache() == old(self).spec_gpu_metrics_cache(),
            final(self).spec_cpu_temp_cache() == old(self).spec_cpu_temp_cache(),
            final(self).spec_fan_cache() == old(self).spec_fan_cache(),
            final(self).spec_memory_info_cache() == old(self).spec_memory_info_cache(),
            final(self).spec_gpu_source() == old(self).spec_gpu_source(),
            final(self).spec_cpu_tdp_mw() == old(self).spec_cpu_tdp_mw(),
            final(self).spec_is_laptop() == old(self).spec_is_laptop(),
    {
        self.gpu_cache = Some(CachedValue::new(value, now_ms));
    }

    /// Store a full GPU metrics result obtained by the slow path.
    pub fn store_gpu_metrics(&mut self, now_ms: u64, value: Option<GpuMetrics>)
        requires
            old(self).wf(),
        ensures
            final(self).wf(),
            final(self).spec_gpu_metrics_cache() matches Some(c) && c.spec_value() == value
                && c.spec_captured_at() == now_ms,
            final(self).spec_gpu_cache() == old(self).spec_gpu_cache(),
            final(self).spec_cpu_temp_cache() == old(self).spec_cpu_temp_cache(),
            final(self).spec_fan_cache() == old(self).spec_fan_cache(),
            final(self).spec_memory_info_cache() == old(self).spec_memory_info_cache(),
            final(self).spec_gpu_source() == old(self).spec_gpu_source(),
            final(self).spec_cpu_tdp_mw() == old(self).spec_cpu_tdp_mw(),
            final(self).spec_is_laptop() == old(self).spec_is_laptop(),
    {
        self.gpu_metrics_cache = Some(CachedValue::new(value, now_ms));
    }

    /// Store a CPU temperature obtained by the slow path, in millidegrees.
    pub fn store_cpu_temperature(&mut self, now_ms: u64, value: Option<u64>)
        requires
            old(self).wf(),
        ensures
            final(self).wf(),
            final(self).spec_cpu_temp_cache() matches Some(c) && c.spec_value() == value
                && c.spec_captured_at() == now_ms,
            final(self).spec_gpu_cache() == old(self).spec_gpu_cache(),
            final(self).spec_gpu_metrics_cache() == old(self).spec_gpu_metrics_cache(),
            final(self).spec_fan_cache() == old(self).spec_fan_cache(),
    {
        self.cpu_temp_cache = Some(CachedValue::new(value, now_ms));
    }

    /// Store a fan reading obtained by the slow path.
    pub fn store_fans(&mut self, now_ms: u64, value: Option<FanMetrics>)
        requires
            old(self).wf(),
        ensures
            final(self).wf(),
            final(self).spec_fan_cache() matches Some(c) && c.spec_value() == value
                && c.spec_captured_at() == now_ms,
            final(self).spec_gpu_cache() == old(self).spec_gpu_cache(),
            final(self).spec_gpu_metrics_cache() == old(self).spec_gpu_metrics_cache(),
            final(self).spec_cpu_temp_cache() == old(self).spec_cpu_temp_cache(),
    {
        self.fan_cache = Some(CachedValue::new(value, now_ms));
    }

    /// Store the immutable memory descriptor after its first successful read.
    pub fn store_memory_info(&mut self, speed_mhz: Option<u64>, memory_type: Option<String>)
        requires
            old(self).wf(),
        ensures
            final(self).wf(),
            final(self).spec_memory_info_cache() == Some((speed_mhz, memory_type)),
            final(self).spec_gpu_cache() == old(self).spec_gpu_cache(),
    {
        self.memory_info_cache = Some((speed_mhz, memory_type));
    }

    /// The memory descriptor, if it was ever read.
    pub fn get_memory_info(&self) -> (r: Option<(Option<u64>, Option<String>)>)
        ensures
            match self.spec_memory_info_cache() {
                Some(v) => r matches Some(u) && u.0 == v.0 && (match (u.1, v.1) {
                    (Some(a), Some(b)) => a@ == b@,
                    (None, None) => true,
                    _ => false,
                }),
                None => r is None,
            },
    {
        match &self.memory_info_cache {
            Some((speed, mem_type)) => {
                let t: Option<String> = match mem_type {
                    Some(m) => Some(m.clone()),
                    None => None,
                };
                Some((*speed, t))
            },
            None => None,
        }
    }

    /// The cached CPU temperature while fresh, in millidegrees.
    pub fn get_cpu_temperature(&self, now_ms: u64, max_age_ms: u64) -> (r: Option<u64>)
        requires
            self.caches_by(now_ms),
        ensures
            r == (match self.spec_cpu_temp_cache() {
                Some(c) => if c.is_fresh(now_ms, max_age_ms) {
                    c.spec_value()
                } else {
                    None::<u64>
                },
                None => None::<u64>,
            }),
    {
        match &self.cpu_temp_cache {
            Some(c) => match c.get_copied(now_ms, max_age_ms) {
                Some(v) => v,
                None => None,
            },
            None => None,
        }
    }

    /// Fast-path reading: the CPU term recomputed from the load sample, GPU
    /// data from cache only, under the extended fast-path staleness
    /// tolerance. No blocking external call is made; with the GPU caches
    /// empty or expired the GPU fields are `None` and the total carries no
    /// GPU term.
    pub fn get_power_watts_fast_impl(&self, now_ms: u64, cpu_load_pm: u64) -> (r: (
        u64,
        u64,
        Option<u64>,
        Option<u64>,
    ))
        requires
            self.wf(),
            self.caches_by(now_ms),
            cpu_load_pm <= 1000,
        ensures
            r.1 == cpu_load_pm,
            // GPU usage comes from the metrics cache, only while fresh.
            r.2 == (match self.spec_gpu_metrics_cache() {
                Some(c) => if c.is_fresh(now_ms, spec_fast_path_ttl_ms() as u64) {
                    match c.spec_value() {
                        Some(m) => m.usage_pm,
                        None => None::<u64>,
                    }
                } else {
                    None::<u64>
                },
                None => None::<u64>,
            }),
            // GPU power comes from the power cache, only while fresh.
            r.3 == (match self.spec_gpu_cache() {
                Some(c) => if c.is_fresh(now_ms, spec_fast_path_ttl_ms() as u64) {
                    match c.spec_value() {
                        Some(g) => Some(g.power_mw),
                        None => None::<u64>,
                    }
                } else {
                    None::<u64>
                },
                None => None::<u64>,
            }),
            r.0 == spec_cpu_power_mw(self.spec_cpu_tdp_mw() as int, cpu_load_pm as int)
                + spec_base_power_mw(self.spec_is_laptop()) + (match r.3 {
                Some(g) => g as int,
                None => 0,
            }),
    {
        let gpu_usage_pm: Option<u64> = match &self.gpu_metrics_cache {
            Some(c) => match c.get(now_ms, 10_000) {
                Some(v) => match v {
                    Some(m) => m.usage_pm,
                    None => None,
                },
                None => None,
            },
            None => None,
        };
        let gpu_power_mw: Option<u64> = match &self.gpu_cache {
            Some(c) => match c.get(now_ms, 10_000) {
                Some(v) => match v {
                    Some(g) => Some(g.power_mw),
                    None => None,
                },
                None => None,
            },
            None => None,
        };
        let total = self.compose_power(cpu_load_pm, gpu_power_mw);
        (total, cpu_load_pm, gpu_usage_pm, gpu_power_mw)
    }

    /// Current GPU power: the vendor runtime when it is the active source
    /// (a direct sub-millisecond query), else whatever the CLI bridge last
    /// put in the cache within its TTL.
    pub fn get_gpu_power(&self, now_ms: u64, cache_ttl_ms: u64) -> (r: Option<GpuInfo>)
        requires
            self.wf(),
            self.caches_by(now_ms),
        ensures
            match r {
                Some(g) => g.power_mw <= 10_000_000_000 || self.spec_gpu_source()
                    == GpuSource::NvmlNvidia,
                None => true,
            },
            // Only the vendor runtime bypasses the cache; every other source
            // answers from the cache, within its TTL.
            self.spec_gpu_source() != GpuSource::NvmlNvidia ==> r == (match self.spec_gpu_cache() {
                Some(c) => if c.is_fresh(now_ms, cache_ttl_ms) {
                    c.spec_value()
                } else {
                    None::<GpuInfo>
                },
                None => None::<GpuInfo>,
            }),
    {
        if self.gpu_source == GpuSource::NvmlNvidia {
            if let Some(state) = &self.nvml_state {
                if let Some((power_mw, name)) = query_gpu_power(state) {
                    return Some(GpuInfo { power_mw, name });
                }
            }
        }
        match &self.gpu_cache {
            Some(c) => match c.get(now_ms, cache_ttl_ms) {
                Some(v) => match v {
                    Some(g) => Some(GpuInfo { power_mw: g.power_mw, name: g.name.clone() }),
                    None => None,
                },
                None => None,
            },
            None => None,
        }
    }

    /// Full GPU metrics: the vendor runtime when active, else whatever the
    /// slow path last cached, within the given TTL.
    pub fn get_gpu_metrics(&self, now_ms: u64, cache_ttl_ms: u64) -> (r: Option<GpuMetrics>)
        requires
            self.wf(),
            self.caches_by(now_ms),
        ensures
            self.spec_gpu_source() != GpuSource::NvmlNvidia ==> r == (match self
                .spec_gpu_metrics_cache() {
                Some(c) => if c.is_fresh(now_ms, cache_ttl_ms) {
                    c.spec_value()
                } else {
                    None::<GpuMetrics>
                },
                None => None::<GpuMetrics>,
            }),
    {
        if self.gpu_source == GpuSource::NvmlNvidia {
            if let Some(state) = &self.nvml_state {
                if let Some(m) = query_gpu_metrics(state) {
                    return Some(m);
                }
            }
        }
        match &self.gpu_metrics_cache {
            Some(c) => match c.get(now_ms, cache_ttl_ms) {
                Some(v) => match v {
                    Some(m) => Some(clone_gpu_metrics(m)),
                    None => None,
                },
                None => None,
            },
            None => None,
        }
    }

    /// Human-readable name of the composite source.
    pub fn name(&self) -> (r: &'static str)
        ensures
            r@ == match self.spec_gpu_source() {
                GpuSource::NvmlNvidia => "Composite Monitor + NVIDIA (NVML)"@,
                GpuSource::Nvidia => "Composite Monitor + NVIDIA"@,
                GpuSource::Amd => "Composite Monitor + AMD"@,
                GpuSource::NoGpu => "Composite Monitor (estimated)"@,
            },
    {
        match self.gpu_source {
            GpuSource::NvmlNvidia => "Composite Monitor + NVIDIA (NVML)",
            GpuSource::Nvidia => "Composite Monitor + NVIDIA",
            GpuSource::Amd => "Composite Monitor + AMD",
            GpuSource::NoGpu => "Composite Monitor (estimated)",
        }
    }

    /// Composite readings are estimates only when no real GPU number exists.
    pub fn is_estimated(&self) -> (r: bool)
        ensures
            r == (self.spec_gpu_source() == GpuSource::NoGpu),
    {
        match self.gpu_source {
            GpuSource::NoGpu => true,
            _ => false,
        }
    }

    /// Build the detailed power reading from the CPU load and an optional
    /// real GPU wattage: per-component breakdown, and the estimate flag set
    /// exactly when no real GPU number was obtained.
    pub fn build_reading(
        &self,
        timestamp: i64,
        cpu_load_pm: u64,
        gpu: Option<&GpuInfo>,
    ) -> (r: PowerReading)
        requires
            self.wf(),
            cpu_load_pm <= 1000,
            gpu matches Some(g) ==> g.power_mw <= 10_000_000_000,
        ensures
            r.timestamp == timestamp,
            r.is_estimated == (gpu is None),
            r.power_mw == spec_cpu_power_mw(self.spec_cpu_tdp_mw() as int, cpu_load_pm as int)
                + spec_base_power_mw(self.spec_is_laptop()) + (match gpu {
                Some(g) => g.power_mw as int,
                None => 0,
            }),
            r.source@ == spec_composite_source_tag(self.spec_gpu_source()),
            r.components matches Some(c) && ({
                &&& c@.len() == (if gpu is Some {
                    3int
                } else {
                    2int
                })
                &&& c@[0].0@ == "cpu"@ && c@[0].1 == spec_cpu_power_mw(
                    self.spec_cpu_tdp_mw() as int,
                    cpu_load_pm as int,
                )
                &&& c@[c@.len() - 1].0@ == "base"@ && c@[c@.len() - 1].1 == spec_base_power_mw(
                    self.spec_is_laptop(),
                )
                &&& (gpu matches Some(g) ==> c@[1].0@ == "gpu"@ && c@[1].1 == g.power_mw)
            }),
    {
        let cpu_mw = self.calculate_cpu_power(cpu_load_pm);
        let base_mw = self.estimate_base_power();
        let mut components: Vec<(String, u64)> = Vec::new();
        components.push(("cpu".to_owned(), cpu_mw));
        let total: u64 = match gpu {
            Some(g) => {
                components.push(("gpu".to_owned(), g.power_mw));
                cpu_mw + g.power_mw + base_mw
            },
            None => cpu_mw + base_mw,
        };
        components.push(("base".to_owned(), base_mw));
        let source: &str = match self.gpu_source {
            GpuSource::NvmlNvidia => "sysinfo+nvml",
            GpuSource::Nvidia => "sysinfo+nvidia",
            GpuSource::Amd => "sysinfo+amd",
            GpuSource::NoGpu => "sysinfo",
        };
        PowerReading::new(total, timestamp, source, gpu.is_none()).with_components(components)
    }
}

/// A field-exact copy of a GPU metrics snapshot.
fn clone_gpu_metrics(m: &GpuMetrics) -> (r: GpuMetrics)
    ensures
        r == *m,
{
    GpuMetrics {
        name: m.name.clone(),
        usage_pm: m.usage_pm,
        power_mw: m.power_mw,
        temperature_mc: m.temperature_mc,
        vram_used_mb: m.vram_used_mb,
        vram_total_mb: m.vram_total_mb,
        clock_mhz: m.clock_mhz,
        source: m.source.clone(),
        memory_clock_mhz: m.memory_clock_mhz,
        fan_speed_percent: m.fan_speed_percent,
    }
}

/// Memory metrics from raw byte counts and the cached descriptor.
pub fn build_memory_metrics(
    used_bytes: u64,
    total_bytes: u64,
    swap_used_bytes: u64,
    swap_total_bytes: u64,
    memory_speed_mhz: Option<u64>,
    memory_type: Option<String>,
) -> (r: MemoryMetrics)
    requires
        total_bytes > 0,
        used_bytes <= total_bytes,
        swap_used_bytes <= swap_total_bytes,
    ensures
        r.used_bytes == used_bytes,
        r.total_bytes == total_bytes,
        r.usage_pm == (used_bytes as int) * 1000 / (total_bytes as int),
        swap_total_bytes > 0 ==> r.swap_used_bytes == Some(swap_used_bytes)
            && r.swap_total_bytes == Some(swap_total_bytes) && r.swap_usage_pm == Some(
            ((swap_used_bytes as int) * 1000 / (swap_total_bytes as int)) as u64,
        ),
        swap_total_bytes == 0 ==> r.swap_used_bytes is None && r.swap_total_bytes is None
            && r.swap_usage_pm is None,
        r.memory_speed_mhz == memory_speed_mhz,
        r.memory_type == memory_type,
{
    proof {
        lemma_pm_ratio_bounds(used_bytes as int, total_bytes as int);
        if swap_total_bytes > 0 {
            lemma_pm_ratio_bounds(swap_used_bytes as int, swap_total_bytes as int);
        }
    }
    let usage_pm: u64 = ((used_bytes as u128) * 1000 / (total_bytes as u128)) as u64;
    let (swap_used, swap_total, swap_pm) = if swap_total_bytes > 0 {
        (
            Some(swap_used_bytes),
            Some(swap_total_bytes),
            Some(((swap_used_bytes as u128) * 1000 / (swap_total_bytes as u128)) as u64),
        )
    } else {
        (None, None, None)
    };
    MemoryMetrics {
        used_bytes,
        total_bytes,
        usage_pm,
        swap_used_bytes: swap_used,
        swap_total_bytes: swap_total,
        swap_usage_pm: swap_pm,
        memory_speed_mhz,
        memory_type,
    }
}

/// A usage ratio of a part against its whole stays within 1000 per-mille.
proof fn lemma_pm_ratio_bounds(used: int, total: int)
    requires
        0 <= used <= total,
        total > 0,
    ensures
        0 <= used * 1000 / total <= 1000,
        used * 1000 <= total * 1000,
{
    assert(used * 1000 <= total * 1000) by (nonlinear_arith)
        requires
            0 <= used <= total,
    ;
    vstd::arithmetic::div_mod::lemma_div_is_ordered(used * 1000, total * 1000, total);
    assert(total * 1000 / total == 1000) by (nonlinear_arith)
        requires
            total > 0,
    ;
    vstd::arithmetic::div_mod::lemma_div_pos_is_pos(used * 1000, total);
}

/// CPU metrics from plain load and identification values; the mean load is
/// computed here.
pub fn build_cpu_metrics(
    name: String,
    per_core_usage_pm: Vec<u64>,
    frequency_mhz: Option<u64>,
    temperature_mc: Option<u64>,
    core_count: usize,
    thread_count: usize,
    per_core_frequency_mhz: Option<Vec<u64>>,
    per_core_temperature_mc: Option<Vec<u64>>,
) -> (r: CpuMetrics)
    requires
        forall|i: int| 0 <= i < per_core_usage_pm@.len() ==> per_core_usage_pm@[i] <= 1000,
        per_core_usage_pm@.len() <= 1_000_000,
    ensures
        r.name == name,
        r.usage_pm == (if per_core_usage_pm@.len() == 0 {
            0int
        } else {
            spec_load_sum(per_core_usage_pm@) / per_core_usage_pm@.len() as int
        }),
        r.usage_pm <= 1000,
        r.per_core_usage_pm == per_core_usage_pm,
        r.frequency_mhz == frequency_mhz,
        r.temperature_mc == temperature_mc,
        r.core_count == core_count,
        r.thread_count == thread_count,
        r.per_core_frequency_mhz == per_core_frequency_mhz,
        r.per_core_temperature_mc == per_core_temperature_mc,
{
    let n = per_core_usage_pm.len();
    let mut sum: u64 = 0;
    let mut i: usize = 0;
    while i < n
        invariant
            n == per_core_usage_pm@.len() <= 1_000_000,
            0 <= i <= n,
            forall|k: int| 0 <= k < per_core_usage_pm@.len() ==> per_core_usage_pm@[k] <= 1000,
            sum == spec_load_sum(per_core_usage_pm@.subrange(0, i as int)),
            sum <= i * 1000,
        decreases n - i,
    {
        proof {
            assert(per_core_usage_pm@.subrange(0, i + 1).drop_last() =~= per_core_usage_pm@
                .subrange(0, i as int));
        }
        sum = sum + per_core_usage_pm[i];
        i = i + 1;
    }
    proof {
        assert(per_core_usage_pm@.subrange(0, n as int) =~= per_core_usage_pm@);
    }
    let usage_pm: u64 = if n == 0 {
        0
    } else {
        proof {
            vstd::arithmetic::div_mod::lemma_div_is_ordered(
                sum as int,
                n as int * 1000,
                n as int,
            );
            assert(n as int * 1000 / n as int == 1000) by (nonlinear_arith)
                requires
                    n >= 1,
            ;
            vstd::arithmetic::div_mod::lemma_div_pos_is_pos(sum as int, n as int);
        }
        sum / (n as u64)
    };
    CpuMetrics {
        name,
        usage_pm,
        per_core_usage_pm,
        frequency_mhz,
        temperature_mc,
        core_count,
        thread_count,
        per_core_frequency_mhz,
        per_core_temperature_mc,
    }
}

/// Assemble the system snapshot; the extended fields are kept only on
/// extended collection cycles.
pub fn build_system_metrics(
    cpu: CpuMetrics,
    gpu: Option<GpuMetrics>,
    memory: MemoryMetrics,
    timestamp: i64,
    fans: Option<FanMetrics>,
    voltages: Option<Vec<VoltageReading>>,
    extended: bool,
) -> (r: SystemMetrics)
    ensures
        r.cpu == cpu,
        r.gpu == gpu,
        r.memory == memory,
        r.timestamp == timestamp,
        r.fans == (if extended {
            fans
        } else {
            None::<FanMetrics>
        }),
        r.voltages == (if extended {
            voltages
        } else {
            None::<Vec<VoltageReading>>
        }),
{
    SystemMetrics {
        cpu,
        gpu,
        memory,
        timestamp,
        fans: if extended {
            fans
        } else {
            None
        },
        voltages: if extended {
            voltages
        } else {
            None
        },
    }
}

/// What the ordered fallback chain selects.
#[derive(Debug, Clone, Copy, PartialEq, Eq, Structural)]
pub enum BackendChoice {
    UseRapl,
    UseHwmon,
    UseBattery,
    UseComposite,
    UseEstimation,
}

/// The backend the fallback chain selects from plain probe results, in
/// descending order of expected accuracy: the energy counter, then the
/// platform power sensor, then the battery, then the composite monitor when
/// any GPU bridge exists, and the pure estimator last. A failed probe is
/// never fatal to the chain.
pub fn select_backend_kind(
    rapl: SensorProbe,
    hwmon: SensorProbe,
    battery: SensorProbe,
    gpu_source: GpuSource,
) -> (r: BackendChoice)
    ensures
        r == (if rapl is Reading {
            BackendChoice::UseRapl
        } else if hwmon is Reading {
            BackendChoice::UseHwmon
        } else if battery is Reading {
            BackendChoice::UseBattery
        } else if gpu_source != GpuSource::NoGpu {
            BackendChoice::UseComposite
        } else {
            BackendChoice::UseEstimation
        }),
{
    if let SensorProbe::Reading(_) = rapl {
        return BackendChoice::UseRapl;
    }
    if let SensorProbe::Reading(_) = hwmon {
        return BackendChoice::UseHwmon;
    }
    if let SensorProbe::Reading(_) = battery {
        return BackendChoice::UseBattery;
    }
    if gpu_source != GpuSource::NoGpu {
        return BackendChoice::UseComposite;
    }
    BackendChoice::UseEstimation
}

/// The active power source behind the monitor facade: a direct register
/// sensor, the composite monitor, or the pure software estimator.
pub enum PowerBackend {
    Registers(InnerPowerSource),
    Composite(WmiMonitor),
    Estimation(EstimationMonitor),
}

/// Everything a fast tick hands the monitor: the wall clock, the raw power
/// register value (meaningful only for register backends), and the per-core
/// CPU load samples with their mean.
pub struct TickInput {
    pub now_ms: u64,
    /// Raw register value: microjoules for the energy counter, microwatts
    /// for the instantaneous registers; zero elsewhere.
    pub raw_register: u64,
    /// Per-core loads, per-mille each.
    pub cpu_loads_pm: Vec<u64>,
    /// Mean load over all cores, per-mille.
    pub avg_cpu_pm: u64,
}

impl TickInput {
    pub open spec fn wf(&self) -> bool {
        &&& self.avg_cpu_pm <= 1000
        &&& forall|i: int| 0 <= i < self.cpu_loads_pm@.len() ==> self.cpu_loads_pm@[i] <= 1000
        &&& self.cpu_loads_pm@.len() <= 1_000_000
    }
}

/// Power monitor facade: one backend selected at startup by the fallback
/// chain, queried through a uniform surface.
pub struct PowerMonitor {
    source: PowerBackend,
}

impl PowerMonitor {
    pub closed spec fn spec_source(&self) -> &PowerBackend {
        &self.source
    }

    pub open spec fn wf(&self) -> bool {
        match self.spec_source() {
            PowerBackend::Registers(s) => s.wf(),
            PowerBackend::Composite(m) => m.wf(),
            PowerBackend::Estimation(e) => e.wf(),
        }
    }

    /// A monitor over the backend the fallback chain selected.
    pub fn new(source: PowerBackend) -> (r: Self)
        requires
            match source {
                PowerBackend::Registers(ref s) => s.wf(),
                PowerBackend::Composite(ref m) => m.wf(),
                PowerBackend::Estimation(ref e) => e.wf(),
            },
        ensures
            r.wf(),
            *r.spec_source() == source,
    {
        PowerMonitor { source }
    }

    /// The last resort: the pure estimation backend, which cannot fail.
    pub fn estimation_fallback(estimator: EstimationMonitor) -> (r: Self)
        requires
            estimator.wf(),
        ensures
            r.wf(),
            *r.spec_source() == PowerBackend::Estimation(estimator),
    {
        PowerMonitor { source: PowerBackend::Estimation(estimator) }
    }

    /// Whether readings from the active backend are estimates.
    pub fn is_estimated(&self) -> (r: bool)
        ensures
            r == match self.spec_source() {
                PowerBackend::Registers(_) => false,
                PowerBackend::Composite(m) => m.spec_gpu_source() == GpuSource::NoGpu,
                PowerBackend::Estimation(_) => true,
            },
    {
        match &self.source {
            PowerBackend::Registers(_) => false,
            PowerBackend::Composite(m) => m.is_estimated(),
            PowerBackend::Estimation(e) => e.is_estimated(),
        }
    }

    /// Name of the active power source.
    pub fn get_source_name(&self) -> (r: &'static str)
        ensures
            match self.spec_source() {
                PowerBackend::Registers(s) => r@ == match s {
                    InnerPowerSource::Rapl(_) => "Intel RAPL"@,
                    InnerPowerSource::Hwmon(_) => "Linux hwmon"@,
                    InnerPowerSource::Battery(_) => "Battery sensor"@,
                },
                PowerBackend::Estimation(_) => r@ == "TDP Estimation (auto-detected)"@,
                PowerBackend::Composite(_) => true,
            },
    {
        match &self.source {
            PowerBackend::Registers(s) => s.name(),
            PowerBackend::Composite(m) => m.name(),
            PowerBackend::Estimation(e) => e.name(),
        }
    }

    /// Preconditions one tick's input must meet for the active backend.
    pub open spec fn tick_ok(&self, input: TickInput) -> bool {
        &&& input.wf()
        &&& match self.spec_source() {
            PowerBackend::Registers(s) => match s {
                InnerPowerSource::Rapl(m) => input.raw_register <= m.spec_max_energy()
                    && input.now_ms >= m.spec_last_time(),
                _ => true,
            },
            PowerBackend::Composite(m) => m.caches_by(input.now_ms),
            PowerBackend::Estimation(_) => true,
        }
    }

    /// Current power in milliwatts. Register backends window the raw value
    /// against their state; the composite and estimation backends compute
    /// from the load samples.
    pub fn get_power_watts(&mut self, input: &TickInput) -> (r: u64)
        requires
            old(self).wf(),
            old(self).tick_ok(*input),
        ensures
            final(self).wf(),
            match *old(self).spec_source() {
                PowerBackend::Registers(s) => r == s.spec_power_of(
                    input.raw_register,
                    input.now_ms,
                ),
                PowerBackend::Estimation(e) => r == e.spec_estimated_power(input.cpu_loads_pm@)
                    && e.spec_idle_power() <= r <= e.spec_max_power(),
                PowerBackend::Composite(m) => {
                    &&& r >= spec_cpu_power_mw(m.spec_cpu_tdp_mw() as int, input.avg_cpu_pm as int)
                        + spec_base_power_mw(m.spec_is_laptop())
                    // For the CLI-backed sources the GPU term is exactly the
                    // fresh cache value (the slow path's TTL is 2000 ms);
                    // only the vendor runtime adds an outside-decided term.
                    &&& (m.spec_gpu_source() != GpuSource::NvmlNvidia ==> r == spec_cpu_power_mw(
                        m.spec_cpu_tdp_mw() as int,
                        input.avg_cpu_pm as int,
                    ) + spec_base_power_mw(m.spec_is_laptop()) + (match m.spec_gpu_cache() {
                        Some(c) => if c.is_fresh(input.now_ms, 2000) {
                            match c.spec_value() {
                                Some(g) => g.power_mw as int,
                                None => 0,
                            }
                        } else {
                            0
                        },
                        None => 0,
                    }))
                },
            },
    {
        match &mut self.source {
            PowerBackend::Registers(s) => s.read_power_mw(input.raw_register, input.now_ms),
            PowerBackend::Composite(m) => {
                let gpu = m.get_gpu_power(input.now_ms, 2000);
                let gpu_mw: Option<u64> = match gpu {
                    Some(g) => Some(
                        if g.power_mw > 10_000_000_000 {
                            10_000_000_000
                        } else {
                            g.power_mw
                        },
                    ),
                    None => None,
                };
                m.compose_power(input.avg_cpu_pm, gpu_mw)
            },
            PowerBackend::Estimation(e) => e.calculate_estimated_power(&input.cpu_loads_pm),
        }
    }

    /// Fast-path reading: never performs a blocking external call. Returns
    /// total power, CPU load, and GPU load/power from cache only — `None`
    /// when nothing fresh is cached.
    pub fn get_power_watts_fast(&mut self, input: &TickInput) -> (r: (
        u64,
        u64,
        Option<u64>,
        Option<u64>,
    ))
        requires
            old(self).wf(),
            old(self).tick_ok(*input),
        ensures
            final(self).wf(),
            r.1 == input.avg_cpu_pm,
            match *old(self).spec_source() {
                // Register and estimator backends delegate to their plain
                // power read and fill the GPU fields with nothing.
                PowerBackend::Registers(s) => r.0 == s.spec_power_of(
                    input.raw_register,
                    input.now_ms,
                ) && r.2 is None && r.3 is None,
                PowerBackend::Estimation(e) => r.0 == e.spec_estimated_power(input.cpu_loads_pm@)
                    && e.spec_idle_power() <= r.0 <= e.spec_max_power() && r.2 is None && r.3
                    is None,
                // The composite arm reads GPU data from cache only, under
                // the extended fast-path staleness tolerance; with the
                // caches empty or expired the GPU fields are absent and no
                // GPU term enters the total.
                PowerBackend::Composite(m) => {
                    &&& r.2 == (match m.spec_gpu_metrics_cache() {
                        Some(c) => if c.is_fresh(input.now_ms, spec_fast_path_ttl_ms() as u64) {
                            match c.spec_value() {
                                Some(gm) => gm.usage_pm,
                                None => None::<u64>,
                            }
                        } else {
                            None::<u64>
                        },
                        None => None::<u64>,
                    })
                    &&& r.3 == (match m.spec_gpu_cache() {
                        Some(c) => if c.is_fresh(input.now_ms, spec_fast_path_ttl_ms() as u64) {
                            match c.spec_value() {
                                Some(g) => Some(g.power_mw),
                                None => None::<u64>,
                            }
                        } else {
                            None::<u64>
                        },
                        None => None::<u64>,
                    })
                    &&& r.0 == spec_cpu_power_mw(m.spec_cpu_tdp_mw() as int, input.avg_cpu_pm as int)
                        + spec_base_power_mw(m.spec_is_laptop()) + (match r.3 {
                        Some(g) => g as int,
                        None => 0,
                    })
                },
            },
    {
        match &mut self.source {
            PowerBackend::Registers(s) => {
                let power = s.read_power_mw(input.raw_register, input.now_ms);
                (power, input.avg_cpu_pm, None, None)
            },
            PowerBackend::Composite(m) => m.get_power_watts_fast_impl(
                input.now_ms,
                input.avg_cpu_pm,
            ),
            PowerBackend::Estimation(e) => {
                let power = e.calculate_estimated_power(&input.cpu_loads_pm);
                (power, input.avg_cpu_pm, None, None)
            },
        }
    }

    /// Full reading with metadata for the persistence collaborator.
    pub fn get_reading(&mut self, input: &TickInput, timestamp: i64) -> (r: PowerReading)
        requires
            old(self).wf(),
            old(self).tick_ok(*input),
        ensures
            final(self).wf(),
            r.timestamp == timestamp,
            match *old(self).spec_source() {
                PowerBackend::Registers(s) => {
                    &&& r.power_mw == s.spec_power_of(input.raw_register, input.now_ms)
                    &&& !r.is_estimated
                    &&& r.source@ == (match s {
                        InnerPowerSource::Rapl(_) => "rapl"@,
                        InnerPowerSource::Hwmon(_) => "hwmon"@,
                        InnerPowerSource::Battery(_) => "battery"@,
                    })
                    &&& r.components is None
                },
                PowerBackend::Estimation(e) => {
                    &&& r.power_mw == e.spec_estimated_power(input.cpu_loads_pm@)
                    &&& e.spec_idle_power() <= r.power_mw <= e.spec_max_power()
                    &&& r.is_estimated
                    &&& r.source@ == "estimated"@
                    &&& r.components matches Some(c) && c@.len() == 2 && c@[0].0@ == "cpu"@
                        && c@[1].0@ == "other"@ && c@[0].1 + c@[1].1 == r.power_mw
                },
                PowerBackend::Composite(m) => {
                    &&& r.source@ == spec_composite_source_tag(m.spec_gpu_source())
                    // For the CLI-backed sources the reading is an estimate
                    // exactly when no fresh GPU wattage is cached.
                    &&& (m.spec_gpu_source() != GpuSource::NvmlNvidia ==> r.is_estimated == (
                    match m.spec_gpu_cache() {
                        Some(c) => !c.is_fresh(input.now_ms, 2000) || c.spec_value() is None,
                        None => true,
                    }))
                },
            },
    {
        match &mut self.source {
            PowerBackend::Registers(s) => {
                let power = s.read_power_mw(input.raw_register, input.now_ms);
                let tag = s.source_tag();
                PowerReading::new(power, timestamp, tag, false)
            },
            PowerBackend::Composite(m) => {
                let gpu = m.get_gpu_power(input.now_ms, 2000);
                let gpu_bounded: Option<GpuInfo> = match gpu {
                    Some(g) => Some(
                        GpuInfo {
                            power_mw: if g.power_mw > 10_000_000_000 {
                                10_000_000_000
                            } else {
                                g.power_mw
                            },
                            name: g.name,
                        },
                    ),
                    None => None,
                };
                m.build_reading(timestamp, input.avg_cpu_pm, gpu_bounded.as_ref())
            },
            PowerBackend::Estimation(e) => {
                let power = e.calculate_estimated_power(&input.cpu_loads_pm);
                let components = e.get_component_breakdown(power);
                PowerReading::new(power, timestamp, "estimated", true).with_components(components)
            },
        }
    }

    /// The composite backend's GPU source, where the composite is active.
    pub fn gpu_source(&self) -> (r: Option<GpuSource>)
        ensures
            match self.spec_source() {
                PowerBackend::Composite(m) => r == Some(m.spec_gpu_source()),
                _ => r is None,
            },
    {
        match &self.source {
            PowerBackend::Composite(m) => Some(m.gpu_source()),
            _ => None,
        }
    }

    /// Feed a slow-path GPU power result into the composite backend's cache;
    /// other backends ignore it.
    pub fn store_gpu_power(&mut self, now_ms: u64, value: Option<GpuInfo>)
        requires
            old(self).wf(),
            value matches Some(g) ==> g.power_mw <= 10_000_000_000,
        ensures
            final(self).wf(),
            match *old(self).spec_source() {
                PowerBackend::Composite(m) => *final(self).spec_source() matches
                    PowerBackend::Composite(m2) && ({
                    &&& m2.spec_gpu_cache() matches Some(c) && c.spec_value() == value
                        && c.spec_captured_at() == now_ms
                    &&& m2.spec_gpu_metrics_cache() == m.spec_gpu_metrics_cache()
                    &&& m2.spec_cpu_temp_cache() == m.spec_cpu_temp_cache()
                    &&& m2.spec_fan_cache() == m.spec_fan_cache()
                    &&& m2.spec_memory_info_cache() == m.spec_memory_info_cache()
                    &&& m2.spec_gpu_source() == m.spec_gpu_source()
                    &&& m2.spec_cpu_tdp_mw() == m.spec_cpu_tdp_mw()
                    &&& m2.spec_is_laptop() == m.spec_is_laptop()
                }),
                _ => *final(self) == *old(self),
            },
    {
        if let PowerBackend::Composite(m) = &mut self.source {
            m.store_gpu_power(now_ms, value);
        }
    }

    /// Feed a slow-path GPU metrics result into the composite backend's
    /// cache; other backends ignore it.
    pub fn store_gpu_metrics(&mut self, now_ms: u64, value: Option<GpuMetrics>)
        requires
            old(self).wf(),
        ensures
            final(self).wf(),
            match *old(self).spec_source() {
                PowerBackend::Composite(m) => *final(self).spec_source() matches
                    PowerBackend::Composite(m2) && ({
                    &&& m2.spec_gpu_metrics_cache() matches Some(c) && c.spec_value() == value
                        && c.spec_captured_at() == now_ms
                    &&& m2.spec_gpu_cache() == m.spec_gpu_cache()
                    &&& m2.spec_cpu_temp_cache() == m.spec_cpu_temp_cache()
                    &&& m2.spec_fan_cache() == m.spec_fan_cache()
                    &&& m2.spec_memory_info_cache() == m.spec_memory_info_cache()
                    &&& m2.spec_gpu_source() == m.spec_gpu_source()
                    &&& m2.spec_cpu_tdp_mw() == m.spec_cpu_tdp_mw()
                    &&& m2.spec_is_laptop() == m.spec_is_laptop()
                }),
                _ => *final(self) == *old(self),
            },
    {
        if let PowerBackend::Composite(m) = &mut self.source {
            m.store_gpu_metrics(now_ms, value);
        }
    }

    /// Feed a slow-path CPU temperature (millidegrees) into the composite
    /// backend's cache; other backends ignore it.
    pub fn store_cpu_temperature(&mut self, now_ms: u64, value: Option<u64>)
        requires
            old(self).wf(),
        ensures
            final(self).wf(),
            match *old(self).spec_source() {
                PowerBackend::Composite(m) => *final(self).spec_source() matches
                    PowerBackend::Composite(m2) && ({
                    &&& m2.spec_cpu_temp_cache() matches Some(c) && c.spec_value() == value
                        && c.spec_captured_at() == now_ms
                    &&& m2.spec_gpu_cache() == m.spec_gpu_cache()
                    &&& m2.spec_gpu_metrics_cache() == m.spec_gpu_metrics_cache()
                    &&& m2.spec_fan_cache() == m.spec_fan_cache()
                }),
                _ => *final(self) == *old(self),
            },
    {
        if let PowerBackend::Composite(m) = &mut self.source {
            m.store_cpu_temperature(now_ms, value);
        }
    }

    /// Assemble the detailed snapshot the slow path produces.
    pub fn collect_detailed_metrics(
        &self,
        system_metrics: Option<SystemMetrics>,
        top_processes: Vec<ProcessMetrics>,
        timestamp: i64,
        extended_collected: bool,
    ) -> (r: DetailedMetrics)
        ensures
            r.system_metrics == system_metrics,
            r.top_processes == top_processes,
            r.timestamp == timestamp,
            r.extended_collected == extended_collected,
    {
        DetailedMetrics { system_metrics, top_processes, timestamp, extended_collected }
    }
}

} // verus!
