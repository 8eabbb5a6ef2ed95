//! Direct GPU telemetry through the NVML vendor runtime.
//!
//! Every NVML call is a trusted edge; the values it returns describe live
//! hardware state, so nothing is promised about them beyond their types. The
//! reconciliation of per-process signals is verified: presence in a compute
//! or graphics process list is a binary "is using the GPU" signal, and where
//! a per-process utilization sample exists the two are merged by taking the
//! maximum per process id.

use std::collections::HashMap;
use nvml_wrapper::enums::device::UsedGpuMemory;
use vstd::prelude::*;
use crate::types::GpuMetrics;

verus! {

broadcast use vstd::std_specs::hash::group_hash_axioms;

#[verifier::external_type_specification]
#[verifier::external_body]
pub struct ExNvml(nvml_wrapper::Nvml);

#[verifier::external_type_specification]
#[verifier::external_body]
pub struct ExDevice<'nvml>(nvml_wrapper::Device<'nvml>);

/// Relies on nvml_wrapper::Nvml::init: loads the vendor runtime; fails where
/// no driver or GPU is present.
#[verifier::external_body]
fn nvml_init() -> Option<nvml_wrapper::Nvml> {
    nvml_wrapper::Nvml::init().ok()
}

/// Relies on Nvml::device_count: the number of devices the runtime sees.
#[verifier::external_body]
fn nvml_device_count(nvml: &nvml_wrapper::Nvml) -> Option<u32> {
    nvml.device_count().ok()
}

/// Relies on Nvml::device_by_index: a handle to one device.
#[verifier::external_body]
fn nvml_device_by_index<'n>(nvml: &'n nvml_wrapper::Nvml, index: u32) -> Option<
    nvml_wrapper::Device<'n>,
> {
    nvml.device_by_index(index).ok()
}

/// Relies on Device::name: the device's marketing name.
#[verifier::external_body]
fn device_name(device: &nvml_wrapper::Device<'_>) -> Option<String> {
    device.name().ok()
}

/// Relies on Device::power_usage: current power draw in milliwatts.
#[verifier::external_body]
fn device_power_usage_mw(device: &nvml_wrapper::Device<'_>) -> Option<u32> {
    device.power_usage().ok()
}

/// Relies on Device::utilization_rates: GPU engine utilization in percent.
#[verifier::external_body]
fn device_utilization_percent(device: &nvml_wrapper::Device<'_>) -> Option<u32> {
    device.utilization_rates().ok().map(|u| u.gpu)
}

/// Relies on Device::temperature of the die sensor, in degrees Celsius.
#[verifier::external_body]
fn device_temperature_c(device: &nvml_wrapper::Device<'_>) -> Option<u32> {
    device.temperature(nvml_wrapper::enum_wrappers::device::TemperatureSensor::Gpu).ok()
}

/// Relies on Device::memory_info: (used, total) VRAM in bytes.
#[verifier::external_body]
fn device_memory_info_bytes(device: &nvml_wrapper::Device<'_>) -> Option<(u64, u64)> {
    device.memory_info().ok().map(|m| (m.used, m.total))
}

/// Relies on Device::clock_info for the graphics clock, in MHz.
#[verifier::external_body]
fn device_graphics_clock_mhz(device: &nvml_wrapper::Device<'_>) -> Option<u32> {
    device.clock_info(nvml_wrapper::enum_wrappers::device::Clock::Graphics).ok()
}

/// Relies on Device::clock_info for the memory clock, in MHz.
#[verifier::external_body]
fn device_memory_clock_mhz(device: &nvml_wrapper::Device<'_>) -> Option<u32> {
    device.clock_info(nvml_wrapper::enum_wrappers::device::Clock::Memory).ok()
}

/// Relies on Device::fan_speed: one fan's speed in percent; fails on
/// passively cooled devices.
#[verifier::external_body]
fn device_fan_speed_percent(device: &nvml_wrapper::Device<'_>, fan: u32) -> Option<u32> {
    device.fan_speed(fan).ok()
}

/// Relies on Device::running_compute_processes: (pid, used VRAM bytes if
/// reported) per running compute process.
#[verifier::external_body]
fn device_compute_pids(device: &nvml_wrapper::Device<'_>) -> Option<Vec<(u32, Option<u64>)>> {
    let ps = device.running_compute_processes().ok()?;
    Some(ps.into_iter().map(|p| (p.pid, match p.used_gpu_memory {
        UsedGpuMemory::Used(b) => Some(b),
        UsedGpuMemory::Unavailable => None,
    })).collect())
}

/// Relies on Device::running_graphics_processes: (pid, used VRAM bytes if
/// reported) per running graphics process.
#[verifier::external_body]
fn device_graphics_pids(device: &nvml_wrapper::Device<'_>) -> Option<Vec<(u32, Option<u64>)>> {
    let ps = device.running_graphics_processes().ok()?;
    Some(ps.into_iter().map(|p| (p.pid, match p.used_gpu_memory {
        UsedGpuMemory::Used(b) => Some(b),
        UsedGpuMemory::Unavailable => None,
    })).collect())
}

/// Relies on Device::process_utilization_stats with no timestamp filter,
/// which yields every buffered sample: (pid, streaming-multiprocessor
/// utilization percent) per sample.
#[verifier::external_body]
fn device_process_utilization(device: &nvml_wrapper::Device<'_>) -> Option<Vec<(u32, u32)>> {
    let ss = device.process_utilization_stats(None).ok()?;
    Some(ss.into_iter().map(|s| (s.pid, s.sm_util)).collect())
}

/// Holds the vendor runtime instance and the primary GPU device index.
pub struct NvmlState {
    nvml: nvml_wrapper::Nvml,
    device_index: u32,
    device_name: String,
}

impl NvmlState {
    pub closed spec fn spec_device_index(&self) -> u32 {
        self.device_index
    }

    pub closed spec fn spec_device_name(&self) -> Seq<char> {
        self.device_name@
    }
}

/// Initialize the vendor runtime and grab the first GPU device. Yields
/// nothing where the runtime, driver or device is absent.
pub fn init_nvml() -> (r: Option<NvmlState>)
    ensures
        match r {
            Some(s) => s.spec_device_index() == 0,
            None => true,
        },
{
    let nvml = match nvml_init() {
        Some(n) => n,
        None => {
            return None;
        },
    };
    let count = match nvml_device_count(&nvml) {
        Some(c) => c,
        None => {
            return None;
        },
    };
    if count == 0 {
        return None;
    }
    let device_name = {
        match nvml_device_by_index(&nvml, 0) {
            Some(device) => match device_name(&device) {
                Some(n) => n,
                None => "NVIDIA GPU".to_owned(),
            },
            None => {
                return None;
            },
        }
    };
    Some(NvmlState { nvml, device_index: 0, device_name })
}

/// Query full GPU metrics through the vendor runtime. Every value reflects
/// live hardware state; the reading is attributed to the held device.
pub fn query_gpu_metrics(state: &NvmlState) -> (r: Option<GpuMetrics>)
    ensures
        match r {
            Some(m) => m.name@ == state.spec_device_name() && m.source@ == "nvml"@,
            None => true,
        },
{
    let device = match nvml_device_by_index(&state.nvml, state.device_index) {
        Some(d) => d,
        None => {
            return None;
        },
    };
    let usage_pm = match device_utilization_percent(&device) {
        Some(u) => Some((u as u64) * 10),
        None => None,
    };
    let power_mw = match device_power_usage_mw(&device) {
        Some(p) => Some(p as u64),
        None => None,
    };
    let temperature_mc = match device_temperature_c(&device) {
        Some(t) => Some((t as u64) * 1000),
        None => None,
    };
    let mem = device_memory_info_bytes(&device);
    let vram_used_mb = match mem {
        Some(m) => Some(m.0 / (1024 * 1024)),
        None => None,
    };
    let vram_total_mb = match mem {
        Some(m) => Some(m.1 / (1024 * 1024)),
        None => None,
    };
    let clock_mhz = match device_graphics_clock_mhz(&device) {
        Some(c) => Some(c as u64),
        None => None,
    };
    let memory_clock_mhz = match device_memory_clock_mhz(&device) {
        Some(c) => Some(c as u64),
        None => None,
    };
    let fan_speed_percent = match device_fan_speed_percent(&device, 0) {
        Some(f) => Some(f as u64),
        None => None,
    };
    Some(
        GpuMetrics {
            name: state.device_name.clone(),
            usage_pm,
            power_mw,
            temperature_mc,
            vram_used_mb,
            vram_total_mb,
            clock_mhz,
            source: "nvml".to_owned(),
            memory_clock_mhz,
            fan_speed_percent,
        },
    )
}

/// Query GPU power only, for the fast path: power in milliwatts and the
/// device name.
pub fn query_gpu_power(state: &NvmlState) -> (r: Option<(u64, String)>)
    ensures
        match r {
            Some(p) => p.1@ == state.spec_device_name(),
            None => true,
        },
{
    let device = match nvml_device_by_index(&state.nvml, state.device_index) {
        Some(d) => d,
        None => {
            return None;
        },
    };
    match device_power_usage_mw(&device) {
        Some(p) => Some((p as u64, state.device_name.clone())),
        None => None,
    }
}

/// The binary presence signal of a process list entry, in per-mille: a
/// process that holds GPU memory is marked minimally active.
pub open spec fn spec_presence_pm(mem: Option<u64>) -> u64 {
    match mem {
        Some(b) => if b > 0 {
            1u64
        } else {
            0u64
        },
        None => 0u64,
    }
}

/// Per-process share map after the compute process list: each entry is set
/// to its presence signal.
pub open spec fn spec_fold_compute(m: Map<u32, u64>, l: Seq<(u32, Option<u64>)>) -> Map<u32, u64>
    decreases l.len(),
{
    if l.len() == 0 {
        m
    } else {
        spec_fold_compute(m, l.drop_last()).insert(l.last().0, spec_presence_pm(l.last().1))
    }
}

/// Per-process share map after the graphics process list: a present process
/// is raised to the minimal active signal, never lowered.
pub open spec fn spec_fold_graphics(m: Map<u32, u64>, l: Seq<(u32, Option<u64>)>) -> Map<u32, u64>
    decreases l.len(),
{
    if l.len() == 0 {
        m
    } else {
        let m2 = spec_fold_graphics(m, l.drop_last());
        let pid = l.last().0;
        let cur = if m2.contains_key(pid) {
            m2[pid]
        } else {
            0u64
        };
        let v = if spec_presence_pm(l.last().1) == 1 && cur < 1 {
            1u64
        } else {
            cur
        };
        m2.insert(pid, v)
    }
}

/// Per-process share map after the utilization samples: each positive sample
/// raises its process to the maximum of the signals seen, clamped to 100%.
pub open spec fn spec_fold_samples(m: Map<u32, u64>, l: Seq<(u32, u32)>) -> Map<u32, u64>
    decreases l.len(),
{
    if l.len() == 0 {
        m
    } else {
        let m2 = spec_fold_samples(m, l.drop_last());
        let pid = l.last().0;
        let sm = l.last().1;
        if sm > 0 {
            let cur = if m2.contains_key(pid) {
                m2[pid]
            } else {
                0u64
            };
            let clamped = if sm >= 100 {
                1000u64
            } else {
                (sm * 10) as u64
            };
            let v = if clamped > cur {
                clamped
            } else {
                cur
            };
            m2.insert(pid, v)
        } else {
            m2
        }
    }
}

/// Every share in the map lies in the per-mille range.
pub open spec fn spec_share_map_bounded(m: Map<u32, u64>) -> bool {
    forall|k: u32| m.contains_key(k) ==> m[k] <= 1000
}

proof fn lemma_fold_compute_bounded(m: Map<u32, u64>, l: Seq<(u32, Option<u64>)>)
    requires
        spec_share_map_bounded(m),
    ensures
        spec_share_map_bounded(spec_fold_compute(m, l)),
    decreases l.len(),
{
    if l.len() > 0 {
        lemma_fold_compute_bounded(m, l.drop_last());
    }
}

proof fn lemma_fold_graphics_bounded(m: Map<u32, u64>, l: Seq<(u32, Option<u64>)>)
    requires
        spec_share_map_bounded(m),
    ensures
        spec_share_map_bounded(spec_fold_graphics(m, l)),
    decreases l.len(),
{
    if l.len() > 0 {
        lemma_fold_graphics_bounded(m, l.drop_last());
    }
}

proof fn lemma_fold_samples_bounded(m: Map<u32, u64>, l: Seq<(u32, u32)>)
    requires
        spec_share_map_bounded(m),
    ensures
        spec_share_map_bounded(spec_fold_samples(m, l)),
    decreases l.len(),
{
    if l.len() > 0 {
        lemma_fold_samples_bounded(m, l.drop_last());
    }
}

/// The reconciled share map never exceeds 100% for any process.
pub proof fn lemma_gpu_share_bounded(
    compute: Seq<(u32, Option<u64>)>,
    graphics: Seq<(u32, Option<u64>)>,
    samples: Seq<(u32, u32)>,
)
    ensures
        spec_share_map_bounded(spec_gpu_share_map(compute, graphics, samples)),
{
    lemma_fold_compute_bounded(Map::empty(), compute);
    lemma_fold_graphics_bounded(spec_fold_compute(Map::empty(), compute), graphics);
    lemma_fold_samples_bounded(
        spec_fold_graphics(spec_fold_compute(Map::empty(), compute), graphics),
        samples,
    );
}

/// The reconciled per-process GPU share map: presence signals from the
/// process lists, overridden by real utilization samples, maximum per pid.
pub open spec fn spec_gpu_share_map(
    compute: Seq<(u32, Option<u64>)>,
    graphics: Seq<(u32, Option<u64>)>,
    samples: Seq<(u32, u32)>,
) -> Map<u32, u64> {
    spec_fold_samples(
        spec_fold_graphics(spec_fold_compute(Map::empty(), compute), graphics),
        samples,
    )
}

/// Merge the three per-process signals into one share map (per-mille each).
pub fn merge_gpu_process_signals(
    compute: &Vec<(u32, Option<u64>)>,
    graphics: &Vec<(u32, Option<u64>)>,
    samples: &Vec<(u32, u32)>,
) -> (r: HashMap<u32, u64>)
    ensures
        r@ == spec_gpu_share_map(compute@, graphics@, samples@),
        spec_share_map_bounded(r@),
{
    proof {
        lemma_gpu_share_bounded(compute@, graphics@, samples@);
    }
    let mut m: HashMap<u32, u64> = HashMap::new();
    let mut i: usize = 0;
    while i < compute.len()
        invariant
            0 <= i <= compute@.len(),
            m@ == spec_fold_compute(Map::<u32, u64>::empty(), compute@.subrange(0, i as int)),
        decreases compute@.len() - i,
    {
        proof {
            assert(compute@.subrange(0, i + 1).drop_last() =~= compute@.subrange(0, i as int));
        }
        let (pid, mem) = compute[i];
        let v: u64 = match mem {
            Some(b) => if b > 0 {
                1
            } else {
                0
            },
            None => 0,
        };
        m.insert(pid, v);
        i = i + 1;
    }
    proof {
        assert(compute@.subrange(0, compute@.len() as int) =~= compute@);
    }
    let ghost after_compute = m@;
    let mut j: usize = 0;
    while j < graphics.len()
        invariant
            0 <= j <= graphics@.len(),
            m@ == spec_fold_graphics(after_compute, graphics@.subrange(0, j as int)),
        decreases graphics@.len() - j,
    {
        proof {
            assert(graphics@.subrange(0, j + 1).drop_last() =~= graphics@.subrange(0, j as int));
        }
        let (pid, mem) = graphics[j];
        let cur: u64 = match m.get(&pid) {
            Some(v) => *v,
            None => 0,
        };
        let present: bool = match mem {
            Some(b) => b > 0,
            None => false,
        };
        let v: u64 = if present && cur < 1 {
            1
        } else {
            cur
        };
        m.insert(pid, v);
        j = j + 1;
    }
    proof {
        assert(graphics@.subrange(0, graphics@.len() as int) =~= graphics@);
    }
    let ghost after_graphics = m@;
    let mut k: usize = 0;
    while k < samples.len()
        invariant
            0 <= k <= samples@.len(),
            m@ == spec_fold_samples(after_graphics, samples@.subrange(0, k as int)),
        decreases samples@.len() - k,
    {
        proof {
            assert(samples@.subrange(0, k + 1).drop_last() =~= samples@.subrange(0, k as int));
        }
        let (pid, sm) = samples[k];
        if sm > 0 {
            let cur: u64 = match m.get(&pid) {
                Some(v) => *v,
                None => 0,
            };
            let clamped: u64 = if sm >= 100 {
                1000
            } else {
                (sm * 10) as u64
            };
            let v: u64 = if clamped > cur {
                clamped
            } else {
                cur
            };
            m.insert(pid, v);
        }
        k = k + 1;
    }
    proof {
        assert(samples@.subrange(0, samples@.len() as int) =~= samples@);
    }
    m
}

/// Query per-process GPU usage through the vendor runtime and reconcile the
/// signals: pid to share in per-mille. Whatever the runtime reports, every
/// share in the result lies in the per-mille range.
pub fn query_gpu_processes(state: &NvmlState) -> (r: HashMap<u32, u64>)
    ensures
        spec_share_map_bounded(r@),
{
    let device = match nvml_device_by_index(&state.nvml, state.device_index) {
        Some(d) => d,
        None => {
            return HashMap::new();
        },
    };
    let compute = match device_compute_pids(&device) {
        Some(v) => v,
        None => Vec::new(),
    };
    let graphics = match device_graphics_pids(&device) {
        Some(v) => v,
        None => Vec::new(),
    };
    let samples = match device_process_utilization(&device) {
        Some(v) => v,
        None => Vec::new(),
    };
    merge_gpu_process_signals(&compute, &graphics, &samples)
}

} // verus!
