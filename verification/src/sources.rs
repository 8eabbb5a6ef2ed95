//! Power source backends built on raw sensor register values.
//!
//! The platform edge reads the registers (an energy counter in microjoules,
//! or an instantaneous power register in microwatts) and hands the raw values
//! to these backends, which hold all the arithmetic: counter wraparound,
//! windowed power from energy deltas, and unit conversion.

use vstd::prelude::*;

verus! {

/// Delta of a monotonically increasing counter that wraps at `max`.
///
/// When the current value is below the last one the counter has rolled over,
/// and the true delta is the distance to the rollover point plus the new
/// value. The result is never negative by construction.
pub open spec fn spec_counter_delta(last: u64, current: u64, max: u64) -> int
    recommends
        last <= max,
{
    if current >= last {
        current - last
    } else {
        (max - last) + current
    }
}

/// Power in milliwatts from an energy delta in microjoules over a window in
/// milliseconds: uJ / ms = mW. A zero-length window yields zero power.
pub open spec fn spec_window_power_mw(delta_uj: int, elapsed_ms: int) -> int {
    if elapsed_ms <= 0 {
        0
    } else {
        delta_uj / elapsed_ms
    }
}

/// Executable counter delta with wraparound.
pub fn counter_delta(last: u64, current: u64, max: u64) -> (delta: u64)
    requires
        last <= max,
    ensures
        delta == spec_counter_delta(last, current, max),
{
    if current >= last {
        current - last
    } else {
        (max - last) + current
    }
}

/// Cumulative energy-counter backend.
///
/// Power is the energy consumed since the previous read divided by the
/// elapsed time. The `advance` read-modify-write must be performed under
/// exclusive access so two concurrent readers never compute a delta against
/// the same prior sample; the owning monitor guarantees that by holding the
/// backend behind its own lock.
pub struct RaplMonitor {
    /// Counter rollover bound in microjoules.
    max_energy_uj: u64,
    /// Counter value at the previous read.
    last_energy_uj: u64,
    /// Time of the previous read, in milliseconds.
    last_time_ms: u64,
}

impl RaplMonitor {
    /// The counter value at the previous read never exceeds the rollover bound.
    pub open spec fn wf(&self) -> bool {
        self.spec_last_energy() <= self.spec_max_energy()
    }

    pub closed spec fn spec_max_energy(&self) -> u64 {
        self.max_energy_uj
    }

    pub closed spec fn spec_last_energy(&self) -> u64 {
        self.last_energy_uj
    }

    pub closed spec fn spec_last_time(&self) -> u64 {
        self.last_time_ms
    }

    /// Start from an initial counter reading.
    pub fn new(max_energy_uj: u64, initial_energy_uj: u64, now_ms: u64) -> (r: Self)
        requires
            initial_energy_uj <= max_energy_uj,
        ensures
            r.wf(),
            r.spec_max_energy() == max_energy_uj,
            r.spec_last_energy() == initial_energy_uj,
            r.spec_last_time() == now_ms,
    {
        RaplMonitor { max_energy_uj, last_energy_uj: initial_energy_uj, last_time_ms: now_ms }
    }

    /// Consume a fresh counter reading and return the average power over the
    /// window since the previous read, handling counter wraparound.
    pub fn advance(&mut self, current_energy_uj: u64, now_ms: u64) -> (power_mw: u64)
        requires
            old(self).wf(),
            current_energy_uj <= old(self).spec_max_energy(),
            now_ms >= old(self).spec_last_time(),
        ensures
            final(self).wf(),
            final(self).spec_max_energy() == old(self).spec_max_energy(),
            final(self).spec_last_energy() == current_energy_uj,
            final(self).spec_last_time() == now_ms,
            power_mw == spec_window_power_mw(
                spec_counter_delta(
                    old(self).spec_last_energy(),
                    current_energy_uj,
                    old(self).spec_max_energy(),
                ),
                now_ms - old(self).spec_last_time(),
            ),
    {
        let delta_uj = counter_delta(self.last_energy_uj, current_energy_uj, self.max_energy_uj);
        let elapsed_ms = now_ms - self.last_time_ms;
        self.last_energy_uj = current_energy_uj;
        self.last_time_ms = now_ms;
        if elapsed_ms == 0 {
            0
        } else {
            delta_uj / elapsed_ms
        }
    }
}

/// Instantaneous power-register backend (platform sensor, microwatts).
pub struct HwmonMonitor {
    /// Index of the discovered power input register.
    pub sensor_index: u64,
}

impl HwmonMonitor {
    /// Convert a raw register value in microwatts to milliwatts.
    pub fn power_from_microwatts(&self, raw_uw: u64) -> (power_mw: u64)
        ensures
            power_mw == raw_uw / 1000,
    {
        raw_uw / 1000
    }
}

/// Battery-discharge backend (microwatts), the last-resort real measurement
/// on portable hardware.
pub struct BatteryMonitor {
    /// Index of the battery the discharge register belongs to.
    pub battery_index: u64,
}

impl BatteryMonitor {
    /// Convert a raw discharge value in microwatts to milliwatts.
    pub fn power_from_microwatts(&self, raw_uw: u64) -> (power_mw: u64)
        ensures
            power_mw == raw_uw / 1000,
    {
        raw_uw / 1000
    }
}

/// The concrete register-backed power source a monitor ended up with.
pub enum InnerPowerSource {
    Rapl(RaplMonitor),
    Hwmon(HwmonMonitor),
    Battery(BatteryMonitor),
}

impl InnerPowerSource {
    pub open spec fn wf(&self) -> bool {
        match self {
            InnerPowerSource::Rapl(m) => m.wf(),
            _ => true,
        }
    }

    /// What one raw register value means for each backend: the energy-counter
    /// backend windows it against its state; the register backends convert
    /// microwatts to milliwatts.
    pub open spec fn spec_power_of(&self, raw: u64, now_ms: u64) -> int {
        match self {
            InnerPowerSource::Rapl(m) => spec_window_power_mw(
                spec_counter_delta(m.spec_last_energy(), raw, m.spec_max_energy()),
                now_ms - m.spec_last_time(),
            ),
            InnerPowerSource::Hwmon(_) => (raw / 1000) as int,
            InnerPowerSource::Battery(_) => (raw / 1000) as int,
        }
    }

    /// Feed the backend one raw register value and get power in milliwatts.
    pub fn read_power_mw(&mut self, raw: u64, now_ms: u64) -> (power_mw: u64)
        requires
            old(self).wf(),
            match *old(self) {
                InnerPowerSource::Rapl(m) => raw <= m.spec_max_energy() && now_ms
                    >= m.spec_last_time(),
                _ => true,
            },
        ensures
            final(self).wf(),
            power_mw == old(self).spec_power_of(raw, now_ms),
            // The backend keeps its identity; only the energy-counter state
            // advances.
            match *old(self) {
                InnerPowerSource::Rapl(m) => *final(self) matches InnerPowerSource::Rapl(m2)
                    && m2.spec_max_energy() == m.spec_max_energy() && m2.spec_last_energy() == raw
                    && m2.spec_last_time() == now_ms,
                _ => *final(self) == *old(self),
            },
    {
        match self {
            InnerPowerSource::Rapl(m) => m.advance(raw, now_ms),
            InnerPowerSource::Hwmon(m) => m.power_from_microwatts(raw),
            InnerPowerSource::Battery(m) => m.power_from_microwatts(raw),
        }
    }

    /// Human-readable name of the backend.
    pub fn name(&self) -> (r: &'static str)
        ensures
            r@ == match self {
                InnerPowerSource::Rapl(_) => "Intel RAPL"@,
                InnerPowerSource::Hwmon(_) => "Linux hwmon"@,
                InnerPowerSource::Battery(_) => "Battery sensor"@,
            },
    {
        match self {
            InnerPowerSource::Rapl(_) => "Intel RAPL",
            InnerPowerSource::Hwmon(_) => "Linux hwmon",
            InnerPowerSource::Battery(_) => "Battery sensor",
        }
    }

    /// Short tag stored alongside readings from this backend.
    pub fn source_tag(&self) -> (r: &'static str)
        ensures
            r@ == match self {
                InnerPowerSource::Rapl(_) => "rapl"@,
                InnerPowerSource::Hwmon(_) => "hwmon"@,
                InnerPowerSource::Battery(_) => "battery"@,
            },
    {
        match self {
            InnerPowerSource::Rapl(_) => "rapl",
            InnerPowerSource::Hwmon(_) => "hwmon",
            InnerPowerSource::Battery(_) => "battery",
        }
    }
}

} // verus!
