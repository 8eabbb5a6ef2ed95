//! Electricity pricing engine.
//!
//! Rates are micro currency units per kilowatt-hour. Four modes: a flat rate,
//! peak/off-peak by time of day, seasonal by month, and a tempo scheme with
//! day colors. The wall clock is handed in as plain values so every rate
//! decision is a function of its inputs.

use vstd::prelude::*;
use vstd::string::StringSliceAdditionalSpecFns;
use crate::parse::{spec_parse_u64, spec_split, split_bytes, parse_u64};
use crate::text::str_eq;

verus! {

/// Rates above this bound (one million currency units per kWh, in micro
/// units) are outside the domain of electricity pricing even in low-value
/// currencies.
pub open spec fn spec_max_rate_micro() -> int {
    1_000_000_000_000
}

/// A point in local time, as the pricing rules read it.
#[derive(Debug, Clone, Copy, PartialEq, Eq, Structural)]
pub struct LocalTime {
    /// Minutes since local midnight (0..1440).
    pub minutes_of_day: u32,
    /// Month of the year (1..=12).
    pub month: u32,
    /// Day of the week, 0 = Monday .. 6 = Sunday.
    pub weekday: u32,
}

impl LocalTime {
    pub open spec fn wf(&self) -> bool {
        &&& self.minutes_of_day < 1440
        &&& 1 <= self.month <= 12
        &&& self.weekday <= 6
    }

    /// Monday through Friday.
    pub open spec fn spec_is_weekday(&self) -> bool {
        self.weekday <= 4
    }
}

/// Flat-rate pricing settings.
#[derive(Debug, Clone)]
pub struct SimplePricing {
    /// Rate in micro currency units per kWh.
    pub rate_micro_per_kwh: u64,
}

/// Peak/off-peak pricing settings.
#[derive(Debug, Clone)]
pub struct PeakOffpeakPricing {
    pub peak_rate_micro: u64,
    pub offpeak_rate_micro: u64,
    /// Off-peak window start, "HH:MM".
    pub offpeak_start: String,
    /// Off-peak window end, "HH:MM".
    pub offpeak_end: String,
}

/// Seasonal pricing settings.
#[derive(Debug, Clone)]
pub struct SeasonalPricing {
    pub summer_rate_micro: u64,
    pub winter_rate_micro: u64,
    /// Months (1..=12) billed at the winter rate.
    pub winter_months: Vec<u32>,
}

/// Tempo pricing settings: day colors with peak/off-peak rates each.
#[derive(Debug, Clone)]
pub struct TempoPricing {
    pub blue_peak_micro: u64,
    pub blue_offpeak_micro: u64,
    pub white_peak_micro: u64,
    pub white_offpeak_micro: u64,
    pub red_peak_micro: u64,
    pub red_offpeak_micro: u64,
}

/// Pricing configuration: the active mode and the settings of every mode.
#[derive(Debug, Clone)]
pub struct PricingConfig {
    /// "simple", "peak_offpeak", "seasonal" or "tempo"; anything else falls
    /// back to the flat rate.
    pub mode: String,
    pub currency: String,
    pub currency_symbol: String,
    pub simple: SimplePricing,
    pub peak_offpeak: PeakOffpeakPricing,
    pub seasonal: SeasonalPricing,
    pub tempo: TempoPricing,
}

impl PricingConfig {
    /// Every rate is a plausible household electricity price.
    pub open spec fn wf(&self) -> bool {
        &&& self.simple.rate_micro_per_kwh <= spec_max_rate_micro()
        &&& self.peak_offpeak.peak_rate_micro <= spec_max_rate_micro()
        &&& self.peak_offpeak.offpeak_rate_micro <= spec_max_rate_micro()
        &&& self.seasonal.summer_rate_micro <= spec_max_rate_micro()
        &&& self.seasonal.winter_rate_micro <= spec_max_rate_micro()
        &&& self.tempo.blue_peak_micro <= spec_max_rate_micro()
        &&& self.tempo.blue_offpeak_micro <= spec_max_rate_micro()
        &&& self.tempo.white_peak_micro <= spec_max_rate_micro()
        &&& self.tempo.white_offpeak_micro <= spec_max_rate_micro()
        &&& self.tempo.red_peak_micro <= spec_max_rate_micro()
        &&& self.tempo.red_offpeak_micro <= spec_max_rate_micro()
    }
}

/// Value of one "HH:MM" part: a parsable value that fits `u32`, else zero.
pub open spec fn spec_time_part(p: Seq<u8>) -> int {
    match spec_parse_u64(p) {
        Some(v) => if v <= u32::MAX {
            v as int
        } else {
            0
        },
        None => 0,
    }
}

/// Minutes since midnight denoted by an "HH:MM" string; anything else is 0.
pub open spec fn spec_parse_time(s: Seq<u8>) -> int {
    let parts = spec_split(s, 58);
    if parts.len() == 2 {
        spec_time_part(parts[0]) * 60 + spec_time_part(parts[1])
    } else {
        0
    }
}

/// Parse an "HH:MM" time into minutes since midnight; malformed input is 0.
pub fn parse_time(time_str: &str) -> (r: u64)
    ensures
        r == spec_parse_time(time_str.spec_bytes()),
{
    let bytes = time_str.as_bytes_vec();
    let parts = split_bytes(bytes.as_slice(), 58);
    if parts.len() != 2 {
        return 0;
    }
    proof {
        assert(parts@[0]@ == spec_split(bytes@, 58)[0]);
        assert(parts@[1]@ == spec_split(bytes@, 58)[1]);
    }
    let hours: u64 = match parse_u64(parts[0].as_slice()) {
        Some(v) => if v <= 0xFFFF_FFFF {
            v
        } else {
            0
        },
        None => 0,
    };
    let minutes: u64 = match parse_u64(parts[1].as_slice()) {
        Some(v) => if v <= 0xFFFF_FFFF {
            v
        } else {
            0
        },
        None => 0,
    };
    hours * 60 + minutes
}

/// UTF-8 bytes of a string value.
pub open spec fn spec_str_bytes(s: Seq<char>) -> Seq<u8> {
    vstd::utf8::encode_utf8(s)
}

/// Whether `now` falls in the off-peak window, which may wrap past midnight
/// (for example 22:00 to 06:00).
pub open spec fn spec_is_offpeak(cfg: &PeakOffpeakPricing, now: LocalTime) -> bool {
    let start = spec_parse_time(spec_str_bytes(cfg.offpeak_start@));
    let end = spec_parse_time(spec_str_bytes(cfg.offpeak_end@));
    if start > end {
        now.minutes_of_day >= start || now.minutes_of_day < end
    } else {
        now.minutes_of_day >= start && now.minutes_of_day < end
    }
}

/// Whether `month` is billed at the winter rate.
pub open spec fn spec_is_winter_month(months: Seq<u32>, month: u32) -> bool {
    months.contains(month)
}

/// The tempo day color of a date: "white" on weekdays in winter and in the
/// transition months, "blue" otherwise. (The red color is reserved for a
/// day-color feed; this heuristic never produces it.)
pub open spec fn spec_tempo_is_white(now: LocalTime) -> bool {
    let is_winter = now.month == 12 || now.month == 1 || now.month == 2;
    let is_transition = now.month == 3 || now.month == 4 || now.month == 10 || now.month == 11;
    now.spec_is_weekday() && (is_winter || is_transition)
}

/// The rate per kWh in force under a configuration at a local time.
pub open spec fn spec_rate_micro(cfg: &PricingConfig, now: LocalTime) -> u64 {
    if cfg.mode@ == "peak_offpeak"@ {
        if spec_is_offpeak(&cfg.peak_offpeak, now) {
            cfg.peak_offpeak.offpeak_rate_micro
        } else {
            cfg.peak_offpeak.peak_rate_micro
        }
    } else if cfg.mode@ == "seasonal"@ {
        if spec_is_winter_month(cfg.seasonal.winter_months@, now.month) {
            cfg.seasonal.winter_rate_micro
        } else {
            cfg.seasonal.summer_rate_micro
        }
    } else if cfg.mode@ == "tempo"@ {
        if spec_tempo_is_white(now) {
            if spec_is_offpeak(&cfg.peak_offpeak, now) {
                cfg.tempo.white_offpeak_micro
            } else {
                cfg.tempo.white_peak_micro
            }
        } else {
            if spec_is_offpeak(&cfg.peak_offpeak, now) {
                cfg.tempo.blue_offpeak_micro
            } else {
                cfg.tempo.blue_peak_micro
            }
        }
    } else {
        cfg.simple.rate_micro_per_kwh
    }
}

/// Cost of an amount of energy at a rate: micro units, with energy in
/// milliwatt-hours and the rate in micro units per kWh (1 kWh = 10^6 mWh).
/// A cost beyond what a 64-bit amount can carry saturates there.
pub open spec fn spec_cost_micro(energy_mwh: int, rate_micro: int) -> int {
    let exact = energy_mwh * rate_micro / 1_000_000;
    if exact > u64::MAX {
        u64::MAX as int
    } else {
        exact
    }
}

/// Pricing engine holding the active configuration.
pub struct PricingEngine {
    config: PricingConfig,
}

impl PricingEngine {
    pub closed spec fn spec_config(&self) -> &PricingConfig {
        &self.config
    }

    pub open spec fn wf(&self) -> bool {
        self.spec_config().wf()
    }

    /// Engine with the given configuration.
    pub fn new(config: PricingConfig) -> (r: Self)
        requires
            config.wf(),
        ensures
            r.wf(),
            *r.spec_config() == config,
    {
        PricingEngine { config }
    }

    /// Replace the configuration.
    pub fn update_config(&mut self, config: PricingConfig)
        requires
            config.wf(),
        ensures
            final(self).wf(),
            *final(self).spec_config() == config,
    {
        self.config = config;
    }

    /// The rate per kWh in force now, by the active mode.
    pub fn get_current_rate(&self, now: LocalTime) -> (r: u64)
        requires
            self.wf(),
        ensures
            r == spec_rate_micro(self.spec_config(), now),
            r <= spec_max_rate_micro(),
    {
        let mode = self.config.mode.as_str();
        if str_eq(mode, "peak_offpeak") {
            if self.is_offpeak_time(now) {
                self.config.peak_offpeak.offpeak_rate_micro
            } else {
                self.config.peak_offpeak.peak_rate_micro
            }
        } else if str_eq(mode, "seasonal") {
            self.get_seasonal_rate(now)
        } else if str_eq(mode, "tempo") {
            self.get_tempo_rate(now)
        } else {
            self.config.simple.rate_micro_per_kwh
        }
    }

    /// Cost in micro currency units of an amount of energy at the rate in
    /// force now; a cost beyond the 64-bit range saturates there.
    pub fn calculate_cost(&self, energy_mwh: u64, now: LocalTime) -> (r: u64)
        requires
            self.wf(),
        ensures
            r == spec_cost_micro(
                energy_mwh as int,
                spec_rate_micro(self.spec_config(), now) as int,
            ),
    {
        let rate = self.get_current_rate(now);
        proof {
            assert((energy_mwh as int) * (rate as int) <= 0xFFFF_FFFF_FFFF_FFFFint
                * spec_max_rate_micro()) by (nonlinear_arith)
                requires
                    energy_mwh <= 0xFFFF_FFFF_FFFF_FFFFint && rate <= spec_max_rate_micro(),
            ;
            vstd::arithmetic::div_mod::lemma_div_pos_is_pos(
                (energy_mwh as int) * (rate as int),
                1_000_000,
            );
            assert((energy_mwh as int) * (rate as int) >= 0) by (nonlinear_arith);
        }
        let wide: u128 = (energy_mwh as u128) * (rate as u128) / 1_000_000;
        if wide > 0xFFFF_FFFF_FFFF_FFFF {
            u64::MAX
        } else {
            wide as u64
        }
    }

    /// Estimated hourly cost of running at a constant power: the energy of
    /// one hour at that power (power in mW equals mWh per hour).
    pub fn calculate_hourly_cost(&self, power_mw: u64, now: LocalTime) -> (r: u64)
        requires
            self.wf(),
            power_mw <= 10_000_000_000,
        ensures
            r == spec_cost_micro(
                power_mw as int,
                spec_rate_micro(self.spec_config(), now) as int,
            ),
    {
        self.calculate_cost(power_mw, now)
    }

    /// Estimated daily cost at a constant power: 24 hours.
    pub fn calculate_daily_cost(&self, power_mw: u64, now: LocalTime) -> (r: u64)
        requires
            self.wf(),
            power_mw <= 10_000_000_000,
        ensures
            r == spec_cost_micro(
                power_mw * 24,
                spec_rate_micro(self.spec_config(), now) as int,
            ),
    {
        self.calculate_cost(power_mw * 24, now)
    }

    /// Estimated monthly cost at a constant power: 30 days.
    pub fn calculate_monthly_cost(&self, power_mw: u64, now: LocalTime) -> (r: u64)
        requires
            self.wf(),
            power_mw <= 10_000_000_000,
        ensures
            r == spec_cost_micro(
                power_mw * 24 * 30,
                spec_rate_micro(self.spec_config(), now) as int,
            ),
    {
        self.calculate_cost(power_mw * 24 * 30, now)
    }

    /// The configured currency symbol.
    pub fn get_currency_symbol(&self) -> (r: &String)
        ensures
            r == self.spec_config().currency_symbol,
    {
        &self.config.currency_symbol
    }

    /// Whether a flat rate has been configured at all.
    pub fn is_configured(&self) -> (r: bool)
        ensures
            r == (self.spec_config().simple.rate_micro_per_kwh > 0),
    {
        self.config.simple.rate_micro_per_kwh > 0
    }

    /// Whether `now` is in the configured off-peak window.
    pub fn is_offpeak_time(&self, now: LocalTime) -> (r: bool)
        ensures
            r == spec_is_offpeak(&self.spec_config().peak_offpeak, now),
    {
        let start = parse_time(self.config.peak_offpeak.offpeak_start.as_str());
        let end = parse_time(self.config.peak_offpeak.offpeak_end.as_str());
        let m = now.minutes_of_day as u64;
        if start > end {
            m >= start || m < end
        } else {
            m >= start && m < end
        }
    }

    /// The seasonal rate for the current month.
    fn get_seasonal_rate(&self, now: LocalTime) -> (r: u64)
        ensures
            r == (if spec_is_winter_month(self.spec_config().seasonal.winter_months@, now.month) {
                self.spec_config().seasonal.winter_rate_micro
            } else {
                self.spec_config().seasonal.summer_rate_micro
            }),
    {
        let months = &self.config.seasonal.winter_months;
        let mut i: usize = 0;
        let mut winter = false;
        while i < months.len()
            invariant
                0 <= i <= months@.len(),
                winter == months@.subrange(0, i as int).contains(now.month),
            decreases months@.len() - i,
        {
            proof {
                assert(months@.subrange(0, i + 1).drop_last() =~= months@.subrange(0, i as int));
            }
            if months[i] == now.month {
                winter = true;
                proof {
                    assert(months@.subrange(0, i + 1)[i as int] == now.month);
                }
            }
            proof {
                let p = months@.subrange(0, i + 1);
                if !winter {
                    assert(forall|k: int| 0 <= k < p.len() ==> p[k] != now.month) by {
                        assert(forall|k: int|
                            0 <= k < p.len() - 1 ==> p[k] == p.drop_last()[k]);
                    }
                }
            }
            i = i + 1;
        }
        proof {
            assert(months@.subrange(0, months@.len() as int) =~= months@);
        }
        if winter {
            self.config.seasonal.winter_rate_micro
        } else {
            self.config.seasonal.summer_rate_micro
        }
    }

    /// The tempo rate: day color from the calendar, then peak/off-peak.
    fn get_tempo_rate(&self, now: LocalTime) -> (r: u64)
        ensures
            r == (if spec_tempo_is_white(now) {
                if spec_is_offpeak(&self.spec_config().peak_offpeak, now) {
                    self.spec_config().tempo.white_offpeak_micro
                } else {
                    self.spec_config().tempo.white_peak_micro
                }
            } else {
                if spec_is_offpeak(&self.spec_config().peak_offpeak, now) {
                    self.spec_config().tempo.blue_offpeak_micro
                } else {
                    self.spec_config().tempo.blue_peak_micro
                }
            }),
    {
        let is_winter = now.month == 12 || now.month == 1 || now.month == 2;
        let is_transition = now.month == 3 || now.month == 4 || now.month == 10 || now.month
            == 11;
        let is_weekday = now.weekday <= 4;
        let white = is_weekday && (is_winter || is_transition);
        let offpeak = self.is_offpeak_time(now);
        if white {
            if offpeak {
                self.config.tempo.white_offpeak_micro
            } else {
                self.config.tempo.white_peak_micro
            }
        } else {
            if offpeak {
                self.config.tempo.blue_offpeak_micro
            } else {
                self.config.tempo.blue_peak_micro
            }
        }
    }
}

} // verus!
