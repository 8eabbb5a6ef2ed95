//! Per-tick accounting: cumulative energy, cost, session surplus, and the
//! critical metrics snapshot.
//!
//! The fast loop hands the tick function one power sample and the wall clock;
//! everything else — energy integration, cost, surplus attribution, the
//! baseline window — is computed here, exactly. Energy is accumulated in
//! milliwatt-milliseconds so that integration over ticks is lossless
//! (1 mWh = 3 600 000 mW·ms).

use vstd::prelude::*;
use crate::baseline::{spec_max_sample_mw, BaselineDetector};
use crate::pricing::{spec_cost_micro, spec_rate_micro, LocalTime, PricingEngine};
use crate::types::{CriticalMetrics, Session};

verus! {

/// Application runtime state for one sampling session.
pub struct AppState {
    /// When the session started, in milliseconds.
    pub session_start_ms: u64,
    /// Cumulative energy since session start, in milliwatt-milliseconds.
    pub cumulative_mwms: u128,
    /// The most recent power sample, in milliwatts.
    pub last_power_mw: u64,
    /// Time of the previous tick, in milliseconds.
    pub last_tick_ms: u64,
}

impl AppState {
    /// Energy never exceeds the maximum plausible power times the elapsed
    /// time, and the clock moves forward.
    pub open spec fn wf(&self) -> bool {
        &&& self.session_start_ms <= self.last_tick_ms
        &&& self.cumulative_mwms <= (self.last_tick_ms - self.session_start_ms)
            * spec_max_sample_mw()
    }

    /// Fresh state starting a session now.
    pub fn new(now_ms: u64) -> (r: Self)
        ensures
            r.wf(),
            r.session_start_ms == now_ms,
            r.cumulative_mwms == 0,
            r.last_power_mw == 0,
            r.last_tick_ms == now_ms,
    {
        AppState { session_start_ms: now_ms, cumulative_mwms: 0, last_power_mw: 0, last_tick_ms: now_ms }
    }
}

/// An in-progress tracking session.
pub struct ActiveSession {
    pub id: i64,
    /// When tracking started, in milliseconds.
    pub start_ms: u64,
    /// The baseline this session charges surplus against, in milliwatts.
    pub baseline_mw: u64,
    /// Total energy during the session, in milliwatt-milliseconds.
    pub total_mwms: u128,
    /// Energy above the baseline, in milliwatt-milliseconds.
    pub surplus_mwms: u128,
    pub label: Option<String>,
    pub category: Option<String>,
}

impl ActiveSession {
    /// Surplus never exceeds the total, and both stay within what the
    /// maximum plausible power could have produced by `last_tick_ms`.
    pub open spec fn wf(&self, last_tick_ms: u64) -> bool {
        &&& self.start_ms <= last_tick_ms
        &&& self.surplus_mwms <= self.total_mwms
        &&& self.total_mwms <= (last_tick_ms - self.start_ms) * spec_max_sample_mw()
    }
}

/// Surplus power above a baseline: zero when at or below it.
pub open spec fn spec_surplus_mw(power_mw: int, baseline_mw: int) -> int {
    if power_mw > baseline_mw {
        power_mw - baseline_mw
    } else {
        0
    }
}

/// Energy in milliwatt-hours of an accumulation in milliwatt-milliseconds.
pub open spec fn spec_mwms_to_mwh(mwms: int) -> int {
    mwms / 3_600_000
}

/// One fast tick: integrate the power sample into the session energy and
/// cost, update the surplus of an active tracking session, feed the baseline
/// window, and produce the critical metrics snapshot.
///
/// The snapshot's cost figures use the session-average power for the hourly,
/// daily and monthly estimates, and the rate in force at `local`.
#[verifier::loop_isolation(false)]
#[verifier::rlimit(30)]
pub fn critical_tick(
    state: &mut AppState,
    active: &mut Option<ActiveSession>,
    detector: &mut BaselineDetector,
    pricing: &PricingEngine,
    now_ms: u64,
    timestamp: i64,
    local: LocalTime,
    power_mw: u64,
    cpu_pm: u64,
    gpu_pm: Option<u64>,
    gpu_mw: Option<u64>,
    source: &str,
    is_estimated: bool,
) -> (r: CriticalMetrics)
    requires
        old(state).wf(),
        old(detector).wf(),
        pricing.wf(),
        power_mw <= spec_max_sample_mw(),
        old(state).last_tick_ms <= now_ms,
        now_ms - old(state).session_start_ms <= 3_153_600_000_000,  // one hundred years
        match *old(active) {
            Some(s) => s.wf(old(state).last_tick_ms) && s.baseline_mw <= spec_max_sample_mw()
                && old(state).session_start_ms <= s.start_ms,
            None => true,
        },
        0 <= timestamp <= 10_000_000_000_000,
    ensures
        final(state).wf(),
        final(state).session_start_ms == old(state).session_start_ms,
        final(state).last_tick_ms == now_ms,
        final(state).last_power_mw == power_mw,
        // Lossless energy integration over the elapsed window.
        final(state).cumulative_mwms == old(state).cumulative_mwms + power_mw * (now_ms - old(
            state,
        ).last_tick_ms),
        // The baseline window receives exactly this sample.
        final(detector).wf(),
        final(detector).spec_samples() == (if old(detector).spec_samples().len() >= old(
            detector,
        ).spec_max_samples() {
            old(detector).spec_samples().subrange(
                1,
                old(detector).spec_samples().len() as int,
            ).push(power_mw)
        } else {
            old(detector).spec_samples().push(power_mw)
        }),
        final(detector).spec_max_samples() == old(detector).spec_max_samples(),
        final(detector).spec_manual() == old(detector).spec_manual(),
        // Session surplus accounting.
        match *old(active) {
            Some(s) => *final(active) matches Some(t) && t.wf(now_ms) && t.id == s.id
                && t.start_ms == s.start_ms && t.baseline_mw == s.baseline_mw && t.total_mwms
                == s.total_mwms + power_mw * (now_ms - old(state).last_tick_ms) && t.surplus_mwms
                == s.surplus_mwms + spec_surplus_mw(power_mw as int, s.baseline_mw as int) * (
            now_ms - old(state).last_tick_ms),
            None => *final(active) is None,
        },
        // The snapshot.
        r.power_mw == power_mw,
        r.cpu_usage_pm == cpu_pm,
        r.gpu_usage_pm == gpu_pm,
        r.gpu_power_mw == gpu_mw,
        r.timestamp == timestamp,
        r.is_estimated == is_estimated,
        r.source@ == source@,
        r.cumulative_mwh == spec_mwms_to_mwh(final(state).cumulative_mwms as int),
        r.current_cost_micro == spec_cost_micro(
            r.cumulative_mwh as int,
            spec_rate_micro(pricing.spec_config(), local) as int,
        ),
        r.session_duration_secs == (now_ms - old(state).session_start_ms) / 1000,
        // Estimates rest on the session-average power.
        r.avg_power_mw == (if now_ms > old(state).session_start_ms {
            final(state).cumulative_mwms as int / (now_ms - old(state).session_start_ms)
        } else {
            power_mw as int
        }),
        r.hourly_cost_micro == spec_cost_micro(
            r.avg_power_mw as int,
            spec_rate_micro(pricing.spec_config(), local) as int,
        ),
        r.daily_cost_micro == spec_cost_micro(
            r.avg_power_mw * 24,
            spec_rate_micro(pricing.spec_config(), local) as int,
        ),
        r.monthly_cost_micro == spec_cost_micro(
            r.avg_power_mw * 24 * 30,
            spec_rate_micro(pricing.spec_config(), local) as int,
        ),
        r.active_session matches Some(_) <==> old(active) matches Some(_),
{
    let ghost cum0 = old(state).cumulative_mwms as int;
    let ghost lt0 = old(state).last_tick_ms as int;
    let ghost st0 = old(state).session_start_ms as int;
    let elapsed_ms: u64 = now_ms - state.last_tick_ms;
    proof {
        assert((power_mw as int) * (elapsed_ms as int) <= 10_000_000_000
            * 0xFFFF_FFFF_FFFF_FFFFint) by (nonlinear_arith)
            requires
                power_mw <= spec_max_sample_mw() && elapsed_ms <= 0xFFFF_FFFF_FFFF_FFFFint,
        ;
    }
    let energy_mwms: u128 = (power_mw as u128) * (elapsed_ms as u128);
    proof {
        assert((power_mw as int) * (elapsed_ms as int) <= spec_max_sample_mw() * (
        elapsed_ms as int)) by (nonlinear_arith)
            requires
                power_mw <= spec_max_sample_mw() && elapsed_ms >= 0,
        ;
        assert(cum0 + spec_max_sample_mw() * (elapsed_ms as int) <= (now_ms - st0)
            * spec_max_sample_mw()) by (nonlinear_arith)
            requires
                cum0 <= (lt0 - st0) * spec_max_sample_mw() && elapsed_ms == now_ms - lt0 && st0
                    <= lt0 <= now_ms,
        ;
        assert((now_ms - st0) * spec_max_sample_mw() <= 3_153_600_000_000 * spec_max_sample_mw())
            by (nonlinear_arith)
            requires
                now_ms - st0 <= 3_153_600_000_000,
        ;
    }
    state.cumulative_mwms = state.cumulative_mwms + energy_mwms;
    state.last_power_mw = power_mw;
    state.last_tick_ms = now_ms;

    let cumulative_mwh: u64 = (state.cumulative_mwms / 3_600_000) as u64;
    proof {
        vstd::arithmetic::div_mod::lemma_div_is_ordered(
            state.cumulative_mwms as int,
            3_153_600_000_000 * spec_max_sample_mw(),
            3_600_000,
        );
        vstd::arithmetic::div_mod::lemma_div_pos_is_pos(state.cumulative_mwms as int, 3_600_000);
    }
    let current_cost_micro = pricing.calculate_cost(cumulative_mwh, local);

    let duration_ms: u64 = now_ms - state.session_start_ms;
    let avg_power_mw: u64 = if duration_ms > 0 {
        proof {
            vstd::arithmetic::div_mod::lemma_div_is_ordered(
                state.cumulative_mwms as int,
                (duration_ms as int) * spec_max_sample_mw(),
                duration_ms as int,
            );
            assert((duration_ms as int) * spec_max_sample_mw() / (duration_ms as int)
                == spec_max_sample_mw()) by (nonlinear_arith)
                requires
                    duration_ms >= 1,
            ;
            vstd::arithmetic::div_mod::lemma_div_pos_is_pos(
                state.cumulative_mwms as int,
                duration_ms as int,
            );
        }
        (state.cumulative_mwms / (duration_ms as u128)) as u64
    } else {
        power_mw
    };
    let hourly_cost_micro = pricing.calculate_hourly_cost(avg_power_mw, local);
    let daily_cost_micro = pricing.calculate_daily_cost(avg_power_mw, local);
    let monthly_cost_micro = pricing.calculate_monthly_cost(avg_power_mw, local);

    detector.add_sample(power_mw);

    let session_duration_secs: u64 = duration_ms / 1000;

    let active_session: Option<Session> = match active {
        Some(s) => {
            let surplus_mw: u64 = if power_mw > s.baseline_mw {
                power_mw - s.baseline_mw
            } else {
                0
            };
            proof {
                assert((surplus_mw as int) * (elapsed_ms as int) <= (power_mw as int) * (
                elapsed_ms as int)) by (nonlinear_arith)
                    requires
                        surplus_mw <= power_mw && elapsed_ms >= 0,
                ;
                assert(s.total_mwms + (power_mw as int) * (elapsed_ms as int) <= (now_ms
                    - s.start_ms) * spec_max_sample_mw()) by (nonlinear_arith)
                    requires
                        s.total_mwms <= (lt0 - s.start_ms) * spec_max_sample_mw() && power_mw
                            <= spec_max_sample_mw() && elapsed_ms == now_ms - lt0 && s.start_ms
                            <= lt0,
                ;
                assert((now_ms - s.start_ms) * spec_max_sample_mw() <= 3_153_600_000_000
                    * spec_max_sample_mw()) by (nonlinear_arith)
                    requires
                        now_ms - s.start_ms <= 3_153_600_000_000,
                ;
            }
            s.total_mwms = s.total_mwms + energy_mwms;
            s.surplus_mwms = s.surplus_mwms + (surplus_mw as u128) * (elapsed_ms as u128);
            let surplus_mwh: u64 = (s.surplus_mwms / 3_600_000) as u64;
            let total_mwh: u64 = (s.total_mwms / 3_600_000) as u64;
            proof {
                vstd::arithmetic::div_mod::lemma_div_is_ordered(
                    s.surplus_mwms as int,
                    s.total_mwms as int,
                    3_600_000,
                );
                vstd::arithmetic::div_mod::lemma_div_is_ordered(
                    s.total_mwms as int,
                    3_153_600_000_000 * spec_max_sample_mw(),
                    3_600_000,
                );
                vstd::arithmetic::div_mod::lemma_div_pos_is_pos(s.surplus_mwms as int, 3_600_000);
                assert(3_153_600_000_000 * spec_max_sample_mw() / 3_600_000
                    <= 10_000_000_000_000_000int) by (nonlinear_arith);
            }
            let surplus_cost_micro = pricing.calculate_cost(surplus_mwh, local);
            let elapsed_session_s: u64 = (now_ms - s.start_ms) / 1000;
            Some(
                Session {
                    id: Some(s.id),
                    start_time: timestamp - (elapsed_session_s as i64),
                    end_time: None,
                    baseline_mw: s.baseline_mw,
                    total_mwh,
                    surplus_mwh,
                    surplus_cost_micro,
                    label: s.label.clone(),
                    category: s.category.clone(),
                },
            )
        },
        None => None,
    };

    CriticalMetrics {
        power_mw,
        avg_power_mw,
        cpu_usage_pm: cpu_pm,
        gpu_usage_pm: gpu_pm,
        gpu_power_mw: gpu_mw,
        cumulative_mwh,
        current_cost_micro,
        hourly_cost_micro,
        daily_cost_micro,
        monthly_cost_micro,
        session_duration_secs,
        active_session,
        source: source.to_owned(),
        is_estimated,
        timestamp,
    }
}

/// Whether the slow tick should additionally collect extended metrics
/// (per-core frequency, fans) this cycle: only when the CPU or GPU load of
/// the latest snapshot reaches the configured threshold.
pub fn should_collect_extended(critical: Option<&CriticalMetrics>, threshold_pm: u64) -> (r: bool)
    ensures
        r == match critical {
            Some(cm) => cm.cpu_usage_pm >= threshold_pm || (cm.gpu_usage_pm matches Some(g) && g
                >= threshold_pm),
            None => false,
        },
{
    match critical {
        Some(cm) => {
            if cm.cpu_usage_pm >= threshold_pm {
                true
            } else {
                match cm.gpu_usage_pm {
                    Some(g) => g >= threshold_pm,
                    None => false,
                }
            }
        },
        None => false,
    }
}

} // verus!
