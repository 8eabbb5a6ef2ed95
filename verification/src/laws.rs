//! Engine-wide laws, stated and proved over the specification functions.

use vstd::prelude::*;
use crate::baseline::BaselineDetector;
use crate::sources::spec_counter_delta;
use crate::tdp::EstimationMonitor;

verus! {

/// Every estimated power sample lies between the idle floor and the burst
/// ceiling of the resolved TDP profile, whatever the load samples are.
pub proof fn lemma_estimated_power_within_profile(m: EstimationMonitor, loads: Seq<u64>)
    requires
        m.wf(),
    ensures
        m.spec_idle_power() <= m.spec_estimated_power(loads) <= m.spec_max_power(),
{
}

/// The energy-counter delta is never negative, with or without wraparound.
pub proof fn lemma_counter_delta_nonnegative(last: u64, current: u64, max: u64)
    requires
        last <= max,
    ensures
        spec_counter_delta(last, current, max) >= 0,
{
}

/// A manual baseline, when set, always takes precedence over the
/// auto-detected value.
pub proof fn lemma_manual_baseline_precedence(d: BaselineDetector)
    requires
        d.spec_manual() is Some,
    ensures
        d.spec_baseline() == d.spec_manual(),
{
}

} // verus!
