//! Load-based TDP power estimation.
//!
//! When no direct sensor exists, power is interpolated from CPU load between
//! an idle floor and a burst ceiling derived from the processor's rated TDP.
//! Ratios are carried in per-mille: an idle ratio of 120 means 12% of TDP.

use crate::text::{contains_bytes, ends_with_bytes, spec_contains, spec_ends_with, spec_lower, to_lower};
use vstd::prelude::*;
use vstd::string::StringSliceAdditionalSpecFns;

verus! {

/// CPU category for TDP estimation: vendor x market segment x tier.
#[derive(Debug, Clone, Copy, PartialEq, Eq, Structural)]
pub enum CpuCategory {
    IntelDesktopI3,
    IntelDesktopI5,
    IntelDesktopI7,
    IntelDesktopI9,
    IntelLaptopU,
    IntelLaptopP,
    IntelLaptopH,
    IntelLaptopHX,
    AmdDesktopRyzen3,
    AmdDesktopRyzen5,
    AmdDesktopRyzen7,
    AmdDesktopRyzen9,
    AmdDesktopThreadripper,
    AmdLaptopU,
    AmdLaptopHS,
    AmdLaptopH,
    AmdLaptopHX,
    AppleM1,
    AppleM1Pro,
    AppleM1Max,
    AppleM2,
    AppleM2Pro,
    AppleM2Max,
    AppleM3,
    AppleM3Pro,
    AppleM3Max,
    GenericDesktop,
    GenericLaptop,
}

/// TDP profile: rated power plus the calibration ratios that derive the idle
/// floor and burst ceiling from it.
#[derive(Debug, Clone, Copy, PartialEq, Eq, Structural)]
pub struct TdpProfile {
    /// Rated TDP in milliwatts.
    pub tdp_mw: u64,
    /// Idle power as per-mille of TDP.
    pub idle_ratio_pm: u64,
    /// Burst power limit as per-mille of TDP (at least 1000).
    pub max_power_ratio_pm: u64,
}

impl TdpProfile {
    /// Bounds every profile satisfies: the rated power is below a megawatt,
    /// idle is a proper fraction of TDP, and the burst ceiling is at least TDP
    /// and at most ten times it.
    pub open spec fn wf(&self) -> bool {
        &&& self.tdp_mw <= 1_000_000_000
        &&& self.idle_ratio_pm <= 1000
        &&& 1000 <= self.max_power_ratio_pm <= 10_000
    }

    /// Idle power floor in milliwatts.
    pub open spec fn spec_idle_power(&self) -> int {
        self.tdp_mw * self.idle_ratio_pm / 1000
    }

    /// Burst power ceiling in milliwatts.
    pub open spec fn spec_max_power(&self) -> int {
        self.tdp_mw * self.max_power_ratio_pm / 1000
    }

    pub fn new(tdp_mw: u64, idle_ratio_pm: u64, max_power_ratio_pm: u64) -> (r: Self)
        requires
            tdp_mw <= 1_000_000_000,
            idle_ratio_pm <= 1000,
            1000 <= max_power_ratio_pm <= 10_000,
        ensures
            r == (TdpProfile { tdp_mw, idle_ratio_pm, max_power_ratio_pm }),
            r.wf(),
    {
        TdpProfile { tdp_mw, idle_ratio_pm, max_power_ratio_pm }
    }

    /// The idle floor never exceeds the burst ceiling.
    pub proof fn lemma_idle_le_max(&self)
        requires
            self.wf(),
        ensures
            self.spec_idle_power() <= self.spec_max_power(),
            self.spec_max_power() <= 10_000_000_000,
    {
        vstd::arithmetic::mul::lemma_mul_inequality(
            self.idle_ratio_pm as int,
            self.max_power_ratio_pm as int,
            self.tdp_mw as int,
        );
        assert(self.tdp_mw * self.idle_ratio_pm == self.idle_ratio_pm * self.tdp_mw)
            by (nonlinear_arith);
        assert(self.tdp_mw * self.max_power_ratio_pm == self.max_power_ratio_pm * self.tdp_mw)
            by (nonlinear_arith);
        vstd::arithmetic::div_mod::lemma_div_is_ordered(
            (self.tdp_mw * self.idle_ratio_pm) as int,
            (self.tdp_mw * self.max_power_ratio_pm) as int,
            1000,
        );
        assert(self.tdp_mw * self.max_power_ratio_pm <= 10_000_000_000_000) by (nonlinear_arith)
            requires
                self.tdp_mw <= 1_000_000_000 && self.max_power_ratio_pm <= 10_000,
        ;
        vstd::arithmetic::div_mod::lemma_div_is_ordered(
            (self.tdp_mw * self.max_power_ratio_pm) as int,
            10_000_000_000_000,
            1000,
        );
    }

    /// Idle power floor in milliwatts.
    pub fn idle_power(&self) -> (r: u64)
        requires
            self.wf(),
        ensures
            r == self.spec_idle_power(),
    {
        proof {
            assert(self.tdp_mw * self.idle_ratio_pm <= 1_000_000_000_000) by (nonlinear_arith)
                requires
                    self.tdp_mw <= 1_000_000_000 && self.idle_ratio_pm <= 1000,
            ;
        }
        self.tdp_mw * self.idle_ratio_pm / 1000
    }

    /// Burst power ceiling in milliwatts.
    pub fn max_power(&self) -> (r: u64)
        requires
            self.wf(),
        ensures
            r == self.spec_max_power(),
    {
        proof {
            assert(self.tdp_mw * self.max_power_ratio_pm <= 10_000_000_000_000)
                by (nonlinear_arith)
                requires
                    self.tdp_mw <= 1_000_000_000 && self.max_power_ratio_pm <= 10_000,
            ;
        }
        self.tdp_mw * self.max_power_ratio_pm / 1000
    }
}

/// The fixed profile of each CPU category. The ratios are calibration
/// constants chosen empirically; they are preserved exactly.
pub open spec fn spec_tdp_profile(category: CpuCategory) -> TdpProfile {
    match category {
        CpuCategory::IntelDesktopI3 => TdpProfile { tdp_mw: 65_000, idle_ratio_pm: 120, max_power_ratio_pm: 1200 },
        CpuCategory::IntelDesktopI5 => TdpProfile { tdp_mw: 80_000, idle_ratio_pm: 120, max_power_ratio_pm: 1400 },
        CpuCategory::IntelDesktopI7 => TdpProfile { tdp_mw: 110_000, idle_ratio_pm: 100, max_power_ratio_pm: 1500 },
        CpuCategory::IntelDesktopI9 => TdpProfile { tdp_mw: 150_000, idle_ratio_pm: 100, max_power_ratio_pm: 1700 },
        CpuCategory::IntelLaptopU => TdpProfile { tdp_mw: 15_000, idle_ratio_pm: 150, max_power_ratio_pm: 1800 },
        CpuCategory::IntelLaptopP => TdpProfile { tdp_mw: 28_000, idle_ratio_pm: 140, max_power_ratio_pm: 1600 },
        CpuCategory::IntelLaptopH => TdpProfile { tdp_mw: 45_000, idle_ratio_pm: 120, max_power_ratio_pm: 1500 },
        CpuCategory::IntelLaptopHX => TdpProfile { tdp_mw: 55_000, idle_ratio_pm: 100, max_power_ratio_pm: 1800 },
        CpuCategory::AmdDesktopRyzen3 => TdpProfile { tdp_mw: 65_000, idle_ratio_pm: 120, max_power_ratio_pm: 1200 },
        CpuCategory::AmdDesktopRyzen5 => TdpProfile { tdp_mw: 65_000, idle_ratio_pm: 120, max_power_ratio_pm: 1400 },
        CpuCategory::AmdDesktopRyzen7 => TdpProfile { tdp_mw: 95_000, idle_ratio_pm: 110, max_power_ratio_pm: 1400 },
        CpuCategory::AmdDesktopRyzen9 => TdpProfile { tdp_mw: 125_000, idle_ratio_pm: 100, max_power_ratio_pm: 1600 },
        CpuCategory::AmdDesktopThreadripper => TdpProfile { tdp_mw: 280_000, idle_ratio_pm: 80, max_power_ratio_pm: 1300 },
        CpuCategory::AmdLaptopU => TdpProfile { tdp_mw: 15_000, idle_ratio_pm: 150, max_power_ratio_pm: 1800 },
        CpuCategory::AmdLaptopHS => TdpProfile { tdp_mw: 35_000, idle_ratio_pm: 130, max_power_ratio_pm: 1500 },
        CpuCategory::AmdLaptopH => TdpProfile { tdp_mw: 45_000, idle_ratio_pm: 120, max_power_ratio_pm: 1500 },
        CpuCategory::AmdLaptopHX => TdpProfile { tdp_mw: 55_000, idle_ratio_pm: 100, max_power_ratio_pm: 1800 },
        CpuCategory::AppleM1 => TdpProfile { tdp_mw: 15_000, idle_ratio_pm: 200, max_power_ratio_pm: 1500 },
        CpuCategory::AppleM1Pro => TdpProfile { tdp_mw: 30_000, idle_ratio_pm: 180, max_power_ratio_pm: 1400 },
        CpuCategory::AppleM1Max => TdpProfile { tdp_mw: 40_000, idle_ratio_pm: 150, max_power_ratio_pm: 1500 },
        CpuCategory::AppleM2 => TdpProfile { tdp_mw: 15_000, idle_ratio_pm: 200, max_power_ratio_pm: 1500 },
        CpuCategory::AppleM2Pro => TdpProfile { tdp_mw: 30_000, idle_ratio_pm: 180, max_power_ratio_pm: 1400 },
        CpuCategory::AppleM2Max => TdpProfile { tdp_mw: 40_000, idle_ratio_pm: 150, max_power_ratio_pm: 1500 },
        CpuCategory::AppleM3 => TdpProfile { tdp_mw: 15_000, idle_ratio_pm: 200, max_power_ratio_pm: 1500 },
        CpuCategory::AppleM3Pro => TdpProfile { tdp_mw: 30_000, idle_ratio_pm: 180, max_power_ratio_pm: 1400 },
        CpuCategory::AppleM3Max => TdpProfile { tdp_mw: 40_000, idle_ratio_pm: 150, max_power_ratio_pm: 1500 },
        CpuCategory::GenericDesktop => TdpProfile { tdp_mw: 85_000, idle_ratio_pm: 120, max_power_ratio_pm: 1400 },
        CpuCategory::GenericLaptop => TdpProfile { tdp_mw: 25_000, idle_ratio_pm: 140, max_power_ratio_pm: 1500 },
    }
}

/// Every profile in the table is well formed.
pub proof fn lemma_tdp_profile_wf(category: CpuCategory)
    ensures
        spec_tdp_profile(category).wf(),
{
}

/// Look up the TDP profile for a CPU category.
pub fn get_tdp_profile(category: CpuCategory) -> (r: TdpProfile)
    ensures
        r == spec_tdp_profile(category),
        r.wf(),
{
    match category {
        CpuCategory::IntelDesktopI3 => TdpProfile::new(65_000, 120, 1200),
        CpuCategory::IntelDesktopI5 => TdpProfile::new(80_000, 120, 1400),
        CpuCategory::IntelDesktopI7 => TdpProfile::new(110_000, 100, 1500),
        CpuCategory::IntelDesktopI9 => TdpProfile::new(150_000, 100, 1700),
        CpuCategory::IntelLaptopU => TdpProfile::new(15_000, 150, 1800),
        CpuCategory::IntelLaptopP => TdpProfile::new(28_000, 140, 1600),
        CpuCategory::IntelLaptopH => TdpProfile::new(45_000, 120, 1500),
        CpuCategory::IntelLaptopHX => TdpProfile::new(55_000, 100, 1800),
        CpuCategory::AmdDesktopRyzen3 => TdpProfile::new(65_000, 120, 1200),
        CpuCategory::AmdDesktopRyzen5 => TdpProfile::new(65_000, 120, 1400),
        CpuCategory::AmdDesktopRyzen7 => TdpProfile::new(95_000, 110, 1400),
        CpuCategory::AmdDesktopRyzen9 => TdpProfile::new(125_000, 100, 1600),
        CpuCategory::AmdDesktopThreadripper => TdpProfile::new(280_000, 80, 1300),
        CpuCategory::AmdLaptopU => TdpProfile::new(15_000, 150, 1800),
        CpuCategory::AmdLaptopHS => TdpProfile::new(35_000, 130, 1500),
        CpuCategory::AmdLaptopH => TdpProfile::new(45_000, 120, 1500),
        CpuCategory::AmdLaptopHX => TdpProfile::new(55_000, 100, 1800),
        CpuCategory::AppleM1 => TdpProfile::new(15_000, 200, 1500),
        CpuCategory::AppleM1Pro => TdpProfile::new(30_000, 180, 1400),
        CpuCategory::AppleM1Max => TdpProfile::new(40_000, 150, 1500),
        CpuCategory::AppleM2 => TdpProfile::new(15_000, 200, 1500),
        CpuCategory::AppleM2Pro => TdpProfile::new(30_000, 180, 1400),
        CpuCategory::AppleM2Max => TdpProfile::new(40_000, 150, 1500),
        CpuCategory::AppleM3 => TdpProfile::new(15_000, 200, 1500),
        CpuCategory::AppleM3Pro => TdpProfile::new(30_000, 180, 1400),
        CpuCategory::AppleM3Max => TdpProfile::new(40_000, 150, 1500),
        CpuCategory::GenericDesktop => TdpProfile::new(85_000, 120, 1400),
        CpuCategory::GenericLaptop => TdpProfile::new(25_000, 140, 1500),
    }
}

/// Combined load factor in per-mille from the mean load and the fraction of
/// active cores. Rewards spreading work across cores: power does not scale
/// purely linearly with mean utilization. The 700/300 split is a calibration
/// constant preserved exactly.
pub open spec fn spec_load_factor_pm(avg_load_pm: int, active_ratio_pm: int) -> int {
    let weighted = avg_load_pm * (700 + 300 * active_ratio_pm / 1000) / 1000;
    if weighted > 1000 {
        1000int
    } else {
        weighted
    }
}

/// Interpolated power: the idle floor plus the load factor's share of the
/// span up to the burst ceiling, clamped into `[idle, max]`.
pub open spec fn spec_interpolated_power_mw(idle_mw: int, max_mw: int, load_factor_pm: int) -> int {
    let raw = idle_mw + load_factor_pm * (max_mw - idle_mw) / 1000;
    if raw < idle_mw {
        idle_mw
    } else if raw > max_mw {
        max_mw
    } else {
        raw
    }
}

/// A core is active when its load exceeds this threshold (5%, a calibration
/// constant preserved exactly).
pub open spec fn spec_active_threshold_pm() -> int {
    50
}

/// Number of elements of `loads` strictly above the activity threshold.
pub open spec fn spec_active_count(loads: Seq<u64>) -> int
    decreases loads.len(),
{
    if loads.len() == 0 {
        0
    } else {
        spec_active_count(loads.drop_last()) + if loads.last() > spec_active_threshold_pm() {
            1int
        } else {
            0int
        }
    }
}

/// Sum of a sequence of loads.
pub open spec fn spec_load_sum(loads: Seq<u64>) -> int
    decreases loads.len(),
{
    if loads.len() == 0 {
        0
    } else {
        spec_load_sum(loads.drop_last()) + loads.last()
    }
}

proof fn lemma_load_sum_bound(loads: Seq<u64>, bound: int)
    requires
        forall|i: int| 0 <= i < loads.len() ==> loads[i] <= bound,
        bound >= 0,
    ensures
        0 <= spec_load_sum(loads) <= loads.len() * bound,
    decreases loads.len(),
{
    if loads.len() > 0 {
        lemma_load_sum_bound(loads.drop_last(), bound);
        assert((loads.len() - 1) * bound + bound == loads.len() * bound) by (nonlinear_arith);
    }
}

proof fn lemma_active_count_bound(loads: Seq<u64>)
    ensures
        0 <= spec_active_count(loads) <= loads.len(),
    decreases loads.len(),
{
    if loads.len() > 0 {
        lemma_active_count_bound(loads.drop_last());
    }
}

/// UTF-8 bytes of a string literal, for the categorization specs.
pub open spec fn lit(s: &str) -> Seq<u8> {
    s.spec_bytes()
}

/// Laptop markers in an Intel model name.
pub open spec fn spec_intel_mobile(l: Seq<u8>) -> bool {
    ||| spec_contains(l, lit("u "))
    ||| spec_contains(l, lit("-u"))
    ||| spec_ends_with(l, lit("u"))
    ||| spec_contains(l, lit("p "))
    ||| spec_contains(l, lit("-p"))
    ||| spec_ends_with(l, lit("p"))
    ||| spec_contains(l, lit("h "))
    ||| spec_contains(l, lit("-h"))
    ||| spec_ends_with(l, lit("h"))
    ||| spec_contains(l, lit("hx"))
    ||| spec_ends_with(l, lit("hx"))
    ||| spec_contains(l, lit("mobile"))
}

/// Laptop markers in an AMD model name.
pub open spec fn spec_amd_mobile(l: Seq<u8>) -> bool {
    ||| spec_contains(l, lit("u "))
    ||| spec_contains(l, lit("-u"))
    ||| spec_ends_with(l, lit("u"))
    ||| spec_contains(l, lit("hs"))
    ||| spec_contains(l, lit("h "))
    ||| spec_contains(l, lit("-h"))
    ||| spec_ends_with(l, lit("h"))
    ||| spec_contains(l, lit("hx"))
    ||| spec_ends_with(l, lit("hx"))
    ||| spec_contains(l, lit("mobile"))
}

/// Category of an Apple Silicon generation from its tier markers.
pub open spec fn spec_apple_tier(l: Seq<u8>, max: CpuCategory, pro: CpuCategory, base: CpuCategory) -> CpuCategory {
    if spec_contains(l, lit("max")) {
        max
    } else if spec_contains(l, lit("pro")) {
        pro
    } else {
        base
    }
}

/// Classify a CPU model name (lower-cased bytes `l`) into a category and a
/// laptop flag, falling back to a guess from the physical core count when the
/// name is unrecognized. Mirrors the substring heuristics exactly.
pub open spec fn spec_categorize(name: Seq<u8>, core_count: int) -> (CpuCategory, bool) {
    let l = spec_lower(name);
    if spec_contains(l, lit("m1")) || spec_contains(l, lit("m2")) || spec_contains(l, lit("m3")) {
        if spec_contains(l, lit("m3")) {
            (spec_apple_tier(l, CpuCategory::AppleM3Max, CpuCategory::AppleM3Pro, CpuCategory::AppleM3), true)
        } else if spec_contains(l, lit("m2")) {
            (spec_apple_tier(l, CpuCategory::AppleM2Max, CpuCategory::AppleM2Pro, CpuCategory::AppleM2), true)
        } else {
            (spec_apple_tier(l, CpuCategory::AppleM1Max, CpuCategory::AppleM1Pro, CpuCategory::AppleM1), true)
        }
    } else if spec_contains(l, lit("intel")) {
        if spec_intel_mobile(l) {
            if spec_contains(l, lit("hx")) || spec_ends_with(l, lit("hx")) {
                (CpuCategory::IntelLaptopHX, true)
            } else if spec_contains(l, lit("h ")) || spec_contains(l, lit("-h")) || spec_ends_with(l, lit("h")) {
                (CpuCategory::IntelLaptopH, true)
            } else if spec_contains(l, lit("p ")) || spec_contains(l, lit("-p")) || spec_ends_with(l, lit("p")) {
                (CpuCategory::IntelLaptopP, true)
            } else {
                (CpuCategory::IntelLaptopU, true)
            }
        } else if spec_contains(l, lit("i9")) {
            (CpuCategory::IntelDesktopI9, false)
        } else if spec_contains(l, lit("i7")) {
            (CpuCategory::IntelDesktopI7, false)
        } else if spec_contains(l, lit("i5")) {
            (CpuCategory::IntelDesktopI5, false)
        } else if spec_contains(l, lit("i3")) {
            (CpuCategory::IntelDesktopI3, false)
        } else if core_count >= 8 {
            (CpuCategory::IntelDesktopI7, false)
        } else if core_count >= 4 {
            (CpuCategory::IntelDesktopI5, false)
        } else {
            (CpuCategory::IntelDesktopI3, false)
        }
    } else if spec_contains(l, lit("amd")) || spec_contains(l, lit("ryzen")) || spec_contains(
        l,
        lit("threadripper"),
    ) {
        if spec_contains(l, lit("threadripper")) {
            (CpuCategory::AmdDesktopThreadripper, false)
        } else if spec_amd_mobile(l) {
            if spec_contains(l, lit("hx")) || spec_ends_with(l, lit("hx")) {
                (CpuCategory::AmdLaptopHX, true)
            } else if spec_contains(l, lit("hs")) || spec_ends_with(l, lit("hs")) {
                (CpuCategory::AmdLaptopHS, true)
            } else if spec_contains(l, lit("h ")) || spec_contains(l, lit("-h")) || spec_ends_with(l, lit("h")) {
                (CpuCategory::AmdLaptopH, true)
            } else {
                (CpuCategory::AmdLaptopU, true)
            }
        } else if spec_contains(l, lit("ryzen 9")) || spec_contains(l, lit("ryzen9")) {
            (CpuCategory::AmdDesktopRyzen9, false)
        } else if spec_contains(l, lit("ryzen 7")) || spec_contains(l, lit("ryzen7")) {
            (CpuCategory::AmdDesktopRyzen7, false)
        } else if spec_contains(l, lit("ryzen 5")) || spec_contains(l, lit("ryzen5")) {
            (CpuCategory::AmdDesktopRyzen5, false)
        } else if spec_contains(l, lit("ryzen 3")) || spec_contains(l, lit("ryzen3")) {
            (CpuCategory::AmdDesktopRyzen3, false)
        } else if core_count >= 12 {
            (CpuCategory::AmdDesktopRyzen9, false)
        } else if core_count >= 8 {
            (CpuCategory::AmdDesktopRyzen7, false)
        } else if core_count >= 6 {
            (CpuCategory::AmdDesktopRyzen5, false)
        } else {
            (CpuCategory::AmdDesktopRyzen3, false)
        }
    } else if core_count <= 4 {
        (CpuCategory::GenericLaptop, true)
    } else {
        (CpuCategory::GenericDesktop, false)
    }
}

/// Detected CPU specification: identification plus the derived profile.
#[derive(Debug, Clone)]
pub struct CpuSpecs {
    /// CPU model name as reported by the platform.
    pub name: String,
    /// Estimated physical core count.
    pub core_count: usize,
    /// Category the name (or core count) resolved to.
    pub category: CpuCategory,
    /// TDP profile of the category.
    pub profile: TdpProfile,
    /// Whether the category indicates a portable machine.
    pub is_laptop: bool,
}

/// Substring test against a lower-cased name.
fn has(l: &Vec<u8>, needle: &str) -> (r: bool)
    ensures
        r == spec_contains(l@, needle.spec_bytes()),
{
    contains_bytes(l.as_slice(), needle.as_bytes())
}

/// Suffix test against a lower-cased name.
fn ends(l: &Vec<u8>, needle: &str) -> (r: bool)
    ensures
        r == spec_ends_with(l@, needle.spec_bytes()),
{
    ends_with_bytes(l.as_slice(), needle.as_bytes())
}

impl CpuSpecs {
    /// Classify a CPU model name into a category and a laptop flag.
    ///
    /// The name is matched case-insensitively; when no vendor heuristic
    /// applies, the physical core count decides between the generic desktop
    /// and laptop profiles.
    pub fn categorize_cpu(name: &str, core_count: usize) -> (r: (CpuCategory, bool))
        ensures
            r == spec_categorize(name.spec_bytes(), core_count as int),
    {
        let bytes = name.as_bytes_vec();
        let l = to_lower(bytes.as_slice());
        if has(&l, "m1") || has(&l, "m2") || has(&l, "m3") {
            if has(&l, "m3") {
                if has(&l, "max") {
                    (CpuCategory::AppleM3Max, true)
                } else if has(&l, "pro") {
                    (CpuCategory::AppleM3Pro, true)
                } else {
                    (CpuCategory::AppleM3, true)
                }
            } else if has(&l, "m2") {
                if has(&l, "max") {
                    (CpuCategory::AppleM2Max, true)
                } else if has(&l, "pro") {
                    (CpuCategory::AppleM2Pro, true)
                } else {
                    (CpuCategory::AppleM2, true)
                }
            } else {
                if has(&l, "max") {
                    (CpuCategory::AppleM1Max, true)
                } else if has(&l, "pro") {
                    (CpuCategory::AppleM1Pro, true)
                } else {
                    (CpuCategory::AppleM1, true)
                }
            }
        } else if has(&l, "intel") {
            let mobile = has(&l, "u ") || has(&l, "-u") || ends(&l, "u") || has(&l, "p ") || has(
                &l,
                "-p",
            ) || ends(&l, "p") || has(&l, "h ") || has(&l, "-h") || ends(&l, "h") || has(&l, "hx")
                || ends(&l, "hx") || has(&l, "mobile");
            if mobile {
                if has(&l, "hx") || ends(&l, "hx") {
                    (CpuCategory::IntelLaptopHX, true)
                } else if has(&l, "h ") || has(&l, "-h") || ends(&l, "h") {
                    (CpuCategory::IntelLaptopH, true)
                } else if has(&l, "p ") || has(&l, "-p") || ends(&l, "p") {
                    (CpuCategory::IntelLaptopP, true)
                } else {
                    (CpuCategory::IntelLaptopU, true)
                }
            } else if has(&l, "i9") {
                (CpuCategory::IntelDesktopI9, false)
            } else if has(&l, "i7") {
                (CpuCategory::IntelDesktopI7, false)
            } else if has(&l, "i5") {
                (CpuCategory::IntelDesktopI5, false)
            } else if has(&l, "i3") {
                (CpuCategory::IntelDesktopI3, false)
            } else if core_count >= 8 {
                (CpuCategory::IntelDesktopI7, false)
            } else if core_count >= 4 {
                (CpuCategory::IntelDesktopI5, false)
            } else {
                (CpuCategory::IntelDesktopI3, false)
            }
        } else if has(&l, "amd") || has(&l, "ryzen") || has(&l, "threadripper") {
            if has(&l, "threadripper") {
                (CpuCategory::AmdDesktopThreadripper, false)
            } else {
                let mobile = has(&l, "u ") || has(&l, "-u") || ends(&l, "u") || has(&l, "hs")
                    || has(&l, "h ") || has(&l, "-h") || ends(&l, "h") || has(&l, "hx") || ends(
                    &l,
                    "hx",
                ) || has(&l, "mobile");
                if mobile {
                    if has(&l, "hx") || ends(&l, "hx") {
                        (CpuCategory::AmdLaptopHX, true)
                    } else if has(&l, "hs") || ends(&l, "hs") {
                        (CpuCategory::AmdLaptopHS, true)
                    } else if has(&l, "h ") || has(&l, "-h") || ends(&l, "h") {
                        (CpuCategory::AmdLaptopH, true)
                    } else {
                        (CpuCategory::AmdLaptopU, true)
                    }
                } else if has(&l, "ryzen 9") || has(&l, "ryzen9") {
                    (CpuCategory::AmdDesktopRyzen9, false)
                } else if has(&l, "ryzen 7") || has(&l, "ryzen7") {
                    (CpuCategory::AmdDesktopRyzen7, false)
                } else if has(&l, "ryzen 5") || has(&l, "ryzen5") {
                    (CpuCategory::AmdDesktopRyzen5, false)
                } else if has(&l, "ryzen 3") || has(&l, "ryzen3") {
                    (CpuCategory::AmdDesktopRyzen3, false)
                } else if core_count >= 12 {
                    (CpuCategory::AmdDesktopRyzen9, false)
                } else if core_count >= 8 {
                    (CpuCategory::AmdDesktopRyzen7, false)
                } else if core_count >= 6 {
                    (CpuCategory::AmdDesktopRyzen5, false)
                } else {
                    (CpuCategory::AmdDesktopRyzen3, false)
                }
            }
        } else if core_count <= 4 {
            (CpuCategory::GenericLaptop, true)
        } else {
            (CpuCategory::GenericDesktop, false)
        }
    }

    /// Build the full specification from a reported brand string and logical
    /// processor count. Physical cores are estimated as half the logical
    /// count on machines with more than two logical processors.
    pub fn from_brand(name: &str, logical_count: usize) -> (r: Self)
        requires
            logical_count <= 1_000_000,
        ensures
            r.name@ == name@,
            r.core_count == (if logical_count > 2 {
                (logical_count + 1) / 2
            } else {
                logical_count as int
            }),
            (r.category, r.is_laptop) == spec_categorize(name.spec_bytes(), r.core_count as int),
            r.profile == spec_tdp_profile(r.category),
            r.profile.wf(),
    {
        let core_count: usize = if logical_count > 2 {
            (logical_count + 1) / 2
        } else {
            logical_count
        };
        let (category, is_laptop) = Self::categorize_cpu(name, core_count);
        let profile = get_tdp_profile(category);
        CpuSpecs { name: name.to_owned(), core_count, category, profile, is_laptop }
    }
}

/// TDP-based power estimator. The pure software backend: it cannot fail, and
/// every reading it produces is flagged as estimated.
pub struct EstimationMonitor {
    cpu_specs: CpuSpecs,
    idle_power_override: Option<u64>,
    max_power_override: Option<u64>,
}

impl EstimationMonitor {
    /// Effective idle floor in milliwatts: the override when set, else the
    /// profile's.
    pub open spec fn spec_idle_power(&self) -> int {
        match self.spec_idle_override() {
            Some(v) => v as int,
            None => self.spec_cpu_specs().profile.spec_idle_power(),
        }
    }

    /// Effective burst ceiling in milliwatts.
    pub open spec fn spec_max_power(&self) -> int {
        match self.spec_max_override() {
            Some(v) => v as int,
            None => self.spec_cpu_specs().profile.spec_max_power(),
        }
    }

    pub closed spec fn spec_cpu_specs(&self) -> CpuSpecs {
        self.cpu_specs
    }

    pub closed spec fn spec_idle_override(&self) -> Option<u64> {
        self.idle_power_override
    }

    pub closed spec fn spec_max_override(&self) -> Option<u64> {
        self.max_power_override
    }

    /// The profile is well formed and the effective floor/ceiling are ordered
    /// and bounded.
    pub open spec fn wf(&self) -> bool {
        &&& self.spec_cpu_specs().profile.wf()
        &&& 0 <= self.spec_idle_power() <= self.spec_max_power() <= 10_000_000_000
    }

    /// Build an estimator from detected CPU specifications.
    pub fn new(cpu_specs: CpuSpecs) -> (r: Self)
        requires
            cpu_specs.profile.wf(),
        ensures
            r.wf(),
            r.spec_cpu_specs() == cpu_specs,
            r.spec_idle_power() == cpu_specs.profile.spec_idle_power(),
            r.spec_max_power() == cpu_specs.profile.spec_max_power(),
    {
        proof {
            cpu_specs.profile.lemma_idle_le_max();
        }
        EstimationMonitor { cpu_specs, idle_power_override: None, max_power_override: None }
    }

    /// Build an estimator with explicit power values: an idle floor and the
    /// span of additional power available above it.
    pub fn with_power_values(cpu_specs: CpuSpecs, idle_mw: u64, active_span_mw: u64) -> (r: Self)
        requires
            cpu_specs.profile.wf(),
            idle_mw + active_span_mw <= 10_000_000_000,
        ensures
            r.wf(),
            r.spec_cpu_specs() == cpu_specs,
            r.spec_idle_power() == idle_mw,
            r.spec_max_power() == idle_mw + active_span_mw,
    {
        EstimationMonitor {
            cpu_specs,
            idle_power_override: Some(idle_mw),
            max_power_override: Some(idle_mw + active_span_mw),
        }
    }

    /// Effective idle power in milliwatts.
    pub fn get_idle_power(&self) -> (r: u64)
        requires
            self.wf(),
        ensures
            r == self.spec_idle_power(),
    {
        match self.idle_power_override {
            Some(v) => v,
            None => self.cpu_specs.profile.idle_power(),
        }
    }

    /// Effective burst ceiling in milliwatts.
    pub fn get_max_power(&self) -> (r: u64)
        requires
            self.wf(),
        ensures
            r == self.spec_max_power(),
    {
        match self.max_power_override {
            Some(v) => v,
            None => self.cpu_specs.profile.max_power(),
        }
    }

    /// Rated TDP of the detected CPU, in milliwatts.
    pub fn get_detected_tdp(&self) -> (r: u64)
        ensures
            r == self.spec_cpu_specs().profile.tdp_mw,
    {
        self.cpu_specs.profile.tdp_mw
    }

    /// Detected CPU model name.
    pub fn get_cpu_name(&self) -> (r: &String)
        ensures
            r == self.spec_cpu_specs().name,
    {
        &self.cpu_specs.name
    }

    /// Estimated physical core count.
    pub fn get_core_count(&self) -> (r: usize)
        ensures
            r == self.spec_cpu_specs().core_count,
    {
        self.cpu_specs.core_count
    }

    /// The power estimate for one set of per-core load samples.
    pub open spec fn spec_estimated_power(&self, loads: Seq<u64>) -> int {
        if loads.len() == 0 {
            self.spec_idle_power()
        } else {
            let avg = spec_load_sum(loads) / loads.len() as int;
            let active_ratio = spec_active_count(loads) * 1000 / loads.len() as int;
            spec_interpolated_power_mw(
                self.spec_idle_power(),
                self.spec_max_power(),
                spec_load_factor_pm(avg, active_ratio),
            )
        }
    }

    /// Estimate power from per-core load samples (per-mille each).
    ///
    /// The estimate always lies between the idle floor and the burst ceiling
    /// of the resolved profile.
    pub fn calculate_estimated_power(&self, loads_pm: &Vec<u64>) -> (r: u64)
        requires
            self.wf(),
            forall|i: int| 0 <= i < loads_pm@.len() ==> loads_pm@[i] <= 1000,
            loads_pm@.len() <= 1_000_000,
        ensures
            r == self.spec_estimated_power(loads_pm@),
            self.spec_idle_power() <= r <= self.spec_max_power(),
    {
        let idle_mw = self.get_idle_power();
        let max_mw = self.get_max_power();
        let n = loads_pm.len();
        if n == 0 {
            return idle_mw;
        }
        let mut sum: u64 = 0;
        let mut active: u64 = 0;
        let mut i: usize = 0;
        while i < n
            invariant
                n == loads_pm@.len() <= 1_000_000,
                0 <= i <= n,
                forall|k: int| 0 <= k < loads_pm@.len() ==> loads_pm@[k] <= 1000,
                sum == spec_load_sum(loads_pm@.subrange(0, i as int)),
                active == spec_active_count(loads_pm@.subrange(0, i as int)),
                sum <= i * 1000,
                active <= i,
            decreases n - i,
        {
            proof {
                assert(loads_pm@.subrange(0, i + 1).drop_last() =~= loads_pm@.subrange(0, i as int));
                assert(loads_pm@.subrange(0, i + 1).last() == loads_pm@[i as int]);
            }
            sum = sum + loads_pm[i];
            if loads_pm[i] > 50 {
                active = active + 1;
            }
            i = i + 1;
        }
        proof {
            assert(loads_pm@.subrange(0, n as int) =~= loads_pm@);
        }
        let avg_pm: u64 = sum / (n as u64);
        let active_ratio_pm: u64 = active * 1000 / (n as u64);
        proof {
            vstd::arithmetic::div_mod::lemma_div_is_ordered(sum as int, n as int * 1000, n as int);
            assert(n as int * 1000 / n as int == 1000) by (nonlinear_arith)
                requires
                    n >= 1,
            ;
            vstd::arithmetic::div_mod::lemma_div_is_ordered(
                active as int * 1000,
                n as int * 1000,
                n as int,
            );
            assert(active as int * 1000 <= n as int * 1000) by (nonlinear_arith)
                requires
                    active <= n,
            ;
            assert(avg_pm * (700 + 300 * active_ratio_pm / 1000) <= 1000 * 1000)
                by (nonlinear_arith)
                requires
                    avg_pm <= 1000 && active_ratio_pm <= 1000,
            ;
        }
        let weighted: u64 = avg_pm * (700 + 300 * active_ratio_pm / 1000) / 1000;
        let load_factor_pm: u64 = if weighted > 1000 {
            1000
        } else {
            weighted
        };
        interpolate_power(idle_mw, max_mw, load_factor_pm)
    }

    /// Per-component power breakdown of one estimate: the CPU's calibrated
    /// share, the remainder attributed to the rest of the system.
    pub fn get_component_breakdown(&self, total_mw: u64) -> (r: Vec<(String, u64)>)
        requires
            total_mw <= 10_000_000_000,
        ensures
            r@.len() == 2,
            r@[0].0@ == "cpu"@,
            r@[0].1 == total_mw * (if self.spec_cpu_specs().is_laptop { 700int } else { 650int })
                / 1000,
            r@[1].0@ == "other"@,
            r@[1].1 == total_mw - r@[0].1,
    {
        let share_pm: u64 = if self.cpu_specs.is_laptop {
            700
        } else {
            650
        };
        proof {
            assert(total_mw * share_pm <= total_mw * 1000) by (nonlinear_arith)
                requires
                    share_pm <= 1000,
            ;
            vstd::arithmetic::div_mod::lemma_div_is_ordered(
                (total_mw * share_pm) as int,
                (total_mw as int) * 1000,
                1000,
            );
            assert((total_mw as int) * 1000 / 1000 == total_mw) by (nonlinear_arith);
        }
        let cpu_mw: u64 = total_mw * share_pm / 1000;
        let other_mw: u64 = total_mw - cpu_mw;
        let mut components: Vec<(String, u64)> = Vec::new();
        components.push(("cpu".to_owned(), cpu_mw));
        components.push(("other".to_owned(), other_mw));
        components
    }

    /// Name of this power source.
    pub fn name(&self) -> (r: &'static str)
        ensures
            r@ == "TDP Estimation (auto-detected)"@,
    {
        "TDP Estimation (auto-detected)"
    }

    /// Estimator readings are always estimates.
    pub fn is_estimated(&self) -> (r: bool)
        ensures
            r == true,
    {
        true
    }
}

/// Interpolate between the idle floor and burst ceiling by a per-mille load
/// factor, clamping the result into `[idle_mw, max_mw]`.
pub fn interpolate_power(idle_mw: u64, max_mw: u64, load_factor_pm: u64) -> (r: u64)
    requires
        idle_mw <= max_mw <= 10_000_000_000,
        load_factor_pm <= 1000,
    ensures
        r == spec_interpolated_power_mw(idle_mw as int, max_mw as int, load_factor_pm as int),
        idle_mw <= r <= max_mw,
{
    proof {
        assert(load_factor_pm * (max_mw - idle_mw) <= 1000 * (max_mw - idle_mw))
            by (nonlinear_arith)
            requires
                load_factor_pm <= 1000 && idle_mw <= max_mw,
        ;
        vstd::arithmetic::div_mod::lemma_div_is_ordered(
            (load_factor_pm * (max_mw - idle_mw)) as int,
            1000 * (max_mw as int - idle_mw as int),
            1000,
        );
        assert(1000 * (max_mw as int - idle_mw as int) / 1000 == max_mw - idle_mw)
            by (nonlinear_arith);
        vstd::arithmetic::div_mod::lemma_div_pos_is_pos(
            (load_factor_pm * (max_mw - idle_mw)) as int,
            1000,
        );
    }
    let raw: u64 = idle_mw + load_factor_pm * (max_mw - idle_mw) / 1000;
    if raw < idle_mw {
        idle_mw
    } else if raw > max_mw {
        max_mw
    } else {
        raw
    }
}

} // verus!
