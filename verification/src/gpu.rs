//! GPU telemetry bridge: diagnostic-tool output parsing and per-process
//! signal reconciliation.
//!
//! The vendor runtime (when present) is queried directly; otherwise an
//! external diagnostic tool is run by the platform edge under a hard timeout
//! and its text output is parsed here.

use vstd::prelude::*;
use vstd::string::StringSliceAdditionalSpecFns;
use vstd::string::StrSliceExecFns;
use vstd::string::StringExecFns;
use crate::parse::{
    lemma_first_sep, lemma_split_none, parse_u64, spec_parse_milli, spec_parse_u64, spec_split,
    spec_trim, split_bytes, parse_milli, trim_bytes, trim_bounds,
};
use crate::text::{contains_bytes, ends_with_bytes, spec_contains, spec_ends_with};
use crate::types::GpuMetrics;

verus! {

/// Available GPU monitoring sources, in preference order.
#[derive(Debug, Clone, Copy, PartialEq, Eq, Structural)]
pub enum GpuSource {
    /// NVIDIA GPU via the NVML library (fast, direct API).
    NvmlNvidia,
    /// NVIDIA GPU via the nvidia-smi CLI (fallback).
    Nvidia,
    /// AMD GPU via rocm-smi/amd-smi CLI.
    Amd,
    /// No GPU monitoring available.
    NoGpu,
}

/// GPU power information from one query.
#[derive(Debug, Clone)]
pub struct GpuInfo {
    /// Power draw in milliwatts.
    pub power_mw: u64,
    /// GPU name/model.
    pub name: String,
}

/// CPU TDP estimated from the core count alone, in milliwatts.
pub open spec fn spec_estimate_cpu_tdp(core_count: int) -> int {
    if core_count <= 2 {
        35_000
    } else if core_count <= 4 {
        65_000
    } else if core_count <= 6 {
        95_000
    } else if core_count <= 8 {
        105_000
    } else if core_count <= 12 {
        125_000
    } else if core_count <= 16 {
        150_000
    } else {
        200_000
    }
}

/// Estimate a CPU's TDP from its core count, in milliwatts.
pub fn estimate_cpu_tdp(core_count: usize) -> (r: u64)
    ensures
        r == spec_estimate_cpu_tdp(core_count as int),
        35_000 <= r <= 200_000,
{
    if core_count <= 2 {
        35_000
    } else if core_count <= 4 {
        65_000
    } else if core_count <= 6 {
        95_000
    } else if core_count <= 8 {
        105_000
    } else if core_count <= 12 {
        125_000
    } else if core_count <= 16 {
        150_000
    } else {
        200_000
    }
}

/// A character sequence is the ASCII reading of a byte sequence.
pub open spec fn spec_ascii_match(chars: Seq<char>, bytes: Seq<u8>) -> bool {
    chars.len() == bytes.len() && forall|i: int|
        0 <= i < chars.len() ==> chars[i] as u8 == bytes[i]
}

/// A numeric CSV field, trimmed and parsed in milli-units.
pub open spec fn spec_field_milli(fields: Seq<Seq<u8>>, i: int) -> Option<u64> {
    if 0 <= i < fields.len() {
        spec_parse_milli(spec_trim(fields[i]))
    } else {
        None
    }
}

/// A numeric CSV field, trimmed and parsed as a plain integer.
pub open spec fn spec_field_u64(fields: Seq<Seq<u8>>, i: int) -> Option<u64> {
    if 0 <= i < fields.len() {
        spec_parse_u64(spec_trim(fields[i]))
    } else {
        None
    }
}

/// Trim and parse one field in milli-units.
fn field_milli(fields: &Vec<Vec<u8>>, i: usize) -> (r: Option<u64>)
    requires
        i < fields@.len(),
    ensures
        r == spec_parse_milli(spec_trim(fields@[i as int]@)),
{
    let t = trim_bytes(fields[i].as_slice());
    parse_milli(t.as_slice())
}

/// Trim and parse one field as a plain integer.
fn field_u64(fields: &Vec<Vec<u8>>, i: usize) -> (r: Option<u64>)
    requires
        i < fields@.len(),
    ensures
        r == spec_parse_u64(spec_trim(fields@[i as int]@)),
{
    let t = trim_bytes(fields[i].as_slice());
    parse_u64(t.as_slice())
}

/// The trimmed first CSV field of an ASCII line, as an owned string.
fn first_field_trimmed(line: &str) -> (r: String)
    requires
        line.is_ascii(),
    ensures
        spec_ascii_match(r@, spec_trim(spec_split(line.spec_bytes(), 44)[0])),
{
    broadcast use vstd::string::is_ascii_spec_bytes;

    let bytes = line.as_bytes_vec();
    // First comma bounds the field; without one the field is the whole line.
    let n = bytes.len();
    let mut f: usize = 0;
    while f < n && bytes[f] != 44
        invariant
            n == bytes@.len(),
            0 <= f <= n,
            forall|j: int| 0 <= j < f ==> bytes@[j] != 44,
        decreases n - f,
    {
        f = f + 1;
    }
    proof {
        if f < n {
            lemma_first_sep(bytes@, 44, f as int);
        } else {
            lemma_split_none(bytes@, 44);
            assert(bytes@.subrange(0, f as int) =~= bytes@);
        }
        assert(spec_split(bytes@, 44)[0] == bytes@.subrange(0, f as int));
    }
    let field = &bytes.as_slice()[0..f];
    proof {
        assert(field@ =~= bytes@.subrange(0, f as int));
    }
    let (a, b) = trim_bounds(field);
    let s = line.substring_ascii(a, b);
    proof {
        assert(spec_trim(field@) =~= field@.subrange(a as int, b as int));
        assert(forall|k: int| 0 <= k < b - a ==> s@[k] == line@[a + k]);
        assert(forall|k: int|
            0 <= k < line@.len() ==> line.spec_bytes()[k] == line@[k] as u8);
    }
    String::from_str(s)
}

/// The trimmed second CSV field of an ASCII line, as an owned string.
fn second_field_trimmed(line: &str) -> (r: String)
    requires
        line.is_ascii(),
        spec_split(line.spec_bytes(), 44).len() >= 2,
    ensures
        spec_ascii_match(r@, spec_trim(spec_split(line.spec_bytes(), 44)[1])),
{
    broadcast use vstd::string::is_ascii_spec_bytes;

    let bytes = line.as_bytes_vec();
    let n = bytes.len();
    let mut f: usize = 0;
    while f < n && bytes[f] != 44
        invariant
            n == bytes@.len(),
            0 <= f <= n,
            forall|j: int| 0 <= j < f ==> bytes@[j] != 44,
        decreases n - f,
    {
        f = f + 1;
    }
    proof {
        if f >= n {
            lemma_split_none(bytes@, 44);
            assert(false);
        }
        lemma_first_sep(bytes@, 44, f as int);
    }
    let ghost tail = bytes@.subrange(f + 1, bytes@.len() as int);
    let mut g: usize = f + 1;
    while g < n && bytes[g] != 44
        invariant
            n == bytes@.len(),
            f < g <= n,
            forall|j: int| f < j < g ==> bytes@[j] != 44,
        decreases n - g,
    {
        g = g + 1;
    }
    proof {
        assert(forall|j: int| 0 <= j < g - f - 1 ==> tail[j] != 44);
        if g < n {
            assert(tail[g - f - 1] == 44);
            lemma_first_sep(tail, 44, g - f - 1);
            assert(tail.subrange(0, g - f - 1) =~= bytes@.subrange(f + 1, g as int));
        } else {
            lemma_split_none(tail, 44);
            assert(tail =~= bytes@.subrange(f + 1, g as int));
        }
        assert(spec_split(bytes@, 44)[1] == spec_split(tail, 44)[0]);
        assert(spec_split(tail, 44)[0] == bytes@.subrange(f + 1, g as int));
    }
    let field = &bytes.as_slice()[f + 1..g];
    proof {
        assert(field@ =~= bytes@.subrange(f + 1, g as int));
    }
    let (a, b) = trim_bounds(field);
    let s = line.substring_ascii(f + 1 + a, f + 1 + b);
    proof {
        assert(spec_trim(field@) =~= field@.subrange(a as int, b as int));
        assert(forall|k: int| 0 <= k < b - a ==> s@[k] == line@[f + 1 + a + k]);
        assert(forall|k: int|
            0 <= k < line@.len() ==> line.spec_bytes()[k] == line@[k] as u8);
        assert(forall|k: int|
            0 <= k < b - a ==> field@.subrange(a as int, b as int)[k] == bytes@[f + 1 + a + k]);
    }
    String::from_str(s)
}

/// Parse the full nvidia-smi metrics CSV line
/// (name, utilization %, power W, temperature C, VRAM used MB, VRAM total MB,
/// graphics clock MHz, memory clock MHz, fan %). A line of fewer than seven
/// fields is rejected; the last two fields are optional.
pub fn parse_nvidia_csv_metrics(line: &str) -> (r: Option<GpuMetrics>)
    ensures
        r is Some <==> line.is_ascii() && spec_split(line.spec_bytes(), 44).len() >= 7,
        match r {
            Some(m) => {
                let fields = spec_split(line.spec_bytes(), 44);
                &&& spec_ascii_match(m.name@, spec_trim(fields[0]))
                &&& m.usage_pm == (match spec_field_milli(fields, 1) {
                    Some(v) => Some((v / 100) as u64),
                    None => None::<u64>,
                })
                &&& m.power_mw == spec_field_milli(fields, 2)
                &&& m.temperature_mc == spec_field_milli(fields, 3)
                &&& m.vram_used_mb == spec_field_u64(fields, 4)
                &&& m.vram_total_mb == spec_field_u64(fields, 5)
                &&& m.clock_mhz == spec_field_u64(fields, 6)
                &&& m.memory_clock_mhz == spec_field_u64(fields, 7)
                &&& m.fan_speed_percent == spec_field_u64(fields, 8)
                &&& m.source@ == "nvidia-smi"@
            },
            None => true,
        },
{
    if !line.is_ascii() {
        return None;
    }
    let bytes = line.as_bytes_vec();
    let fields = split_bytes(bytes.as_slice(), 44);
    if fields.len() < 7 {
        return None;
    }
    let name = first_field_trimmed(line);
    let usage_pm = match field_milli(&fields, 1) {
        Some(v) => Some(v / 100),
        None => None,
    };
    let power_mw = field_milli(&fields, 2);
    let temperature_mc = field_milli(&fields, 3);
    let vram_used_mb = field_u64(&fields, 4);
    let vram_total_mb = field_u64(&fields, 5);
    let clock_mhz = field_u64(&fields, 6);
    let memory_clock_mhz = if fields.len() > 7 {
        field_u64(&fields, 7)
    } else {
        None
    };
    let fan_speed_percent = if fields.len() > 8 {
        field_u64(&fields, 8)
    } else {
        None
    };
    Some(
        GpuMetrics {
            name,
            usage_pm,
            power_mw,
            temperature_mc,
            vram_used_mb,
            vram_total_mb,
            clock_mhz,
            source: "nvidia-smi".to_owned(),
            memory_clock_mhz,
            fan_speed_percent,
        },
    )
}

/// The word with a megahertz suffix removed; a word without one is not a
/// clock reading.
pub open spec fn spec_strip_mhz(w: Seq<u8>) -> Option<Seq<u8>> {
    if spec_ends_with(w, lit_b("Mhz")) || spec_ends_with(w, lit_b("MHz")) {
        Some(w.subrange(0, w.len() - 3))
    } else {
        None
    }
}

/// UTF-8 bytes of a string literal.
pub open spec fn lit_b(s: &str) -> Seq<u8> {
    s.spec_bytes()
}

/// The first word that reads as a clock ("1800Mhz"), in MHz.
pub open spec fn spec_dpm_words(words: Seq<Seq<u8>>) -> Option<u64>
    decreases words.len(),
{
    if words.len() == 0 {
        None
    } else {
        match spec_strip_mhz(words[0]) {
            Some(digits) => match spec_parse_u64(digits) {
                Some(v) => Some(v),
                None => spec_dpm_words(words.drop_first()),
            },
            None => spec_dpm_words(words.drop_first()),
        }
    }
}

/// The clock on the first marked line: power-level tables mark the current
/// level with an asterisk ("1: 1800Mhz *").
pub open spec fn spec_dpm_clock(lines: Seq<Seq<u8>>) -> Option<u64>
    decreases lines.len(),
{
    if lines.len() == 0 {
        None
    } else if spec_contains(lines[0], lit_b("*")) {
        match spec_dpm_words(spec_split(lines[0], 32)) {
            Some(v) => Some(v),
            None => spec_dpm_clock(lines.drop_first()),
        }
    } else {
        spec_dpm_clock(lines.drop_first())
    }
}

/// Strip a megahertz suffix from a word.
fn strip_mhz(w: &[u8]) -> (r: Option<Vec<u8>>)
    ensures
        match spec_strip_mhz(w@) {
            Some(d) => r matches Some(v) && v@ == d,
            None => r is None,
        },
{
    if !ends_with_bytes(w, "Mhz".as_bytes()) && !ends_with_bytes(w, "MHz".as_bytes()) {
        return None;
    }
    proof {
        broadcast use vstd::string::is_ascii_spec_bytes;

        reveal_strlit("Mhz");
        reveal_strlit("MHz");
        assert(("Mhz").is_ascii());
        assert(("MHz").is_ascii());
        assert(lit_b("Mhz").len() == 3);
        assert(lit_b("MHz").len() == 3);
    }
    let end = w.len() - 3;
    let mut v: Vec<u8> = Vec::new();
    let mut k: usize = 0;
    while k < end
        invariant
            0 <= k <= end <= w@.len(),
            v@ =~= w@.subrange(0, k as int),
        decreases end - k,
    {
        v.push(w[k]);
        k = k + 1;
    }
    Some(v)
}

/// Parse a power-level table (one level per line, the current one marked
/// with an asterisk) into the current clock in MHz.
pub fn parse_dpm_clock(content: &str) -> (r: Option<u64>)
    ensures
        r == spec_dpm_clock(spec_split(content.spec_bytes(), 10)),
{
    let bytes = content.as_bytes_vec();
    let lines = split_bytes(bytes.as_slice(), 10);
    let ghost ll = spec_split(bytes@, 10);
    proof {
        assert(ll.subrange(0, ll.len() as int) =~= ll);
    }
    let mut i: usize = 0;
    while i < lines.len()
        invariant
            ll == spec_split(content.spec_bytes(), 10),
            lines@.len() == ll.len(),
            forall|k: int| 0 <= k < ll.len() ==> lines@[k]@ == ll[k],
            0 <= i <= ll.len(),
            spec_dpm_clock(ll.subrange(i as int, ll.len() as int)) == spec_dpm_clock(ll),
        decreases ll.len() - i,
    {
        proof {
            let suffix = ll.subrange(i as int, ll.len() as int);
            assert(suffix[0] == ll[i as int]);
            assert(suffix.drop_first() =~= ll.subrange(i + 1, ll.len() as int));
        }
        if contains_bytes(lines[i].as_slice(), "*".as_bytes()) {
            let words = split_bytes(lines[i].as_slice(), 32);
            let ghost ww = spec_split(ll[i as int], 32);
            proof {
                assert(ww.subrange(0, ww.len() as int) =~= ww);
            }
            let mut j: usize = 0;
            while j < words.len()
                invariant
                    ll == spec_split(content.spec_bytes(), 10),
                    0 <= i < ll.len(),
                    spec_dpm_clock(ll.subrange(i as int, ll.len() as int)) == spec_dpm_clock(ll),
                    spec_contains(ll[i as int], lit_b("*")),
                    ww == spec_split(ll[i as int], 32),
                    words@.len() == ww.len(),
                    forall|k: int| 0 <= k < ww.len() ==> words@[k]@ == ww[k],
                    0 <= j <= ww.len(),
                    spec_dpm_words(ww.subrange(j as int, ww.len() as int)) == spec_dpm_words(ww),
                decreases ww.len() - j,
            {
                proof {
                    let wsuffix = ww.subrange(j as int, ww.len() as int);
                    assert(wsuffix[0] == ww[j as int]);
                    assert(wsuffix.drop_first() =~= ww.subrange(j + 1, ww.len() as int));
                }
                if let Some(digits) = strip_mhz(words[j].as_slice()) {
                    if let Some(v) = parse_u64(digits.as_slice()) {
                        proof {
                            assert(spec_dpm_words(ww) == Some(v));
                            let suffix = ll.subrange(i as int, ll.len() as int);
                            assert(suffix[0] == ll[i as int]);
                            assert(spec_dpm_clock(suffix) == Some(v));
                        }
                        return Some(v);
                    }
                }
                j = j + 1;
            }
            proof {
                assert(ww.subrange(ww.len() as int, ww.len() as int) =~= Seq::<Seq<u8>>::empty());
            }
        }
        i = i + 1;
    }
    proof {
        assert(ll.subrange(ll.len() as int, ll.len() as int) =~= Seq::<Seq<u8>>::empty());
    }
    None
}

/// Assemble an AMD GPU snapshot from raw sysfs register values: busy
/// percent, power in microwatts, temperature in millidegrees, VRAM byte
/// counts, fan speed, and the clocks parsed from the power-level tables.
/// An rpm-only fan sensor reads as a zero percentage, marking presence.
pub fn build_amd_gpu_metrics(
    name: String,
    usage_percent: Option<u64>,
    power_uw: Option<u64>,
    temperature_mc: Option<u64>,
    fan_rpm: Option<u64>,
    vram_used_bytes: Option<u64>,
    vram_total_bytes: Option<u64>,
    clock_mhz: Option<u64>,
    memory_clock_mhz: Option<u64>,
) -> (r: GpuMetrics)
    requires
        usage_percent matches Some(u) ==> u <= 100,
    ensures
        r.name == name,
        r.usage_pm == (match usage_percent {
            Some(u) => Some((u * 10) as u64),
            None => None::<u64>,
        }),
        r.power_mw == (match power_uw {
            Some(p) => Some((p / 1000) as u64),
            None => None::<u64>,
        }),
        r.temperature_mc == temperature_mc,
        r.vram_used_mb == (match vram_used_bytes {
            Some(b) => Some((b / 1_048_576) as u64),
            None => None::<u64>,
        }),
        r.vram_total_mb == (match vram_total_bytes {
            Some(b) => Some((b / 1_048_576) as u64),
            None => None::<u64>,
        }),
        r.clock_mhz == clock_mhz,
        r.memory_clock_mhz == memory_clock_mhz,
        r.fan_speed_percent == (match fan_rpm {
            Some(_) => Some(0u64),
            None => None::<u64>,
        }),
        r.source@ == "amdgpu-sysfs"@,
{
    GpuMetrics {
        name,
        usage_pm: match usage_percent {
            Some(u) => Some(u * 10),
            None => None,
        },
        power_mw: match power_uw {
            Some(p) => Some(p / 1000),
            None => None,
        },
        temperature_mc,
        vram_used_mb: match vram_used_bytes {
            Some(b) => Some(b / 1_048_576),
            None => None,
        },
        vram_total_mb: match vram_total_bytes {
            Some(b) => Some(b / 1_048_576),
            None => None,
        },
        clock_mhz,
        source: "amdgpu-sysfs".to_owned(),
        memory_clock_mhz,
        fan_speed_percent: match fan_rpm {
            Some(_) => Some(0),
            None => None,
        },
    }
}

/// Parse the nvidia-smi power CSV line (power W, name): the power draw in
/// milliwatts and the GPU model name.
pub fn parse_nvidia_csv_power(line: &str) -> (r: Option<(u64, String)>)
    ensures
        r is Some <==> line.is_ascii() && spec_split(line.spec_bytes(), 44).len() >= 2
            && spec_field_milli(spec_split(line.spec_bytes(), 44), 0) is Some,
        match r {
            Some(p) => {
                let fields = spec_split(line.spec_bytes(), 44);
                &&& Some(p.0) == spec_field_milli(fields, 0)
                &&& spec_ascii_match(p.1@, spec_trim(fields[1]))
            },
            None => true,
        },
{
    if !line.is_ascii() {
        return None;
    }
    let bytes = line.as_bytes_vec();
    let fields = split_bytes(bytes.as_slice(), 44);
    if fields.len() < 2 {
        return None;
    }
    let power_mw = match field_milli(&fields, 0) {
        Some(v) => v,
        None => {
            return None;
        },
    };
    let name = second_field_trimmed(line);
    Some((power_mw, name))
}

} // verus!
