//! Per-process metrics: aggregation by process name, pinning, and top-N
//! selection by a combined usage score.

use std::collections::HashMap;
use vstd::multiset::Multiset;
use vstd::prelude::*;
use crate::pricing::spec_str_bytes;
use crate::text::{spec_lower, to_lower};
use crate::types::ProcessMetrics;

verus! {

broadcast use {
    vstd::multiset::group_multiset_axioms,
    vstd::seq_lib::group_to_multiset_ensures,
    vstd::std_specs::hash::group_hash_axioms,
};

/// One raw process sample from the platform edge.
#[derive(Debug, Clone)]
pub struct ProcessRow {
    pub pid: u32,
    pub name: String,
    /// CPU load attributed to the process, per-mille.
    pub cpu_pm: u64,
    pub memory_bytes: u64,
}

/// Case-insensitive name equality, on the ASCII reading of the UTF-8 bytes.
pub open spec fn spec_name_eq_ci(a: Seq<char>, b: Seq<char>) -> bool {
    spec_lower(spec_str_bytes(a)) == spec_lower(spec_str_bytes(b))
}

/// Case-insensitive string comparison.
pub fn eq_ignore_case(a: &str, b: &str) -> (r: bool)
    ensures
        r == spec_name_eq_ci(a@, b@),
{
    let la = to_lower(a.as_bytes());
    let lb = to_lower(b.as_bytes());
    if la.len() != lb.len() {
        return false;
    }
    let mut i: usize = 0;
    while i < la.len()
        invariant
            la@.len() == lb@.len(),
            la@ == spec_lower(spec_str_bytes(a@)),
            lb@ == spec_lower(spec_str_bytes(b@)),
            0 <= i <= la@.len(),
            forall|k: int| 0 <= k < i ==> la@[k] == lb@[k],
        decreases la@.len() - i,
    {
        if la[i] != lb[i] {
            return false;
        }
        i = i + 1;
    }
    proof {
        assert(la@ =~= lb@);
    }
    true
}

/// Some entry of the list carries this name, up to case.
pub open spec fn spec_name_covered(name: Seq<char>, s: Seq<ProcessMetrics>) -> bool {
    exists|i: int| 0 <= i < s.len() && spec_name_eq_ci(name, s[i].name@)
}

/// Some sample of the list carries this name, up to case.
pub open spec fn spec_name_from_rows(name: Seq<char>, rows: Seq<ProcessRow>) -> bool {
    exists|k: int| 0 <= k < rows.len() && spec_name_eq_ci(name, rows[k].name@)
}

/// A name is pinned when it matches one of the pinned names, ignoring case.
pub open spec fn spec_is_pinned(name: Seq<char>, pinned: Seq<String>) -> bool {
    exists|i: int| 0 <= i < pinned.len() && spec_name_eq_ci(name, pinned[i]@)
}

/// Whether a process name is in the pinned list.
pub fn is_pinned_name(name: &String, pinned: &Vec<String>) -> (r: bool)
    ensures
        r == spec_is_pinned(name@, pinned@),
{
    let mut i: usize = 0;
    while i < pinned.len()
        invariant
            0 <= i <= pinned@.len(),
            forall|k: int| 0 <= k < i ==> !spec_name_eq_ci(name@, pinned@[k]@),
        decreases pinned@.len() - i,
    {
        if eq_ignore_case(name.as_str(), pinned[i].as_str()) {
            return true;
        }
        i = i + 1;
    }
    false
}

/// Combined usage score, in milli-points: 40% CPU, 40% GPU, 20% memory. The
/// weights are calibration constants preserved exactly.
pub open spec fn spec_score_milli(p: ProcessMetrics) -> int {
    p.cpu_pm * 400 + (match p.gpu_pm {
        Some(g) => g as int,
        None => 0,
    }) * 400 + p.memory_pm * 200
}

/// Executable usage score.
pub fn score_milli(p: &ProcessMetrics) -> (r: u64)
    requires
        p.cpu_pm <= 1000,
        p.memory_pm <= 1000,
        p.gpu_pm matches Some(g) ==> g <= 1000,
    ensures
        r == spec_score_milli(*p),
{
    let gpu: u64 = match p.gpu_pm {
        Some(g) => g,
        None => 0,
    };
    p.cpu_pm * 400 + gpu * 400 + p.memory_pm * 200
}

/// A per-mille value clamped to 100%.
pub open spec fn spec_clamp_pm(x: int) -> int {
    if x > 1000 {
        1000
    } else {
        x
    }
}

/// A byte count saturated at the 64-bit range.
pub open spec fn spec_sat_u64(x: int) -> int {
    if x > u64::MAX {
        u64::MAX as int
    } else {
        x
    }
}

/// One sample's memory share: its bytes against the total, clamped.
pub open spec fn spec_row_mem_pm(row: ProcessRow, total_memory: u64) -> int {
    spec_clamp_pm(row.memory_bytes * 1000 / total_memory as int)
}

/// One sample's GPU share from the reconciled share map, clamped; absent
/// when the map carries nothing for its pid.
pub open spec fn spec_row_gpu_pm(row: ProcessRow, share: Map<u32, u64>) -> Option<int> {
    if share.contains_key(row.pid) {
        Some(spec_clamp_pm(share[row.pid] as int))
    } else {
        None
    }
}

/// Merge one sample's GPU share into an accumulated one: shares add and
/// clamp; an absent side passes the other through.
pub open spec fn spec_merge_gpu(prev: Option<int>, row: Option<int>) -> Option<int> {
    match (prev, row) {
        (Some(a), Some(b)) => Some(spec_clamp_pm(a + b)),
        (Some(a), None) => Some(a),
        (None, Some(b)) => Some(b),
        (None, None) => None,
    }
}

/// The accumulated totals of one process name over a list of samples.
pub struct AggSums {
    /// Whether any sample carries the name.
    pub seen: bool,
    /// The first matching sample's pid.
    pub pid: u32,
    pub cpu_pm: int,
    pub memory_pm: int,
    pub memory_bytes: int,
    pub gpu_pm: Option<int>,
}

/// Fold the samples in order, accumulating the totals of every sample whose
/// name matches `name` (up to case): CPU and memory shares sum and clamp at
/// 100% at each step, byte counts saturate, GPU shares merge, and the first
/// matching sample fixes the pid.
pub open spec fn spec_agg_sums(
    rows: Seq<ProcessRow>,
    total_memory: u64,
    share: Map<u32, u64>,
    name: Seq<char>,
) -> AggSums
    decreases rows.len(),
{
    if rows.len() == 0 {
        AggSums { seen: false, pid: 0, cpu_pm: 0, memory_pm: 0, memory_bytes: 0, gpu_pm: None }
    } else {
        let prev = spec_agg_sums(rows.drop_last(), total_memory, share, name);
        let row = rows.last();
        if spec_name_eq_ci(row.name@, name) {
            AggSums {
                seen: true,
                pid: if prev.seen {
                    prev.pid
                } else {
                    row.pid
                },
                cpu_pm: spec_clamp_pm(prev.cpu_pm + row.cpu_pm),
                memory_pm: spec_clamp_pm(prev.memory_pm + spec_row_mem_pm(row, total_memory)),
                memory_bytes: spec_sat_u64(prev.memory_bytes + row.memory_bytes),
                gpu_pm: spec_merge_gpu(prev.gpu_pm, spec_row_gpu_pm(row, share)),
            }
        } else {
            prev
        }
    }
}

/// A per-mille option widened to its mathematical reading.
pub open spec fn spec_opt_pm(o: Option<u64>) -> Option<int> {
    match o {
        Some(v) => Some(v as int),
        None => None,
    }
}

/// An entry's fields are exactly the accumulated totals of its name.
pub open spec fn spec_entry_is_agg(
    entry: ProcessMetrics,
    rows: Seq<ProcessRow>,
    total_memory: u64,
    share: Map<u32, u64>,
) -> bool {
    let a = spec_agg_sums(rows, total_memory, share, entry.name@);
    &&& a.seen
    &&& entry.pid == a.pid
    &&& entry.cpu_pm == a.cpu_pm
    &&& entry.memory_pm == a.memory_pm
    &&& entry.memory_bytes == a.memory_bytes
    &&& spec_opt_pm(entry.gpu_pm) == a.gpu_pm
}

/// Unfolding one fold step: the totals over `k+1` samples extend the totals
/// over `k` samples by the k-th sample exactly when its name matches.
proof fn lemma_agg_sums_step(
    rows: Seq<ProcessRow>,
    k: int,
    total_memory: u64,
    share: Map<u32, u64>,
    name: Seq<char>,
)
    requires
        0 <= k < rows.len(),
    ensures
        spec_agg_sums(rows.subrange(0, k + 1), total_memory, share, name) == ({
            let prev = spec_agg_sums(rows.subrange(0, k), total_memory, share, name);
            let row = rows[k];
            if spec_name_eq_ci(row.name@, name) {
                AggSums {
                    seen: true,
                    pid: if prev.seen {
                        prev.pid
                    } else {
                        row.pid
                    },
                    cpu_pm: spec_clamp_pm(prev.cpu_pm + row.cpu_pm),
                    memory_pm: spec_clamp_pm(
                        prev.memory_pm + spec_row_mem_pm(row, total_memory),
                    ),
                    memory_bytes: spec_sat_u64(prev.memory_bytes + row.memory_bytes),
                    gpu_pm: spec_merge_gpu(prev.gpu_pm, spec_row_gpu_pm(row, share)),
                }
            } else {
                prev
            }
        }),
{
    assert(rows.subrange(0, k + 1).drop_last() =~= rows.subrange(0, k));
    assert(rows.subrange(0, k + 1).last() == rows[k]);
}

/// An entry of another name keeps its totals across one more sample.
proof fn lemma_agg_entry_preserved(
    rows: Seq<ProcessRow>,
    k: int,
    total_memory: u64,
    share: Map<u32, u64>,
    entry: ProcessMetrics,
)
    requires
        0 <= k < rows.len(),
        spec_entry_is_agg(entry, rows.subrange(0, k), total_memory, share),
        !spec_name_eq_ci(rows[k].name@, entry.name@),
    ensures
        spec_entry_is_agg(entry, rows.subrange(0, k + 1), total_memory, share),
{
    lemma_agg_sums_step(rows, k, total_memory, share, entry.name@);
}

/// Merging one matching sample into an entry yields the totals over one more
/// sample.
proof fn lemma_agg_entry_merged(
    rows: Seq<ProcessRow>,
    k: int,
    total_memory: u64,
    share: Map<u32, u64>,
    old_entry: ProcessMetrics,
    new_entry: ProcessMetrics,
)
    requires
        0 <= k < rows.len(),
        spec_entry_is_agg(old_entry, rows.subrange(0, k), total_memory, share),
        spec_name_eq_ci(rows[k].name@, old_entry.name@),
        new_entry.name@ == old_entry.name@,
        new_entry.pid == old_entry.pid,
        new_entry.cpu_pm == spec_clamp_pm(old_entry.cpu_pm + rows[k].cpu_pm),
        new_entry.memory_pm == spec_clamp_pm(
            old_entry.memory_pm + spec_row_mem_pm(rows[k], total_memory),
        ),
        new_entry.memory_bytes == spec_sat_u64(old_entry.memory_bytes + rows[k].memory_bytes),
        spec_opt_pm(new_entry.gpu_pm) == spec_merge_gpu(
            spec_opt_pm(old_entry.gpu_pm),
            spec_row_gpu_pm(rows[k], share),
        ),
    ensures
        spec_entry_is_agg(new_entry, rows.subrange(0, k + 1), total_memory, share),
{
    lemma_agg_sums_step(rows, k, total_memory, share, old_entry.name@);
}

/// A first sample of a fresh name yields that sample's own totals.
proof fn lemma_agg_entry_new(
    rows: Seq<ProcessRow>,
    k: int,
    total_memory: u64,
    share: Map<u32, u64>,
    entry: ProcessMetrics,
)
    requires
        0 <= k < rows.len(),
        entry.name@ == rows[k].name@,
        forall|j: int|
            0 <= j < k ==> !spec_name_eq_ci((#[trigger] rows[j]).name@, rows[k].name@),
        entry.pid == rows[k].pid,
        entry.cpu_pm == spec_clamp_pm(rows[k].cpu_pm as int),
        entry.memory_pm == spec_row_mem_pm(rows[k], total_memory),
        entry.memory_bytes == rows[k].memory_bytes,
        spec_opt_pm(entry.gpu_pm) == spec_row_gpu_pm(rows[k], share),
    ensures
        spec_entry_is_agg(entry, rows.subrange(0, k + 1), total_memory, share),
{
    assert(forall|j: int|
        0 <= j < rows.subrange(0, k).len() ==> !spec_name_eq_ci(
            (#[trigger] rows.subrange(0, k)[j]).name@,
            entry.name@,
        ));
    lemma_agg_sums_no_match(rows.subrange(0, k), total_memory, share, entry.name@);
    lemma_agg_sums_step(rows, k, total_memory, share, entry.name@);
    assert(spec_row_mem_pm(rows[k], total_memory) <= 1000);
}

/// A fold over samples none of which carries the name accumulates nothing.
proof fn lemma_agg_sums_no_match(
    rows: Seq<ProcessRow>,
    total_memory: u64,
    share: Map<u32, u64>,
    name: Seq<char>,
)
    requires
        forall|j: int| 0 <= j < rows.len() ==> !spec_name_eq_ci((#[trigger] rows[j]).name@, name),
    ensures
        spec_agg_sums(rows, total_memory, share, name) == (AggSums {
            seen: false,
            pid: 0,
            cpu_pm: 0,
            memory_pm: 0,
            memory_bytes: 0,
            gpu_pm: None,
        }),
    decreases rows.len(),
{
    if rows.len() > 0 {
        lemma_agg_sums_no_match(rows.drop_last(), total_memory, share, name);
    }
}

/// Every percentage of the entry is clamped into the per-mille range.
pub open spec fn spec_pm_clamped(p: ProcessMetrics) -> bool {
    &&& p.cpu_pm <= 1000
    &&& p.memory_pm <= 1000
    &&& match p.gpu_pm {
        Some(g) => g <= 1000,
        None => true,
    }
}

/// Aggregate raw process samples by process name: same-named processes are
/// summed into one entry (keeping the first pid seen), percentages are
/// clamped to 100%, the GPU share comes from the reconciled share map, and
/// an entry is pinned when its name is on the pinned list.
///
/// Names compare case-insensitively, matching the pinning rule, and the
/// 100% clamp applies uniformly on every platform.
#[verifier::rlimit(100)]
pub fn aggregate_process_rows(
    rows: &Vec<ProcessRow>,
    total_memory: u64,
    gpu_share: &HashMap<u32, u64>,
    pinned: &Vec<String>,
) -> (r: Vec<ProcessMetrics>)
    requires
        total_memory > 0,
    ensures
        r@.len() <= rows@.len(),
        // Names are unique after aggregation.
        forall|i: int, j: int|
            0 <= i < j < r@.len() ==> !spec_name_eq_ci(r@[i].name@, r@[j].name@),
        // Every entry is clamped and its pinned flag follows the list.
        forall|i: int| 0 <= i < r@.len() ==> spec_pm_clamped(#[trigger] r@[i]),
        forall|i: int|
            0 <= i < r@.len() ==> (#[trigger] r@[i]).is_pinned == spec_is_pinned(
                r@[i].name@,
                pinned@,
            ),
        // No sample is dropped and no entry is invented: the output names
        // are exactly the input names, up to case.
        forall|k: int|
            0 <= k < rows@.len() ==> spec_name_covered((#[trigger] rows@[k]).name@, r@),
        forall|i: int|
            0 <= i < r@.len() ==> spec_name_from_rows((#[trigger] r@[i]).name@, rows@),
        // Each entry's values are exactly the accumulated totals of its name
        // over the samples, in sample order.
        forall|i: int|
            0 <= i < r@.len() ==> spec_entry_is_agg(
                #[trigger] r@[i],
                rows@,
                total_memory,
                gpu_share@,
            ),
    {
    let mut agg: Vec<ProcessMetrics> = Vec::new();
    let mut k: usize = 0;
    while k < rows.len()
        invariant
            0 <= k <= rows@.len(),
            agg@.len() <= k,
            total_memory > 0,
            forall|i: int, j: int|
                0 <= i < j < agg@.len() ==> !spec_name_eq_ci(agg@[i].name@, agg@[j].name@),
            forall|i: int|
                0 <= i < agg@.len() ==> (#[trigger] agg@[i]).is_pinned == spec_is_pinned(
                    agg@[i].name@,
                    pinned@,
                ),
            forall|i: int| 0 <= i < agg@.len() ==> spec_pm_clamped(#[trigger] agg@[i]),
            forall|m: int| 0 <= m < k ==> spec_name_covered((#[trigger] rows@[m]).name@, agg@),
            forall|i: int|
                0 <= i < agg@.len() ==> spec_name_from_rows((#[trigger] agg@[i]).name@, rows@),
            forall|i: int|
                0 <= i < agg@.len() ==> spec_entry_is_agg(
                    #[trigger] agg@[i],
                    rows@.subrange(0, k as int),
                    total_memory,
                    gpu_share@,
                ),
        decreases rows@.len() - k,
    {
        let row = &rows[k];
        // Memory share of this sample, raw (clamped at the end).
        let mem_wide: u128 = (row.memory_bytes as u128) * 1000 / (total_memory as u128);
        let mem_pm_row: u64 = if mem_wide > 1000 {
            1000
        } else {
            mem_wide as u64
        };
        let gpu_row: Option<u64> = match gpu_share.get(&row.pid) {
            Some(g) => Some(if *g > 1000 {
                1000
            } else {
                *g
            }),
            None => None,
        };
        let ghost prefix = rows@.subrange(0, k as int);
        let ghost prefix1 = rows@.subrange(0, k + 1);
        proof {
            assert(prefix1.drop_last() =~= prefix);
            assert(prefix1.last() == rows@[k as int]);
            assert(mem_pm_row == spec_row_mem_pm(rows@[k as int], total_memory));
            assert(spec_opt_pm(gpu_row) == spec_row_gpu_pm(rows@[k as int], gpu_share@));
        }
        // Find an existing entry with the same name.
        let mut found: Option<usize> = None;
        let mut t: usize = 0;
        while t < agg.len()
            invariant
                0 <= t <= agg@.len(),
                match found {
                    Some(f) => f < t && spec_name_eq_ci(agg@[f as int].name@, row.name@),
                    None => forall|m: int|
                        0 <= m < t ==> !spec_name_eq_ci(agg@[m].name@, row.name@),
                },
            decreases agg@.len() - t,
        {
            if found.is_none() && eq_ignore_case(agg[t].name.as_str(), row.name.as_str()) {
                found = Some(t);
            }
            t = t + 1;
        }
        match found {
            Some(f) => {
                let entry = &agg[f];
                let cpu_sum = saturating_add_u64(entry.cpu_pm, row.cpu_pm);
                let mem_sum = saturating_add_u64(entry.memory_pm, mem_pm_row);
                let gpu_sum: Option<u64> = match (entry.gpu_pm, gpu_row) {
                    (Some(a), Some(b)) => Some(saturating_add_u64(a, b)),
                    (Some(a), None) => Some(a),
                    (None, Some(b)) => Some(b),
                    (None, None) => None,
                };
                let updated = ProcessMetrics {
                    pid: entry.pid,
                    name: entry.name.clone(),
                    cpu_pm: clamp_pm(cpu_sum),
                    memory_bytes: saturating_add_u64(entry.memory_bytes, row.memory_bytes),
                    memory_pm: clamp_pm(mem_sum),
                    gpu_pm: match gpu_sum {
                        Some(g) => Some(clamp_pm(g)),
                        None => None,
                    },
                    is_pinned: entry.is_pinned,
                };
                let ghost pre = agg@;
                proof {
                    assert(updated.name@ == pre[f as int].name@);
                }
                agg.set(f, updated);
                proof {
                    assert(agg@ =~= pre.update(f as int, updated));
                    assert(forall|i: int| 0 <= i < agg@.len() && i != f ==> agg@[i] == pre[i]);
                    assert(agg@[f as int] == updated);
                    assert(spec_name_eq_ci(rows@[k as int].name@, agg@[f as int].name@));
                    assert(forall|i: int|
                        0 <= i < agg@.len() ==> agg@[i].name@ == pre[i].name@);
                    // The matched entry accumulates this sample...
                    assert(updated.cpu_pm == spec_clamp_pm(
                        pre[f as int].cpu_pm + rows@[k as int].cpu_pm,
                    ));
                    assert(updated.memory_pm == spec_clamp_pm(
                        pre[f as int].memory_pm + spec_row_mem_pm(rows@[k as int], total_memory),
                    ));
                    assert(updated.memory_bytes == spec_sat_u64(
                        pre[f as int].memory_bytes + rows@[k as int].memory_bytes,
                    ));
                    assert(spec_opt_pm(updated.gpu_pm) == spec_merge_gpu(
                        spec_opt_pm(pre[f as int].gpu_pm),
                        spec_row_gpu_pm(rows@[k as int], gpu_share@),
                    ));
                    lemma_agg_entry_merged(
                        rows@,
                        k as int,
                        total_memory,
                        gpu_share@,
                        pre[f as int],
                        updated,
                    );
                    // ...and every other entry's totals are untouched by a
                    // sample of another name.
                    assert forall|i: int| 0 <= i < agg@.len() implies spec_entry_is_agg(
                        #[trigger] agg@[i],
                        prefix1,
                        total_memory,
                        gpu_share@,
                    ) by {
                        if i != f {
                            assert(agg@[i] == pre[i]);
                            // A second match would contradict name uniqueness.
                            assert(!spec_name_eq_ci(rows@[k as int].name@, pre[i].name@)) by {
                                if spec_name_eq_ci(rows@[k as int].name@, pre[i].name@) {
                                    assert(spec_name_eq_ci(
                                        pre[f as int].name@,
                                        pre[i].name@,
                                    ));
                                    if i < f {
                                        assert(!spec_name_eq_ci(
                                            pre[i].name@,
                                            pre[f as int].name@,
                                        ));
                                    }
                                }
                            }
                            lemma_agg_entry_preserved(
                                rows@,
                                k as int,
                                total_memory,
                                gpu_share@,
                                pre[i],
                            );
                        }
                    }
                    assert forall|m: int| 0 <= m < k + 1 implies spec_name_covered(
                        (#[trigger] rows@[m]).name@,
                        agg@,
                    ) by {
                        if m < k {
                            let i = choose|i: int|
                                0 <= i < pre.len() && spec_name_eq_ci(
                                    rows@[m].name@,
                                    pre[i].name@,
                                );
                            assert(agg@[i].name@ == pre[i].name@);
                            assert(spec_name_eq_ci(rows@[m].name@, agg@[i].name@));
                        } else {
                            assert(spec_name_eq_ci(rows@[m].name@, agg@[f as int].name@));
                        }
                    }
                    assert forall|i: int| 0 <= i < agg@.len() implies spec_name_from_rows(
                        (#[trigger] agg@[i]).name@,
                        rows@,
                    ) by {
                        assert(agg@[i].name@ == pre[i].name@);
                    }
                }
            },
            None => {
                let pinned_flag = is_pinned_name(&row.name, pinned);
                let ghost pre = agg@;
                agg.push(
                    ProcessMetrics {
                        pid: row.pid,
                        name: row.name.clone(),
                        cpu_pm: clamp_pm(row.cpu_pm),
                        memory_bytes: row.memory_bytes,
                        memory_pm: mem_pm_row,
                        gpu_pm: gpu_row,
                        is_pinned: pinned_flag,
                    },
                );
                proof {
                    assert(agg@ =~= pre.push(agg@.last()));
                    let new_eq = spec_name_eq_ci(rows@[k as int].name@, agg@[agg@.len() - 1].name@);
                    assert(new_eq);
                    // No processed sample carries this name: if one did, its
                    // aggregated entry would have matched the search.
                    assert forall|m: int| 0 <= m < prefix.len() implies !spec_name_eq_ci(
                        (#[trigger] prefix[m]).name@,
                        rows@[k as int].name@,
                    ) by {
                        if spec_name_eq_ci(prefix[m].name@, rows@[k as int].name@) {
                            assert(spec_name_covered(rows@[m].name@, pre));
                            let i = choose|i: int|
                                0 <= i < pre.len() && spec_name_eq_ci(
                                    rows@[m].name@,
                                    pre[i].name@,
                                );
                            assert(spec_name_eq_ci(pre[i].name@, rows@[k as int].name@));
                            assert(false);
                        }
                    }
                    // The new entry holds exactly this sample's totals...
                    let pushed = agg@[agg@.len() - 1];
                    assert(pushed.name@ == rows@[k as int].name@);
                    assert(pushed.cpu_pm == spec_clamp_pm(rows@[k as int].cpu_pm as int));
                    assert(pushed.memory_pm == spec_row_mem_pm(rows@[k as int], total_memory));
                    assert(pushed.memory_bytes == rows@[k as int].memory_bytes);
                    assert(spec_opt_pm(pushed.gpu_pm) == spec_row_gpu_pm(
                        rows@[k as int],
                        gpu_share@,
                    ));
                    lemma_agg_entry_new(rows@, k as int, total_memory, gpu_share@, pushed);
                    // ...and every earlier entry's totals are untouched.
                    assert forall|i: int| 0 <= i < agg@.len() implies spec_entry_is_agg(
                        #[trigger] agg@[i],
                        prefix1,
                        total_memory,
                        gpu_share@,
                    ) by {
                        if i < agg@.len() - 1 {
                            assert(agg@[i] == pre[i]);
                            assert(!spec_name_eq_ci(rows@[k as int].name@, pre[i].name@));
                            lemma_agg_entry_preserved(
                                rows@,
                                k as int,
                                total_memory,
                                gpu_share@,
                                pre[i],
                            );
                        }
                    }
                    assert forall|m: int| 0 <= m < k + 1 implies spec_name_covered(
                        (#[trigger] rows@[m]).name@,
                        agg@,
                    ) by {
                        if m < k {
                            let i = choose|i: int|
                                0 <= i < pre.len() && spec_name_eq_ci(
                                    rows@[m].name@,
                                    pre[i].name@,
                                );
                            assert(agg@[i].name@ == pre[i].name@);
                            assert(spec_name_eq_ci(rows@[m].name@, agg@[i].name@));
                        } else {
                            assert(spec_name_eq_ci(
                                rows@[m].name@,
                                agg@[agg@.len() - 1].name@,
                            ));
                        }
                    }
                    assert forall|i: int| 0 <= i < agg@.len() implies spec_name_from_rows(
                        (#[trigger] agg@[i]).name@,
                        rows@,
                    ) by {
                        if i < agg@.len() - 1 {
                            assert(agg@[i].name@ == pre[i].name@);
                        } else {
                            assert(spec_name_eq_ci(agg@[i].name@, rows@[k as int].name@))
                                by {
                                lemma_name_eq_symmetric(rows@[k as int].name@, agg@[i].name@);
                            }
                        }
                    }
                }
            },
        }
        k = k + 1;
    }
    proof {
        assert(rows@.subrange(0, k as int) =~= rows@);
    }
    agg
}

/// Case-insensitive name equality is symmetric.
proof fn lemma_name_eq_symmetric(a: Seq<char>, b: Seq<char>)
    requires
        spec_name_eq_ci(a, b),
    ensures
        spec_name_eq_ci(b, a),
{
}

/// Saturating addition.
fn saturating_add_u64(a: u64, b: u64) -> (r: u64)
    ensures
        r == if a + b <= u64::MAX {
            a + b
        } else {
            u64::MAX as int
        },
{
    if a <= u64::MAX - b {
        a + b
    } else {
        u64::MAX
    }
}

/// Clamp a per-mille value to 1000 (100%).
fn clamp_pm(v: u64) -> (r: u64)
    ensures
        r == if v > 1000 {
            1000int
        } else {
            v as int
        },
        r <= 1000,
{
    if v > 1000 {
        1000
    } else {
        v
    }
}

/// Number of pinned entries.
pub open spec fn spec_count_pinned(s: Seq<ProcessMetrics>) -> int
    decreases s.len(),
{
    if s.len() == 0 {
        0
    } else {
        spec_count_pinned(s.drop_last()) + if s.last().is_pinned {
            1int
        } else {
            0int
        }
    }
}

proof fn lemma_count_pinned_bounds(s: Seq<ProcessMetrics>)
    ensures
        0 <= spec_count_pinned(s) <= s.len(),
    decreases s.len(),
{
    if s.len() > 0 {
        lemma_count_pinned_bounds(s.drop_last());
    }
}

proof fn lemma_count_pinned_append(a: Seq<ProcessMetrics>, b: Seq<ProcessMetrics>)
    ensures
        spec_count_pinned(a + b) == spec_count_pinned(a) + spec_count_pinned(b),
    decreases b.len(),
{
    if b.len() == 0 {
        assert(a + b =~= a);
    } else {
        lemma_count_pinned_append(a, b.drop_last());
        assert((a + b).drop_last() =~= a + b.drop_last());
    }
}

/// All-pinned sequences count their length; unpinned count zero.
proof fn lemma_count_pinned_uniform(s: Seq<ProcessMetrics>, flag: bool)
    requires
        forall|i: int| 0 <= i < s.len() ==> (#[trigger] s[i]).is_pinned == flag,
    ensures
        spec_count_pinned(s) == if flag {
            s.len() as int
        } else {
            0int
        },
    decreases s.len(),
{
    if s.len() > 0 {
        lemma_count_pinned_uniform(s.drop_last(), flag);
    }
}

/// Non-increasing usage score.
pub open spec fn spec_sorted_desc(s: Seq<ProcessMetrics>) -> bool {
    forall|i: int, j: int|
        0 <= i < j < s.len() ==> spec_score_milli(#[trigger] s[i]) >= spec_score_milli(
            #[trigger] s[j],
        )
}

/// Sort entries by usage score, highest first.
fn sort_by_score_desc(input: Vec<ProcessMetrics>) -> (r: Vec<ProcessMetrics>)
    requires
        forall|i: int| 0 <= i < input@.len() ==> spec_pm_clamped(#[trigger] input@[i]),
    ensures
        spec_sorted_desc(r@),
        r@.to_multiset() == input@.to_multiset(),
        r@.len() == input@.len(),
        forall|i: int| 0 <= i < r@.len() ==> input@.contains(#[trigger] r@[i]),
{
    let ghost total = input@.to_multiset();
    let mut rest = input;
    let mut out: Vec<ProcessMetrics> = Vec::new();
    while rest.len() > 0
        invariant
            spec_sorted_desc(out@),
            forall|i: int| 0 <= i < rest@.len() ==> spec_pm_clamped(#[trigger] rest@[i]),
            forall|oi: int, ri: int|
                0 <= oi < out@.len() && 0 <= ri < rest@.len() ==> spec_score_milli(out@[oi])
                    >= spec_score_milli(rest@[ri]),
            out@.to_multiset().add(rest@.to_multiset()) =~= total,
        decreases rest@.len(),
    {
        let mut m: usize = 0;
        let mut best = score_milli(&rest[0]);
        let mut k: usize = 1;
        while k < rest.len()
            invariant
                rest@.len() > 0,
                0 <= m < rest@.len(),
                1 <= k <= rest@.len(),
                forall|i: int| 0 <= i < rest@.len() ==> spec_pm_clamped(#[trigger] rest@[i]),
                best == spec_score_milli(rest@[m as int]),
                forall|t: int| 0 <= t < k ==> best >= spec_score_milli(#[trigger] rest@[t]),
            decreases rest@.len() - k,
        {
            let sc = score_milli(&rest[k]);
            if sc > best {
                m = k;
                best = sc;
            }
            k = k + 1;
        }
        let ghost old_rest = rest@;
        let ghost old_out = out@;
        let x = rest.remove(m);
        proof {
            assert(rest@ =~= old_rest.remove(m as int));
            assert(rest@.to_multiset() =~= old_rest.to_multiset().remove(x));
            assert(forall|ri: int|
                0 <= ri < rest@.len() ==> rest@[ri] == (if ri < m {
                    old_rest[ri]
                } else {
                    old_rest[ri + 1]
                }));
        }
        out.push(x);
        proof {
            assert(out@ =~= old_out.push(x));
            assert(out@.to_multiset() =~= old_out.to_multiset().insert(x));
            assert(old_rest.to_multiset().count(x) > 0) by {
                assert(old_rest.contains(x));
            }
            assert(out@.to_multiset().add(rest@.to_multiset()) =~= total);
            assert(spec_sorted_desc(out@));
        }
    }
    proof {
        assert(rest@.to_multiset() =~= Multiset::<ProcessMetrics>::empty()) by {
            assert(rest@ =~= Seq::<ProcessMetrics>::empty());
        }
        assert(out@.to_multiset() =~= total);
        assert(out@.len() == out@.to_multiset().len());
        assert(input@.len() == total.len());
        assert forall|i: int| 0 <= i < out@.len() implies input@.contains(#[trigger] out@[i]) by {
            assert(out@.contains(out@[i]));
            assert(out@.to_multiset().count(out@[i]) > 0);
            assert(input@.to_multiset().count(out@[i]) > 0);
        }
    }
    out
}

/// Top processes with pinned processes prioritized: every pinned entry comes
/// first, then the highest-scoring others up to the remaining slots; both
/// sections are ordered by descending usage score.
#[verifier::loop_isolation(false)]
pub fn top_processes_with_pinned(aggregated: Vec<ProcessMetrics>, limit: usize) -> (r: Vec<
    ProcessMetrics,
>)
    requires
        forall|i: int| 0 <= i < aggregated@.len() ==> spec_pm_clamped(#[trigger] aggregated@[i]),
    ensures
        // Every returned entry is one of the aggregated entries.
        r@.to_multiset().subset_of(aggregated@.to_multiset()),
        // Pinned entries form a prefix, and all of them are kept.
        forall|i: int, j: int|
            0 <= i < j < r@.len() && (#[trigger] r@[j]).is_pinned ==> (#[trigger] r@[i]).is_pinned,
        spec_count_pinned(r@) == spec_count_pinned(aggregated@),
        // Scores fall within each section.
        forall|i: int, j: int|
            0 <= i < j < r@.len() && (#[trigger] r@[i]).is_pinned == (#[trigger] r@[j]).is_pinned
                ==> spec_score_milli(r@[i]) >= spec_score_milli(r@[j]),
        // All pinned entries, then at most `limit - pinned` others.
        r@.len() == spec_count_pinned(aggregated@) + (if aggregated@.len() - spec_count_pinned(
            aggregated@,
        ) <= (if limit >= spec_count_pinned(aggregated@) {
            limit - spec_count_pinned(aggregated@)
        } else {
            0int
        }) {
            aggregated@.len() - spec_count_pinned(aggregated@)
        } else {
            if limit >= spec_count_pinned(aggregated@) {
                limit - spec_count_pinned(aggregated@)
            } else {
                0int
            }
        }),
{
    let ghost total = aggregated@.to_multiset();
    let mut rest = aggregated;
    let mut pinned: Vec<ProcessMetrics> = Vec::new();
    let mut others: Vec<ProcessMetrics> = Vec::new();
    while rest.len() > 0
        invariant
            forall|i: int| 0 <= i < rest@.len() ==> spec_pm_clamped(#[trigger] rest@[i]),
            forall|i: int| 0 <= i < pinned@.len() ==> spec_pm_clamped(#[trigger] pinned@[i]),
            forall|i: int| 0 <= i < others@.len() ==> spec_pm_clamped(#[trigger] others@[i]),
            forall|i: int| 0 <= i < pinned@.len() ==> (#[trigger] pinned@[i]).is_pinned,
            forall|i: int| 0 <= i < others@.len() ==> !(#[trigger] others@[i]).is_pinned,
            pinned@.to_multiset().add(others@.to_multiset()).add(rest@.to_multiset()) =~= total,
            spec_count_pinned(pinned@) + spec_count_pinned(rest@) == spec_count_pinned(
                aggregated@,
            ),
            pinned@.len() == spec_count_pinned(pinned@),
            pinned@.len() + others@.len() + rest@.len() == aggregated@.len(),
        decreases rest@.len(),
    {
        let ghost old_rest = rest@;
        let x = rest.remove(0);
        proof {
            assert(rest@ =~= old_rest.remove(0));
            assert(rest@.to_multiset() =~= old_rest.to_multiset().remove(x));
            assert(old_rest.to_multiset().count(x) > 0) by {
                assert(old_rest.contains(x));
            }
            // Removing the head moves its pinned count to the outputs.
            assert(old_rest =~= seq![x] + rest@);
            lemma_count_pinned_append(seq![x], rest@);
            lemma_count_pinned_single(x);
        }
        if x.is_pinned {
            let ghost old_pinned = pinned@;
            pinned.push(x);
            proof {
                assert(pinned@.drop_last() =~= old_pinned);
                assert(pinned@.to_multiset() =~= old_pinned.to_multiset().insert(pinned@.last()));
            }
        } else {
            let ghost old_others = others@;
            others.push(x);
            proof {
                assert(others@.to_multiset() =~= old_others.to_multiset().insert(others@.last()));
            }
        }
    }
    proof {
        assert(rest@.to_multiset() =~= Multiset::<ProcessMetrics>::empty()) by {
            assert(rest@ =~= Seq::<ProcessMetrics>::empty());
        }
        assert(spec_count_pinned(rest@) == 0) by {
            assert(rest@ =~= Seq::<ProcessMetrics>::empty());
        }
        lemma_count_pinned_bounds(aggregated@);
    }
    let mut pinned_sorted = sort_by_score_desc(pinned);
    let mut others_sorted = sort_by_score_desc(others);
    let ghost pinned_ms = pinned_sorted@.to_multiset();
    let ghost others_full = others_sorted@;
    // Keep only the top others that fit in the remaining slots.
    let remaining: usize = if limit >= pinned_sorted.len() {
        limit - pinned_sorted.len()
    } else {
        0
    };
    proof {
        assert(others_full.subrange(0, others_full.len() as int) =~= others_full);
    }
    while others_sorted.len() > remaining
        invariant
            others_sorted@.len() <= others_full.len(),
            others_sorted@ =~= others_full.subrange(0, others_sorted@.len() as int),
            others_sorted@.len() >= remaining || others_sorted@.len() == others_full.len(),
        decreases others_sorted@.len(),
    {
        let ghost before = others_sorted@;
        others_sorted.pop();
        proof {
            assert(others_sorted@ =~= before.drop_last());
            assert(others_sorted@ =~= others_full.subrange(0, others_sorted@.len() as int));
        }
    }
    proof {
        // The kept prefix of others is still drawn from the aggregated set.
        assert(others_full =~= others_sorted@ + others_full.subrange(
            others_sorted@.len() as int,
            others_full.len() as int,
        ));
        vstd::seq_lib::lemma_multiset_commutative(
            others_sorted@,
            others_full.subrange(others_sorted@.len() as int, others_full.len() as int),
        );
        // The kept prefix of a descending sequence is descending.
        assert(spec_sorted_desc(others_sorted@));
    }
    // Pinned first, then the kept others.
    let ghost pinned_view = pinned_sorted@;
    let ghost kept_others = others_sorted@;
    let mut out = pinned_sorted;
    let mut rest_o = others_sorted;
    while rest_o.len() > 0
        invariant
            rest_o@.len() <= kept_others.len(),
            out@ =~= pinned_view + kept_others.subrange(
                0,
                kept_others.len() - rest_o@.len(),
            ),
            rest_o@ =~= kept_others.subrange(
                kept_others.len() - rest_o@.len(),
                kept_others.len() as int,
            ),
        decreases rest_o@.len(),
    {
        let ghost old_rest_o = rest_o@;
        let ghost old_out = out@;
        let ghost k = kept_others.len() - old_rest_o.len();
        let x = rest_o.remove(0);
        out.push(x);
        proof {
            assert(rest_o@ =~= old_rest_o.remove(0));
            assert(out@ =~= old_out.push(x));
            assert(x == old_rest_o[0]);
            assert(old_rest_o[0] == kept_others[k]);
            assert(kept_others.subrange(0, k).push(kept_others[k]) =~= kept_others.subrange(
                0,
                k + 1,
            ));
            assert(out@ =~= (pinned_view + kept_others.subrange(0, k)).push(kept_others[k]));
            assert((pinned_view + kept_others.subrange(0, k)).push(kept_others[k]) =~= pinned_view
                + kept_others.subrange(0, k + 1));
            assert(rest_o@ =~= kept_others.subrange(k + 1, kept_others.len() as int));
        }
    }
    proof {
        assert(kept_others.subrange(0, kept_others.len() as int) =~= kept_others);
        assert(out@ =~= pinned_view + kept_others);
        lemma_count_pinned_append(pinned_view, kept_others);
        lemma_count_pinned_uniform(pinned_view, true);
        lemma_count_pinned_uniform(kept_others, false);
        vstd::seq_lib::lemma_multiset_commutative(pinned_view, kept_others);
        // Membership: the output multiset is drawn from the aggregated one.
        assert forall|x: ProcessMetrics|
            #[trigger] out@.to_multiset().count(x) <= aggregated@.to_multiset().count(x) by {
            assert(out@.to_multiset().count(x) == pinned_view.to_multiset().count(x)
                + kept_others.to_multiset().count(x));
            assert(kept_others.to_multiset().count(x) <= others_full.to_multiset().count(x));
        }
        // The pinned prefix and the per-section score ordering.
        assert forall|i: int, j: int|
            0 <= i < j < out@.len() && (#[trigger] out@[j]).is_pinned implies (
        #[trigger] out@[i]).is_pinned by {
            if j >= pinned_view.len() {
                assert(out@[j] == kept_others[j - pinned_view.len()]);
                assert(!out@[j].is_pinned);
            }
            assert(j < pinned_view.len());
            assert(out@[i] == pinned_view[i]);
        }
        assert forall|i: int, j: int|
            0 <= i < j < out@.len() && (#[trigger] out@[i]).is_pinned == (
        #[trigger] out@[j]).is_pinned implies spec_score_milli(out@[i]) >= spec_score_milli(
            out@[j],
        ) by {
            if j < pinned_view.len() {
                assert(out@[i] == pinned_view[i] && out@[j] == pinned_view[j]);
            } else if i >= pinned_view.len() {
                assert(out@[i] == kept_others[i - pinned_view.len()]);
                assert(out@[j] == kept_others[j - pinned_view.len()]);
            } else {
                assert(out@[i] == pinned_view[i] && out@[j] == kept_others[j
                    - pinned_view.len()]);
                assert(out@[i].is_pinned && !out@[j].is_pinned);
            }
        }
    }
    out
}

/// Non-increasing CPU share.
pub open spec fn spec_sorted_cpu_desc(s: Seq<ProcessMetrics>) -> bool {
    forall|i: int, j: int|
        0 <= i < j < s.len() ==> (#[trigger] s[i]).cpu_pm >= (#[trigger] s[j]).cpu_pm
}

/// The full process list for discovery mode: every aggregated entry, ordered
/// by descending CPU share.
pub fn all_processes_sorted(aggregated: Vec<ProcessMetrics>) -> (r: Vec<ProcessMetrics>)
    ensures
        spec_sorted_cpu_desc(r@),
        r@.to_multiset() == aggregated@.to_multiset(),
        r@.len() == aggregated@.len(),
{
    let ghost total = aggregated@.to_multiset();
    let mut rest = aggregated;
    let mut out: Vec<ProcessMetrics> = Vec::new();
    while rest.len() > 0
        invariant
            spec_sorted_cpu_desc(out@),
            forall|oi: int, ri: int|
                0 <= oi < out@.len() && 0 <= ri < rest@.len() ==> out@[oi].cpu_pm
                    >= rest@[ri].cpu_pm,
            out@.to_multiset().add(rest@.to_multiset()) =~= total,
        decreases rest@.len(),
    {
        let mut m: usize = 0;
        let mut k: usize = 1;
        while k < rest.len()
            invariant
                rest@.len() > 0,
                0 <= m < rest@.len(),
                1 <= k <= rest@.len(),
                forall|t: int| 0 <= t < k ==> rest@[m as int].cpu_pm >= rest@[t].cpu_pm,
            decreases rest@.len() - k,
        {
            if rest[k].cpu_pm > rest[m].cpu_pm {
                m = k;
            }
            k = k + 1;
        }
        let ghost old_rest = rest@;
        let ghost old_out = out@;
        let x = rest.remove(m);
        proof {
            assert(rest@ =~= old_rest.remove(m as int));
            assert(rest@.to_multiset() =~= old_rest.to_multiset().remove(x));
            assert(forall|ri: int|
                0 <= ri < rest@.len() ==> rest@[ri] == (if ri < m {
                    old_rest[ri]
                } else {
                    old_rest[ri + 1]
                }));
        }
        out.push(x);
        proof {
            assert(out@ =~= old_out.push(x));
            assert(out@.to_multiset() =~= old_out.to_multiset().insert(x));
            assert(old_rest.to_multiset().count(x) > 0) by {
                assert(old_rest.contains(x));
            }
            assert(out@.to_multiset().add(rest@.to_multiset()) =~= total);
            assert(spec_sorted_cpu_desc(out@));
        }
    }
    proof {
        assert(rest@.to_multiset() =~= Multiset::<ProcessMetrics>::empty()) by {
            assert(rest@ =~= Seq::<ProcessMetrics>::empty());
        }
        assert(out@.to_multiset() =~= total);
        assert(out@.len() == out@.to_multiset().len());
        assert(aggregated@.len() == total.len());
    }
    out
}

/// A one-element sequence counts its own pinned flag.
proof fn lemma_count_pinned_single(x: ProcessMetrics)
    ensures
        spec_count_pinned(seq![x]) == if x.is_pinned {
            1int
        } else {
            0int
        },
{
    assert(seq![x].drop_last() =~= Seq::<ProcessMetrics>::empty());
    assert(spec_count_pinned(Seq::<ProcessMetrics>::empty()) == 0);
    assert(seq![x].last() == x);
}

} // verus!
