//! Semantic version comparison for the update check.

use vstd::prelude::*;
use vstd::string::StringSliceAdditionalSpecFns;
use crate::parse::{parse_u64, spec_parse_u64, spec_split, split_bytes};

verus! {

/// Leading 'v' markers removed ("v1.2.3" reads as "1.2.3").
pub open spec fn spec_strip_v(s: Seq<u8>) -> Seq<u8>
    decreases s.len(),
{
    if s.len() > 0 && s[0] == 118 {
        spec_strip_v(s.drop_first())
    } else {
        s
    }
}

proof fn lemma_strip_v_at(s: Seq<u8>, a: int)
    requires
        0 <= a <= s.len(),
        forall|j: int| 0 <= j < a ==> s[j] == 118,
        a < s.len() ==> s[a] != 118,
    ensures
        spec_strip_v(s) =~= s.subrange(a, s.len() as int),
    decreases a,
{
    if a == 0 {
        assert(s.subrange(0, s.len() as int) =~= s);
    } else {
        let t = s.drop_first();
        lemma_strip_v_at(t, a - 1);
        assert(t.subrange(a - 1, t.len() as int) =~= s.subrange(a, s.len() as int));
    }
}

/// The numeric dot-separated parts, in order; unparsable parts are skipped.
pub open spec fn spec_parsed_parts(parts: Seq<Seq<u8>>) -> Seq<u64>
    decreases parts.len(),
{
    if parts.len() == 0 {
        Seq::empty()
    } else {
        spec_parsed_parts(parts.drop_last()) + (match spec_parse_u64(parts.last()) {
            Some(v) => seq![v],
            None => Seq::<u64>::empty(),
        })
    }
}

/// The (major, minor, patch) triple a version string denotes: the first
/// three parsable dot-separated numbers after any leading 'v', zero-filled.
pub open spec fn spec_version_triple(s: Seq<u8>) -> (u64, u64, u64) {
    let ps = spec_parsed_parts(spec_split(spec_strip_v(s), 46));
    (
        if ps.len() > 0 {
            ps[0]
        } else {
            0u64
        },
        if ps.len() > 1 {
            ps[1]
        } else {
            0u64
        },
        if ps.len() > 2 {
            ps[2]
        } else {
            0u64
        },
    )
}

/// Lexicographic order on version triples.
pub open spec fn spec_triple_lt(a: (u64, u64, u64), b: (u64, u64, u64)) -> bool {
    ||| a.0 < b.0
    ||| (a.0 == b.0 && a.1 < b.1)
    ||| (a.0 == b.0 && a.1 == b.1 && a.2 < b.2)
}

/// The (major, minor, patch) triple of a version string.
fn version_triple(s: &str) -> (r: (u64, u64, u64))
    ensures
        r == spec_version_triple(s.spec_bytes()),
{
    let bytes = s.as_bytes_vec();
    let n = bytes.len();
    let mut a: usize = 0;
    while a < n && bytes[a] == 118
        invariant
            n == bytes@.len(),
            0 <= a <= n,
            forall|j: int| 0 <= j < a ==> bytes@[j] == 118,
        decreases n - a,
    {
        a = a + 1;
    }
    let stripped = &bytes.as_slice()[a..n];
    proof {
        lemma_strip_v_at(bytes@, a as int);
        assert(stripped@ =~= bytes@.subrange(a as int, n as int));
    }
    let parts = split_bytes(stripped, 46);
    let ghost pp = spec_split(stripped@, 46);
    let mut nums: Vec<u64> = Vec::new();
    let mut i: usize = 0;
    while i < parts.len()
        invariant
            parts@.len() == pp.len(),
            forall|k: int| 0 <= k < pp.len() ==> parts@[k]@ == pp[k],
            0 <= i <= pp.len(),
            nums@ =~= spec_parsed_parts(pp.subrange(0, i as int)),
        decreases pp.len() - i,
    {
        proof {
            assert(pp.subrange(0, i + 1).drop_last() =~= pp.subrange(0, i as int));
            assert(pp.subrange(0, i + 1).last() == pp[i as int]);
        }
        if let Some(v) = parse_u64(parts[i].as_slice()) {
            nums.push(v);
        }
        i = i + 1;
    }
    proof {
        assert(pp.subrange(0, pp.len() as int) =~= pp);
    }
    let major: u64 = if nums.len() > 0 {
        nums[0]
    } else {
        0
    };
    let minor: u64 = if nums.len() > 1 {
        nums[1]
    } else {
        0
    };
    let patch: u64 = if nums.len() > 2 {
        nums[2]
    } else {
        0
    };
    (major, minor, patch)
}

/// Whether `latest` denotes a strictly newer version than `current`, by
/// lexicographic comparison of the (major, minor, patch) triples.
pub fn version_is_newer(current: &str, latest: &str) -> (r: bool)
    ensures
        r == spec_triple_lt(
            spec_version_triple(current.spec_bytes()),
            spec_version_triple(latest.spec_bytes()),
        ),
{
    let c = version_triple(current);
    let l = version_triple(latest);
    if l.0 != c.0 {
        l.0 > c.0
    } else if l.1 != c.1 {
        l.1 > c.1
    } else {
        l.2 > c.2
    }
}

} // verus!
