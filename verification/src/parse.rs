//! Verified text parsing for sensor and diagnostic-tool output.
//!
//! Numbers are parsed from bytes into integers; decimal fractions are scaled
//! to milli-units (three fractional digits, further digits truncated).

use vstd::prelude::*;
use vstd::string::StringSliceAdditionalSpecFns;

verus! {

/// ASCII decimal digit.
pub open spec fn spec_is_digit(b: u8) -> bool {
    48 <= b <= 57
}

/// Every byte is a decimal digit.
pub open spec fn spec_all_digits(s: Seq<u8>) -> bool {
    forall|i: int| 0 <= i < s.len() ==> spec_is_digit(#[trigger] s[i])
}

/// Value of a digit string, most significant first.
pub open spec fn spec_digits_value(s: Seq<u8>) -> int
    decreases s.len(),
{
    if s.len() == 0 {
        0
    } else {
        spec_digits_value(s.drop_last()) * 10 + (s.last() - 48)
    }
}

/// A digit string's value only grows as digits are appended.
proof fn lemma_digits_value_grows(s: Seq<u8>, i: int)
    requires
        0 <= i <= s.len(),
        spec_all_digits(s),
    ensures
        0 <= spec_digits_value(s.subrange(0, i)) <= spec_digits_value(s),
    decreases s.len() - i,
{
    if i == s.len() {
        assert(s.subrange(0, i) =~= s);
        lemma_digits_value_nonneg(s);
    } else {
        lemma_digits_value_grows(s, i + 1);
        let p = s.subrange(0, i);
        let q = s.subrange(0, i + 1);
        assert(q.drop_last() =~= p);
        lemma_digits_value_nonneg(p);
        assert(spec_digits_value(p) <= spec_digits_value(p) * 10 + (q.last() - 48))
            by (nonlinear_arith)
            requires
                spec_digits_value(p) >= 0 && 48 <= q.last() <= 57,
        ;
    }
}

proof fn lemma_digits_value_nonneg(s: Seq<u8>)
    requires
        spec_all_digits(s),
    ensures
        spec_digits_value(s) >= 0,
    decreases s.len(),
{
    if s.len() > 0 {
        lemma_digits_value_nonneg(s.drop_last());
        assert(spec_digits_value(s.drop_last()) * 10 >= 0) by (nonlinear_arith)
            requires
                spec_digits_value(s.drop_last()) >= 0,
        ;
    }
}

/// What a digit string parses to: its value, if it is a non-empty all-digit
/// string whose value fits in the result type.
pub open spec fn spec_parse_u64(s: Seq<u8>) -> Option<u64> {
    if s.len() > 0 && spec_all_digits(s) && spec_digits_value(s) <= u64::MAX {
        Some(spec_digits_value(s) as u64)
    } else {
        None
    }
}

/// Parse a non-empty all-digit byte string into a `u64`.
pub fn parse_u64(s: &[u8]) -> (r: Option<u64>)
    ensures
        r == spec_parse_u64(s@),
{
    let n = s.len();
    if n == 0 {
        return None;
    }
    let mut acc: u64 = 0;
    let mut i: usize = 0;
    while i < n
        invariant
            n == s@.len(),
            0 <= i <= n,
            forall|k: int| 0 <= k < i ==> spec_is_digit(#[trigger] s@[k]),
            acc == spec_digits_value(s@.subrange(0, i as int)),
        decreases n - i,
    {
        let b = s[i];
        if b < 48 || b > 57 {
            return None;
        }
        let d = (b - 48) as u64;
        proof {
            assert(s@.subrange(0, i + 1).drop_last() =~= s@.subrange(0, i as int));
        }
        if acc > (u64::MAX - d) / 10 {
            proof {
                assert(forall|k: int| 0 <= k < i + 1 ==> spec_is_digit(#[trigger] s@[k]));
                assert(acc * 10 + d > u64::MAX) by (nonlinear_arith)
                    requires
                        acc > (u64::MAX - d) / 10 && 0 <= d <= 9,
                ;
                if spec_all_digits(s@) {
                    lemma_digits_value_grows(s@, i + 1);
                }
            }
            return None;
        }
        proof {
            assert(acc * 10 + d <= u64::MAX) by (nonlinear_arith)
                requires
                    acc <= (u64::MAX - d) / 10 && 0 <= d <= 9,
            ;
        }
        acc = acc * 10 + d;
        i = i + 1;
    }
    proof {
        assert(s@.subrange(0, n as int) =~= s@);
    }
    Some(acc)
}

/// Split a byte string on a separator byte. The result always has one more
/// field than there are separators; fields may be empty.
pub open spec fn spec_split(s: Seq<u8>, sep: u8) -> Seq<Seq<u8>>
    decreases s.len(),
{
    if s.len() == 0 {
        seq![Seq::<u8>::empty()]
    } else if s[0] == sep {
        seq![Seq::<u8>::empty()] + spec_split(s.drop_first(), sep)
    } else {
        let rest = spec_split(s.drop_first(), sep);
        seq![seq![s[0]] + rest[0]] + rest.drop_first()
    }
}

/// The split always yields at least one field.
pub proof fn lemma_split_nonempty(s: Seq<u8>, sep: u8)
    ensures
        spec_split(s, sep).len() >= 1,
    decreases s.len(),
{
    if s.len() > 0 && s[0] != sep {
        lemma_split_nonempty(s.drop_first(), sep);
    }
}

/// A string without the separator is one field: itself.
pub proof fn lemma_split_none(s: Seq<u8>, sep: u8)
    requires
        forall|j: int| 0 <= j < s.len() ==> s[j] != sep,
    ensures
        spec_split(s, sep) =~= seq![s],
    decreases s.len(),
{
    if s.len() == 0 {
        assert(spec_split(s, sep)[0] =~= s);
    } else {
        lemma_split_none(s.drop_first(), sep);
        let rest = spec_split(s.drop_first(), sep);
        assert(rest[0] == s.drop_first());
        assert(seq![s[0]] + rest[0] =~= s);
    }
}

/// Splitting at the first separator occurrence.
pub proof fn lemma_first_sep(s: Seq<u8>, sep: u8, f: int)
    requires
        0 <= f < s.len(),
        s[f] == sep,
        forall|j: int| 0 <= j < f ==> s[j] != sep,
    ensures
        spec_split(s, sep) =~= seq![s.subrange(0, f)] + spec_split(
            s.subrange(f + 1, s.len() as int),
            sep,
        ),
    decreases f,
{
    if f == 0 {
        assert(s.subrange(0, 0) =~= Seq::<u8>::empty());
        assert(s.drop_first() =~= s.subrange(1, s.len() as int));
    } else {
        let t = s.drop_first();
        assert(forall|j: int| 0 <= j < f - 1 ==> t[j] != sep);
        assert(t[f - 1] == sep);
        lemma_first_sep(t, sep, f - 1);
        let rest = spec_split(t, sep);
        lemma_split_nonempty(t.subrange(f, t.len() as int), sep);
        assert(rest =~= seq![t.subrange(0, f - 1)] + spec_split(
            t.subrange(f, t.len() as int),
            sep,
        ));
        assert(rest[0] == t.subrange(0, f - 1));
        assert(seq![s[0]] + rest[0] =~= s.subrange(0, f));
        assert(t.subrange(f, t.len() as int) =~= s.subrange(f + 1, s.len() as int));
        assert(rest.drop_first() =~= spec_split(s.subrange(f + 1, s.len() as int), sep));
    }
}

/// Split a byte string on a separator byte.
pub fn split_bytes(s: &[u8], sep: u8) -> (r: Vec<Vec<u8>>)
    ensures
        r@.len() == spec_split(s@, sep).len(),
        forall|i: int| 0 <= i < r@.len() ==> r@[i]@ == spec_split(s@, sep)[i],
    decreases s@.len(),
{
    let n = s.len();
    let mut f: usize = 0;
    while f < n
        invariant
            n == s@.len(),
            0 <= f <= n,
            forall|j: int| 0 <= j < f ==> s@[j] != sep,
        decreases n - f,
    {
        if s[f] == sep {
            // Field, then the split of the remainder.
            let mut head: Vec<u8> = Vec::new();
            let mut k: usize = 0;
            while k < f
                invariant
                    0 <= k <= f <= s@.len(),
                    head@ =~= s@.subrange(0, k as int),
                decreases f - k,
            {
                head.push(s[k]);
                k = k + 1;
            }
            let mut tail: Vec<u8> = Vec::new();
            let mut t: usize = f + 1;
            while t < n
                invariant
                    f < t <= n == s@.len(),
                    tail@ =~= s@.subrange(f + 1, t as int),
                decreases n - t,
            {
                tail.push(s[t]);
                t = t + 1;
            }
            proof {
                assert(head@ =~= s@.subrange(0, f as int));
                assert(tail@ =~= s@.subrange(f + 1, s@.len() as int));
            }
            let mut r = split_bytes(tail.as_slice(), sep);
            let ghost spec_rest = spec_split(s@.subrange(f + 1, s@.len() as int), sep);
            r.insert(0, head);
            proof {
                lemma_first_sep(s@, sep, f as int);
                assert(forall|i: int|
                    0 < i < r@.len() ==> r@[i] == r@.subrange(1, r@.len() as int)[i - 1]);
                assert(r@.subrange(1, r@.len() as int) =~= r@.remove(0));
                assert(forall|i: int| 0 < i < r@.len() ==> r@[i]@ == spec_rest[i - 1]);
            }
            return r;
        }
        f = f + 1;
    }
    // No separator: one field, the whole string.
    let mut whole: Vec<u8> = Vec::new();
    let mut k: usize = 0;
    while k < n
        invariant
            0 <= k <= n == s@.len(),
            whole@ =~= s@.subrange(0, k as int),
        decreases n - k,
    {
        whole.push(s[k]);
        k = k + 1;
    }
    proof {
        assert(whole@ =~= s@);
        lemma_split_none(s@, sep);
    }
    let mut r: Vec<Vec<u8>> = Vec::new();
    r.push(whole);
    r
}

/// ASCII whitespace.
pub open spec fn spec_is_ws(b: u8) -> bool {
    b == 32 || b == 9 || b == 13 || b == 10
}

/// Leading whitespace removed.
pub open spec fn spec_trim_start(s: Seq<u8>) -> Seq<u8>
    decreases s.len(),
{
    if s.len() > 0 && spec_is_ws(s[0]) {
        spec_trim_start(s.drop_first())
    } else {
        s
    }
}

/// Trailing whitespace removed.
pub open spec fn spec_trim_end(s: Seq<u8>) -> Seq<u8>
    decreases s.len(),
{
    if s.len() > 0 && spec_is_ws(s.last()) {
        spec_trim_end(s.drop_last())
    } else {
        s
    }
}

/// Whitespace removed from both ends.
pub open spec fn spec_trim(s: Seq<u8>) -> Seq<u8> {
    spec_trim_end(spec_trim_start(s))
}

proof fn lemma_trim_start_at(s: Seq<u8>, a: int)
    requires
        0 <= a <= s.len(),
        forall|j: int| 0 <= j < a ==> spec_is_ws(#[trigger] s[j]),
        a < s.len() ==> !spec_is_ws(s[a]),
    ensures
        spec_trim_start(s) =~= s.subrange(a, s.len() as int),
    decreases a,
{
    if a == 0 {
        assert(s.subrange(0, s.len() as int) =~= s);
    } else {
        let t = s.drop_first();
        lemma_trim_start_at(t, a - 1);
        assert(t.subrange(a - 1, t.len() as int) =~= s.subrange(a, s.len() as int));
    }
}

proof fn lemma_trim_end_at(s: Seq<u8>, b: int)
    requires
        0 <= b <= s.len(),
        forall|j: int| b <= j < s.len() ==> spec_is_ws(#[trigger] s[j]),
        b > 0 ==> !spec_is_ws(s[b - 1]),
    ensures
        spec_trim_end(s) =~= s.subrange(0, b),
    decreases s.len() - b,
{
    if b == s.len() {
        assert(s.subrange(0, s.len() as int) =~= s);
    } else {
        let t = s.drop_last();
        lemma_trim_end_at(t, b);
        assert(t.subrange(0, b) =~= s.subrange(0, b));
    }
}

/// The bounds of a byte string once whitespace is removed from both ends.
pub fn trim_bounds(s: &[u8]) -> (r: (usize, usize))
    ensures
        0 <= r.0 <= r.1 <= s@.len(),
        spec_trim(s@) =~= s@.subrange(r.0 as int, r.1 as int),
{
    let n = s.len();
    let mut a: usize = 0;
    while a < n && (s[a] == 32 || s[a] == 9 || s[a] == 13 || s[a] == 10)
        invariant
            n == s@.len(),
            0 <= a <= n,
            forall|j: int| 0 <= j < a ==> spec_is_ws(#[trigger] s@[j]),
        decreases n - a,
    {
        a = a + 1;
    }
    let mut b: usize = n;
    while b > a && (s[b - 1] == 32 || s[b - 1] == 9 || s[b - 1] == 13 || s[b - 1] == 10)
        invariant
            n == s@.len(),
            0 <= a <= b <= n,
            forall|j: int| b <= j < n ==> spec_is_ws(#[trigger] s@[j]),
        decreases b,
    {
        b = b - 1;
    }
    proof {
        lemma_trim_start_at(s@, a as int);
        let t = s@.subrange(a as int, s@.len() as int);
        lemma_trim_end_at(t, b - a);
        assert(t.subrange(0, b - a) =~= s@.subrange(a as int, b as int));
    }
    (a, b)
}

/// Remove whitespace from both ends of a byte string.
pub fn trim_bytes(s: &[u8]) -> (r: Vec<u8>)
    ensures
        r@ == spec_trim(s@),
{
    let (a, b) = trim_bounds(s);
    let mut r: Vec<u8> = Vec::new();
    let mut k: usize = a;
    while k < b
        invariant
            a <= k <= b <= s@.len(),
            r@ =~= s@.subrange(a as int, k as int),
        decreases b - k,
    {
        r.push(s[k]);
        k = k + 1;
    }
    proof {
        assert(r@ =~= s@.subrange(a as int, b as int));
    }
    r
}

/// The first three fractional digits of a decimal, scaled to milli-units;
/// digits beyond the third are truncated.
pub open spec fn spec_frac_milli(fp: Seq<u8>) -> int {
    (if fp.len() > 0 {
        (fp[0] - 48) * 100
    } else {
        0int
    }) + (if fp.len() > 1 {
        (fp[1] - 48) * 10
    } else {
        0int
    }) + (if fp.len() > 2 {
        (fp[2] - 48) as int
    } else {
        0int
    })
}

/// What a decimal byte string parses to in milli-units: an integer part and
/// an optional fractional part separated by one dot, at least one digit in
/// all, the whole value fitting in a `u64` of milli-units.
pub open spec fn spec_parse_milli(w: Seq<u8>) -> Option<u64> {
    let parts = spec_split(w, 46);
    if parts.len() > 2 {
        None
    } else {
        let ip = parts[0];
        let fp = if parts.len() == 2 {
            parts[1]
        } else {
            Seq::<u8>::empty()
        };
        if spec_all_digits(ip) && spec_all_digits(fp) && ip.len() + fp.len() >= 1
            && spec_digits_value(ip) <= (u64::MAX - 999) / 1000 {
            Some((spec_digits_value(ip) * 1000 + spec_frac_milli(fp)) as u64)
        } else {
            None
        }
    }
}

/// Every byte is a decimal digit.
pub fn is_all_digits(s: &[u8]) -> (r: bool)
    ensures
        r == spec_all_digits(s@),
{
    let mut i: usize = 0;
    while i < s.len()
        invariant
            0 <= i <= s@.len(),
            forall|k: int| 0 <= k < i ==> spec_is_digit(#[trigger] s@[k]),
        decreases s@.len() - i,
    {
        if s[i] < 48 || s[i] > 57 {
            return false;
        }
        i = i + 1;
    }
    true
}

/// Parse a decimal byte string ("45", "45.5") into milli-units (45000,
/// 45500). Fractional digits beyond the third are truncated.
pub fn parse_milli(w: &[u8]) -> (r: Option<u64>)
    ensures
        r == spec_parse_milli(w@),
{
    let parts = split_bytes(w, 46);
    if parts.len() > 2 {
        return None;
    }
    let ip: &Vec<u8> = &parts[0];
    let fp_empty: Vec<u8> = Vec::new();
    let fp: &Vec<u8> = if parts.len() == 2 {
        &parts[1]
    } else {
        &fp_empty
    };
    proof {
        assert(ip@ == spec_split(w@, 46)[0]);
        if spec_split(w@, 46).len() == 2 {
            assert(fp@ == spec_split(w@, 46)[1]);
        } else {
            assert(fp@ =~= Seq::<u8>::empty());
        }
    }
    if !is_all_digits(ip.as_slice()) || !is_all_digits(fp.as_slice()) {
        return None;
    }
    if ip.len() == 0 && fp.len() == 0 {
        return None;
    }
    proof {
        lemma_digits_value_nonneg(ip@);
    }
    let int_value: u64 = if ip.len() == 0 {
        0
    } else {
        match parse_u64(ip.as_slice()) {
            Some(v) => v,
            None => {
                proof {
                    // An unparsable all-digit string overflows u64, so it
                    // certainly exceeds the milli-unit bound.
                    assert(spec_digits_value(ip@) > u64::MAX);
                }
                return None;
            },
        }
    };
    if int_value > (u64::MAX - 999) / 1000 {
        return None;
    }
    let mut frac: u64 = 0;
    if fp.len() > 0 {
        frac = frac + ((fp[0] - 48) as u64) * 100;
    }
    if fp.len() > 1 {
        frac = frac + ((fp[1] - 48) as u64) * 10;
    }
    if fp.len() > 2 {
        frac = frac + (fp[2] - 48) as u64;
    }
    proof {
        assert(int_value * 1000 + 999 <= u64::MAX) by (nonlinear_arith)
            requires
                int_value <= (u64::MAX - 999) / 1000,
        ;
        assert(frac == spec_frac_milli(fp@));
        assert(int_value == spec_digits_value(ip@));
        assert(spec_parse_milli(w@) is Some);
        assert(spec_parse_milli(w@) == Some((int_value * 1000 + frac) as u64));
    }
    Some(int_value * 1000 + frac)
}

/// Trailing 'W' unit markers removed.
pub open spec fn spec_strip_w(w: Seq<u8>) -> Seq<u8>
    decreases w.len(),
{
    if w.len() > 0 && w.last() == 87 {
        spec_strip_w(w.drop_last())
    } else {
        w
    }
}

proof fn lemma_strip_w_at(w: Seq<u8>, b: int)
    requires
        0 <= b <= w.len(),
        forall|j: int| b <= j < w.len() ==> w[j] == 87,
        b > 0 ==> w[b - 1] != 87,
    ensures
        spec_strip_w(w) =~= w.subrange(0, b),
    decreases w.len() - b,
{
    if b == w.len() {
        assert(w.subrange(0, w.len() as int) =~= w);
    } else {
        let t = w.drop_last();
        lemma_strip_w_at(t, b);
        assert(t.subrange(0, b) =~= w.subrange(0, b));
    }
}

/// Remove trailing 'W' unit markers.
pub fn strip_w(w: &[u8]) -> (r: Vec<u8>)
    ensures
        r@ == spec_strip_w(w@),
{
    let mut b: usize = w.len();
    while b > 0 && w[b - 1] == 87
        invariant
            0 <= b <= w@.len(),
            forall|j: int| b <= j < w@.len() ==> w@[j] == 87,
        decreases b,
    {
        b = b - 1;
    }
    let mut r: Vec<u8> = Vec::new();
    let mut k: usize = 0;
    while k < b
        invariant
            0 <= k <= b <= w@.len(),
            r@ =~= w@.subrange(0, k as int),
        decreases b - k,
    {
        r.push(w[k]);
        k = k + 1;
    }
    proof {
        lemma_strip_w_at(w@, b as int);
    }
    r
}

/// Whitespace bytes normalized to spaces, so that word splitting treats
/// tabs and line ends as separators too.
pub open spec fn spec_normalize_ws(s: Seq<u8>) -> Seq<u8> {
    Seq::new(
        s.len(),
        |i: int|
            if spec_is_ws(s[i]) {
                32u8
            } else {
                s[i]
            },
    )
}

/// Normalize every whitespace byte to a space.
pub fn normalize_ws(s: &[u8]) -> (r: Vec<u8>)
    ensures
        r@ == spec_normalize_ws(s@),
{
    let mut r: Vec<u8> = Vec::new();
    let mut i: usize = 0;
    while i < s.len()
        invariant
            0 <= i <= s@.len(),
            r@.len() == i,
            forall|k: int|
                0 <= k < i ==> r@[k] == (if spec_is_ws(s@[k]) {
                    32u8
                } else {
                    s@[k]
                }),
        decreases s@.len() - i,
    {
        let b = s[i];
        if b == 32 || b == 9 || b == 13 || b == 10 {
            r.push(32);
        } else {
            r.push(b);
        }
        i = i + 1;
    }
    proof {
        assert(r@ =~= spec_normalize_ws(s@));
    }
    r
}

/// The first space-separated word that, after removal of trailing 'W'
/// markers, parses as a decimal — in milli-units.
pub open spec fn spec_extract_words(words: Seq<Seq<u8>>) -> Option<u64>
    decreases words.len(),
{
    if words.len() == 0 {
        None
    } else {
        match spec_parse_milli(spec_strip_w(words[0])) {
            Some(v) => Some(v),
            None => spec_extract_words(words.drop_first()),
        }
    }
}

/// The power value named on a diagnostic-tool text line, in milliwatts.
pub open spec fn spec_extract_power(s: Seq<u8>) -> Option<u64> {
    spec_extract_words(spec_split(spec_normalize_ws(s), 32))
}

/// Extract a power value from a text line such as
/// "Average Graphics Package Power (W): 45.5": the first
/// whitespace-separated word that parses as a decimal after trailing 'W's
/// are removed, scaled to milliwatts.
pub fn extract_power_from_line(line: &str) -> (r: Option<u64>)
    ensures
        r == spec_extract_power(line.spec_bytes()),
{
    let raw = line.as_bytes_vec();
    let bytes = normalize_ws(raw.as_slice());
    let words = split_bytes(bytes.as_slice(), 32);
    let ghost ww = spec_split(bytes@, 32);
    proof {
        assert(ww.subrange(0, ww.len() as int) =~= ww);
    }
    let mut i: usize = 0;
    while i < words.len()
        invariant
            ww == spec_split(spec_normalize_ws(line.spec_bytes()), 32),
            words@.len() == ww.len(),
            forall|k: int| 0 <= k < ww.len() ==> words@[k]@ == ww[k],
            0 <= i <= ww.len(),
            spec_extract_words(ww.subrange(i as int, ww.len() as int)) == spec_extract_words(ww),
        decreases ww.len() - i,
    {
        let stripped = strip_w(words[i].as_slice());
        let parsed = parse_milli(stripped.as_slice());
        proof {
            let suffix = ww.subrange(i as int, ww.len() as int);
            assert(suffix[0] == ww[i as int]);
            assert(suffix.drop_first() =~= ww.subrange(i + 1, ww.len() as int));
        }
        if let Some(v) = parsed {
            proof {
                let suffix = ww.subrange(i as int, ww.len() as int);
                assert(spec_parse_milli(spec_strip_w(suffix[0])) == Some(v));
                assert(spec_extract_words(suffix) == Some(v));
            }
            return Some(v);
        }
        i = i + 1;
    }
    proof {
        assert(ww.subrange(ww.len() as int, ww.len() as int) =~= Seq::<Seq<u8>>::empty());
    }
    None
}

} // verus!
