//! Generic TTL cache: a value paired with its capture time.
//!
//! Every slow-to-compute metric owns one independent cache entry. An entry is
//! replaced wholesale on refresh, never mutated in place. A getter accepts a
//! maximum age and yields the value only while `now - captured_at < max_age`.

use vstd::prelude::*;

verus! {

/// A cached value with the time (in milliseconds) at which it was captured.
pub struct CachedValue<T> {
    value: T,
    captured_at_ms: u64,
}

impl<T> CachedValue<T> {
    /// The stored value, regardless of age.
    pub closed spec fn spec_value(&self) -> T {
        self.value
    }

    /// The capture time in milliseconds.
    pub closed spec fn spec_captured_at(&self) -> u64 {
        self.captured_at_ms
    }

    /// An entry is fresh at `now_ms` while younger than `max_age_ms`.
    pub open spec fn is_fresh(&self, now_ms: u64, max_age_ms: u64) -> bool {
        now_ms - self.spec_captured_at() < max_age_ms
    }

    /// Capture a value at the given instant.
    pub fn new(value: T, now_ms: u64) -> (r: Self)
        ensures
            r.spec_value() == value,
            r.spec_captured_at() == now_ms,
    {
        CachedValue { value, captured_at_ms: now_ms }
    }

    /// Return the value only while it is fresh; an expired entry is a miss.
    pub fn get(&self, now_ms: u64, max_age_ms: u64) -> (r: Option<&T>)
        requires
            self.spec_captured_at() <= now_ms,
        ensures
            self.is_fresh(now_ms, max_age_ms) ==> r == Some(&self.spec_value()),
            !self.is_fresh(now_ms, max_age_ms) ==> r is None,
    {
        if now_ms - self.captured_at_ms < max_age_ms {
            Some(&self.value)
        } else {
            None
        }
    }

    /// The capture time, for age inspection by callers.
    pub fn captured_at(&self) -> (r: u64)
        ensures
            r == self.spec_captured_at(),
    {
        self.captured_at_ms
    }
}

impl<T: Copy> CachedValue<T> {
    /// Like [`Self::get`], but copies the value out.
    pub fn get_copied(&self, now_ms: u64, max_age_ms: u64) -> (r: Option<T>)
        requires
            self.spec_captured_at() <= now_ms,
        ensures
            self.is_fresh(now_ms, max_age_ms) ==> r == Some(self.spec_value()),
            !self.is_fresh(now_ms, max_age_ms) ==> r is None,
    {
        if now_ms - self.captured_at_ms < max_age_ms {
            Some(self.value)
        } else {
            None
        }
    }
}

} // verus!
