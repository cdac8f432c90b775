//! Spans of time.
use vstd::prelude::*;

verus! {

/// Nanoseconds in a second.
pub const NANOS_PER_SEC: u128 = 1_000_000_000;

/// Nanoseconds in a millisecond.
pub const NANOS_PER_MILLI: u128 = 1_000_000;

/// The longest span: `u64::MAX` seconds and 999,999,999 nanoseconds.
pub const MAX_NANOS: u128 = 18_446_744_073_709_551_615_999_999_999;

/// A span of time with nanosecond resolution and the range of
/// `std::time::Duration`. Its view is its length in nanoseconds.
#[derive(Clone, Copy, Debug, PartialEq, Eq)]
pub struct Duration {
    nanos: u128,
}

impl View for Duration {
    type V = nat;

    closed spec fn view(&self) -> nat {
        self.nanos as nat
    }
}

impl Duration {
    #[verifier::type_invariant]
    closed spec fn in_range(self) -> bool {
        self.nanos <= MAX_NANOS
    }

    /// The span of `secs` seconds and `nanos` nanoseconds.
    pub fn new(secs: u64, nanos: u32) -> (d: Duration)
        requires
            secs * NANOS_PER_SEC + nanos <= MAX_NANOS,
        ensures
            d@ == secs * NANOS_PER_SEC + nanos,
    {
        Duration { nanos: (secs as u128) * NANOS_PER_SEC + (nanos as u128) }
    }

    /// The span of `millis` milliseconds.
    pub fn from_millis(millis: u64) -> (d: Duration)
        ensures
            d@ == millis * NANOS_PER_MILLI,
    {
        Duration { nanos: (millis as u128) * NANOS_PER_MILLI }
    }

    /// Twice this span, or `None` when that is longer than the longest span.
    pub fn checked_double(self) -> (twice: Option<Duration>)
        ensures
            twice is Some <==> 2 * self@ <= MAX_NANOS,
            twice matches Some(d) ==> d@ == 2 * self@,
    {
        proof {
            use_type_invariant(&self);
        }
        let nanos: u128 = self.nanos * 2;
        if nanos <= MAX_NANOS {
            Some(Duration { nanos })
        } else {
            None
        }
    }

    /// The whole seconds of this span.
    pub fn as_secs(self) -> (secs: u64)
        ensures
            secs == self@ / (NANOS_PER_SEC as nat),
    {
        proof {
            use_type_invariant(&self);
        }
        (self.nanos / NANOS_PER_SEC) as u64
    }

    /// The nanoseconds of this span beyond its whole seconds.
    pub fn subsec_nanos(self) -> (nanos: u32)
        ensures
            nanos == self@ % (NANOS_PER_SEC as nat),
    {
        (self.nanos % NANOS_PER_SEC) as u32
    }
}

/// A span is known by its length.
pub proof fn law_length_determines_span(a: Duration, b: Duration)
    requires
        a@ == b@,
    ensures
        a == b,
{
}

/// A span is told in full by its whole seconds and the nanoseconds beyond them,
/// of which there are fewer than in a second.
pub proof fn law_span_is_seconds_and_nanoseconds(d: Duration, secs: u64, nanos: u32)
    requires
        call_ensures(Duration::as_secs, (d,), secs),
        call_ensures(Duration::subsec_nanos, (d,), nanos),
    ensures
        d@ == secs * 1_000_000_000 + nanos,
        nanos < 1_000_000_000,
        call_requires(Duration::as_secs, (d,)),
        call_requires(Duration::subsec_nanos, (d,)),
{
    vstd::arithmetic::div_mod::lemma_fundamental_div_mod(d@ as int, 1_000_000_000);
}

/// A span made of seconds and nanoseconds tells them again, with whole seconds
/// among the nanoseconds carried over. It can be made wherever the carried
/// seconds can be counted.
pub proof fn law_span_tells_what_it_was_made_of(
    secs: u64,
    nanos: u32,
    d: Duration,
    told_secs: u64,
    told_nanos: u32,
)
    requires
        call_ensures(Duration::new, (secs, nanos), d),
        call_ensures(Duration::as_secs, (d,), told_secs),
        call_ensures(Duration::subsec_nanos, (d,), told_nanos),
    ensures
        told_secs == secs + nanos / 1_000_000_000,
        told_nanos == nanos % 1_000_000_000,
        secs + nanos / 1_000_000_000 <= u64::MAX ==> call_requires(Duration::new, (secs, nanos)),
{
}

/// A span made of milliseconds tells them in whole seconds and in a million
/// nanoseconds for each of the others.
pub proof fn law_span_tells_its_milliseconds(
    millis: u64,
    d: Duration,
    told_secs: u64,
    told_nanos: u32,
)
    requires
        call_ensures(Duration::from_millis, (millis,), d),
        call_ensures(Duration::as_secs, (d,), told_secs),
        call_ensures(Duration::subsec_nanos, (d,), told_nanos),
    ensures
        told_secs == millis / 1_000,
        told_nanos == (millis % 1_000) * 1_000_000,
        call_requires(Duration::from_millis, (millis,)),
{
}

/// Doubling a span adds it to itself. It fails just where the seconds of the sum
/// can no longer be counted.
pub proof fn law_doubling_adds_a_span_to_itself(d: Duration, twice: Option<Duration>)
    requires
        call_ensures(Duration::checked_double, (d,), twice),
    ensures
        twice is Some <==> (d@ + d@) / 1_000_000_000 <= u64::MAX,
        twice matches Some(sum) ==> sum@ == d@ + d@,
        call_requires(Duration::checked_double, (d,)),
{
}

} // verus!
