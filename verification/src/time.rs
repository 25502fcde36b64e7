//! Spans of time and points in time, counted in whole nanoseconds.

use vstd::prelude::*;

verus! {

/// Nanoseconds in a second.
pub const NANOS_PER_SEC: u128 = 1_000_000_000;

/// Nanoseconds in a millisecond.
pub const NANOS_PER_MILLI: u128 = 1_000_000;

/// The longest span: `u64::MAX` seconds and 999 999 999 nanoseconds.
pub const MAX_NANOS: u128 = 18_446_744_073_709_551_615_999_999_999;

/// A span of time of at most [`MAX_NANOS`] nanoseconds.
#[derive(Clone, Copy, Debug, PartialEq, Eq, Structural)]
pub struct Duration {
    nanos: u128,
}

impl View for Duration {
    type V = nat;

    /// The length of the span in nanoseconds.
    closed spec fn view(&self) -> nat {
        self.nanos as nat
    }
}

impl Duration {
    #[verifier::type_invariant]
    pub open spec fn in_range(self) -> bool {
        self@ <= MAX_NANOS
    }

    /// The span of `secs` seconds and `nanos` nanoseconds.
    pub fn new(secs: u64, nanos: u32) -> (d: Duration)
        requires
            secs * NANOS_PER_SEC + nanos <= MAX_NANOS,
        ensures
            d@ == secs * NANOS_PER_SEC + nanos,
            d@ == secs * 1_000_000_000 + nanos,
    {
        Duration { nanos: secs as u128 * NANOS_PER_SEC + nanos as u128 }
    }

    /// The span of `secs` seconds.
    pub fn from_secs(secs: u64) -> (d: Duration)
        ensures
            d@ == secs * NANOS_PER_SEC,
            d@ == secs * 1_000_000_000,
    {
        Duration { nanos: secs as u128 * NANOS_PER_SEC }
    }

    /// The span of `millis` milliseconds.
    pub fn from_millis(millis: u64) -> (d: Duration)
        ensures
            d@ == millis * NANOS_PER_MILLI,
            d@ == millis * 1_000_000,
    {
        Duration { nanos: millis as u128 * NANOS_PER_MILLI }
    }

    /// Whether the span is empty.
    pub fn is_zero(&self) -> (zero: bool)
        ensures
            zero == (self@ == 0),
    {
        self.nanos == 0
    }

    /// The whole seconds in the span.
    pub fn as_secs(&self) -> (secs: u64)
        ensures
            secs == self@ / NANOS_PER_SEC as nat,
            secs * 1_000_000_000 <= self@ < (secs + 1) * 1_000_000_000,
    {
        proof {
            use_type_invariant(self);
        }
        (self.nanos / NANOS_PER_SEC) as u64
    }

    /// The nanoseconds left over beyond the whole seconds.
    pub fn subsec_nanos(&self) -> (nanos: u32)
        ensures
            nanos == self@ % NANOS_PER_SEC as nat,
            nanos < 1_000_000_000,
            (self@ - nanos) % 1_000_000_000 == 0,
    {
        (self.nanos % NANOS_PER_SEC) as u32
    }

    /// The span `factor` times over, or the longest span where that is shorter.
    pub fn saturating_mul(self, factor: u32) -> (d: Duration)
        ensures
            d@ == if self@ * factor <= MAX_NANOS {
                (self@ * factor) as nat
            } else {
                MAX_NANOS as nat
            },
    {
        proof {
            use_type_invariant(&self);
        }
        assert(self.nanos * factor <= MAX_NANOS * u32::MAX) by (nonlinear_arith)
            requires
                self.nanos <= MAX_NANOS,
                factor <= u32::MAX,
        ;
        let product: u128 = self.nanos * factor as u128;
        if product <= MAX_NANOS {
            Duration { nanos: product }
        } else {
            Duration { nanos: MAX_NANOS }
        }
    }
}

/// A span of `secs` seconds and `nanos` nanoseconds as the `{:?}` of std writes it.
pub uninterp spec fn span_text(secs: u64, nanos: u32) -> Seq<char>;

/// Calls std's `{:?}` on a `std::time::Duration`.
///
/// Claimed: what is written depends on the seconds and the nanoseconds alone; it goes by
/// the name [`span_text`]. Which unit and how many decimals are chosen is left unsaid.
#[verifier::external_body]
fn std_duration_debug(secs: u64, nanos: u32) -> (text: String)
    requires
        nanos < NANOS_PER_SEC,
    ensures
        text@ == span_text(secs, nanos),
{
    format!("{:?}", std::time::Duration::new(secs, nanos))
}

impl Duration {
    /// The text form of the span.
    pub open spec fn spec_text(self) -> Seq<char> {
        span_text(
            (self@ / NANOS_PER_SEC as nat) as u64,
            (self@ % NANOS_PER_SEC as nat) as u32,
        )
    }

    /// The text form of the span.
    pub fn to_text(&self) -> (text: String)
        ensures
            text@ == self.spec_text(),
    {
        std_duration_debug(self.as_secs(), self.subsec_nanos())
    }
}

/// A point in time, as the span since a fixed start.
#[derive(Clone, Copy, Debug, PartialEq, Eq, Structural)]
pub struct Instant {
    since_start: Duration,
}

impl View for Instant {
    type V = nat;

    /// Nanoseconds from the fixed start to this point.
    closed spec fn view(&self) -> nat {
        self.since_start@
    }
}

impl Instant {
    /// The point `since_start` after the fixed start.
    pub fn at(since_start: Duration) -> (t: Instant)
        ensures
            t@ == since_start@,
    {
        Instant { since_start }
    }

    /// The span from `earlier` to this point, empty where `earlier` is later.
    pub fn duration_since(&self, earlier: Instant) -> (d: Duration)
        ensures
            d@ == elapsed(earlier@, self@),
            earlier@ <= self@ ==> earlier@ + d@ == self@,
            self@ <= earlier@ ==> d@ == 0,
    {
        proof {
            use_type_invariant(&self.since_start);
        }
        if self.since_start.nanos <= earlier.since_start.nanos {
            Duration { nanos: 0 }
        } else {
            Duration { nanos: self.since_start.nanos - earlier.since_start.nanos }
        }
    }

    /// Whether this point is `deadline` or later.
    pub fn has_reached(&self, deadline: Instant) -> (reached: bool)
        ensures
            reached == (self@ >= deadline@),
    {
        self.since_start.nanos >= deadline.since_start.nanos
    }
}

/// A span added to the earlier point gives the later one; where the points are in no such
/// order, nothing has passed.
pub proof fn law_elapsed_leads_to_later(earlier: nat, later: nat)
    ensures
        earlier <= later ==> earlier + elapsed(earlier, later) == later,
        later <= earlier ==> elapsed(earlier, later) == 0,
{
}

/// The text of a span is that of its own seconds and nanoseconds.
pub proof fn law_span_text(d: Duration, secs: u64, nanos: u32)
    requires
        nanos < 1_000_000_000,
        d@ == secs * 1_000_000_000 + nanos,
    ensures
        d.spec_text() == span_text(secs, nanos),
{
}

/// The units that all spans are measured in.
pub proof fn law_units()
    ensures
        NANOS_PER_SEC == 1_000_000_000,
        NANOS_PER_MILLI == 1_000_000,
        MAX_NANOS == u64::MAX * 1_000_000_000 + 999_999_999,
{
}

/// Spans of the same length are the same.
pub proof fn law_duration_is_its_length(a: Duration, b: Duration)
    requires
        a@ == b@,
    ensures
        a == b,
{
}

/// Points at the same distance from the fixed start are the same.
pub proof fn law_instant_is_its_distance(a: Instant, b: Instant)
    requires
        a@ == b@,
    ensures
        a == b,
{
    law_duration_is_its_length(a.since_start, b.since_start);
}

/// Nanoseconds from `earlier` to `later`, none where `earlier` is the later one.
pub open spec fn elapsed(earlier: nat, later: nat) -> nat {
    if later <= earlier {
        0
    } else {
        (later - earlier) as nat
    }
}

impl core::ops::Add<Duration> for Instant {
    type Output = Instant;

    /// The point `span` later.
    fn add(self, span: Duration) -> (t: Instant)
        ensures
            t@ == self@ + span@,
    {
        Instant { since_start: Duration { nanos: self.since_start.nanos + span.nanos } }
    }
}

impl vstd::std_specs::ops::AddSpecImpl<Duration> for Instant {
    open spec fn obeys_add_spec() -> bool {
        true
    }

    /// The later point is still within range.
    open spec fn add_req(self, span: Duration) -> bool {
        self@ + span@ <= MAX_NANOS
    }

    closed spec fn add_spec(self, span: Duration) -> Instant {
        Instant {
            since_start: Duration { nanos: (self.since_start.nanos + span.nanos) as u128 },
        }
    }
}

} // verus!
