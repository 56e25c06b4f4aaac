//! Instants and spans of time, counted in whole nanoseconds.

use vstd::prelude::*;
use vstd::arithmetic::div_mod::lemma_fundamental_div_mod_converse;
use vstd::arithmetic::div_mod::lemma_fundamental_div_mod;
use chrono_humanize::{Accuracy, HumanTime, Tense};

verus! {

/// Nanoseconds in one second.
pub const NANOS_PER_SEC: i128 = 1_000_000_000;

/// The longest span a [`Duration`] holds: `i64::MAX` milliseconds, in nanoseconds.
pub const MAX_DURATION_NANOS: i128 = 9_223_372_036_854_775_807_000_000;

/// The farthest a [`Timestamp`] lies from the Unix epoch, in nanoseconds
/// (nine trillion seconds, some 285 000 years).
pub const MAX_TIMESTAMP_NANOS: i128 = 9_000_000_000_000_000_000_000;

/// The farthest from the Unix epoch, in seconds, that the wall clock reads.
pub const MAX_CLOCK_SECS: i64 = 8_400_000_000_000;

/// Raised when a sum of times leaves the range of its representation.
#[derive(Clone, Copy, Debug, PartialEq, Eq)]
pub struct TimeOverflow;

/// `n / d` rounded toward zero, for a positive `d`.
pub open spec fn truncated_quotient(n: int, d: int) -> int {
    if n >= 0 {
        n / d
    } else {
        -((-n) / d)
    }
}

/// A signed span of time in nanoseconds.
#[derive(Clone, Copy, Debug, PartialEq, Eq, Hash, Structural)]
pub struct Duration {
    nanos: i128,
}

impl View for Duration {
    type V = int;

    closed spec fn view(&self) -> int {
        self.nanos as int
    }
}

/// What the English rendering of a span is, for the span given as whole
/// seconds (rounded down) and the nanoseconds above them.
pub uninterp spec fn duration_text_en(secs: int, subsec_nanos: int, precise: bool) -> Seq<char>;

/// Whether a span given as seconds and nanoseconds lies within `i64::MAX`
/// milliseconds of zero.
pub open spec fn span_parts_in_range(secs: int, subsec_nanos: int) -> bool {
    &&& 0 <= subsec_nanos < NANOS_PER_SEC
    &&& -MAX_DURATION_NANOS <= secs * NANOS_PER_SEC + subsec_nanos <= MAX_DURATION_NANOS
}

/// Calls `chrono::TimeDelta::new` and, on the span it gives,
/// `chrono_humanize::HumanTime::to_text_en` in the present tense. Believed
/// of them: `TimeDelta::new` gives a span exactly when the nanoseconds are
/// below a thousand million and the whole is within `i64::MAX` milliseconds
/// of zero; the text depends on the parts and the accuracy alone. What the
/// text says is not stated here.
#[verifier::external_body]
fn humanize(secs: i64, subsec_nanos: u32, precise: bool) -> (text: Option<String>)
    ensures
        text is Some <==> span_parts_in_range(secs as int, subsec_nanos as int),
        text matches Some(s) ==> s@ == duration_text_en(secs as int, subsec_nanos as int, precise),
{
    let accuracy = if precise { Accuracy::Precise } else { Accuracy::Rough };
    chrono::TimeDelta::new(secs, subsec_nanos)
        .map(|delta| HumanTime::from(delta).to_text_en(accuracy, Tense::Present))
}

/// The English rendering of a span of `nanos` nanoseconds, rough or precise.
pub open spec fn span_text(nanos: int, precise: bool) -> Seq<char> {
    duration_text_en(nanos / (NANOS_PER_SEC as int), nanos % (NANOS_PER_SEC as int), precise)
}

impl Duration {
    #[verifier::type_invariant]
    spec fn in_range(self) -> bool {
        -MAX_DURATION_NANOS <= self.nanos <= MAX_DURATION_NANOS
    }

    /// Every span lies within `i64::MAX` milliseconds of zero.
    pub open spec fn wf(&self) -> bool {
        -MAX_DURATION_NANOS <= self@ <= MAX_DURATION_NANOS
    }

    /// Whole seconds of the span, rounded down.
    pub open spec fn secs_spec(&self) -> int {
        self@ / (NANOS_PER_SEC as int)
    }

    /// Nanoseconds of the span above its whole seconds.
    pub open spec fn subsec_nanos_spec(&self) -> int {
        self@ % (NANOS_PER_SEC as int)
    }

    /// The empty span.
    pub fn zero() -> (d: Duration)
        ensures
            d@ == 0,
            d.wf(),
    {
        Duration { nanos: 0 }
    }

    /// The span of `nanos` nanoseconds, if it is in range.
    pub fn from_nanos(nanos: i128) -> (r: Option<Duration>)
        ensures
            r is Some <==> -MAX_DURATION_NANOS <= nanos <= MAX_DURATION_NANOS,
            r matches Some(d) ==> d@ == nanos && d.wf(),
    {
        if -MAX_DURATION_NANOS <= nanos && nanos <= MAX_DURATION_NANOS {
            Some(Duration { nanos })
        } else {
            None
        }
    }

    /// The span of `millis` milliseconds, if it is in range.
    pub fn from_millis(millis: i64) -> (r: Option<Duration>)
        ensures
            r is Some <==> millis != i64::MIN,
            r matches Some(d) ==> d@ == millis * 1_000_000 && d.wf(),
    {
        if millis == i64::MIN {
            None
        } else {
            let wide: i128 = millis as i128;
            Some(Duration { nanos: wide * 1_000_000 })
        }
    }

    /// The span in nanoseconds.
    pub fn nanos(&self) -> (n: i128)
        ensures
            n == self@,
            self.wf(),
    {
        proof {
            use_type_invariant(self);
        }
        self.nanos
    }

    /// The span in whole milliseconds, rounded toward zero.
    pub fn num_milliseconds(&self) -> (n: i64)
        ensures
            n == truncated_quotient(self@, 1_000_000),
    {
        let nanos: i128 = self.nanos();
        if nanos >= 0 {
            (nanos / 1_000_000) as i64
        } else {
            let magnitude: i128 = -nanos;
            let whole: i128 = magnitude / 1_000_000;
            (-whole) as i64
        }
    }

    /// The span in nanoseconds, if that fits `i64`.
    pub fn num_nanoseconds(&self) -> (r: Option<i64>)
        ensures
            r is Some <==> i64::MIN <= self@ <= i64::MAX,
            r matches Some(n) ==> n == self@,
    {
        let nanos: i128 = self.nanos();
        if nanos < -9_223_372_036_854_775_808 || nanos > 9_223_372_036_854_775_807 {
            None
        } else {
            Some(nanos as i64)
        }
    }

    /// The span in whole microseconds, rounded toward zero, if that fits `i64`.
    pub fn num_microseconds(&self) -> (r: Option<i64>)
        ensures
            r is Some <==> i64::MIN <= truncated_quotient(self@, 1_000) <= i64::MAX,
            r matches Some(n) ==> n == truncated_quotient(self@, 1_000),
    {
        let nanos: i128 = self.nanos();
        let whole: i128 = if nanos >= 0 {
            nanos / 1_000
        } else {
            let magnitude: i128 = -nanos;
            -(magnitude / 1_000)
        };
        if whole < -9_223_372_036_854_775_808 || whole > 9_223_372_036_854_775_807 {
            None
        } else {
            Some(whole as i64)
        }
    }

    /// The sum of two spans, if it is in range.
    pub fn checked_add(&self, other: Duration) -> (r: Option<Duration>)
        ensures
            r is Some <==> -MAX_DURATION_NANOS <= self@ + other@ <= MAX_DURATION_NANOS,
            r matches Some(d) ==> d@ == self@ + other@ && d.wf(),
    {
        Duration::from_nanos(self.nanos() + other.nanos())
    }

    /// Splits the span into whole seconds, rounded down, and the nanoseconds
    /// above them.
    pub fn split_seconds(&self) -> (parts: (i64, u32))
        ensures
            parts.0 == self.secs_spec(),
            parts.1 == self.subsec_nanos_spec(),
            span_parts_in_range(parts.0 as int, parts.1 as int),
    {
        let nanos: i128 = self.nanos();
        let (secs, subsec): (i128, i128) = if nanos >= 0 {
            (nanos / NANOS_PER_SEC, nanos % NANOS_PER_SEC)
        } else {
            let magnitude: i128 = -nanos;
            let whole: i128 = magnitude / NANOS_PER_SEC;
            let rest: i128 = magnitude % NANOS_PER_SEC;
            proof {
                lemma_fundamental_div_mod(magnitude as int, NANOS_PER_SEC as int);
            }
            if rest == 0 {
                (-whole, 0)
            } else {
                (-whole - 1, NANOS_PER_SEC - rest)
            }
        };
        proof {
            lemma_fundamental_div_mod(nanos as int, NANOS_PER_SEC as int);
            lemma_fundamental_div_mod_converse(
                nanos as int,
                NANOS_PER_SEC as int,
                secs as int,
                subsec as int,
            );
        }
        (secs as i64, subsec as u32)
    }

    /// The span in English: roughly ("2 minutes") or precisely, unit by unit.
    pub fn text(&self, precise: bool) -> (s: String)
        ensures
            s@ == span_text(self@, precise),
    {
        let (secs, subsec) = self.split_seconds();
        match humanize(secs, subsec, precise) {
            Some(s) => s,
            None => String::new(),
        }
    }
}

/// An instant, in nanoseconds since the Unix epoch.
#[derive(Clone, Copy, Debug, PartialEq, Eq, Hash, Structural)]
pub struct Timestamp {
    nanos: i128,
}

impl View for Timestamp {
    type V = int;

    closed spec fn view(&self) -> int {
        self.nanos as int
    }
}

/// Reads the wall clock with `chrono::Local::now`, takes its naive local
/// date and time, and hands back `timestamp` and `timestamp_subsec_nanos` of
/// it. Believed of them: the seconds are within [`MAX_CLOCK_SECS`] of the
/// epoch, since chrono holds no date before 262144 BCE or after 262142 CE;
/// and the nanoseconds are below two thousand million, the second thousand
/// million standing for a leap second.
#[verifier::external_body]
fn clock_reading() -> (parts: (i64, u32))
    ensures
        -MAX_CLOCK_SECS <= parts.0 <= MAX_CLOCK_SECS,
        parts.1 < 2_000_000_000,
{
    let now = chrono::Local::now().naive_local().and_utc();
    (now.timestamp(), now.timestamp_subsec_nanos())
}

impl Timestamp {
    #[verifier::type_invariant]
    spec fn in_range(self) -> bool {
        -MAX_TIMESTAMP_NANOS <= self.nanos <= MAX_TIMESTAMP_NANOS
    }

    /// Every instant lies within [`MAX_TIMESTAMP_NANOS`] of the epoch.
    pub open spec fn wf(&self) -> bool {
        -MAX_TIMESTAMP_NANOS <= self@ <= MAX_TIMESTAMP_NANOS
    }

    /// The instant `nanos` nanoseconds after the epoch, if it is in range.
    pub fn from_nanos(nanos: i128) -> (r: Option<Timestamp>)
        ensures
            r is Some <==> -MAX_TIMESTAMP_NANOS <= nanos <= MAX_TIMESTAMP_NANOS,
            r matches Some(t) ==> t@ == nanos && t.wf(),
    {
        if -MAX_TIMESTAMP_NANOS <= nanos && nanos <= MAX_TIMESTAMP_NANOS {
            Some(Timestamp { nanos })
        } else {
            None
        }
    }

    /// The instant `secs` seconds and `subsec_nanos` nanoseconds after the
    /// epoch, if it is in range.
    pub fn from_parts(secs: i64, subsec_nanos: u32) -> (r: Option<Timestamp>)
        ensures
            r is Some <==> -MAX_TIMESTAMP_NANOS <= secs * NANOS_PER_SEC + subsec_nanos
                <= MAX_TIMESTAMP_NANOS,
            r matches Some(t) ==> t@ == secs * NANOS_PER_SEC + subsec_nanos && t.wf(),
    {
        let wide_secs: i128 = secs as i128;
        let wide_nanos: i128 = subsec_nanos as i128;
        Timestamp::from_nanos(wide_secs * NANOS_PER_SEC + wide_nanos)
    }

    /// The instant `millis` milliseconds after the epoch.
    pub fn from_millis(millis: i32) -> (t: Timestamp)
        ensures
            t@ == millis * 1_000_000,
            t.wf(),
    {
        let wide: i128 = millis as i128;
        Timestamp { nanos: wide * 1_000_000 }
    }

    /// The present instant on the local wall clock.
    pub fn now() -> (t: Timestamp)
        ensures
            t.wf(),
    {
        let (secs, subsec) = clock_reading();
        let wide_secs: i128 = secs as i128;
        let wide_nanos: i128 = subsec as i128;
        Timestamp { nanos: wide_secs * NANOS_PER_SEC + wide_nanos }
    }

    /// Does nothing but let a caller know that the instant is in range.
    pub(crate) fn known_in_range(&self)
        ensures
            self.wf(),
    {
        proof {
            use_type_invariant(self);
        }
    }

    /// Nanoseconds since the epoch.
    pub fn nanos(&self) -> (n: i128)
        ensures
            n == self@,
            self.wf(),
    {
        proof {
            use_type_invariant(self);
        }
        self.nanos
    }

    /// The instant `span` later, if it is in range.
    pub fn checked_add(&self, span: Duration) -> (r: Option<Timestamp>)
        ensures
            r is Some <==> -MAX_TIMESTAMP_NANOS <= self@ + span@ <= MAX_TIMESTAMP_NANOS,
            r matches Some(t) ==> t@ == self@ + span@ && t.wf(),
    {
        Timestamp::from_nanos(self.nanos() + span.nanos())
    }

    /// The span from `earlier` to this instant; negative when `earlier` is
    /// the later of the two.
    pub fn duration_since(&self, earlier: Timestamp) -> (d: Duration)
        ensures
            d@ == self@ - earlier@,
            d.wf(),
    {
        Duration { nanos: self.nanos() - earlier.nanos() }
    }
}

} // verus!
