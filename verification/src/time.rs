//! Spans of time and readings of a monotonic clock, both in whole nanoseconds.

use std::time::Instant;
use vstd::prelude::*;

verus! {

/// Nanoseconds in one millisecond.
pub const NANOS_PER_MILLI: u128 = 1_000_000;

/// Nanoseconds in one second.
pub const NANOS_PER_SEC: u128 = 1_000_000_000;

/// Nanoseconds in one minute.
pub const NANOS_PER_MINUTE: u128 = 60_000_000_000;

/// The time that has passed at `now` since `since`, in the model: the
/// difference of the two readings, and zero where `now` lies before `since`.
pub open spec fn elapsed(since: nat, now: nat) -> nat {
    if now >= since {
        (now - since) as nat
    } else {
        0
    }
}

/// A length of time. Its view is its length in nanoseconds.
#[derive(Clone, Copy, Debug, PartialEq, Eq, Structural)]
pub struct Span {
    pub nanos: u128,
}

impl View for Span {
    type V = nat;

    open spec fn view(&self) -> nat {
        self.nanos as nat
    }
}

impl Span {
    /// The empty span.
    pub fn zero() -> (span: Span)
        ensures
            span@ == 0,
    {
        Span { nanos: 0 }
    }

    /// A span of `nanos` nanoseconds.
    pub fn from_nanos(nanos: u128) -> (span: Span)
        ensures
            span@ == nanos,
    {
        Span { nanos }
    }

    /// A span of `millis` milliseconds.
    pub fn from_millis(millis: u64) -> (span: Span)
        ensures
            span@ == millis * NANOS_PER_MILLI,
    {
        let wide: u128 = millis as u128;
        Span { nanos: wide * NANOS_PER_MILLI }
    }

    /// A span of `secs` seconds.
    pub fn from_secs(secs: u64) -> (span: Span)
        ensures
            span@ == secs * NANOS_PER_SEC,
    {
        let wide: u128 = secs as u128;
        Span { nanos: wide * NANOS_PER_SEC }
    }

    /// A span of `minutes` minutes.
    pub fn from_minutes(minutes: u64) -> (span: Span)
        ensures
            span@ == minutes * NANOS_PER_MINUTE,
    {
        let wide: u128 = minutes as u128;
        Span { nanos: wide * NANOS_PER_MINUTE }
    }

    /// The span in nanoseconds.
    pub fn as_nanos(&self) -> (nanos: u128)
        ensures
            nanos == self@,
    {
        self.nanos
    }

    /// The whole minutes that the span holds; what is left of a minute is
    /// dropped.
    pub fn whole_minutes(&self) -> (minutes: u128)
        ensures
            minutes == self@ / (NANOS_PER_MINUTE as nat),
    {
        self.nanos / NANOS_PER_MINUTE
    }
}

/// A reading of the monotonic clock. Its view is the number of nanoseconds
/// between the start of the clock and the reading.
#[derive(Clone, Copy, Debug, PartialEq, Eq, Structural)]
pub struct Timestamp {
    pub nanos: u128,
}

impl View for Timestamp {
    type V = nat;

    open spec fn view(&self) -> nat {
        self.nanos as nat
    }
}

impl Timestamp {
    /// The reading `nanos` nanoseconds after the start of the clock.
    pub fn from_nanos(nanos: u128) -> (at: Timestamp)
        ensures
            at@ == nanos,
    {
        Timestamp { nanos }
    }

    /// The time from this reading to `now`; zero where `now` is the earlier
    /// of the two.
    pub fn elapsed_at(&self, now: Timestamp) -> (span: Span)
        ensures
            span@ == elapsed(self@, now@),
    {
        if now.nanos >= self.nanos {
            Span { nanos: now.nanos - self.nanos }
        } else {
            Span { nanos: 0 }
        }
    }
}

/// `std::time::Instant`: a measurement of the system's monotonic clock. It
/// is carried as it is; nothing is known of what it holds.
#[verifier::external_type_specification]
#[verifier::external_body]
pub struct ExInstant(Instant);

/// A monotonic clock that counts from the moment it was started. Its view is
/// its last reading; no reading is earlier than the one before it.
pub struct Clock {
    origin: Instant,
    last: Timestamp,
}

impl View for Clock {
    type V = nat;

    closed spec fn view(&self) -> nat {
        self.last@
    }
}

impl Clock {
    /// Starts a clock. Its readings count from now.
    pub fn start() -> (clock: Clock)
        ensures
            clock@ == 0,
    {
        Clock { origin: instant_now(), last: Timestamp { nanos: 0 } }
    }

    /// The last reading.
    pub fn last(&self) -> (last: Timestamp)
        ensures
            last@ == self@,
    {
        self.last
    }

    /// Reads the clock. The reading is not known in advance, but it is never
    /// earlier than the last one: where the system's clock hands out less,
    /// the last reading is given again.
    pub fn now(&mut self) -> (now: Timestamp)
        ensures
            now@ >= old(self)@,
            final(self)@ == now@,
    {
        let passed: u128 = nanos_since(&self.origin);
        if passed > self.last.nanos {
            self.last = Timestamp { nanos: passed };
        }
        self.last
    }
}

/// `std::time::Instant::now`: the current reading of the system's monotonic
/// clock. The result depends on when the call is made, so nothing is claimed
/// of it.
#[verifier::external_body]
fn instant_now() -> (instant: Instant) {
    Instant::now()
}

/// `std::time::Instant::elapsed` on `origin`, handed out in nanoseconds
/// (`Duration::as_nanos`). The result depends on when the call is made, so
/// nothing is claimed of it.
#[verifier::external_body]
fn nanos_since(origin: &Instant) -> (nanos: u128) {
    origin.elapsed().as_nanos()
}

} // verus!
