//! Elapsed time as an exact count of nanoseconds.

use vstd::prelude::*;

verus! {

/// Nanoseconds in one second.
pub const NANOS_PER_SEC: u128 = 1_000_000_000;

/// Nanoseconds in one millisecond.
pub const NANOS_PER_MILLI: u128 = 1_000_000;

/// The time between two readings of a clock, to the nanosecond.
///
/// Its view is the number of nanoseconds.
#[derive(Clone, Copy, Debug, PartialEq, Eq, Structural)]
pub struct Elapsed {
    pub nanos: u128,
}

impl View for Elapsed {
    type V = nat;

    open spec fn view(&self) -> nat {
        self.nanos as nat
    }
}

impl Elapsed {
    /// The time from the reading `start` to the reading `now`: their
    /// difference, and nothing where `now` lies before `start`.
    pub open spec fn spec_between(start: u128, now: u128) -> Elapsed {
        if now >= start {
            Elapsed { nanos: (now - start) as u128 }
        } else {
            Elapsed { nanos: 0 }
        }
    }

    /// A time of `millis` milliseconds.
    pub open spec fn spec_from_millis(millis: u64) -> Elapsed {
        Elapsed { nanos: (millis * NANOS_PER_MILLI) as u128 }
    }

    /// The whole seconds in this time.
    pub open spec fn spec_secs(self) -> nat {
        self@ / (NANOS_PER_SEC as nat)
    }

    /// What is left of this time, in nanoseconds, once the whole seconds are
    /// taken away.
    pub open spec fn spec_subsec_nanos(self) -> nat {
        self@ % (NANOS_PER_SEC as nat)
    }

    /// No time at all.
    pub fn zero() -> (e: Elapsed)
        ensures
            e@ == 0,
    {
        Elapsed { nanos: 0 }
    }

    /// A time of `nanos` nanoseconds.
    pub fn from_nanos(nanos: u128) -> (e: Elapsed)
        ensures
            e@ == nanos,
    {
        Elapsed { nanos }
    }

    /// A time of `millis` milliseconds.
    pub fn from_millis(millis: u64) -> (e: Elapsed)
        ensures
            e == Elapsed::spec_from_millis(millis),
            e@ == millis * NANOS_PER_MILLI,
    {
        let wide: u128 = millis as u128;
        Elapsed { nanos: wide * NANOS_PER_MILLI }
    }

    /// The time from the reading `start` to the reading `now`. A clock that
    /// never runs backwards gives `now >= start`; where it does not hold the
    /// time is zero.
    pub fn between(start: u128, now: u128) -> (e: Elapsed)
        ensures
            e == Elapsed::spec_between(start, now),
            now >= start ==> e@ == now - start,
            now < start ==> e@ == 0,
    {
        if now >= start {
            Elapsed { nanos: now - start }
        } else {
            Elapsed { nanos: 0 }
        }
    }

    /// This time in nanoseconds.
    pub fn as_nanos(&self) -> (n: u128)
        ensures
            n == self@,
    {
        self.nanos
    }

    /// The whole seconds in this time.
    pub fn as_secs(&self) -> (s: u128)
        ensures
            s == self.spec_secs(),
    {
        self.nanos / NANOS_PER_SEC
    }

    /// The part of this time below one second, in nanoseconds.
    pub fn subsec_nanos(&self) -> (n: u32)
        ensures
            n == self.spec_subsec_nanos(),
            n < NANOS_PER_SEC,
    {
        let rest: u128 = self.nanos % NANOS_PER_SEC;
        rest as u32
    }
}

} // verus!
