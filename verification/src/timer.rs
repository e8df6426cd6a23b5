//! The registry of running labels.

use crate::clock::Clock;
use crate::elapsed::Elapsed;
use vstd::hash_map::StringHashMap;
use vstd::prelude::*;

verus! {

/// What measuring a label gives.
#[derive(Clone, Copy, Debug, PartialEq, Eq, Structural)]
pub enum Measurement {
    /// The label is running, and this much time has passed since it was
    /// started.
    Measured(Elapsed),
    /// No such label is running.
    NotFound,
}

impl Measurement {
    /// The time that this measurement stands for: the measured time, and zero
    /// where the label was not found.
    pub open spec fn spec_elapsed(self) -> Elapsed {
        match self {
            Measurement::Measured(e) => e,
            Measurement::NotFound => Elapsed { nanos: 0 },
        }
    }

    /// Whether the label was there.
    pub fn found(&self) -> (b: bool)
        ensures
            b == (*self is Measured),
    {
        match self {
            Measurement::Measured(_) => true,
            Measurement::NotFound => false,
        }
    }

    /// The time that this measurement stands for. A label that was not found
    /// counts as zero: a missing label is no reason to fail.
    pub fn elapsed(&self) -> (e: Elapsed)
        ensures
            e == self.spec_elapsed(),
            *self is NotFound ==> e@ == 0,
    {
        match self {
            Measurement::Measured(e) => *e,
            Measurement::NotFound => Elapsed::zero(),
        }
    }
}

/// What measuring `label` at the clock reading `now` gives in the registry
/// `registry`, which maps each running label to the reading at which it was
/// started.
pub open spec fn measure(registry: Map<Seq<char>, u128>, label: Seq<char>, now: u128) -> Measurement {
    if registry.contains_key(label) {
        Measurement::Measured(Elapsed::spec_between(registry[label], now))
    } else {
        Measurement::NotFound
    }
}

/// A set of labeled stopwatches on one clock.
///
/// Its view is the registry: a map from each running label to the reading of
/// the clock, in nanoseconds, at which the label was last started.
pub struct Timer {
    clock: Clock,
    timers: StringHashMap<u128>,
}

impl View for Timer {
    type V = Map<Seq<char>, u128>;

    closed spec fn view(&self) -> Map<Seq<char>, u128> {
        self.timers@
    }
}

impl Timer {
    /// A timer on which nothing is running.
    pub fn new() -> (timer: Timer)
        ensures
            timer@ == Map::<Seq<char>, u128>::empty(),
    {
        Timer { clock: Clock::new(), timers: StringHashMap::new() }
    }

    /// The present reading of this timer's clock, in nanoseconds. The readings
    /// handed to `time_at`, `time_log_at` and `time_end_at` are of this kind.
    pub fn now(&self) -> u128 {
        self.clock.now()
    }

    /// Whether nothing is running.
    pub fn is_empty(&self) -> (b: bool)
        ensures
            b == (forall|label: Seq<char>| !self@.contains_key(label)),
    {
        let b = self.timers.is_empty();
        proof {
            if !b && (forall|label: Seq<char>| !self@.contains_key(label)) {
                assert(self@.dom() =~= Set::<Seq<char>>::empty());
            }
        }
        b
    }

    /// Whether `label` is running.
    pub fn is_running(&self, label: &str) -> (b: bool)
        ensures
            b == self@.contains_key(label@),
    {
        self.timers.contains_key(label)
    }

    /// Starts `label` at the clock reading `now`. A label that was already
    /// running starts afresh from `now`; no other label is touched.
    pub fn time_at(&mut self, label: &str, now: u128)
        ensures
            final(self)@ == old(self)@.insert(label@, now),
    {
        self.timers.insert(String::from_str(label), now);
    }

    /// Starts `label` at the present reading of the clock.
    ///
    /// Whatever the clock says, `label` is running afterwards and every other
    /// label is as it was.
    pub fn time(&mut self, label: &str)
        ensures
            exists|now: u128| final(self)@ == #[trigger] old(self)@.insert(label@, now),
    {
        let now: u128 = self.clock.now();
        self.time_at(label, now);
    }

    /// Measures `label` at the clock reading `now` and leaves it running.
    pub fn time_log_at(&self, label: &str, now: u128) -> (m: Measurement)
        ensures
            m == measure(self@, label@, now),
    {
        match self.timers.get(label) {
            Some(start) => Measurement::Measured(Elapsed::between(*start, now)),
            None => Measurement::NotFound,
        }
    }

    /// Measures `label` at the present reading of the clock and leaves it
    /// running.
    ///
    /// Whatever the clock says, the label is found exactly if it is running.
    pub fn time_log(&self, label: &str) -> (m: Measurement)
        ensures
            exists|now: u128| m == #[trigger] measure(self@, label@, now),
            m is Measured <==> self@.contains_key(label@),
    {
        let now: u128 = self.clock.now();
        self.time_log_at(label, now)
    }

    /// Measures `label` at the clock reading `now` and stops it. A label that
    /// is not running is reported as not found, and the registry stays as it
    /// was.
    pub fn time_end_at(&mut self, label: &str, now: u128) -> (m: Measurement)
        ensures
            m == measure(old(self)@, label@, now),
            final(self)@ == old(self)@.remove(label@),
    {
        let m = self.time_log_at(label, now);
        self.timers.remove(label);
        m
    }

    /// Measures `label` at the present reading of the clock and stops it.
    ///
    /// Whatever the clock says, the label is found exactly if it was running,
    /// and it is not running afterwards.
    pub fn time_end(&mut self, label: &str) -> (m: Measurement)
        ensures
            exists|now: u128| m == #[trigger] measure(old(self)@, label@, now),
            m is Measured <==> old(self)@.contains_key(label@),
            final(self)@ == old(self)@.remove(label@),
    {
        let now: u128 = self.clock.now();
        self.time_end_at(label, now)
    }
}

impl Default for Timer {
    /// A timer on which nothing is running.
    fn default() -> (timer: Timer)
        ensures
            timer@ == Map::<Seq<char>, u128>::empty(),
    {
        Timer::new()
    }
}

} // verus!
