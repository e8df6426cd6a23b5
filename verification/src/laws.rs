//! What holds of starting, measuring and stopping, for every registry, label
//! and clock reading.
//!
//! The statements are over the registry that a [`Timer`](crate::timer::Timer)
//! has as its view: starting a label at a reading is `insert`, stopping it is
//! `remove`, and measuring it is [`measure`].

use crate::elapsed::{Elapsed, NANOS_PER_MILLI};
use crate::timer::{measure, Measurement};
use vstd::prelude::*;

verus! {

/// A label that was started at `start` and is measured at a later reading
/// `now` has run for exactly `now - start`. Measured at once, it has run for
/// no time at all.
pub proof fn lemma_measures_time_since_start(
    registry: Map<Seq<char>, u128>,
    label: Seq<char>,
    start: u128,
    now: u128,
)
    requires
        start <= now,
    ensures
        measure(registry.insert(label, start), label, now) is Measured,
        measure(registry.insert(label, start), label, now).spec_elapsed()@ == now - start,
        measure(registry.insert(label, start), label, start).spec_elapsed()@ == 0,
{
}

/// Stopping takes the label out: measuring it afterwards, at any reading,
/// finds nothing and counts as zero, and stopping it once more leaves the
/// registry as it is.
pub proof fn lemma_stopped_label_is_not_found(
    registry: Map<Seq<char>, u128>,
    label: Seq<char>,
    now: u128,
)
    ensures
        !registry.remove(label).contains_key(label),
        measure(registry.remove(label), label, now) == Measurement::NotFound,
        measure(registry.remove(label), label, now).spec_elapsed()@ == 0,
        registry.remove(label).remove(label) == registry.remove(label),
{
    assert(registry.remove(label).remove(label) =~= registry.remove(label));
}

/// Measuring leaves the label running, so a running label can be measured
/// twice; where the clock has not run backwards between the two, the second
/// measurement is no shorter than the first.
pub proof fn lemma_measuring_again_is_no_shorter(
    registry: Map<Seq<char>, u128>,
    label: Seq<char>,
    first: u128,
    second: u128,
)
    requires
        registry.contains_key(label),
        first <= second,
    ensures
        measure(registry, label, first) is Measured,
        measure(registry, label, second) is Measured,
        measure(registry, label, first).spec_elapsed()@ <= measure(
            registry,
            label,
            second,
        ).spec_elapsed()@,
{
}

/// Starting a running label again forgets the earlier start. Measured at the
/// same reading, the label has then run no longer than it would have from the
/// earlier start, and strictly shorter where the clock moved between the two
/// starts and the reading is not before the later one.
pub proof fn lemma_restart_resets_the_origin(
    registry: Map<Seq<char>, u128>,
    label: Seq<char>,
    earlier: u128,
    later: u128,
    now: u128,
)
    requires
        earlier <= later,
    ensures
        registry.insert(label, earlier).insert(label, later) == registry.insert(label, later),
        measure(registry.insert(label, earlier).insert(label, later), label, now).spec_elapsed()@
            <= measure(registry.insert(label, earlier), label, now).spec_elapsed()@,
        earlier < later <= now ==> measure(
            registry.insert(label, earlier).insert(label, later),
            label,
            now,
        ).spec_elapsed()@ < measure(registry.insert(label, earlier), label, now).spec_elapsed()@,
{
    assert(registry.insert(label, earlier).insert(label, later) =~= registry.insert(label, later));
}

/// Starting or stopping one label changes nothing for another: the other
/// label measures as before, and two such steps on different labels give the
/// same registry in either order.
pub proof fn lemma_distinct_labels_do_not_interfere(
    registry: Map<Seq<char>, u128>,
    label: Seq<char>,
    other: Seq<char>,
    start: u128,
    other_start: u128,
    now: u128,
)
    requires
        label != other,
    ensures
        measure(registry.insert(other, other_start), label, now) == measure(registry, label, now),
        measure(registry.remove(other), label, now) == measure(registry, label, now),
        registry.insert(label, start).insert(other, other_start) == registry.insert(
            other,
            other_start,
        ).insert(label, start),
        registry.insert(label, start).remove(other) == registry.remove(other).insert(label, start),
        registry.remove(label).remove(other) == registry.remove(other).remove(label),
{
    assert(registry.insert(label, start).insert(other, other_start) =~= registry.insert(
        other,
        other_start,
    ).insert(label, start));
    assert(registry.insert(label, start).remove(other) =~= registry.remove(other).insert(
        label,
        start,
    ));
    assert(registry.remove(label).remove(other) =~= registry.remove(other).remove(label));
}

/// A whole number of milliseconds is kept exactly: its seconds times one
/// thousand and its nanoseconds below the second, taken by the million, add up
/// to that number, and no part of a millisecond is left over.
pub proof fn lemma_whole_millis_are_exact(millis: u64)
    ensures
        Elapsed::spec_from_millis(millis)@ == millis * NANOS_PER_MILLI,
        Elapsed::spec_from_millis(millis).spec_secs() * 1000 + Elapsed::spec_from_millis(
            millis,
        ).spec_subsec_nanos() / (NANOS_PER_MILLI as nat) == millis,
        Elapsed::spec_from_millis(millis).spec_subsec_nanos() % (NANOS_PER_MILLI as nat) == 0,
{
}

} // verus!
