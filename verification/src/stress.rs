//! Putting the queue under load: where the jobs go, and what their durations amount to.
use core::time::Duration;
use crate::decimal::{notation, to_notation};
use crate::duration::{nanos, shorter};
use vstd::prelude::*;
use vstd::seq_lib::*;

verus! {

/// The channel on which the job with the given number is spawned: its name and its arguments.
/// Every third job goes to one channel and the others to another, in groups of 32.
pub fn start_job(seed: usize) -> (channel: (&'static str, String))
    ensures
        channel.0@ == (if seed % 3 == 0 {
            "foo"@
        } else {
            "bar"@
        }),
        channel.1@ == notation((seed / 32) as nat),
{
    let name = if seed % 3 == 0 {
        "foo"
    } else {
        "bar"
    };
    (name, to_notation(seed / 32))
}

/// What a number of durations amount to.
#[derive(Debug)]
pub struct Summary {
    pub min: Duration,
    pub max: Duration,
    pub median: Duration,
    /// The duration below which nineteen out of twenty are.
    pub pct: Duration,
}

/// Says that durations are in order of their length.
pub open spec fn in_order(v: Seq<Duration>) -> bool {
    forall|i: int, j: int|
        0 <= i <= j < v.len() ==> nanos(#[trigger] v[i]) <= nanos(#[trigger] v[j])
}

/// Puts durations in order of their length.
pub fn sort(v: &Vec<Duration>) -> (sorted: Vec<Duration>)
    ensures
        in_order(sorted@),
        sorted@.to_multiset() == v@.to_multiset(),
{
    let mut sorted: Vec<Duration> = Vec::new();
    assert(sorted@ == v@.take(0));
    for i in 0..v.len()
        invariant
            in_order(sorted@),
            sorted@.to_multiset() == v@.take(i as int).to_multiset(),
    {
        let x = v[i];
        let mut k: usize = 0;
        while k < sorted.len() && !shorter(x, sorted[k])
            invariant
                k <= sorted@.len(),
                forall|j: int| 0 <= j < k ==> nanos(#[trigger] sorted@[j]) <= nanos(x),
            ensures
                k <= sorted@.len(),
                forall|j: int| 0 <= j < k ==> nanos(#[trigger] sorted@[j]) <= nanos(x),
                k < sorted@.len() ==> nanos(x) < nanos(sorted@[k as int]),
            decreases sorted@.len() - k,
        {
            k += 1;
        }
        let ghost before = sorted@;
        sorted.insert(k, x);
        proof {
            to_multiset_insert(before, k as int, x);
            to_multiset_build(v@.take(i as int), x);
            assert(v@.take(i + 1) == v@.take(i as int).push(x));
        }
    }
    assert(v@.take(v@.len() as int) == v@);
    sorted
}

/// Says that a summary is that of durations which are in order.
pub open spec fn is_summary(summary: Summary, sorted: Seq<Duration>) -> bool {
    &&& summary.min == sorted[0]
    &&& summary.max == sorted[sorted.len() - 1]
    &&& summary.median == sorted[sorted.len() as int / 2]
    &&& summary.pct == sorted[(sorted.len() * 19) as int / 20]
}

/// The shortest duration comes before the median, that before the one below which nineteen out
/// of twenty are, and that before the longest.
pub proof fn law_summary_in_order(summary: Summary, sorted: Seq<Duration>)
    requires
        sorted.len() > 0,
        in_order(sorted),
        is_summary(summary, sorted),
    ensures
        nanos(summary.min) <= nanos(summary.median) <= nanos(summary.pct) <= nanos(summary.max),
{
}

/// The shortest and the longest duration bound all the others. Half of the durations come before
/// the median, and nineteen out of twenty before the fourth one, each rounded down to a whole
/// number of durations.
pub proof fn law_summary_of_every_length(summary: Summary, sorted: Seq<Duration>)
    requires
        sorted.len() > 0,
        in_order(sorted),
        is_summary(summary, sorted),
    ensures
        forall|i: int|
            0 <= i < sorted.len() ==> nanos(summary.min) <= nanos(#[trigger] sorted[i]) <= nanos(
                summary.max,
            ),
        sorted.contains(summary.min),
        sorted.contains(summary.max),
        exists|k: int|
            0 <= k < sorted.len() && #[trigger] sorted[k] == summary.median && 2 * k
                <= sorted.len() < 2 * k + 2,
        exists|k: int|
            0 <= k < sorted.len() && #[trigger] sorted[k] == summary.pct && 20 * k <= 19
                * sorted.len() < 20 * k + 20,
{
    assert(sorted[0] == summary.min);
    assert(sorted[sorted.len() - 1] == summary.max);
    assert(sorted[sorted.len() as int / 2] == summary.median);
    assert(sorted[(sorted.len() * 19) as int / 20] == summary.pct);
}

/// Durations are in order exactly where none is followed by a shorter one.
pub proof fn law_in_order(v: Seq<Duration>)
    ensures
        in_order(v) <==> forall|i: int, j: int|
            0 <= i < j < v.len() ==> !(nanos(#[trigger] v[j]) < nanos(#[trigger] v[i])),
{
}

/// Sums durations up.
pub fn summarize(v: &Vec<Duration>) -> (summary: Summary)
    requires
        0 < v@.len(),
        v@.len() * 19 <= usize::MAX,
    ensures
        exists|sorted: Seq<Duration>|
            in_order(sorted) && sorted.to_multiset() == v@.to_multiset() && #[trigger] is_summary(
                summary,
                sorted,
            ),
{
    let sorted = sort(v);
    let n: usize = sorted.len();
    proof {
        to_multiset_len(sorted@);
        to_multiset_len(v@);
    }
    let summary = Summary {
        min: sorted[0],
        max: sorted[n - 1],
        median: sorted[n / 2],
        pct: sorted[n * 19 / 20],
    };
    assert(is_summary(summary, sorted@));
    summary
}

} // verus!
