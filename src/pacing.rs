//! The pacing rule on clock readings.
//!
//! All times are ticks of one monotonic clock, in any one unit (the blocking
//! adapter around this library uses nanoseconds).
use vstd::prelude::*;

verus! {

/// Time that has passed from `since` to `now`; zero when `now` is not later.
pub open spec fn elapsed_ticks(since: nat, now: nat) -> nat {
    if now >= since {
        (now - since) as nat
    } else {
        0
    }
}

/// Time still to wait at `now` before a value may follow one handed out at
/// `since`; zero once `interval` has passed.
pub open spec fn wait_ticks(interval: nat, since: nat, now: nat) -> nat {
    let elapsed = elapsed_ticks(since, now);
    if elapsed >= interval {
        0
    } else {
        (interval - elapsed) as nat
    }
}

/// The wait owed at clock reading `now` by a producer paced at `interval`
/// whose last value was handed out at `since`.
pub fn remaining_wait(interval: u64, since: u64, now: u64) -> (r: u64)
    ensures
        r == wait_ticks(interval as nat, since as nat, now as nat),
{
    let elapsed: u64 = if now >= since {
        now - since
    } else {
        0
    };
    if elapsed >= interval {
        0
    } else {
        interval - elapsed
    }
}

/// Taking the wait that the rule asks for is enough: a pull at the end of
/// that wait owes no more, and it comes at least `interval` after `since`.
/// Where the interval has already passed at `asked`, no wait is owed.
pub proof fn lemma_wait_then_ready(interval: nat, since: nat, asked: nat)
    requires
        since <= asked,
    ensures
        wait_ticks(interval, since, asked + wait_ticks(interval, since, asked)) == 0,
        asked + wait_ticks(interval, since, asked) - since >= interval,
        asked - since >= interval ==> wait_ticks(interval, since, asked) == 0,
{
}

/// Time the caller spends between two pulls is credited against the next
/// wait: after `work` ticks the wait is `interval - work`, and nothing once
/// the work took the whole interval or more (no catch-up).
pub proof fn lemma_work_credited(interval: nat, since: nat, work: nat)
    ensures
        work < interval ==> wait_ticks(interval, since, since + work) == interval - work,
        work >= interval ==> wait_ticks(interval, since, since + work) == 0,
{
}

/// Clock reading of the last emission of a run that starts at `start`,
/// where before pull `i` the caller spends `works[i]` ticks after the
/// previous emission (or after `start`), and each wait that the pacer asks
/// for is taken exactly.
pub open spec fn paced_finish(interval: nat, start: nat, works: Seq<nat>) -> nat
    decreases works.len(),
{
    if works.len() == 0 {
        start
    } else {
        let prev = paced_finish(interval, start, works.drop_last());
        let asked = prev + works.last();
        asked + wait_ticks(interval, prev, asked)
    }
}

/// Sum over the pulls of a run of the larger of `interval` and the work
/// the caller did before the pull.
pub open spec fn paced_span(interval: nat, works: Seq<nat>) -> nat
    decreases works.len(),
{
    if works.len() == 0 {
        0
    } else {
        paced_span(interval, works.drop_last()) + if works.last() >= interval {
            works.last()
        } else {
            interval
        }
    }
}

/// A paced run takes, pull by pull, the interval or the caller's own work,
/// whichever is longer, and never their sum. So where the caller's work
/// before each pull stays within the interval, `n` pulls end exactly
/// `n` intervals after the start.
pub proof fn lemma_paced_run(interval: nat, start: nat, works: Seq<nat>)
    ensures
        paced_finish(interval, start, works) == start + paced_span(interval, works),
        (forall|i: int| 0 <= i < works.len() ==> works[i] <= interval) ==> paced_finish(
            interval,
            start,
            works,
        ) == start + works.len() * interval,
    decreases works.len(),
{
    if works.len() > 0 {
        let rest = works.drop_last();
        lemma_paced_run(interval, start, rest);
        if forall|i: int| 0 <= i < works.len() ==> works[i] <= interval {
            assert forall|i: int| 0 <= i < rest.len() implies rest[i] <= interval by {
                assert(rest[i] == works[i]);
            }
            assert(works.last() == works[works.len() - 1]);
            let n = rest.len();
            assert(n * interval + interval == (n + 1) * interval) by (nonlinear_arith);
        }
    }
}

} // verus!
