//! A producer wrapped so that its values come out paced.
use vstd::prelude::*;

use vstd::std_specs::iter::IteratorSpec;

use crate::pacing::{elapsed_ticks, remaining_wait, wait_ticks};

verus! {

/// Any producer can be wrapped in place into its paced form.
pub trait TimeIter: Sized {
    /// Wraps `self`, paced at `dur` ticks, with `now` as the reference
    /// instant of the first pull.
    fn timed(self, dur: u64, now: u64) -> (r: TimedIterator<Self>)
        ensures
            r.producer() == self,
            r.interval() == dur,
            r.last_call() == now,
    ;
}

impl<I: Iterator> TimeIter for I {
    fn timed(self, dur: u64, now: u64) -> (r: TimedIterator<Self>) {
        TimedIterator::from_iter(self, dur, now)
    }
}

/// What one pull of a paced producer answers.
pub enum Pull<T> {
    /// Too early: wait this many ticks, then pull again.
    Wait(u64),
    /// The wrapped producer's own answer: its next value, or `None` at its end.
    Ready(Option<T>),
}

/// A producer whose values come out at least `interval` ticks apart.
///
/// The reference instant is the clock reading at construction until the
/// first value is handed out, then the reading at which the latest pull was
/// answered with the producer's own result.
pub struct TimedIterator<I> {
    inner: I,
    last_call: u64,
    duration: u64,
}

impl<I> TimedIterator<I> {
    /// The wrapped producer.
    pub closed spec fn producer(&self) -> I {
        self.inner
    }

    /// The minimum interval between two values, in ticks.
    pub closed spec fn interval(&self) -> nat {
        self.duration as nat
    }

    /// The clock reading of the latest emission, or of construction.
    pub closed spec fn last_call(&self) -> nat {
        self.last_call as nat
    }

    /// The wait owed by a pull at clock reading `now`.
    pub open spec fn wait_at(&self, now: nat) -> nat {
        wait_ticks(self.interval(), self.last_call(), now)
    }
}

impl<I: Iterator> TimedIterator<I> {
    /// Wraps `iter`, paced at `dur` ticks, with `now` as the reference
    /// instant of the first pull.
    pub fn from_iter(iter: I, dur: u64, now: u64) -> (r: Self)
        ensures
            r.producer() == iter,
            r.interval() == dur,
            r.last_call() == now,
    {
        TimedIterator { inner: iter, last_call: now, duration: dur }
    }

    /// Pulls at clock reading `now`.
    ///
    /// Where less than the interval has passed since the reference instant,
    /// nothing changes and the answer is the time left to wait. Otherwise
    /// `now` becomes the reference instant and the wrapped producer's next
    /// result is handed back unchanged.
    pub fn next(&mut self, now: u64) -> (r: Pull<I::Item>)
        ensures
            (r is Wait) <==> old(self).wait_at(now as nat) > 0,
            r is Wait ==> r->Wait_0 == old(self).wait_at(now as nat) && *final(self) == *old(self),
            r is Ready ==> {
                &&& elapsed_ticks(old(self).last_call(), now as nat) >= old(self).interval()
                &&& final(self).last_call() == now
                &&& final(self).interval() == old(self).interval()
                &&& final(self).producer().obeys_prophetic_iter_laws()
                    == old(self).producer().obeys_prophetic_iter_laws()
                &&& old(self).producer().obeys_prophetic_iter_laws() ==> {
                    if old(self).producer().remaining().len() > 0 {
                        &&& r->Ready_0 == Some(old(self).producer().remaining()[0])
                        &&& final(self).producer().remaining()
                            == old(self).producer().remaining().drop_first()
                    } else {
                        &&& r->Ready_0 is None
                        &&& final(self).producer().remaining()
                            == old(self).producer().remaining()
                    }
                }
            },
            old(self).interval() == 0 ==> r is Ready,
    {
        let wait = remaining_wait(self.duration, self.last_call, now);
        if wait > 0 {
            return Pull::Wait(wait);
        }
        self.last_call = now;
        Pull::Ready(self.inner.next())
    }
}

} // verus!
