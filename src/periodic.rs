use vstd::prelude::*;

use crate::select::Poll;
use crate::sleep::GenericSleep;

verus! {

/// The schedule of a periodic loop: the time of its last logical tick and
/// its period, both in milliseconds.
pub ghost struct Schedule {
    pub baseline: nat,
    pub period: nat,
}

/// The next deadline of a schedule.
pub open spec fn next_deadline(s: Schedule) -> nat {
    s.baseline + s.period
}

/// One poll of a schedule at time `now`: when the deadline has come, the
/// baseline moves on by exactly one period, however late the poll is.
pub open spec fn poll_spec(s: Schedule, now: u64) -> (Schedule, bool) {
    if now >= next_deadline(s) {
        (Schedule { baseline: next_deadline(s), period: s.period }, true)
    } else {
        (s, false)
    }
}

/// Polls the schedule at each of the `times` in turn; gives the schedule
/// reached and how many polls fired.
pub open spec fn run_spec(s: Schedule, times: Seq<u64>) -> (Schedule, nat)
    decreases times.len(),
{
    if times.len() == 0 {
        (s, 0)
    } else {
        let (mid, fired) = run_spec(s, times.drop_last());
        let (last, hit) = poll_spec(mid, times.last());
        (last, if hit { fired + 1 } else { fired })
    }
}

/// A constant-period looping construct with drift correction: each tick is
/// scheduled one period after the previous logical tick, not after the time
/// at which the previous tick was handled.
pub struct Loop {
    last_time: u64,
    delta: u64,
}

impl View for Loop {
    type V = Schedule;

    closed spec fn view(&self) -> Schedule {
        Schedule { baseline: self.last_time as nat, period: self.delta as nat }
    }
}

impl Loop {
    /// A loop with period `delta` whose baseline is the current time `now`.
    pub fn new(delta: u64, now: u64) -> (r: Loop)
        ensures
            r@ == (Schedule { baseline: now as nat, period: delta as nat }),
    {
        Loop { last_time: now, delta }
    }

    /// The next deadline, when it can be expressed as a timestamp.
    pub fn deadline(&self) -> (r: Option<u64>)
        ensures
            r is Some <==> next_deadline(self@) <= u64::MAX,
            r is Some ==> r->0 == next_deadline(self@),
    {
        self.last_time.checked_add(self.delta)
    }

    /// The wait that ends at the next deadline. A deadline past the range
    /// of timestamps never comes; then only a notification ends the wait.
    pub fn sleep(&self) -> (r: GenericSleep)
        ensures
            next_deadline(self@) <= u64::MAX ==> r == GenericSleep::Timestamp(
                next_deadline(self@) as u64,
            ),
            next_deadline(self@) > u64::MAX ==> r == GenericSleep::NotifyTake(None),
    {
        match self.deadline() {
            Some(t) => GenericSleep::Timestamp(t),
            None => GenericSleep::NotifyTake(None),
        }
    }

    /// Polls the loop at time `now`: fires, and advances the baseline by one
    /// period, when the deadline has come.
    pub fn poll(&mut self, now: u64) -> (fired: bool)
        ensures
            (final(self)@, fired) == poll_spec(old(self)@, now),
    {
        match self.deadline() {
            Some(t) => {
                if now >= t {
                    self.last_time = t;
                    true
                } else {
                    false
                }
            },
            None => false,
        }
    }

    /// The loop as one candidate of a select at time `now`: ready when it
    /// fires, else pending on its next deadline.
    pub fn select(&mut self, now: u64) -> (r: Poll)
        ensures
            (final(self)@, r is Ready) == poll_spec(old(self)@, now),
            !(r is Ready) ==> final(self)@ == old(self)@ && r == Poll::Pending(
                if next_deadline(old(self)@) <= u64::MAX {
                    GenericSleep::Timestamp(next_deadline(old(self)@) as u64)
                } else {
                    GenericSleep::NotifyTake(None)
                },
            ),
    {
        if self.poll(now) {
            Poll::Ready
        } else {
            Poll::Pending(self.sleep())
        }
    }

    /// Moves on to the next cycle: returns the timestamp until which the
    /// caller sleeps, which is one period after the previous logical tick,
    /// and makes it the new baseline. `None` when that deadline lies past
    /// the range of timestamps; the loop is then left as it was.
    pub fn delay(&mut self) -> (r: Option<u64>)
        ensures
            next_deadline(old(self)@) <= u64::MAX ==> r == Some(
                next_deadline(old(self)@) as u64,
            ) && final(self)@ == (Schedule {
                baseline: next_deadline(old(self)@),
                period: old(self)@.period,
            }),
            next_deadline(old(self)@) > u64::MAX ==> r is None && final(self)@ == old(self)@,
    {
        let d = self.deadline();
        if let Some(t) = d {
            self.last_time = t;
        }
        d
    }
}

/// Drift correction: whatever the times at which a loop is polled, its
/// baseline after `n` firings is the first baseline plus `n` periods, so its
/// next deadline is the first baseline plus `n + 1` periods. Late handling of
/// one cycle never shifts the phase of the later deadlines.
pub proof fn lemma_drift_free(s: Schedule, times: Seq<u64>)
    ensures
        run_spec(s, times).0.period == s.period,
        run_spec(s, times).0.baseline == s.baseline + run_spec(s, times).1 * s.period,
        next_deadline(run_spec(s, times).0) == s.baseline + (run_spec(s, times).1 + 1) * s.period,
    decreases times.len(),
{
    if times.len() > 0 {
        lemma_drift_free(s, times.drop_last());
        let (mid, fired) = run_spec(s, times.drop_last());
        assert(mid.baseline + mid.period == s.baseline + (fired + 1) * s.period) by (nonlinear_arith)
            requires
                mid.baseline == s.baseline + fired * s.period,
                mid.period == s.period,
        ;
    }
    let (end, n) = run_spec(s, times);
    assert(end.baseline + end.period == s.baseline + (n + 1) * s.period) by (nonlinear_arith)
        requires
            end.baseline == s.baseline + n * s.period,
            end.period == s.period,
    ;
}

/// No catch-up burst: a poll fires at most once, and however late it comes,
/// it advances the baseline by exactly one period.
pub proof fn lemma_no_burst(s: Schedule, now: u64)
    ensures
        poll_spec(s, now).1 ==> poll_spec(s, now).0.baseline == s.baseline + s.period,
        !poll_spec(s, now).1 ==> poll_spec(s, now).0 == s,
{
}

} // verus!
