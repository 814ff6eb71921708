use vstd::prelude::*;

verus! {

/// How a task should block: not at all, until an absolute timestamp (in
/// milliseconds), or until notified, optionally with a timestamp at which to
/// give up waiting.
#[derive(Clone, Copy, Debug, PartialEq, Eq, Structural)]
pub enum GenericSleep {
    Ready,
    Timestamp(u64),
    NotifyTake(Option<u64>),
}

/// The deadline of a wait, if it has one. A ready wait has none: it does
/// not block at all.
pub open spec fn deadline(s: GenericSleep) -> Option<u64> {
    match s {
        GenericSleep::Ready => None,
        GenericSleep::Timestamp(t) => Some(t),
        GenericSleep::NotifyTake(t) => t,
    }
}

/// Whether a notification ends the wait.
pub open spec fn wakes_on_notify(s: GenericSleep) -> bool {
    s is NotifyTake
}

/// The earlier of two optional deadlines, where `None` means "never".
pub open spec fn earliest(a: Option<u64>, b: Option<u64>) -> Option<u64> {
    match (a, b) {
        (Some(x), Some(y)) => Some(if x <= y { x } else { y }),
        (Some(x), None) => Some(x),
        (None, _) => b,
    }
}

/// The wait that ends at the earliest of two waits: no wait if either is
/// ready, else on any notification either accepts, or at the nearer deadline.
pub open spec fn combine_spec(a: GenericSleep, b: GenericSleep) -> GenericSleep {
    if a is Ready || b is Ready {
        GenericSleep::Ready
    } else if wakes_on_notify(a) || wakes_on_notify(b) {
        GenericSleep::NotifyTake(earliest(deadline(a), deadline(b)))
    } else {
        GenericSleep::Timestamp(earliest(deadline(a), deadline(b))->0)
    }
}

/// The wait that ends at the earliest of all the waits of `s`; with no wait
/// at all, the task waits for a notification without a deadline.
pub open spec fn merge_spec(s: Seq<GenericSleep>) -> GenericSleep
    decreases s.len(),
{
    if s.len() == 0 {
        GenericSleep::NotifyTake(None)
    } else if s.len() == 1 {
        s[0]
    } else {
        combine_spec(merge_spec(s.drop_last()), s.last())
    }
}

/// How long a wait blocks when it starts at `now`, in milliseconds; `None`
/// for no timeout. A deadline already passed gives zero.
pub open spec fn block_ms_spec(s: GenericSleep, now: u64) -> Option<u64> {
    match s {
        GenericSleep::Ready => Some(0),
        _ => match deadline(s) {
            Some(t) => Some(if t >= now { (t - now) as u64 } else { 0 }),
            None => None,
        },
    }
}

fn earliest_of(a: Option<u64>, b: Option<u64>) -> (r: Option<u64>)
    ensures
        r == earliest(a, b),
{
    match (a, b) {
        (Some(x), Some(y)) => Some(if x <= y { x } else { y }),
        (Some(x), None) => Some(x),
        (None, _) => b,
    }
}

impl GenericSleep {
    /// The deadline of this wait, if any.
    pub fn timeout(&self) -> (r: Option<u64>)
        ensures
            r == deadline(*self),
    {
        match self {
            GenericSleep::Ready => None,
            GenericSleep::Timestamp(t) => Some(*t),
            GenericSleep::NotifyTake(t) => *t,
        }
    }

    /// Combines two waits into one that ends when the first of them would.
    pub fn combine(self, other: GenericSleep) -> (r: GenericSleep)
        ensures
            r == combine_spec(self, other),
    {
        match (self, other) {
            (GenericSleep::Ready, _) | (_, GenericSleep::Ready) => GenericSleep::Ready,
            (GenericSleep::Timestamp(a), GenericSleep::Timestamp(b)) => {
                GenericSleep::Timestamp(if a <= b { a } else { b })
            },
            _ => GenericSleep::NotifyTake(earliest_of(self.timeout(), other.timeout())),
        }
    }

    /// How long the wait blocks when it starts at `now`, in milliseconds;
    /// `None` when only a notification ends it.
    pub fn block_ms(&self, now: u64) -> (r: Option<u64>)
        ensures
            r == block_ms_spec(*self, now),
    {
        match self {
            GenericSleep::Ready => Some(0),
            _ => match self.timeout() {
                Some(t) => Some(if t >= now { t - now } else { 0 }),
                None => None,
            },
        }
    }
}

/// Merges the waits of several candidates into one wait.
pub fn merge_all(sleeps: &Vec<GenericSleep>) -> (r: GenericSleep)
    ensures
        r == merge_spec(sleeps@),
{
    if sleeps.len() == 0 {
        return GenericSleep::NotifyTake(None);
    }
    let mut acc = sleeps[0];
    let mut i: usize = 1;
    while i < sleeps.len()
        invariant
            1 <= i <= sleeps@.len(),
            acc == merge_spec(sleeps@.take(i as int)),
        decreases sleeps@.len() - i,
    {
        assert(sleeps@.take(i as int + 1).drop_last() =~= sleeps@.take(i as int));
        acc = acc.combine(sleeps[i]);
        i = i + 1;
    }
    assert(sleeps@.take(sleeps@.len() as int) =~= sleeps@);
    acc
}

/// A merged wait is ready exactly when one of its parts is; it wakes on a
/// notification whenever one of its parts does; and it never ends later
/// than the nearest deadline among its parts.
pub proof fn lemma_merge_earliest(s: Seq<GenericSleep>, k: int)
    requires
        0 <= k < s.len(),
    ensures
        s[k] is Ready ==> merge_spec(s) is Ready,
        wakes_on_notify(s[k]) ==> merge_spec(s) is Ready || wakes_on_notify(merge_spec(s)),
        deadline(s[k]) is Some ==> merge_spec(s) is Ready || (deadline(merge_spec(s)) is Some
            && deadline(merge_spec(s))->0 <= deadline(s[k])->0),
    decreases s.len(),
{
    if s.len() > 1 && k < s.len() - 1 {
        lemma_merge_earliest(s.drop_last(), k);
        assert(s.drop_last()[k] == s[k]);
    }
}

/// A merged wait is ready only when one of its parts is.
pub proof fn lemma_merge_ready(s: Seq<GenericSleep>)
    requires
        merge_spec(s) is Ready,
    ensures
        exists|k: int| 0 <= k < s.len() && s[k] is Ready,
    decreases s.len(),
{
    if s.len() > 1 {
        if merge_spec(s.drop_last()) is Ready {
            lemma_merge_ready(s.drop_last());
            let k = choose|k: int| 0 <= k < s.drop_last().len() && s.drop_last()[k] is Ready;
            assert(s[k] is Ready);
        } else {
            assert(s[s.len() - 1] is Ready);
        }
    } else {
        assert(s[0] is Ready);
    }
}

} // verus!
