use vstd::prelude::*;

use crate::sleep::{combine_spec, merge_spec, GenericSleep};

verus! {

/// What polling one candidate of a select gave: it is ready, or it is
/// pending with the wait that would end its pending state.
#[derive(Clone, Copy, Debug, PartialEq, Eq, Structural)]
pub enum Poll {
    Ready,
    Pending(GenericSleep),
}

/// The waits of the candidates, in order; a ready candidate counts as a
/// wait that does not block.
pub open spec fn sleeps_of(s: Seq<Poll>) -> Seq<GenericSleep> {
    s.map_values(|p: Poll| match p {
        Poll::Ready => GenericSleep::Ready,
        Poll::Pending(g) => g,
    })
}

/// The wait merged so far, with the wait `g` of one more pending candidate.
pub open spec fn absorb(acc: Option<GenericSleep>, g: GenericSleep) -> GenericSleep {
    match acc {
        None => g,
        Some(a) => combine_spec(a, g),
    }
}

/// A select that has polled the candidates before `i`, all pending, with
/// their merged wait `acc`, goes on from candidate `i`. The candidates are
/// polled one at a time in declaration order, and polling stops at the
/// first ready one: `Ok` names it; `Err` gives the merged wait of all of
/// them when none is ready (`None` when there are none).
pub open spec fn outcome_from(s: Seq<Poll>, i: int, acc: Option<GenericSleep>) -> Result<int, Option<GenericSleep>>
    decreases s.len() - i,
{
    if i < 0 || i >= s.len() {
        Err(acc)
    } else {
        match s[i] {
            Poll::Ready => Ok(i),
            Poll::Pending(g) => outcome_from(s, i + 1, Some(absorb(acc, g))),
        }
    }
}

/// The outcome of a select whose candidates would poll as `s`.
pub open spec fn outcome(s: Seq<Poll>) -> Result<int, Option<GenericSleep>> {
    outcome_from(s, 0, None)
}

/// One step of a select: candidate `i` polled as `p`, after candidates
/// that were all pending with merged wait `acc`. A ready candidate ends the
/// select (`Ok(i)`), and the later candidates are not polled at all, so
/// their state is left as it was. A pending one adds its wait (`Err`).
pub fn select_next(acc: Option<GenericSleep>, i: usize, p: Poll) -> (r: Result<usize, GenericSleep>)
    ensures
        p is Ready ==> r == Ok::<usize, GenericSleep>(i),
        p matches Poll::Pending(g) ==> r == Err::<usize, GenericSleep>(absorb(acc, g)),
{
    match p {
        Poll::Ready => Ok(i),
        Poll::Pending(g) => match acc {
            None => Err(g),
            Some(a) => Err(a.combine(g)),
        },
    }
}

/// The wait on which a select blocks when no candidate was ready: the
/// merged wait, or a wait for a notification alone when nothing was merged.
pub fn blocking_wait(acc: Option<GenericSleep>) -> (r: GenericSleep)
    ensures
        r == (match acc {
            Some(g) => g,
            None => GenericSleep::NotifyTake(None),
        }),
{
    match acc {
        Some(g) => g,
        None => GenericSleep::NotifyTake(None),
    }
}

proof fn lemma_outcome_first_ready(s: Seq<Poll>, i: int, acc: Option<GenericSleep>, k: int)
    requires
        0 <= i <= k < s.len(),
        s[k] is Ready,
        forall|j: int| i <= j < k ==> !(s[j] is Ready),
    ensures
        outcome_from(s, i, acc) == Ok::<int, Option<GenericSleep>>(k),
    decreases k - i,
{
    if i < k {
        lemma_outcome_first_ready(s, i + 1, Some(absorb(acc, sleeps_of(s)[i])), k);
    }
}

proof fn lemma_outcome_all_pending(s: Seq<Poll>, i: int)
    requires
        0 < i <= s.len(),
        forall|j: int| 0 <= j < s.len() ==> !(s[j] is Ready),
    ensures
        outcome_from(s, i, Some(merge_spec(sleeps_of(s).take(i)))) == Err::<int, Option<GenericSleep>>(
            Some(merge_spec(sleeps_of(s))),
        ),
    decreases s.len() - i,
{
    if i < s.len() {
        let t = sleeps_of(s).take(i + 1);
        assert(t.drop_last() =~= sleeps_of(s).take(i));
        lemma_outcome_all_pending(s, i + 1);
    } else {
        assert(sleeps_of(s).take(i) =~= sleeps_of(s));
    }
}

/// Earliest ready wins: among candidates that are ready together, the
/// one declared first ends the select; no candidate after it is polled, so
/// a later ready candidate keeps its state; and the outcome depends on the
/// candidates' states alone.
pub proof fn lemma_earliest_ready_wins(s: Seq<Poll>, i: int, j: int)
    requires
        0 <= i < j < s.len(),
        s[i] is Ready,
        s[j] is Ready,
    ensures
        outcome(s) is Ok,
        outcome(s)->Ok_0 <= i,
        outcome(s)->Ok_0 != j,
        s[outcome(s)->Ok_0] is Ready,
        forall|k: int| 0 <= k < outcome(s)->Ok_0 ==> !(s[k] is Ready),
{
    let k = lemma_first_ready(s, i);
    lemma_outcome_first_ready(s, 0, None, k);
}

proof fn lemma_first_ready(s: Seq<Poll>, i: int) -> (k: int)
    requires
        0 <= i < s.len(),
        s[i] is Ready,
    ensures
        0 <= k <= i,
        s[k] is Ready,
        forall|m: int| 0 <= m < k ==> !(s[m] is Ready),
    decreases i,
{
    if exists|m: int| 0 <= m < i && s[m] is Ready {
        let m = choose|m: int| 0 <= m < i && s[m] is Ready;
        lemma_first_ready(s, m)
    } else {
        i
    }
}

/// With no candidate ready, every candidate is polled and the select
/// blocks on the merge of all their waits: a wait that ends no later than
/// the nearest deadline and wakes on any notification any of them accepts.
pub proof fn lemma_all_pending_merges(s: Seq<Poll>)
    requires
        forall|j: int| 0 <= j < s.len() ==> !(s[j] is Ready),
    ensures
        s.len() == 0 ==> outcome(s) == Err::<int, Option<GenericSleep>>(None),
        s.len() > 0 ==> outcome(s) == Err::<int, Option<GenericSleep>>(
            Some(merge_spec(sleeps_of(s))),
        ),
{
    if s.len() > 0 {
        assert(sleeps_of(s).take(1) =~= seq![sleeps_of(s)[0]]);
        lemma_outcome_all_pending(s, 1);
    }
}

} // verus!
