use vstd::prelude::*;

use crate::error::ErrorKind;
use crate::subscription::{discard_step, drain_step, DrainAction, DrainEvent, DrainPhase, SubState};

verus! {

/// A drain in which the flush and the unsubscribe both succeed: the state
/// at its end and the actions it asked for, in order.
pub open spec fn healthy_drain(s: SubState) -> (SubState, Seq<DrainAction>) {
    let (s1, a1) = drain_step(s, DrainEvent::Start);
    if a1 == DrainAction::Flush {
        let (s2, a2) = drain_step(s1, DrainEvent::Flushed(Ok(())));
        let (s3, a3) = drain_step(s2, DrainEvent::Unsubscribed(Ok(())));
        (s3, seq![a1, a2, a3])
    } else {
        (s1, seq![a1])
    }
}

/// The state after feeding the events `es` to a drain, in order.
pub open spec fn run(s: SubState, es: Seq<DrainEvent>) -> SubState
    decreases es.len(),
{
    if es.len() == 0 {
        s
    } else {
        drain_step(run(s, es.drop_last()), es.last()).0
    }
}

/// Whether `acts` asks for at most one unsubscribe frame.
pub open spec fn at_most_one_unsubscribe(acts: Seq<DrainAction>) -> bool {
    forall|i: int, j: int|
        0 <= i < acts.len() && 0 <= j < acts.len() && acts[i] is Unsubscribe
            && acts[j] is Unsubscribe ==> i == j
}

/// Every step of a drain keeps the handle well formed.
pub proof fn lemma_drain_step_wf(s: SubState, e: DrainEvent)
    requires
        s.wf(),
    ensures
        drain_step(s, e).0.wf(),
        drain_step(s, e).1 is Unsubscribe ==> s.active && s.unsubscribed == 0,
{
}

/// Draining twice in succession on a healthy connection succeeds both
/// times, asks for the unsubscribe frame at most once over the two drains,
/// and the second drain changes nothing.
pub proof fn lemma_drain_idempotent(s: SubState)
    requires
        s.wf(),
        s.phase == DrainPhase::Idle,
    ensures
        ({
            let (s1, acts1) = healthy_drain(s);
            let (s2, acts2) = healthy_drain(s1);
            &&& acts1.last() == DrainAction::Finished(Ok::<(), ErrorKind>(()))
            &&& acts2 == seq![DrainAction::Finished(Ok::<(), ErrorKind>(()))]
            &&& s2 == s1
            &&& !s1.active
            &&& at_most_one_unsubscribe(acts1 + acts2)
        }),
{
    let (s1, acts1) = healthy_drain(s);
    let (s2, acts2) = healthy_drain(s1);
    let all = acts1 + acts2;
    if s.active {
        assert(all =~= seq![
            DrainAction::Flush,
            DrainAction::Unsubscribe(s.sid),
            DrainAction::Finished(Ok::<(), ErrorKind>(())),
            DrainAction::Finished(Ok::<(), ErrorKind>(())),
        ]);
    } else {
        assert(all =~= seq![
            DrainAction::Finished(Ok::<(), ErrorKind>(())),
            DrainAction::Finished(Ok::<(), ErrorKind>(())),
        ]);
    }
}

/// A drain whose flush or unsubscribe send fails reports that failure and
/// leaves the handle as active as it was, idle, so that a later drain or a
/// discard still attempts the unsubscription.
pub proof fn lemma_failed_drain_keeps_active(s: SubState, k: ErrorKind)
    requires
        s.wf(),
    ensures
        ({
            let (t, a) = drain_step(s, DrainEvent::Flushed(Err(k)));
            s.phase == DrainPhase::Flushing ==> {
                &&& a == DrainAction::Finished(Err::<(), ErrorKind>(k))
                &&& t.active == s.active
                &&& t.phase == DrainPhase::Idle
            }
        }),
        ({
            let (t, a) = drain_step(s, DrainEvent::Unsubscribed(Err(k)));
            s.phase == DrainPhase::Unsubscribing ==> {
                &&& a == DrainAction::Finished(Err::<(), ErrorKind>(k))
                &&& t.active == s.active
                &&& t.phase == DrainPhase::Idle
                &&& discard_step(t).1 == Some(s.sid)
            }
        }),
{
}

/// Whatever events a drain is fed, in whatever order and with whatever
/// outcomes, the unsubscription of the sid is completed or handed over for
/// cleanup at most once: an unsubscribe frame is asked for only while none
/// was completed, and a discard afterwards hands the sid over only if no
/// drain completed.
pub proof fn lemma_unsubscribe_at_most_once(s: SubState, es: Seq<DrainEvent>)
    requires
        s.wf(),
    ensures
        run(s, es).wf(),
        run(s, es).unsubscribed <= 1,
        forall|i: int|
            0 <= i < es.len() && (#[trigger] drain_step(run(s, es.take(i)), es[i])).1 is Unsubscribe
                ==> run(s, es.take(i)).unsubscribed == 0,
        discard_step(run(s, es)).0.wf(),
        discard_step(run(s, es)).0.unsubscribed <= 1,
        discard_step(run(s, es)).1 is Some ==> run(s, es).unsubscribed == 0,
    decreases es.len(),
{
    if es.len() > 0 {
        let prefix = es.drop_last();
        lemma_unsubscribe_at_most_once(s, prefix);
        lemma_drain_step_wf(run(s, prefix), es.last());
        assert forall|i: int|
            0 <= i < es.len() && (#[trigger] drain_step(run(s, es.take(i)), es[i])).1 is Unsubscribe
                implies run(s, es.take(i)).unsubscribed == 0 by {
            if i < prefix.len() {
                assert(es.take(i) =~= prefix.take(i));
                assert(es[i] == prefix[i]);
                assert(drain_step(run(s, prefix.take(i)), prefix[i]).1 is Unsubscribe);
            } else {
                assert(es.take(i) =~= prefix);
            }
        }
    }
}

} // verus!
