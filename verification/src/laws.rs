//! The engine's laws, proved once and for all over the dispatch relation that
//! `send_event` ensures: payloads are delivered exactly once in FIFO order
//! inside a single bracket, timers are handed off without overlap, and
//! termination ends the log with the one teardown notice.

use vstd::prelude::*;

use crate::events::batch_closes;
use crate::events::batch_opens;
use crate::events::close_pred;
use crate::events::open_pred;
use crate::events::teardown_pred;
use crate::events::teardowns;
use crate::events::user_events;
use crate::events::user_pred;
use crate::events::Event;
use crate::runner::batch_cause;
use crate::runner::batch_log_shape;
use crate::runner::deferred_post;
use crate::runner::dispatched_post;
use crate::runner::dispatched_post_with;
use crate::runner::EngineView;
use crate::sched::TimerOps;

verus! {

/// A one-element sequence filters to itself or to nothing.
proof fn lemma_filter_one<A>(x: A, pred: spec_fn(A) -> bool)
    ensures
        seq![x].filter(pred) == (if pred(x) {
            seq![x]
        } else {
            Seq::<A>::empty()
        }),
{
    reveal(Seq::filter);
    lemma_filter_empty::<A>(pred);
    assert(seq![x].drop_last() =~= Seq::<A>::empty());
    assert(seq![x].last() == x);
    if pred(x) {
        assert(seq![x].filter(pred) =~= seq![x]);
    } else {
        assert(seq![x].filter(pred) =~= Seq::<A>::empty());
    }
}

/// The empty sequence filters to nothing.
proof fn lemma_filter_empty<A>(pred: spec_fn(A) -> bool)
    ensures
        Seq::<A>::empty().filter(pred) == Seq::<A>::empty(),
{
    reveal(Seq::filter);
}

/// Distributes a filter over the whole log shape of one dispatch.
proof fn lemma_filter_log_shape<T>(
    o: EngineView<T>,
    f: EngineView<T>,
    event: Event<T>,
    d1: Seq<Event<T>>,
    d2: Seq<Event<T>>,
    d3: Seq<Event<T>>,
    pred: spec_fn(Event<T>) -> bool,
)
    requires
        batch_log_shape(o, f, event, d1, d2, d3),
        !pred(Event::<T>::BatchOpen(batch_cause(o, event))),
    ensures
        f.log.filter(pred) == o.log.filter(pred) + d1.filter(pred) + seq![event].filter(pred)
            + d2.filter(pred) + (seq![Event::<T>::BatchClose].filter(pred)) + d3.filter(pred) + (
        if f.closed() {
            seq![Event::<T>::LoopTeardown]
        } else {
            Seq::<Event<T>>::empty()
        }).filter(pred),
{
    let cause = batch_cause(o, event);
    let x = seq![Event::<T>::BatchOpen(cause)];
    let mid: Seq<Event<T>> = if event is BatchOpen {
        Seq::empty()
    } else {
        seq![event]
    };
    let tail: Seq<Event<T>> = if f.closed() {
        seq![Event::<T>::LoopTeardown]
    } else {
        Seq::empty()
    };
    lemma_filter_one(Event::<T>::BatchOpen(cause), pred);
    lemma_filter_one(event, pred);
    lemma_filter_empty::<Event<T>>(pred);
    Seq::filter_distributes_over_add(o.log, x, pred);
    Seq::filter_distributes_over_add(o.log + x, d1, pred);
    Seq::filter_distributes_over_add(o.log + x + d1, mid, pred);
    Seq::filter_distributes_over_add(o.log + x + d1 + mid, d2, pred);
    Seq::filter_distributes_over_add(
        o.log + x + d1 + mid + d2,
        seq![Event::<T>::BatchClose],
        pred,
    );
    Seq::filter_distributes_over_add(
        o.log + x + d1 + mid + d2 + seq![Event::<T>::BatchClose],
        d3,
        pred,
    );
    Seq::filter_distributes_over_add(
        o.log + x + d1 + mid + d2 + seq![Event::<T>::BatchClose] + d3,
        tail,
        pred,
    );
    assert(mid.filter(pred) == seq![event].filter(pred));
    assert(f.log.filter(pred) =~= o.log.filter(pred) + d1.filter(pred) + seq![event].filter(pred)
        + d2.filter(pred) + (seq![Event::<T>::BatchClose].filter(pred)) + d3.filter(pred)
        + tail.filter(pred));
}

/// Distributes a filter over the FIFO conservation equation of one dispatch:
/// `q0` is what was pending, `qf` what is left.
proof fn lemma_filter_conservation<T>(
    q0: Seq<Event<T>>,
    qf: Seq<Event<T>>,
    d1: Seq<Event<T>>,
    d2: Seq<Event<T>>,
    d3: Seq<Event<T>>,
    s1: Seq<Event<T>>,
    s2: Seq<Event<T>>,
    s3: Seq<Event<T>>,
    pred: spec_fn(Event<T>) -> bool,
)
    requires
        d1 + d2 + d3 + qf == q0 + s1 + s2 + s3,
    ensures
        d1.filter(pred) + d2.filter(pred) + d3.filter(pred) + qf.filter(pred) == q0.filter(pred)
            + s1.filter(pred) + s2.filter(pred) + s3.filter(pred),
{
    Seq::filter_distributes_over_add(d1, d2, pred);
    Seq::filter_distributes_over_add(d1 + d2, d3, pred);
    Seq::filter_distributes_over_add(d1 + d2 + d3, qf, pred);
    Seq::filter_distributes_over_add(q0, s1, pred);
    Seq::filter_distributes_over_add(q0 + s1, s2, pred);
    Seq::filter_distributes_over_add(q0 + s1 + s2, s3, pred);
}

/// Law: one dispatch delivers to the callback exactly the payloads that were
/// pending or submitted, each exactly once and in FIFO order — the observed
/// payloads are those drained after the opening marker, the triggering event
/// itself, then those drained later; and what was drained plus what is still
/// pending is exactly what was pending plus what the callback submitted.
pub proof fn lemma_payloads_exactly_once<T>(
    o: EngineView<T>,
    f: EngineView<T>,
    event: Event<T>,
    r: TimerOps<T>,
    d1: Seq<Event<T>>,
    d2: Seq<Event<T>>,
    d3: Seq<Event<T>>,
    s1: Seq<Event<T>>,
    s2: Seq<Event<T>>,
    s3: Seq<Event<T>>,
    q1: Seq<Event<T>>,
    q2: Seq<Event<T>>,
)
    requires
        dispatched_post_with(o, f, event, r, d1, d2, d3, s1, s2, s3, q1, q2),
    ensures
        user_events(f.log) == user_events(o.log) + user_events(d1) + user_events(seq![event])
            + user_events(d2) + user_events(d3),
        user_events(d1) + user_events(d2) + user_events(d3) + user_events(f.queued)
            == user_events(o.queued) + user_events(s1) + user_events(s2) + user_events(s3),
{
    let pred = user_pred::<T>();
    lemma_filter_log_shape(o, f, event, d1, d2, d3, pred);
    lemma_filter_one(Event::<T>::BatchClose, pred);
    lemma_filter_one(Event::<T>::LoopTeardown, pred);
    lemma_filter_empty::<Event<T>>(pred);
    assert(user_events(f.log) =~= user_events(o.log) + user_events(d1) + user_events(seq![event])
        + user_events(d2) + user_events(d3));
    lemma_filter_conservation(o.queued, f.queued, d1, d2, d3, s1, s2, s3, pred);
}

/// Law: one dispatch wears exactly one bracket — whether a payload event or
/// a timer-fired opening marker triggered it, and provided nothing pending or
/// submitted smuggles a marker in, the opening markers of the log grow by
/// exactly the one that opened this batch, and the closing markers by exactly
/// the one that closed it.
pub proof fn lemma_single_bracket<T>(
    o: EngineView<T>,
    f: EngineView<T>,
    event: Event<T>,
    r: TimerOps<T>,
    d1: Seq<Event<T>>,
    d2: Seq<Event<T>>,
    d3: Seq<Event<T>>,
    s1: Seq<Event<T>>,
    s2: Seq<Event<T>>,
    s3: Seq<Event<T>>,
    q1: Seq<Event<T>>,
    q2: Seq<Event<T>>,
)
    requires
        dispatched_post_with(o, f, event, r, d1, d2, d3, s1, s2, s3, q1, q2),
        !(event is BatchClose),
        batch_opens(o.queued) == Seq::<Event<T>>::empty(),
        batch_opens(s1) == Seq::<Event<T>>::empty(),
        batch_opens(s2) == Seq::<Event<T>>::empty(),
        batch_opens(s3) == Seq::<Event<T>>::empty(),
        batch_closes(o.queued) == Seq::<Event<T>>::empty(),
        batch_closes(s1) == Seq::<Event<T>>::empty(),
        batch_closes(s2) == Seq::<Event<T>>::empty(),
        batch_closes(s3) == Seq::<Event<T>>::empty(),
    ensures
        batch_opens(f.log) == batch_opens(o.log).push(
            Event::<T>::BatchOpen(batch_cause(o, event)),
        ),
        batch_closes(f.log) == batch_closes(o.log).push(Event::<T>::BatchClose),
{
    let opens = open_pred::<T>();
    let closes = close_pred::<T>();
    lemma_filter_conservation(o.queued, f.queued, d1, d2, d3, s1, s2, s3, opens);
    lemma_filter_conservation(o.queued, f.queued, d1, d2, d3, s1, s2, s3, closes);
    assert(batch_opens(d1) =~= Seq::<Event<T>>::empty());
    assert(batch_opens(d2) =~= Seq::<Event<T>>::empty());
    assert(batch_opens(d3) =~= Seq::<Event<T>>::empty());
    assert(batch_closes(d1) =~= Seq::<Event<T>>::empty());
    assert(batch_closes(d2) =~= Seq::<Event<T>>::empty());
    assert(batch_closes(d3) =~= Seq::<Event<T>>::empty());
    lemma_filter_log_shape(o, f, event, d1, d2, d3, closes);
    lemma_filter_one(event, opens);
    lemma_filter_one(event, closes);
    lemma_filter_one(Event::<T>::BatchClose, opens);
    lemma_filter_one(Event::<T>::BatchClose, closes);
    lemma_filter_one(Event::<T>::LoopTeardown, opens);
    lemma_filter_one(Event::<T>::LoopTeardown, closes);
    lemma_filter_empty::<Event<T>>(closes);
    assert(batch_closes(f.log) =~= batch_closes(o.log).push(Event::<T>::BatchClose));
    // The opening marker fails `open_pred` nowhere, so the shape lemma does
    // not apply to it; distribute by hand instead.
    let cause = batch_cause(o, event);
    let x = seq![Event::<T>::BatchOpen(cause)];
    let mid: Seq<Event<T>> = if event is BatchOpen {
        Seq::empty()
    } else {
        seq![event]
    };
    let tail: Seq<Event<T>> = if f.closed() {
        seq![Event::<T>::LoopTeardown]
    } else {
        Seq::empty()
    };
    lemma_filter_one(Event::<T>::BatchOpen(cause), opens);
    lemma_filter_empty::<Event<T>>(opens);
    Seq::filter_distributes_over_add(o.log, x, opens);
    Seq::filter_distributes_over_add(o.log + x, d1, opens);
    Seq::filter_distributes_over_add(o.log + x + d1, mid, opens);
    Seq::filter_distributes_over_add(o.log + x + d1 + mid, d2, opens);
    Seq::filter_distributes_over_add(
        o.log + x + d1 + mid + d2,
        seq![Event::<T>::BatchClose],
        opens,
    );
    Seq::filter_distributes_over_add(
        o.log + x + d1 + mid + d2 + seq![Event::<T>::BatchClose],
        d3,
        opens,
    );
    Seq::filter_distributes_over_add(
        o.log + x + d1 + mid + d2 + seq![Event::<T>::BatchClose] + d3,
        tail,
        opens,
    );
    assert(batch_opens(f.log) =~= batch_opens(o.log).push(Event::<T>::BatchOpen(cause)));
}

/// Law: the batch that terminates the engine ends the log with the one
/// teardown notice — provided nothing pending or submitted forges one, the
/// teardown the engine emits is the only one the log will ever hold, and it
/// is the last event delivered; every later submission leaves the engine
/// untouched, by `send_event`'s own contract on a closed engine.
#[verifier::rlimit(60)]
pub proof fn lemma_teardown_once<T>(
    o: EngineView<T>,
    f: EngineView<T>,
    event: Event<T>,
    r: TimerOps<T>,
    d1: Seq<Event<T>>,
    d2: Seq<Event<T>>,
    d3: Seq<Event<T>>,
    s1: Seq<Event<T>>,
    s2: Seq<Event<T>>,
    s3: Seq<Event<T>>,
    q1: Seq<Event<T>>,
    q2: Seq<Event<T>>,
)
    requires
        dispatched_post_with(o, f, event, r, d1, d2, d3, s1, s2, s3, q1, q2),
        f.closed(),
        !(event is LoopTeardown),
        teardowns(o.log) == Seq::<Event<T>>::empty(),
        teardowns(o.queued) == Seq::<Event<T>>::empty(),
        teardowns(s1) == Seq::<Event<T>>::empty(),
        teardowns(s2) == Seq::<Event<T>>::empty(),
        teardowns(s3) == Seq::<Event<T>>::empty(),
    ensures
        teardowns(f.log) == seq![Event::<T>::LoopTeardown],
        f.log.len() > 0,
        f.log.last() == Event::<T>::LoopTeardown,
{
    let pred = teardown_pred::<T>();
    lemma_filter_conservation(o.queued, f.queued, d1, d2, d3, s1, s2, s3, pred);
    assert(teardowns(d1) =~= Seq::<Event<T>>::empty());
    assert(teardowns(d2) =~= Seq::<Event<T>>::empty());
    assert(teardowns(d3) =~= Seq::<Event<T>>::empty());
    lemma_filter_log_shape(o, f, event, d1, d2, d3, pred);
    lemma_filter_one(event, pred);
    lemma_filter_one(Event::<T>::BatchClose, pred);
    lemma_filter_one(Event::<T>::LoopTeardown, pred);
    lemma_filter_empty::<Event<T>>(pred);
    assert(teardowns(f.log) =~= seq![Event::<T>::LoopTeardown]);
    let cause = batch_cause(o, event);
    let mid: Seq<Event<T>> = if event is BatchOpen {
        Seq::empty()
    } else {
        seq![event]
    };
    let zed = o.log + seq![Event::<T>::BatchOpen(cause)] + d1 + mid + d2 + seq![
        Event::<T>::BatchClose,
    ] + d3;
    let tail = seq![Event::<T>::LoopTeardown];
    assert(f.log == zed + tail);
    assert(f.log.len() == zed.len() + 1);
    assert(f.log.last() == tail[0]);
}

/// Law: a submission that finds the engine busy or uninitialized never
/// reaches the callback from inside `send_event` — the delivery log does not
/// move; the event only joins the back of the queue, from which a live
/// dispatch later drains it before returning.
pub proof fn lemma_deferred_never_synchronous<T>(
    o: EngineView<T>,
    f: EngineView<T>,
    event: Event<T>,
)
    requires
        deferred_post(o, f, event),
    ensures
        f.log == o.log,
        f.queued == o.queued.push(event),
        f.sched == o.sched,
        f.busy == o.busy,
        f.has_runner == o.has_runner,
{
}

/// Law: across one dispatch at most one timer is live — the committed state
/// owns at most one id by construction — and the timer the superseded state
/// owned is exactly the one handed out for cancellation, which is never the
/// one just armed.
pub proof fn lemma_timer_handoff<T>(
    o: EngineView<T>,
    f: EngineView<T>,
    event: Event<T>,
    r: TimerOps<T>,
)
    requires
        o.wf(),
        o.has_runner,
        dispatched_post(o, f, event, r),
    ensures
        r.cancel == o.live_timer(),
        f.live_timer() is Some ==> (r.arm matches Some(a) && Some(a.id) == f.live_timer()
            && r.cancel != f.live_timer()),
        f.live_timer() is None ==> r.arm is None,
{
    let (d1, d2, d3, s1, s2, s3, q1, q2) = choose|
        d1: Seq<Event<T>>,
        d2: Seq<Event<T>>,
        d3: Seq<Event<T>>,
        s1: Seq<Event<T>>,
        s2: Seq<Event<T>>,
        s3: Seq<Event<T>>,
        q1: Seq<Event<T>>,
        q2: Seq<Event<T>>,
    | dispatched_post_with(o, f, event, r, d1, d2, d3, s1, s2, s3, q1, q2);
}

} // verus!

