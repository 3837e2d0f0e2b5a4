//! The runner: the registered callback, the committed scheduling state, the
//! queue of not-yet-delivered events, and the dispatch algorithm that ties
//! them together.

use std::collections::VecDeque;

use vstd::prelude::*;

use crate::events::ControlFlow;
use crate::events::Event;
use crate::events::StartCause;
use crate::sched::cause_of;
use crate::sched::decision_of;
use crate::sched::timer_of;
use crate::sched::ArmTimer;
use crate::sched::SchedulingState;
use crate::sched::TimerOps;
use crate::sched::POLL_PERIOD_MS;
use crate::time::elapsed_millis;
use crate::time::instant_now;

verus! {

/// How many queued events one delivery is willing to drain. The queue can
/// only keep refilling if the callback submits a fresh event at every single
/// delivery, so this bound is unreachable in any feasible run; it exists so
/// that the drain is a checked, bounded loop.
pub const DRAIN_LIMIT: u64 = 0xffff_ffff_ffff_ffff;

/// The callback registered with the engine. `handle` observes one event and
/// may rewrite the scheduling decision for the batch in progress; the events
/// it returns are the ones it submits while running, in submission order, and
/// the engine defers them exactly as a reentrant submission would be.
pub trait EventHandler<T> {
    fn handle(&mut self, event: Event<T>, control: &mut ControlFlow) -> Vec<Event<T>>;
}

/// The registered callback together with the engine's control state.
pub struct Runner<H> {
    state: SchedulingState,
    busy: bool,
    handler: H,
}

/// The runner (absent until a callback is registered) and the event queue.
pub struct Execution<T, H> {
    runner: Option<Runner<H>>,
    events: VecDeque<Event<T>>,
    epoch: instant::Instant,
    next_timer: u64,
    delivered: Ghost<Seq<Event<T>>>,
    decisions: Ghost<Seq<ControlFlow>>,
}

/// The engine. One value owns the whole execution; hosts that need to share
/// it across timer callbacks wrap it themselves.
pub struct Shared<T, H>(Execution<T, H>);

/// The engine's abstract state: what the contracts speak of.
#[verifier::ext_equal]
pub struct EngineView<T> {
    /// Whether a callback has been registered.
    pub has_runner: bool,
    /// The committed scheduling state; `Uninitialized` when no runner exists.
    pub sched: SchedulingState,
    /// The reentrancy latch: true exactly while a callback runs.
    pub busy: bool,
    /// The not-yet-delivered events, front to back.
    pub queued: Seq<Event<T>>,
    /// Every event any callback has observed, oldest first.
    pub log: Seq<Event<T>>,
    /// The decision slot's value right after each delivery, one per logged
    /// event: the last one of a batch is what gets committed.
    pub decisions: Seq<ControlFlow>,
    /// The id the next armed timer will get.
    pub next_timer: u64,
}

impl<T> EngineView<T> {
    /// Terminated and latched: no event will ever be delivered again.
    pub open spec fn closed(self) -> bool {
        self.has_runner && self.sched is Terminated
    }

    /// The timer the committed state owns, if any.
    pub open spec fn live_timer(self) -> Option<u64> {
        if self.has_runner {
            timer_of(self.sched)
        } else {
            None
        }
    }

    /// The decision the committed state projects back to.
    pub open spec fn current_decision(self) -> ControlFlow {
        if self.has_runner {
            decision_of(self.sched)
        } else {
            ControlFlow::ContinuePolling
        }
    }

    /// The owned timer never collides with the id the next one will get.
    pub open spec fn wf(self) -> bool {
        self.live_timer() != Some(self.next_timer)
    }
}

/// What committing `cf` does to the scheduling state: the decision is mapped
/// to its state, a state that owns a timer owns the freshly allocated id, and
/// a sleep records when it began.
pub open spec fn commits_to<T>(o: EngineView<T>, cf: ControlFlow, s: SchedulingState) -> bool {
    match cf {
        ControlFlow::ContinuePolling => s == (SchedulingState::Idle { timer: o.next_timer }),
        ControlFlow::SleepUntilWoken => s is Waiting,
        ControlFlow::SleepUntil(dl) => s matches SchedulingState::WaitingUntil {
            since: _,
            deadline,
            timer,
        } && deadline == dl && timer == o.next_timer,
        ControlFlow::Terminate => s == SchedulingState::Terminated,
    }
}

/// The timer request that belongs to a committed state: polling arms the
/// short wake timer, a deadline sleep arms its one-shot timer with the time
/// left until the deadline (zero if it already passed), and each fires by
/// submitting the batch-opening marker for the wake it stands for.
pub open spec fn arm_matches<T>(s: SchedulingState, arm: Option<ArmTimer<T>>) -> bool {
    match s {
        SchedulingState::Idle { timer } => arm == Some(
            ArmTimer {
                id: timer,
                delay_ms: POLL_PERIOD_MS,
                fire_event: Event::<T>::BatchOpen(StartCause::WokeFromPoll),
            },
        ),
        SchedulingState::WaitingUntil { since, deadline, timer } => arm == Some(
            ArmTimer {
                id: timer,
                delay_ms: if deadline <= since {
                    0u64
                } else {
                    (deadline - since) as u64
                },
                fire_event: Event::<T>::BatchOpen(
                    StartCause::WokeFromCancelledWait { since, requested_resume: Some(deadline) },
                ),
            },
        ),
        _ => arm is None,
    }
}

/// Why the batch that `event` triggers in state `v` begins: a submitted
/// batch-opening marker carries its own cause; any other event derives it
/// from the state being woken.
pub open spec fn batch_cause<T>(v: EngineView<T>, event: Event<T>) -> StartCause {
    match event {
        Event::BatchOpen(cause) => cause,
        _ => cause_of(v.sched),
    }
}

/// A submission that found the engine busy or not yet initialized: the event
/// went to the back of the queue and nothing else moved.
pub open spec fn deferred_post<T>(o: EngineView<T>, f: EngineView<T>, event: Event<T>) -> bool {
    f == (EngineView { queued: o.queued.push(event), ..o })
}

/// How one dispatch of `event` extends the delivery log: the opening marker
/// with the batch's cause, the event itself (unless it was the opening
/// marker), the closing marker — each followed by the events it drained — and
/// the teardown notice last if the batch terminated the engine.
pub open spec fn batch_log_shape<T>(
    o: EngineView<T>,
    f: EngineView<T>,
    event: Event<T>,
    d1: Seq<Event<T>>,
    d2: Seq<Event<T>>,
    d3: Seq<Event<T>>,
) -> bool {
    let cause = batch_cause(o, event);
    let mid: Seq<Event<T>> = if event is BatchOpen {
        Seq::empty()
    } else {
        seq![event]
    };
    let tail: Seq<Event<T>> = if f.closed() {
        seq![Event::LoopTeardown]
    } else {
        Seq::empty()
    };
    f.log == o.log + seq![Event::BatchOpen(cause)] + d1 + mid + d2 + seq![Event::BatchClose] + d3
        + tail
}

/// One live dispatch, with its drains and submissions spelled out. `d1`, `d2`
/// and `d3` are the events drained from the queue after the opening marker,
/// after `event` itself and after the closing marker; `s1`, `s2` and `s3` are
/// whatever the callback submitted during those three delivery phases; `q1`
/// and `q2` are what the queue held when the first two phases ended.
pub open spec fn dispatched_post_with<T>(
    o: EngineView<T>,
    f: EngineView<T>,
    event: Event<T>,
    r: TimerOps<T>,
    d1: Seq<Event<T>>,
    d2: Seq<Event<T>>,
    d3: Seq<Event<T>>,
    s1: Seq<Event<T>>,
    s2: Seq<Event<T>>,
    s3: Seq<Event<T>>,
    q1: Seq<Event<T>>,
    q2: Seq<Event<T>>,
) -> bool {
    // One bracket per dispatch: the opening marker with the right cause, the
    // event itself (unless it was the opening marker), the closing marker,
    // each followed by the events drained while its delivery ran, and the
    // teardown notice last if this batch terminated the engine.
    &&& batch_log_shape(o, f, event, d1, d2, d3)
    // FIFO conservation, phase by phase: each delivery phase drains the queue
    // it found plus what its callbacks submitted, front to back, leaving the
    // rest. So an event submitted while the callback observed `event` is
    // logged after `event` and before the closing marker.
    &&& d1 + q1 == o.queued + s1
    &&& (q1.len() == 0 || d1.len() >= DRAIN_LIMIT)
    &&& (event is BatchOpen ==> d2 == Seq::<Event<T>>::empty() && s2 == Seq::<
        Event<T>,
    >::empty() && q2 == q1)
    &&& (!(event is BatchOpen) ==> d2 + q2 == q1 + s2)
    &&& (!(event is BatchOpen) ==> q2.len() == 0 || d2.len() >= DRAIN_LIMIT)
    &&& d3 + f.queued == q2 + s3
    // And chained: what was pending plus what was submitted is exactly what
    // was drained plus what is still pending — in order, exactly once.
    &&& d1 + d2 + d3 + f.queued == o.queued + s1 + s2 + s3
    // The queue is fully drained, short of an infeasible submission storm.
    &&& f.queued.len() == 0 || d3.len() >= DRAIN_LIMIT
    &&& f.has_runner
    &&& !f.busy
    &&& !(f.sched is Uninitialized)
    // One decision was read back per delivery, and the last one — `Terminate`
    // forced while the teardown notice went out — is what the new scheduling
    // state commits.
    &&& f.decisions.len() - o.decisions.len() == f.log.len() - o.log.len()
    &&& f.decisions.len() > o.decisions.len()
    &&& commits_to(o, f.decisions.last(), f.sched)
    // A state that owns a timer owns the freshly allocated one.
    &&& (timer_of(f.sched) is Some ==> timer_of(f.sched) == Some(o.next_timer))
    // The superseded timer is handed out for cancellation.
    &&& r.cancel == timer_of(o.sched)
    &&& arm_matches(f.sched, r.arm)
    &&& f.wf()
}

/// One live dispatch of `event`, for some drains and submissions.
pub open spec fn dispatched_post<T>(
    o: EngineView<T>,
    f: EngineView<T>,
    event: Event<T>,
    r: TimerOps<T>,
) -> bool {
    exists|d1: Seq<Event<T>>, d2: Seq<Event<T>>, d3: Seq<Event<T>>, s1: Seq<Event<T>>, s2: Seq<
        Event<T>,
    >, s3: Seq<Event<T>>, q1: Seq<Event<T>>, q2: Seq<Event<T>>| dispatched_post_with(
        o,
        f,
        event,
        r,
        d1,
        d2,
        d3,
        s1,
        s2,
        s3,
        q1,
        q2,
    )
}

/// Chains the FIFO conservation equation of three delivery phases into one:
/// what the phases drained plus what is left pending is exactly what was
/// pending plus what was submitted, in order.
proof fn lemma_fifo_chain<A>(
    q0: Seq<A>,
    d1: Seq<A>,
    q1: Seq<A>,
    s1: Seq<A>,
    d2: Seq<A>,
    q2: Seq<A>,
    s2: Seq<A>,
    d3: Seq<A>,
    q3: Seq<A>,
    s3: Seq<A>,
)
    requires
        d1 + q1 == q0 + s1,
        d2 + q2 == q1 + s2,
        d3 + q3 == q2 + s3,
    ensures
        ((d1 + d2) + d3) + q3 == ((q0 + s1) + s2) + s3,
{
    assert(((d1 + d2) + d3) + q3 =~= (d1 + d2) + (d3 + q3));
    assert((d1 + d2) + (q2 + s3) =~= (d1 + (d2 + q2)) + s3);
    assert((d1 + (q1 + s2)) + s3 =~= (((d1 + q1) + s2)) + s3);
    assert(((d1 + d2) + d3) + q3 == ((q0 + s1) + s2) + s3);
}

impl<T, H> View for Shared<T, H> {
    type V = EngineView<T>;

    closed spec fn view(&self) -> EngineView<T> {
        EngineView {
            has_runner: self.0.runner is Some,
            sched: match self.0.runner {
                Some(r) => r.state,
                None => SchedulingState::Uninitialized,
            },
            busy: match self.0.runner {
                Some(r) => r.busy,
                None => false,
            },
            queued: self.0.events@,
            log: self.0.delivered@,
            decisions: self.0.decisions@,
            next_timer: self.0.next_timer,
        }
    }
}

impl<H> Runner<H> {
    /// The committed scheduling state.
    pub closed spec fn sched(self) -> SchedulingState {
        self.state
    }

    /// The reentrancy latch.
    pub closed spec fn is_busy(self) -> bool {
        self.busy
    }

    /// A fresh runner around a newly registered callback: no batch has run,
    /// no callback is on the stack.
    pub fn new(handler: H) -> (r: Self)
        ensures
            r.sched() == SchedulingState::Uninitialized,
            !r.is_busy(),
    {
        Runner { state: SchedulingState::Uninitialized, busy: false, handler }
    }
}

impl<T, H: EventHandler<T>> Shared<T, H> {
    /// A fresh engine: no callback registered, nothing queued, nothing
    /// delivered.
    pub fn new() -> (r: Self)
        ensures
            r@ == (EngineView::<T> {
                has_runner: false,
                sched: SchedulingState::Uninitialized,
                busy: false,
                queued: Seq::empty(),
                log: Seq::empty(),
                decisions: Seq::empty(),
                next_timer: 0,
            }),
            r@.wf(),
    {
        let r = Shared(
            Execution {
                runner: None,
                events: VecDeque::new(),
                epoch: instant_now(),
                next_timer: 0,
                delivered: Ghost(Seq::empty()),
                decisions: Ghost(Seq::empty()),
            },
        );
        proof {
            assert(r@ =~= EngineView::<T> {
                has_runner: false,
                sched: SchedulingState::Uninitialized,
                busy: false,
                queued: Seq::empty(),
                log: Seq::empty(),
                decisions: Seq::empty(),
                next_timer: 0,
            });
        }
        r
    }

    /// Whether the engine is terminated; an engine with no callback yet has
    /// not started, so it is not closed.
    pub fn closed(&self) -> (r: bool)
        ensures
            r == self@.closed(),
    {
        match &self.0.runner {
            Some(runner) => matches!(runner.state, SchedulingState::Terminated),
            None => false,
        }
    }

    /// The decision the current scheduling state stands for.
    pub fn current_control_flow(&self) -> (r: ControlFlow)
        ensures
            r == self@.current_decision(),
    {
        match &self.0.runner {
            Some(runner) => match runner.state {
                SchedulingState::Uninitialized => ControlFlow::ContinuePolling,
                SchedulingState::Idle { .. } => ControlFlow::ContinuePolling,
                SchedulingState::Waiting { .. } => ControlFlow::SleepUntilWoken,
                SchedulingState::WaitingUntil { deadline, .. } => ControlFlow::SleepUntil(
                    deadline,
                ),
                SchedulingState::Terminated => ControlFlow::Terminate,
            },
            None => ControlFlow::ContinuePolling,
        }
    }

    /// Milliseconds elapsed since this engine was created: the clock that
    /// `ControlFlow::SleepUntil` deadlines are expressed in.
    pub fn now_millis(&self) -> u64 {
        elapsed_millis(&self.0.epoch)
    }

    /// Hands out the next timer id and steps the counter, so the id just
    /// handed out is never the next one.
    fn alloc_timer(&mut self) -> (id: u64)
        ensures
            id == old(self)@.next_timer,
            final(self)@ == (EngineView { next_timer: final(self)@.next_timer, ..old(self)@ }),
            final(self)@.next_timer != id,
    {
        let id = self.0.next_timer;
        self.0.next_timer = if id == u64::MAX {
            0
        } else {
            id + 1
        };
        proof {
            assert(self@ =~= (EngineView { next_timer: self@.next_timer, ..old(self)@ }));
        }
        id
    }

    /// Registers `callback` as the engine's handler, discarding any prior
    /// one, and resets the scheduling state; the first batch the new callback
    /// observes is the initial batch-opening marker, which also drains any
    /// events queued before registration.
    pub fn set_listener(&mut self, callback: H) -> (r: TimerOps<T>)
        ensures
            final(self)@.wf(),
            r.cancel == old(self)@.live_timer(),
            dispatched_post(
                (EngineView {
                    has_runner: true,
                    sched: SchedulingState::Uninitialized,
                    busy: false,
                    queued: old(self)@.queued,
                    log: old(self)@.log,
                    decisions: old(self)@.decisions,
                    next_timer: old(self)@.next_timer,
                }),
                final(self)@,
                Event::BatchOpen(StartCause::InitialStart),
                (TimerOps { cancel: None, arm: r.arm }),
            ),
    {
        let ghost o = old(self)@;
        // The replaced runner's timer goes with it: a stale timer must never
        // fire into the new runner.
        let stale: Option<u64> = match &self.0.runner {
            Some(runner) => match runner.state {
                SchedulingState::Idle { timer } => Some(timer),
                SchedulingState::WaitingUntil { timer, .. } => Some(timer),
                _ => None,
            },
            None => None,
        };
        self.0.runner = Some(Runner::new(callback));
        proof {
            assert(self@ =~= (EngineView {
                has_runner: true,
                sched: SchedulingState::Uninitialized,
                busy: false,
                queued: o.queued,
                log: o.log,
                decisions: o.decisions,
                next_timer: o.next_timer,
            }));
        }
        let ops = self.send_event(Event::BatchOpen(StartCause::InitialStart));
        proof {
            let mid = EngineView {
                has_runner: true,
                sched: SchedulingState::Uninitialized,
                busy: false,
                queued: o.queued,
                log: o.log,
                decisions: o.decisions,
                next_timer: o.next_timer,
            };
            let f = self@;
            let ev = Event::<T>::BatchOpen(StartCause::InitialStart);
            let (d1, d2, d3, s1, s2, s3, q1, q2) = choose|
                d1: Seq<Event<T>>,
                d2: Seq<Event<T>>,
                d3: Seq<Event<T>>,
                s1: Seq<Event<T>>,
                s2: Seq<Event<T>>,
                s3: Seq<Event<T>>,
                q1: Seq<Event<T>>,
                q2: Seq<Event<T>>,
            | dispatched_post_with(mid, f, ev, ops, d1, d2, d3, s1, s2, s3, q1, q2);
            assert(ops == (TimerOps { cancel: None, arm: ops.arm }));
            assert(dispatched_post_with(
                mid,
                f,
                ev,
                (TimerOps { cancel: None, arm: ops.arm }),
                d1,
                d2,
                d3,
                s1,
                s2,
                s3,
                q1,
                q2,
            ));
        }
        TimerOps { cancel: stale, arm: ops.arm }
    }

    /// The sole entry point for events. A closed engine discards the event; a
    /// busy or not-yet-initialized engine defers it to the queue; otherwise
    /// the event triggers one batch: the opening marker, the event itself
    /// (unless it was an opening marker, which only opens the batch), the
    /// closing marker — each delivery folding deferred submissions into the
    /// batch — then the final decision is committed, and if it terminated the
    /// engine the single teardown notice is delivered.
    pub fn send_event(&mut self, event: Event<T>) -> (r: TimerOps<T>)
        requires
            old(self)@.wf(),
        ensures
            final(self)@.wf(),
            old(self)@.closed() ==> final(self)@ == old(self)@ && r.is_noop(),
            !old(self)@.closed() && !(old(self)@.has_runner && !old(self)@.busy) ==> deferred_post(
                old(self)@,
                final(self)@,
                event,
            ) && r.is_noop(),
            !old(self)@.closed() && old(self)@.has_runner && !old(self)@.busy ==> dispatched_post(
                old(self)@,
                final(self)@,
                event,
                r,
            ),
    {
        let ghost o = old(self)@;
        let ghost ev = event;
        // A closed engine discards new events rather than wake a torn-down
        // system.
        if self.closed() {
            return TimerOps::none();
        }
        let (start_cause, event_is_start): (StartCause, bool) = match &self.0.runner {
            Some(runner) if !runner.busy => {
                match &event {
                    Event::BatchOpen(cause) => (*cause, true),
                    _ => {
                        match runner.state {
                            SchedulingState::Uninitialized => (StartCause::InitialStart, false),
                            SchedulingState::Idle { .. } => (StartCause::WokeFromPoll, false),
                            SchedulingState::Waiting { since } => (
                                StartCause::WokeFromCancelledWait {
                                    since,
                                    requested_resume: None,
                                },
                                false,
                            ),
                            SchedulingState::WaitingUntil { since, deadline, .. } => (
                                StartCause::WokeFromCancelledWait {
                                    since,
                                    requested_resume: Some(deadline),
                                },
                                false,
                            ),
                            SchedulingState::Terminated => {
                                // Unreachable: a terminated engine is closed.
                                return TimerOps::none();
                            },
                        }
                    },
                }
            },
            _ => {
                // A batch is in flight, or no callback is registered yet:
                // defer the event rather than interleave brackets.
                self.0.events.push_back(event);
                proof {
                    assert(self@ =~= (EngineView { queued: o.queued.push(ev), ..o }));
                }
                return TimerOps::none();
            },
        };
        proof {
            assert(start_cause == batch_cause(o, ev));
            assert(event_is_start == (ev is BatchOpen));
        }
        let mut control = self.current_control_flow();
        let g1 = self.handle_event(Event::BatchOpen(start_cause), &mut control);
        let ghost d1 = g1@.0;
        let ghost s1 = g1@.1;
        let ghost q1 = self@.queued;
        let ghost mut d2: Seq<Event<T>> = Seq::empty();
        let ghost mut s2: Seq<Event<T>> = Seq::empty();
        if !event_is_start {
            let g2 = self.handle_event(event, &mut control);
            proof {
                d2 = g2@.0;
                s2 = g2@.1;
            }
        }
        let ghost q2 = self@.queued;
        proof {
            if event_is_start {
                assert(d2 + q2 =~= q1 + s2);
            }
        }
        let g3 = self.handle_event(Event::BatchClose, &mut control);
        let ghost d3 = g3@.0;
        let ghost s3 = g3@.1;
        let ghost log3 = self@.log;
        let ghost q3 = self@.queued;
        let ghost decision = control;
        let ghost view_before_apply = self@;
        let ops = self.apply_control_flow(control);
        let ghost sched_committed = self@.sched;
        // A batch that terminated the engine emits the one teardown notice,
        // bypassing the closed guard, since it must run exactly once.
        if self.closed() {
            let _ = self.handle_event(Event::LoopTeardown, &mut control);
        }
        proof {
            let f = self@;
            let cause = batch_cause(o, ev);
            let mid: Seq<Event<T>> = if ev is BatchOpen {
                Seq::empty()
            } else {
                seq![ev]
            };
            let tail: Seq<Event<T>> = if f.closed() {
                seq![Event::LoopTeardown]
            } else {
                Seq::empty()
            };
            assert(log3 =~= o.log + seq![Event::BatchOpen(cause)] + d1 + mid + d2 + seq![
                Event::BatchClose,
            ] + d3);
            assert(f.log =~= o.log + seq![Event::BatchOpen(cause)] + d1 + mid + d2 + seq![
                Event::BatchClose,
            ] + d3 + tail);
            lemma_fifo_chain(o.queued, d1, q1, s1, d2, q2, s2, d3, q3, s3);
            assert(((d1 + d2) + d3) + f.queued == ((o.queued + s1) + s2) + s3);
            // The committed state answers to the decision the last delivery
            // left behind: the batch's own final decision, or the forced
            // `Terminate` recorded while the teardown notice went out.
            if f.closed() {
                assert(f.decisions.last() == ControlFlow::Terminate);
                assert(f.sched == SchedulingState::Terminated);
            } else {
                assert(f.decisions.last() == decision);
                assert(commits_to(view_before_apply, decision, sched_committed));
            }
            assert(commits_to(o, f.decisions.last(), f.sched));
            assert(dispatched_post_with(o, f, ev, ops, d1, d2, d3, s1, s2, s3, q1, q2));
        }
        ops
    }

    /// Invokes the callback once with `event`, under the reentrancy latch,
    /// and defers whatever the callback submitted (returned as `subs`) to the
    /// back of the queue — unless the engine is already closed, in which case
    /// the submissions are discarded and the decision is forced back to
    /// `Terminate`, so a callback cannot resurrect a torn-down engine.
    fn deliver_one(&mut self, event: Event<T>, control: &mut ControlFlow) -> (subs: Ghost<
        Seq<Event<T>>,
    >)
        requires
            old(self)@.has_runner,
        ensures
            final(self)@.has_runner,
            !final(self)@.busy,
            final(self)@.sched == old(self)@.sched,
            final(self)@.next_timer == old(self)@.next_timer,
            final(self)@.log == old(self)@.log.push(event),
            final(self)@.decisions == old(self)@.decisions.push(*final(control)),
            old(self)@.closed() ==> final(self)@.queued == old(self)@.queued && *final(control)
                == ControlFlow::Terminate,
            !old(self)@.closed() ==> final(self)@.queued == old(self)@.queued + subs@,
    {
        let ghost ev = event;
        let closed = self.closed();
        let mut returned: Vec<Event<T>>;
        match &mut self.0.runner {
            Some(runner) => {
                // The latch is set for exactly the span of the invocation.
                runner.busy = true;
                returned = runner.handler.handle(event, control);
                if closed {
                    // Keep the closed state, even if the callback changed it.
                    *control = ControlFlow::Terminate;
                }
                runner.busy = false;
            },
            None => {
                returned = Vec::new();
            },
        }
        self.0.delivered = Ghost(self.0.delivered@.push(ev));
        // Record what the decision slot holds now that this delivery is done.
        self.0.decisions = Ghost(self.0.decisions@.push(*control));
        let ghost total = returned@;
        if closed {
            return Ghost(Seq::empty());
        }
        // Move the submissions to the back of the queue, in submission order.
        let mut tail: VecDeque<Event<T>> = VecDeque::new();
        loop
            invariant
                returned@ + tail@ == total,
            ensures
                tail@ == total,
            decreases returned@.len(),
        {
            match returned.pop() {
                Some(e) => {
                    tail.push_front(e);
                },
                None => {
                    break ;
                },
            }
        }
        self.0.events.append(&mut tail);
        Ghost(total)
    }

    /// Delivers `event`, then drains the queue: events that arrived while a
    /// callback was running are folded into the batch in progress, in FIFO
    /// order, rather than opening batches of their own. A closed engine
    /// delivers the event (the teardown notice takes this path) but neither
    /// drains nor keeps new submissions. Returns, as ghost data, the drained
    /// events and the callback's submissions, both in order.
    fn handle_event(&mut self, event: Event<T>, control: &mut ControlFlow) -> (r: Ghost<
        (Seq<Event<T>>, Seq<Event<T>>),
    >)
        requires
            old(self)@.has_runner,
        ensures
            final(self)@.has_runner,
            !final(self)@.busy,
            final(self)@.sched == old(self)@.sched,
            final(self)@.next_timer == old(self)@.next_timer,
            final(self)@.log == old(self)@.log.push(event) + r@.0,
            final(self)@.decisions.len() == old(self)@.decisions.len() + 1 + r@.0.len(),
            final(self)@.decisions.last() == *final(control),
            old(self)@.closed() ==> r@.0 == Seq::<Event<T>>::empty() && final(self)@.queued
                == old(self)@.queued && *final(control) == ControlFlow::Terminate,
            !old(self)@.closed() ==> r@.0 + final(self)@.queued == old(self)@.queued + r@.1,
            !old(self)@.closed() ==> final(self)@.queued.len() == 0 || r@.0.len() >= DRAIN_LIMIT,
    {
        let ghost o = old(self)@;
        let ghost ev = event;
        let closed = self.closed();
        let g0 = self.deliver_one(event, control);
        if closed {
            proof {
                assert(self@.log =~= o.log.push(ev) + Seq::<Event<T>>::empty());
            }
            return Ghost((Seq::empty(), Seq::empty()));
        }
        let ghost mut drained: Seq<Event<T>> = Seq::empty();
        let ghost mut subs: Seq<Event<T>> = g0@;
        proof {
            assert(drained + self@.queued =~= o.queued + subs);
            assert(self@.log =~= o.log.push(ev) + drained);
        }
        let mut fuel: u64 = DRAIN_LIMIT;
        loop
            invariant
                self@.has_runner,
                !self@.busy,
                self@.sched == o.sched,
                !self@.closed(),
                self@.next_timer == o.next_timer,
                self@.log == o.log.push(ev) + drained,
                drained + self@.queued == o.queued + subs,
                self@.decisions.len() == o.decisions.len() + 1 + drained.len(),
                self@.decisions.last() == *control,
                fuel <= DRAIN_LIMIT,
                drained.len() == DRAIN_LIMIT - fuel,
            ensures
                self@.has_runner,
                !self@.busy,
                self@.sched == o.sched,
                self@.next_timer == o.next_timer,
                self@.log == o.log.push(ev) + drained,
                drained + self@.queued == o.queued + subs,
                self@.decisions.len() == o.decisions.len() + 1 + drained.len(),
                self@.decisions.last() == *control,
                self@.queued.len() == 0 || drained.len() >= DRAIN_LIMIT,
            decreases fuel,
        {
            if fuel == 0 {
                proof {
                    assert(drained.len() >= DRAIN_LIMIT);
                }
                break ;
            }
            let ghost pre_q = self@.queued;
            let next = match self.0.events.pop_front() {
                Some(e) => e,
                None => {
                    break ;
                },
            };
            let ghost ne = next;
            let gs = self.deliver_one(next, control);
            proof {
                let d0 = drained;
                let s0 = subs;
                let rest = pre_q.subrange(1, pre_q.len() as int);
                drained = d0.push(ne);
                subs = s0 + gs@;
                assert(d0.push(ne) + rest =~= d0 + pre_q);
                assert(d0.push(ne) + (rest + gs@) =~= (d0.push(ne) + rest) + gs@);
                assert((d0 + pre_q) + gs@ =~= o.queued + (s0 + gs@));
                assert(drained + self@.queued == o.queued + subs);
                assert(self@.log =~= o.log.push(ev) + drained);
            }
            fuel = fuel - 1;
        }
        Ghost((drained, subs))
    }

    /// Commits the decision a batch ended with: swaps the scheduling state
    /// for the one the decision maps to and hands the superseded timer out
    /// for cancellation, so a replaced schedule can never fire.
    fn apply_control_flow(&mut self, control_flow: ControlFlow) -> (r: TimerOps<T>)
        requires
            old(self)@.wf(),
        ensures
            final(self)@.wf(),
            final(self)@.has_runner == old(self)@.has_runner,
            final(self)@.busy == old(self)@.busy,
            final(self)@.queued == old(self)@.queued,
            final(self)@.log == old(self)@.log,
            final(self)@.decisions == old(self)@.decisions,
            !old(self)@.has_runner ==> final(self)@ == old(self)@ && r.is_noop(),
            old(self)@.has_runner ==> commits_to(old(self)@, control_flow, final(self)@.sched),
            old(self)@.has_runner ==> r.cancel == timer_of(old(self)@.sched),
            old(self)@.has_runner ==> arm_matches(final(self)@.sched, r.arm),
    {
        if self.0.runner.is_none() {
            return TimerOps::none();
        }
        let now = elapsed_millis(&self.0.epoch);
        let (new_state, arm): (SchedulingState, Option<ArmTimer<T>>) = match control_flow {
            ControlFlow::ContinuePolling => {
                let id = self.alloc_timer();
                (
                    SchedulingState::Idle { timer: id },
                    Some(
                        ArmTimer {
                            id,
                            delay_ms: POLL_PERIOD_MS,
                            fire_event: Event::BatchOpen(StartCause::WokeFromPoll),
                        },
                    ),
                )
            },
            ControlFlow::SleepUntilWoken => (SchedulingState::Waiting { since: now }, None),
            ControlFlow::SleepUntil(deadline) => {
                let id = self.alloc_timer();
                let delay_ms: u64 = if deadline <= now {
                    0
                } else {
                    deadline - now
                };
                (
                    SchedulingState::WaitingUntil { since: now, deadline, timer: id },
                    Some(
                        ArmTimer {
                            id,
                            delay_ms,
                            fire_event: Event::BatchOpen(
                                StartCause::WokeFromCancelledWait {
                                    since: now,
                                    requested_resume: Some(deadline),
                                },
                            ),
                        },
                    ),
                )
            },
            ControlFlow::Terminate => (SchedulingState::Terminated, None),
        };
        let cancel: Option<u64> = match &mut self.0.runner {
            Some(runner) => {
                // Swap the new state in first, then hand the old state's
                // timer out, so no superseded timer survives the replacement.
                let previous = runner.state;
                runner.state = new_state;
                match previous {
                    SchedulingState::Idle { timer } => Some(timer),
                    SchedulingState::WaitingUntil { timer, .. } => Some(timer),
                    _ => None,
                }
            },
            None => None,
        };
        TimerOps { cancel, arm }
    }
}

} // verus!
