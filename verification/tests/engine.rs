//! Scenario tests driving the engine through registration, polling, sleeping,
//! synchronous submission and termination, observing every event a callback
//! sees through a shared recording.

use std::cell::RefCell;
use std::rc::Rc;

use event_runner::ControlFlow;
use event_runner::Event;
use event_runner::EventHandler;
use event_runner::Shared;
use event_runner::StartCause;
use event_runner::POLL_PERIOD_MS;

/// A scripted callback: records every event it observes, always writes the
/// shared decision into the batch's control slot, and submits the scripted
/// events when it observes the payload they are keyed on (or the teardown
/// notice, for the teardown script).
struct Recorder {
    seen: Rc<RefCell<Vec<Event<u32>>>>,
    decision: Rc<RefCell<ControlFlow>>,
    submit_on: Vec<(u32, Event<u32>)>,
    submit_on_poll_open: Vec<Event<u32>>,
    submit_on_teardown: Vec<Event<u32>>,
}

impl Recorder {
    fn new(
        seen: &Rc<RefCell<Vec<Event<u32>>>>,
        decision: &Rc<RefCell<ControlFlow>>,
    ) -> Recorder {
        Recorder {
            seen: Rc::clone(seen),
            decision: Rc::clone(decision),
            submit_on: Vec::new(),
            submit_on_poll_open: Vec::new(),
            submit_on_teardown: Vec::new(),
        }
    }
}

impl EventHandler<u32> for Recorder {
    fn handle(&mut self, event: Event<u32>, control: &mut ControlFlow) -> Vec<Event<u32>> {
        self.seen.borrow_mut().push(event.clone());
        *control = *self.decision.borrow();
        let mut out = Vec::new();
        match &event {
            Event::UserEvent(k) => {
                let mut keep = Vec::new();
                for (key, ev) in self.submit_on.drain(..) {
                    if key == *k {
                        out.push(ev);
                    } else {
                        keep.push((key, ev));
                    }
                }
                self.submit_on = keep;
            }
            Event::BatchOpen(StartCause::WokeFromPoll) => {
                out.append(&mut self.submit_on_poll_open);
            }
            Event::LoopTeardown => {
                out.append(&mut self.submit_on_teardown);
            }
            _ => {}
        }
        out
    }
}

fn fresh() -> (
    Rc<RefCell<Vec<Event<u32>>>>,
    Rc<RefCell<ControlFlow>>,
    Shared<u32, Recorder>,
) {
    let seen = Rc::new(RefCell::new(Vec::new()));
    let decision = Rc::new(RefCell::new(ControlFlow::ContinuePolling));
    let engine: Shared<u32, Recorder> = Shared::new();
    (seen, decision, engine)
}

#[test]
fn registration_delivers_initial_batch() {
    let (seen, decision, mut engine) = fresh();
    let ops = engine.set_listener(Recorder::new(&seen, &decision));
    assert_eq!(
        *seen.borrow(),
        vec![
            Event::BatchOpen(StartCause::InitialStart),
            Event::BatchClose
        ]
    );
    // The callback kept polling, so a wake timer is armed and none existed
    // before.
    assert_eq!(ops.cancel, None);
    let arm = ops.arm.expect("polling must arm a wake timer");
    assert_eq!(arm.delay_ms, POLL_PERIOD_MS);
    assert_eq!(arm.fire_event, Event::BatchOpen(StartCause::WokeFromPoll));
    assert!(!engine.closed());
    assert_eq!(engine.current_control_flow(), ControlFlow::ContinuePolling);
}

#[test]
fn poll_submit_wears_one_bracket() {
    let (seen, decision, mut engine) = fresh();
    let ops = engine.set_listener(Recorder::new(&seen, &decision));
    let first_timer = ops.arm.expect("polling must arm a wake timer").id;
    seen.borrow_mut().clear();
    let ops = engine.send_event(Event::UserEvent(7));
    assert_eq!(
        *seen.borrow(),
        vec![
            Event::BatchOpen(StartCause::WokeFromPoll),
            Event::UserEvent(7),
            Event::BatchClose
        ]
    );
    // The previous wake timer was handed out for cancellation; the new one
    // differs from it.
    assert_eq!(ops.cancel, Some(first_timer));
    let arm = ops.arm.expect("still polling");
    assert_ne!(arm.id, first_timer);
}

#[test]
fn poll_timer_fire_opens_poll_batch() {
    let (seen, decision, mut engine) = fresh();
    let ops = engine.set_listener(Recorder::new(&seen, &decision));
    let arm = ops.arm.expect("polling must arm a wake timer");
    seen.borrow_mut().clear();
    // The host fires the wake timer by submitting its event.
    engine.send_event(arm.fire_event);
    assert_eq!(
        *seen.borrow(),
        vec![
            Event::BatchOpen(StartCause::WokeFromPoll),
            Event::BatchClose
        ]
    );
}

#[test]
fn deadline_sleep_arms_deadline_timer() {
    let (seen, decision, mut engine) = fresh();
    engine.set_listener(Recorder::new(&seen, &decision));
    let now = engine.now_millis();
    let deadline = now + 50;
    *decision.borrow_mut() = ControlFlow::SleepUntil(deadline);
    let ops = engine.send_event(Event::UserEvent(1));
    assert_eq!(engine.current_control_flow(), ControlFlow::SleepUntil(deadline));
    let arm = ops.arm.expect("a deadline sleep owns a one-shot timer");
    assert!(arm.delay_ms <= 50);
    let (since, requested_resume) = match &arm.fire_event {
        Event::BatchOpen(StartCause::WokeFromCancelledWait {
            since,
            requested_resume,
        }) => (*since, *requested_resume),
        other => panic!("unexpected wake event: {:?}", other),
    };
    assert_eq!(requested_resume, Some(deadline));
    assert!(since >= now);
    // The timer collaborator fires at the deadline: exactly one batch opens
    // with the cancelled-wait cause.
    *decision.borrow_mut() = ControlFlow::ContinuePolling;
    seen.borrow_mut().clear();
    engine.send_event(arm.fire_event);
    assert_eq!(
        *seen.borrow(),
        vec![
            Event::BatchOpen(StartCause::WokeFromCancelledWait {
                since,
                requested_resume: Some(deadline),
            }),
            Event::BatchClose
        ]
    );
}

#[test]
fn past_deadline_fires_with_zero_delay() {
    let (seen, decision, mut engine) = fresh();
    engine.set_listener(Recorder::new(&seen, &decision));
    *decision.borrow_mut() = ControlFlow::SleepUntil(0);
    let ops = engine.send_event(Event::UserEvent(1));
    let arm = ops.arm.expect("a deadline sleep owns a one-shot timer");
    assert_eq!(arm.delay_ms, 0);
}

#[test]
fn indefinite_sleep_owns_no_timer_and_wakes_on_event() {
    let (seen, decision, mut engine) = fresh();
    let ops = engine.set_listener(Recorder::new(&seen, &decision));
    let poll_timer = ops.arm.expect("polling must arm a wake timer").id;
    *decision.borrow_mut() = ControlFlow::SleepUntilWoken;
    let ops = engine.send_event(Event::UserEvent(1));
    // The poll timer is cancelled and nothing new is armed.
    assert_eq!(ops.cancel, Some(poll_timer));
    assert_eq!(ops.arm, None);
    assert_eq!(engine.current_control_flow(), ControlFlow::SleepUntilWoken);
    // An external event wakes the sleeper; the batch says the wait was cut
    // short with no requested resume.
    *decision.borrow_mut() = ControlFlow::ContinuePolling;
    seen.borrow_mut().clear();
    engine.send_event(Event::UserEvent(2));
    let seen = seen.borrow();
    match &seen[0] {
        Event::BatchOpen(StartCause::WokeFromCancelledWait {
            requested_resume, ..
        }) => assert_eq!(*requested_resume, None),
        other => panic!("unexpected batch opener: {:?}", other),
    }
    assert_eq!(seen[1], Event::UserEvent(2));
    assert_eq!(seen[2], Event::BatchClose);
    assert_eq!(seen.len(), 3);
}

#[test]
fn synchronous_submission_folds_into_same_bracket() {
    let (seen, decision, mut engine) = fresh();
    // While observing payload 1, the callback submits payload 2.
    let mut handler = Recorder::new(&seen, &decision);
    handler.submit_on = vec![(1, Event::UserEvent(2))];
    engine.set_listener(handler);
    seen.borrow_mut().clear();
    engine.send_event(Event::UserEvent(1));
    assert_eq!(
        *seen.borrow(),
        vec![
            Event::BatchOpen(StartCause::WokeFromPoll),
            Event::UserEvent(1),
            Event::UserEvent(2),
            Event::BatchClose
        ]
    );
}

#[test]
fn chained_synchronous_submissions_stay_in_order() {
    let (seen, decision, mut engine) = fresh();
    let mut handler = Recorder::new(&seen, &decision);
    // 1 submits 2 and 3; 2 submits 4: delivery stays FIFO inside the bracket.
    handler.submit_on = vec![
        (1, Event::UserEvent(2)),
        (1, Event::UserEvent(3)),
        (2, Event::UserEvent(4)),
    ];
    engine.set_listener(handler);
    seen.borrow_mut().clear();
    engine.send_event(Event::UserEvent(1));
    assert_eq!(
        *seen.borrow(),
        vec![
            Event::BatchOpen(StartCause::WokeFromPoll),
            Event::UserEvent(1),
            Event::UserEvent(2),
            Event::UserEvent(3),
            Event::UserEvent(4),
            Event::BatchClose
        ]
    );
}

#[test]
fn submissions_during_batch_open_precede_the_payload() {
    let (seen, decision, mut engine) = fresh();
    let mut handler = Recorder::new(&seen, &decision);
    // While observing the batch opener, the callback submits payload 8: it is
    // drained right away, before the payload that triggered the batch.
    handler.submit_on_poll_open = vec![Event::UserEvent(8)];
    engine.set_listener(handler);
    seen.borrow_mut().clear();
    engine.send_event(Event::UserEvent(1));
    assert_eq!(
        *seen.borrow(),
        vec![
            Event::BatchOpen(StartCause::WokeFromPoll),
            Event::UserEvent(8),
            Event::UserEvent(1),
            Event::BatchClose
        ]
    );
}

#[test]
fn events_before_registration_are_queued_and_drained() {
    let (seen, decision, mut engine) = fresh();
    // No callback yet: the submissions are deferred, and no timer work is
    // requested.
    let ops = engine.send_event(Event::UserEvent(5));
    assert_eq!(ops.cancel, None);
    assert_eq!(ops.arm, None);
    engine.send_event(Event::UserEvent(6));
    assert!(seen.borrow().is_empty());
    // Registration opens the initial batch and drains the backlog into it.
    engine.set_listener(Recorder::new(&seen, &decision));
    assert_eq!(
        *seen.borrow(),
        vec![
            Event::BatchOpen(StartCause::InitialStart),
            Event::UserEvent(5),
            Event::UserEvent(6),
            Event::BatchClose
        ]
    );
}

#[test]
fn terminate_delivers_teardown_last_and_latches() {
    let (seen, decision, mut engine) = fresh();
    let ops = engine.set_listener(Recorder::new(&seen, &decision));
    let poll_timer = ops.arm.expect("polling must arm a wake timer").id;
    *decision.borrow_mut() = ControlFlow::Terminate;
    seen.borrow_mut().clear();
    let ops = engine.send_event(Event::UserEvent(9));
    assert_eq!(
        *seen.borrow(),
        vec![
            Event::BatchOpen(StartCause::WokeFromPoll),
            Event::UserEvent(9),
            Event::BatchClose,
            Event::LoopTeardown
        ]
    );
    // The poll timer is cancelled and no timer survives termination.
    assert_eq!(ops.cancel, Some(poll_timer));
    assert_eq!(ops.arm, None);
    assert!(engine.closed());
    assert_eq!(engine.current_control_flow(), ControlFlow::Terminate);
    // A closed engine ignores every further submission.
    seen.borrow_mut().clear();
    let ops = engine.send_event(Event::UserEvent(10));
    assert!(seen.borrow().is_empty());
    assert_eq!(ops.cancel, None);
    assert_eq!(ops.arm, None);
    assert!(engine.closed());
}

#[test]
fn teardown_callback_cannot_resurrect_the_engine() {
    let (seen, decision, mut engine) = fresh();
    let mut handler = Recorder::new(&seen, &decision);
    // During teardown the callback tries to wake the engine again.
    handler.submit_on_teardown = vec![Event::UserEvent(42)];
    engine.set_listener(handler);
    *decision.borrow_mut() = ControlFlow::Terminate;
    seen.borrow_mut().clear();
    engine.send_event(Event::UserEvent(1));
    // The teardown submission was discarded, not delivered.
    assert_eq!(
        *seen.borrow(),
        vec![
            Event::BatchOpen(StartCause::WokeFromPoll),
            Event::UserEvent(1),
            Event::BatchClose,
            Event::LoopTeardown
        ]
    );
    assert!(engine.closed());
    // And it never surfaces later either.
    seen.borrow_mut().clear();
    engine.send_event(Event::UserEvent(2));
    assert!(seen.borrow().is_empty());
}

#[test]
fn reregistration_resets_to_initial_start() {
    let (seen, decision, mut engine) = fresh();
    let ops = engine.set_listener(Recorder::new(&seen, &decision));
    let first_timer = ops.arm.expect("polling must arm a wake timer").id;
    seen.borrow_mut().clear();
    // A second registration replaces the callback and opens a fresh initial
    // batch.
    let ops = engine.set_listener(Recorder::new(&seen, &decision));
    assert_eq!(
        *seen.borrow(),
        vec![
            Event::BatchOpen(StartCause::InitialStart),
            Event::BatchClose
        ]
    );
    // The replaced runner's wake timer is handed out for cancellation, and
    // the fresh registration arms a different one.
    assert_eq!(ops.cancel, Some(first_timer));
    let arm = ops.arm.expect("still polling");
    assert_ne!(arm.id, first_timer);
}

#[test]
fn reregistration_after_indefinite_sleep_cancels_nothing() {
    let (seen, decision, mut engine) = fresh();
    engine.set_listener(Recorder::new(&seen, &decision));
    *decision.borrow_mut() = ControlFlow::SleepUntilWoken;
    engine.send_event(Event::UserEvent(1));
    // The sleeping state owns no timer, so replacing it cancels nothing.
    *decision.borrow_mut() = ControlFlow::ContinuePolling;
    let ops = engine.set_listener(Recorder::new(&seen, &decision));
    assert_eq!(ops.cancel, None);
    assert!(ops.arm.is_some());
}

#[test]
fn fresh_engine_defaults_to_polling() {
    let (_seen, _decision, engine) = fresh();
    assert!(!engine.closed());
    assert_eq!(engine.current_control_flow(), ControlFlow::ContinuePolling);
}
