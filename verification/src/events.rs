//! The event vocabulary the engine consumes and produces, and the scheduling
//! decision a callback hands back after every event.

use vstd::prelude::*;

verus! {

/// Why a batch of events began.
#[derive(Clone, Copy, PartialEq, Eq, Debug)]
pub enum StartCause {
    /// The very first batch after a callback is registered.
    InitialStart,
    /// A wake-up while the engine runs in tight-poll mode.
    WokeFromPoll,
    /// A sleep (with or without a deadline) was cut short by an event or by
    /// the deadline itself. `since` is when the sleep began; `requested_resume`
    /// is the deadline, if one was set.
    WokeFromCancelledWait { since: u64, requested_resume: Option<u64> },
}

/// An event as the callback observes it. `T` is the user payload type.
#[derive(Clone, PartialEq, Eq, Debug)]
pub enum Event<T> {
    /// Opens a batch; carries the reason the batch began.
    BatchOpen(StartCause),
    /// A user payload event.
    UserEvent(T),
    /// Closes a batch.
    BatchClose,
    /// The final event ever delivered, once the engine terminates.
    LoopTeardown,
}

/// The scheduling decision a callback requests for after the current batch.
#[derive(Clone, Copy, PartialEq, Eq, Debug)]
pub enum ControlFlow {
    /// Keep the engine running on a short repeating wake timer.
    ContinuePolling,
    /// Suspend until an event is submitted from outside.
    SleepUntilWoken,
    /// Suspend until the given instant (in engine milliseconds), or until an
    /// event is submitted from outside, whichever comes first.
    SleepUntil(u64),
    /// Shut the engine down for good.
    Terminate,
}

/// The predicate picking out user payload events.
pub open spec fn user_pred<T>() -> spec_fn(Event<T>) -> bool {
    |e: Event<T>| e is UserEvent
}

/// The predicate picking out batch-opening markers.
pub open spec fn open_pred<T>() -> spec_fn(Event<T>) -> bool {
    |e: Event<T>| e is BatchOpen
}

/// The predicate picking out batch-closing markers.
pub open spec fn close_pred<T>() -> spec_fn(Event<T>) -> bool {
    |e: Event<T>| e is BatchClose
}

/// The predicate picking out teardown notices.
pub open spec fn teardown_pred<T>() -> spec_fn(Event<T>) -> bool {
    |e: Event<T>| e is LoopTeardown
}

/// The user payload events of a delivery or queue sequence, in order.
pub open spec fn user_events<T>(s: Seq<Event<T>>) -> Seq<Event<T>> {
    s.filter(user_pred())
}

/// The batch-opening markers of a sequence, in order.
pub open spec fn batch_opens<T>(s: Seq<Event<T>>) -> Seq<Event<T>> {
    s.filter(open_pred())
}

/// The batch-closing markers of a sequence, in order.
pub open spec fn batch_closes<T>(s: Seq<Event<T>>) -> Seq<Event<T>> {
    s.filter(close_pred())
}

/// The teardown notices of a sequence, in order.
pub open spec fn teardowns<T>(s: Seq<Event<T>>) -> Seq<Event<T>> {
    s.filter(teardown_pred())
}

} // verus!
