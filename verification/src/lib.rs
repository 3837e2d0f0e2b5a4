//! A reentrant, single-threaded event-dispatch engine.
//!
//! Events are submitted through a single entry point and delivered one at a
//! time, in order, to a registered callback. After each batch the callback's
//! scheduling decision is committed: keep polling, sleep until woken, sleep
//! until a deadline, or terminate. Waiting is simulated with cancellable
//! timers; the engine itself never blocks.

pub mod events;
pub mod laws;
pub mod runner;
pub mod sched;
mod time;

pub use events::ControlFlow;
pub use events::Event;
pub use events::StartCause;
pub use runner::EngineView;
pub use runner::EventHandler;
pub use runner::Execution;
pub use runner::Runner;
pub use runner::Shared;
pub use sched::ArmTimer;
pub use sched::SchedulingState;
pub use sched::TimerOps;
pub use sched::POLL_PERIOD_MS;
