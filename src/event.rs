//! The portable values that flow between the lifecycle core and user code:
//! points in time, control-flow policies, start causes and events.
use vstd::prelude::*;

verus! {

/// A point on the host's monotonic clock, in nanoseconds from an arbitrary
/// origin fixed for the life of the process.
#[derive(Clone, Copy, Debug, PartialEq, Eq, Structural)]
pub struct Instant {
    pub nanos: u64,
}

impl Instant {
    /// Whether `self` is at or after `other`.
    pub fn reached(&self, other: &Instant) -> (r: bool)
        ensures
            r == (self.nanos >= other.nanos),
    {
        self.nanos >= other.nanos
    }
}

/// How the user wants to be scheduled between two iterations.
#[derive(Clone, Copy, Debug, PartialEq, Eq, Structural)]
pub enum ControlFlow {
    /// Start the next iteration as soon as possible.
    Poll,
    /// Sleep until an event arrives.
    Wait,
    /// Sleep until an event arrives or the deadline passes.
    WaitUntil(Instant),
    /// Stop the loop; the host offers no way to do so, so it is ignored.
    Exit,
}

impl ControlFlow {
    /// The policy a new event loop starts with.
    pub fn default_policy() -> (r: ControlFlow)
        ensures
            r == ControlFlow::Poll,
    {
        ControlFlow::Poll
    }
}

/// Why a new iteration of the event loop began.
#[derive(Clone, Copy, Debug, PartialEq, Eq, Structural)]
#[allow(inconsistent_fields)]
pub enum StartCause {
    /// The deadline of a `WaitUntil` was reached.
    ResumeTimeReached { start: Instant, requested_resume: Instant },
    /// The loop woke before its deadline, or while waiting without one.
    WaitCancelled { start: Instant, requested_resume: Option<Instant> },
    /// The loop was polling.
    Poll,
    /// The first iteration after launch.
    Init,
}

/// Identity of a native window handle.
#[derive(Clone, Copy, Debug, PartialEq, Eq, Structural, Hash)]
pub struct WindowId {
    pub raw: usize,
}

/// An event that does not come from the user's proxy. `W` is the decoded
/// window-level event (touches, resizes, focus) supplied by the host glue.
#[derive(Debug)]
pub enum Event<W> {
    /// A new iteration begins.
    NewEvents(StartCause),
    /// Something happened to a window.
    WindowEvent { window_id: WindowId, event: W },
    /// The application moved to (`true`) or from (`false`) the background.
    Suspended(bool),
    /// All events of the current iteration have been delivered.
    EventsCleared,
    /// The loop is being destroyed; no event follows.
    LoopDestroyed,
}

/// One invocation of the user's handler, as recorded by the state machine.
pub enum Delivery<W> {
    /// `handle_nonuser_event` with this event.
    NonUser(Event<W>),
    /// `handle_user_events`, which drains the user's own event queue.
    UserEvents,
}

/// The calls a handler has received, in order.
pub type HandlerLog<W> = Seq<Delivery<W>>;

/// The user's side of the event loop: the state machine owns exactly one
/// value of this kind and calls it with each event in turn. The handler may
/// change the control-flow policy on every call.
///
/// `received` is the handler's own account of the calls made on it; each
/// method adds its call to the end of that account, which holds of any
/// handler that logs what it is given. It exists for the verifier only and
/// is never called when the program runs.
pub trait EventHandler<W> {
    spec fn received(&self) -> HandlerLog<W>;

    fn handle_nonuser_event(&mut self, event: Event<W>, control_flow: &mut ControlFlow)
        ensures
            final(self).received() == old(self).received().push(Delivery::NonUser(event)),
    ;

    fn handle_user_events(&mut self, control_flow: &mut ControlFlow)
        ensures
            final(self).received() == old(self).received().push(Delivery::UserEvents),
    ;
}

} // verus!
