//! The mathematical model of the application state machine: its phases,
//! the record of what was handed to the user's handler, and one spec
//! function per transition. The executable state machine in `app_state`
//! is proved to move exactly as these functions say.
use vstd::prelude::*;
use crate::event::{ControlFlow, Delivery, Event, Instant, StartCause, WindowId};
use crate::platform::Capabilities;
use crate::waker::{NextFire, start_at_schedule};

verus! {

/// The tag of a lifecycle phase.
#[derive(Clone, Copy, Debug, PartialEq, Eq, Structural)]
pub enum PhaseKind {
    NotLaunched,
    Launching,
    ProcessingEvents,
    Waiting,
    PollFinished,
    Terminated,
}

/// A lifecycle phase with the data it owns (the handler aside).
pub enum PhaseModel<W> {
    NotLaunched { queued_windows: Seq<WindowId>, queued_events: Seq<Event<W>> },
    Launching { queued_windows: Seq<WindowId>, queued_events: Seq<Event<W>> },
    ProcessingEvents { active_control_flow: ControlFlow },
    Waiting { start: Instant },
    PollFinished,
    Terminated,
}

/// What a window registration asks the host glue to do.
#[derive(Clone, Copy, Debug, PartialEq, Eq, Structural)]
pub enum WindowAction {
    /// The window was queued until launch: retain it now; it comes back
    /// from `did_finish_launching` to be released.
    Queued,
    /// The application is running: make the window key and visible now.
    MakeKeyAndVisible,
}

/// Why a window could not be registered.
#[derive(Clone, Copy, Debug, PartialEq, Eq, Structural)]
pub enum WindowError {
    /// The application has already terminated.
    PostTermination,
    /// A window is already registered; only one is supported.
    OnlyOneWindow,
}

/// The whole observable state of the lifecycle state machine.
pub struct AppModel<W> {
    pub phase: PhaseModel<W>,
    /// The policy the user's handler currently asks for.
    pub control_flow: ControlFlow,
    /// The schedule of the run-loop timer.
    pub waker: NextFire,
    pub capabilities: Capabilities,
    /// Whether the one supported window has been registered.
    pub window_registered: bool,
    /// Every invocation the state machine made on the user's handler, in
    /// order.
    pub delivered: Seq<Delivery<W>>,
    /// For each invocation in `delivered`, the policy the handler left in
    /// place when it returned.
    pub policies: Seq<ControlFlow>,
    /// The calls the held handler reports having received (`received`),
    /// empty while no phase holds a handler.
    pub handler_log: Seq<Delivery<W>>,
    /// What the handler had received before it was handed over.
    pub handler_base: Seq<Delivery<W>>,
    /// Every phase visited, in order, ending with the current one.
    pub trace: Seq<PhaseKind>,
}

pub open spec fn kind_of<W>(p: PhaseModel<W>) -> PhaseKind {
    match p {
        PhaseModel::NotLaunched { .. } => PhaseKind::NotLaunched,
        PhaseModel::Launching { .. } => PhaseKind::Launching,
        PhaseModel::ProcessingEvents { .. } => PhaseKind::ProcessingEvents,
        PhaseModel::Waiting { .. } => PhaseKind::Waiting,
        PhaseModel::PollFinished => PhaseKind::PollFinished,
        PhaseModel::Terminated => PhaseKind::Terminated,
    }
}

/// Position of a phase in the lifecycle; the running phases share one.
pub open spec fn rank(k: PhaseKind) -> int {
    match k {
        PhaseKind::NotLaunched => 0,
        PhaseKind::Launching => 1,
        PhaseKind::ProcessingEvents => 2,
        PhaseKind::Waiting => 2,
        PhaseKind::PollFinished => 2,
        PhaseKind::Terminated => 3,
    }
}

/// The phase changes the state machine may make.
pub open spec fn step_allowed(a: PhaseKind, b: PhaseKind) -> bool {
    ||| a == PhaseKind::NotLaunched && b == PhaseKind::Launching
    ||| a == PhaseKind::Launching && b == PhaseKind::ProcessingEvents
    ||| a == PhaseKind::ProcessingEvents && b == PhaseKind::Waiting
    ||| a == PhaseKind::ProcessingEvents && b == PhaseKind::PollFinished
    ||| a == PhaseKind::Waiting && b == PhaseKind::ProcessingEvents
    ||| a == PhaseKind::PollFinished && b == PhaseKind::ProcessingEvents
    ||| a == PhaseKind::ProcessingEvents && b == PhaseKind::Terminated
}

/// Whether a phase owns the user's handler.
pub open spec fn holds_handler(k: PhaseKind) -> bool {
    ||| k == PhaseKind::Launching
    ||| k == PhaseKind::ProcessingEvents
    ||| k == PhaseKind::Waiting
    ||| k == PhaseKind::PollFinished
}

/// A sequence of visited phases that starts before launch and only ever
/// takes allowed steps.
pub open spec fn trace_wf(t: Seq<PhaseKind>) -> bool {
    &&& t.len() > 0
    &&& t[0] == PhaseKind::NotLaunched
    &&& forall|i: int| 0 <= i < t.len() - 1 ==> #[trigger] step_allowed(t[i], t[i + 1])
    &&& forall|i: int, j: int| 0 <= i <= j < t.len() ==> rank(#[trigger] t[i]) <= rank(#[trigger] t[j])
}

pub proof fn lemma_trace_push(t: Seq<PhaseKind>, k: PhaseKind)
    requires
        trace_wf(t),
        step_allowed(t.last(), k),
    ensures
        trace_wf(t.push(k)),
{
    let u = t.push(k);
    assert forall|i: int| 0 <= i < u.len() - 1 implies #[trigger] step_allowed(u[i], u[i + 1]) by {
        if i < t.len() - 1 {
            assert(u[i] == t[i] && u[i + 1] == t[i + 1]);
        }
    }
    assert forall|i: int, j: int| 0 <= i <= j < u.len() implies rank(#[trigger] u[i]) <= rank(#[trigger] u[j]) by {
        if j < t.len() {
            assert(u[i] == t[i] && u[j] == t[j]);
        } else if i < t.len() {
            assert(u[i] == t[i]);
            assert(rank(t[i]) <= rank(t[t.len() - 1]));
        }
    }
}

/// The start cause of an iteration that resumes a wait begun at `start`
/// under `control_flow`, when the run loop wakes at `now`.
pub open spec fn wait_cause(control_flow: ControlFlow, start: Instant, now: Instant) -> StartCause {
    match control_flow {
        ControlFlow::WaitUntil(t) => if now.nanos >= t.nanos {
            StartCause::ResumeTimeReached { start, requested_resume: t }
        } else {
            StartCause::WaitCancelled { start, requested_resume: Some(t) }
        },
        _ => StartCause::WaitCancelled { start, requested_resume: None },
    }
}

/// The timer schedule that entering `policy` at `now` programs.
pub open spec fn schedule_for(policy: ControlFlow, now: Instant) -> NextFire {
    match policy {
        ControlFlow::Poll => NextFire::Immediately,
        ControlFlow::WaitUntil(t) => start_at_schedule(t, now),
        _ => NextFire::Never,
    }
}

/// The policy that takes effect when the handler asks for `requested` in an
/// iteration that began under `active`: `Exit` cannot be honoured.
pub open spec fn effective_policy(active: ControlFlow, requested: ControlFlow) -> ControlFlow {
    if requested is Exit {
        active
    } else {
        requested
    }
}

/// The handler invocations of a launch that replays `events`.
pub open spec fn launch_deliveries<W>(events: Seq<Event<W>>) -> Seq<Delivery<W>> {
    seq![Delivery::NonUser(Event::NewEvents(StartCause::Init))]
        + events.map_values(|e: Event<W>| Delivery::NonUser(e))
        + seq![Delivery::UserEvents]
}

impl<W> AppModel<W> {
    pub open spec fn kind(self) -> PhaseKind {
        kind_of(self.phase)
    }

    /// Windows waiting for launch; each holds one retain taken when it was
    /// queued.
    pub open spec fn queued_windows(self) -> Seq<WindowId> {
        match self.phase {
            PhaseModel::NotLaunched { queued_windows, .. } => queued_windows,
            PhaseModel::Launching { queued_windows, .. } => queued_windows,
            _ => Seq::empty(),
        }
    }

    /// Events waiting for launch, to be replayed in order.
    pub open spec fn queued_events(self) -> Seq<Event<W>> {
        match self.phase {
            PhaseModel::NotLaunched { queued_events, .. } => queued_events,
            PhaseModel::Launching { queued_events, .. } => queued_events,
            _ => Seq::empty(),
        }
    }

    pub open spec fn wf(self) -> bool {
        &&& trace_wf(self.trace)
        &&& self.policies.len() == self.delivered.len()
        &&& holds_handler(self.kind()) ==> self.handler_log == self.handler_base + self.delivered
        &&& !holds_handler(self.kind()) ==> self.handler_log == Seq::<Delivery<W>>::empty()
        &&& (self.kind() == PhaseKind::NotLaunched || self.kind() == PhaseKind::Launching)
            ==> self.delivered.len() == 0
        &&& self.trace.last() == self.kind()
        &&& self.queued_windows().len() <= 1
        &&& (self.kind() == PhaseKind::NotLaunched || self.kind() == PhaseKind::Launching)
            ==> (self.window_registered <==> self.queued_windows().len() == 1)
        &&& self.phase matches PhaseModel::ProcessingEvents { active_control_flow }
            ==> !(active_control_flow is Exit)
        &&& self.kind() == PhaseKind::PollFinished ==> self.control_flow == ControlFlow::Poll
        &&& self.kind() == PhaseKind::Waiting ==> (self.control_flow is Wait
            || self.control_flow is WaitUntil)
        &&& self.kind() == PhaseKind::Waiting && self.control_flow is Wait ==> self.waker
            == NextFire::Never
        &&& self.phase matches PhaseModel::ProcessingEvents { active_control_flow }
            ==> (active_control_flow is Wait ==> self.waker == NextFire::Never)
    }

    /// The state with `p` as its phase, visited after the current one.
    pub open spec fn enter(self, p: PhaseModel<W>) -> AppModel<W> {
        AppModel { phase: p, trace: self.trace.push(kind_of(p)), ..self }
    }

    /// The state after the handler was invoked with `d` and left
    /// `control_flow` in place.
    pub open spec fn deliver(self, d: Delivery<W>, control_flow: ControlFlow) -> AppModel<W> {
        AppModel {
            delivered: self.delivered.push(d),
            handler_log: self.handler_log.push(d),
            policies: self.policies.push(control_flow),
            control_flow,
            ..self
        }
    }

    /// The policy the handler left when it last returned.
    pub open spec fn last_policy(self) -> ControlFlow {
        self.policies.last()
    }
}

/// The state of a freshly created state machine.
pub open spec fn initial_model<W>(capabilities: Capabilities) -> AppModel<W> {
    AppModel {
        phase: PhaseModel::NotLaunched { queued_windows: Seq::empty(), queued_events: Seq::empty() },
        control_flow: ControlFlow::Poll,
        waker: NextFire::Never,
        capabilities,
        window_registered: false,
        delivered: Seq::empty(),
        policies: Seq::empty(),
        handler_log: Seq::empty(),
        handler_base: Seq::empty(),
        trace: seq![PhaseKind::NotLaunched],
    }
}

/// Phases in which a window may be registered at all.
pub open spec fn window_registration_phase(k: PhaseKind) -> bool {
    ||| k == PhaseKind::NotLaunched
    ||| k == PhaseKind::ProcessingEvents
    ||| k == PhaseKind::Terminated
}

pub open spec fn set_key_window_result<W>(m: AppModel<W>) -> Result<WindowAction, WindowError> {
    if m.kind() == PhaseKind::Terminated {
        Err(WindowError::PostTermination)
    } else if m.window_registered {
        Err(WindowError::OnlyOneWindow)
    } else if m.kind() == PhaseKind::NotLaunched {
        Ok(WindowAction::Queued)
    } else {
        Ok(WindowAction::MakeKeyAndVisible)
    }
}

pub open spec fn set_key_window_model<W>(m: AppModel<W>, window: WindowId) -> AppModel<W> {
    match set_key_window_result(m) {
        Err(_) => m,
        Ok(_) => match m.phase {
            PhaseModel::NotLaunched { queued_windows, queued_events } => AppModel {
                phase: PhaseModel::NotLaunched {
                    queued_windows: queued_windows.push(window),
                    queued_events,
                },
                window_registered: true,
                ..m
            },
            _ => AppModel { window_registered: true, ..m },
        },
    }
}

/// The handler, which has so far received `received`, is handed over.
pub open spec fn will_launch_model<W>(m: AppModel<W>, received: Seq<Delivery<W>>) -> AppModel<W> {
    match m.phase {
        PhaseModel::NotLaunched { queued_windows, queued_events } => AppModel {
            handler_log: received,
            handler_base: received,
            ..m.enter(PhaseModel::Launching { queued_windows, queued_events })
        },
        _ => m,
    }
}

/// Launch completes: the waker is started for the first `Poll` iteration,
/// and the handler is invoked for the launch events, leaving the policies
/// `left` in place, one for each invocation.
pub open spec fn did_finish_launching_model<W>(m: AppModel<W>, left: Seq<ControlFlow>) -> AppModel<W> {
    AppModel {
        delivered: m.delivered + launch_deliveries(m.queued_events()),
        handler_log: m.handler_log + launch_deliveries(m.queued_events()),
        policies: m.policies + left,
        control_flow: left.last(),
        waker: NextFire::Immediately,
        ..m.enter(PhaseModel::ProcessingEvents { active_control_flow: ControlFlow::Poll })
    }
}

/// The run loop wakes at `now`; the handler, invoked with the new
/// iteration's start, leaves `control_flow` in place.
pub open spec fn wakeup_model<W>(m: AppModel<W>, now: Instant, control_flow: ControlFlow) -> AppModel<W> {
    match m.phase {
        PhaseModel::Waiting { start } => m.enter(
            PhaseModel::ProcessingEvents { active_control_flow: m.control_flow },
        ).deliver(
            Delivery::NonUser(Event::NewEvents(wait_cause(m.control_flow, start, now))),
            control_flow,
        ),
        PhaseModel::PollFinished => m.enter(
            PhaseModel::ProcessingEvents { active_control_flow: ControlFlow::Poll },
        ).deliver(Delivery::NonUser(Event::NewEvents(StartCause::Poll)), control_flow),
        _ => m,
    }
}

/// An event from the host arrives; if it is delivered, the handler leaves
/// `control_flow` in place.
pub open spec fn nonuser_event_model<W>(m: AppModel<W>, event: Event<W>, control_flow: ControlFlow) -> AppModel<W> {
    match m.phase {
        PhaseModel::NotLaunched { queued_windows, queued_events } => AppModel {
            phase: PhaseModel::NotLaunched { queued_windows, queued_events: queued_events.push(event) },
            ..m
        },
        PhaseModel::Launching { queued_windows, queued_events } => AppModel {
            phase: PhaseModel::Launching { queued_windows, queued_events: queued_events.push(event) },
            ..m
        },
        PhaseModel::ProcessingEvents { .. } => m.deliver(Delivery::NonUser(event), control_flow),
        _ => m,
    }
}

/// The user's event queue is drained; the handler leaves `control_flow` in
/// place.
pub open spec fn user_events_model<W>(m: AppModel<W>, control_flow: ControlFlow) -> AppModel<W> {
    match m.phase {
        PhaseModel::ProcessingEvents { .. } => m.deliver(Delivery::UserEvents, control_flow),
        _ => m,
    }
}

/// The run loop is about to sleep at `now`; the handler, told that the
/// events are cleared, leaves `requested` in place, and the policy that
/// takes effect is decided from it.
pub open spec fn events_cleared_model<W>(m: AppModel<W>, requested: ControlFlow, now: Instant) -> AppModel<W> {
    match m.phase {
        PhaseModel::ProcessingEvents { active_control_flow } => {
            let policy = effective_policy(active_control_flow, requested);
            let after = m.deliver(Delivery::NonUser(Event::EventsCleared), requested);
            let waker = if policy == active_control_flow {
                m.waker
            } else {
                schedule_for(policy, now)
            };
            let phase = if policy is Poll {
                PhaseModel::PollFinished
            } else {
                PhaseModel::Waiting { start: now }
            };
            AppModel { waker, control_flow: policy, ..after.enter(phase) }
        },
        _ => m,
    }
}

/// The application terminates; the handler, told that the loop is
/// destroyed, leaves `control_flow` in place and is given up.
pub open spec fn terminated_model<W>(m: AppModel<W>, control_flow: ControlFlow) -> AppModel<W> {
    AppModel {
        handler_log: Seq::empty(),
        ..m.deliver(Delivery::NonUser(Event::LoopDestroyed), control_flow).enter(PhaseModel::Terminated)
    }
}

} // verus!
