//! The application lifecycle state machine. Each host callback becomes one
//! transition; the user's handler moves from phase to phase by value, so
//! exactly one phase owns it and at most one iteration of user code runs.
use vstd::prelude::*;
use crate::event::{ControlFlow, Delivery, Event, EventHandler, Instant, StartCause, WindowId};
use crate::model::{
    AppModel, PhaseKind, PhaseModel, WindowAction, WindowError, did_finish_launching_model,
    events_cleared_model, initial_model, launch_deliveries, lemma_trace_push, nonuser_event_model,
    set_key_window_model, set_key_window_result, terminated_model, user_events_model, wait_cause,
    wakeup_model, will_launch_model, window_registration_phase,
};
use crate::platform::Capabilities;
use crate::waker::EventLoopWaker;

verus! {

enum AppStateImpl<W, H> {
    NotLaunched { queued_windows: Vec<WindowId>, queued_events: Vec<Event<W>> },
    Launching { queued_windows: Vec<WindowId>, queued_events: Vec<Event<W>>, queued_event_handler: H },
    ProcessingEvents { event_handler: H, active_control_flow: ControlFlow },
    Waiting { waiting_event_handler: H, start: Instant },
    PollFinished { waiting_event_handler: H },
    Terminated,
}

/// The lifecycle state machine, with the control-flow policy and the
/// run-loop waker it drives.
pub struct AppState<W, H> {
    app_state: AppStateImpl<W, H>,
    capabilities: Capabilities,
    control_flow: ControlFlow,
    waker: EventLoopWaker,
    window_registered: bool,
    delivered: Ghost<Seq<Delivery<W>>>,
    policies: Ghost<Seq<ControlFlow>>,
    handler_base: Ghost<Seq<Delivery<W>>>,
    trace: Ghost<Seq<PhaseKind>>,
}

impl<W, H: EventHandler<W>> AppStateImpl<W, H> {
    /// What the held handler reports having received; empty when no phase
    /// holds one.
    spec fn handler_log(&self) -> Seq<Delivery<W>> {
        match self {
            AppStateImpl::Launching { queued_event_handler, .. } => queued_event_handler.received(),
            AppStateImpl::ProcessingEvents { event_handler, .. } => event_handler.received(),
            AppStateImpl::Waiting { waiting_event_handler, .. } => waiting_event_handler.received(),
            AppStateImpl::PollFinished { waiting_event_handler } => waiting_event_handler.received(),
            _ => Seq::empty(),
        }
    }

    spec fn model(&self) -> PhaseModel<W> {
        match self {
            AppStateImpl::NotLaunched { queued_windows, queued_events } => PhaseModel::NotLaunched {
                queued_windows: queued_windows@,
                queued_events: queued_events@,
            },
            AppStateImpl::Launching { queued_windows, queued_events, .. } => PhaseModel::Launching {
                queued_windows: queued_windows@,
                queued_events: queued_events@,
            },
            AppStateImpl::ProcessingEvents { active_control_flow, .. } => PhaseModel::ProcessingEvents {
                active_control_flow: *active_control_flow,
            },
            AppStateImpl::Waiting { start, .. } => PhaseModel::Waiting { start: *start },
            AppStateImpl::PollFinished { .. } => PhaseModel::PollFinished,
            AppStateImpl::Terminated => PhaseModel::Terminated,
        }
    }
}

impl<W, H: EventHandler<W>> View for AppState<W, H> {
    type V = AppModel<W>;

    closed spec fn view(&self) -> AppModel<W> {
        AppModel {
            phase: self.app_state.model(),
            control_flow: self.control_flow,
            waker: self.waker@,
            capabilities: self.capabilities,
            window_registered: self.window_registered,
            delivered: self.delivered@,
            policies: self.policies@,
            handler_log: self.app_state.handler_log(),
            handler_base: self.handler_base@,
            trace: self.trace@,
        }
    }
}

/// Whether a window queued before launch is still referenced by someone
/// other than the state machine, given its retain count.
pub fn still_referenced(retain_count: u64) -> (r: bool)
    ensures
        r == (retain_count > 1),
{
    retain_count > 1
}

/// The start cause of an iteration that resumes a wait begun at `start`
/// under `control_flow`, when the run loop wakes at `now`.
pub fn resume_cause(control_flow: ControlFlow, start: Instant, now: Instant) -> (r: StartCause)
    ensures
        r == wait_cause(control_flow, start, now),
{
    match control_flow {
        ControlFlow::WaitUntil(requested_resume) => if now.reached(&requested_resume) {
            StartCause::ResumeTimeReached { start, requested_resume }
        } else {
            StartCause::WaitCancelled { start, requested_resume: Some(requested_resume) }
        },
        _ => StartCause::WaitCancelled { start, requested_resume: None },
    }
}

impl<W, H: EventHandler<W>> AppState<W, H> {
    pub open spec fn wf(&self) -> bool {
        self@.wf()
    }

    /// A state machine before launch, with nothing queued, the `Poll`
    /// policy and a stopped waker.
    pub fn new(capabilities: Capabilities) -> (r: AppState<W, H>)
        ensures
            r@ == initial_model::<W>(capabilities),
            r.wf(),
    {
        proof {
            assert(Seq::<PhaseKind>::empty().push(PhaseKind::NotLaunched) =~= seq![PhaseKind::NotLaunched]);
        }
        AppState {
            app_state: AppStateImpl::NotLaunched { queued_windows: Vec::new(), queued_events: Vec::new() },
            capabilities,
            control_flow: ControlFlow::default_policy(),
            waker: EventLoopWaker::new(),
            window_registered: false,
            delivered: Ghost(Seq::empty()),
            policies: Ghost(Seq::empty()),
            handler_base: Ghost(Seq::empty()),
            trace: Ghost(Seq::empty().push(PhaseKind::NotLaunched)),
        }
    }

    pub fn capabilities(&self) -> (r: &Capabilities)
        ensures
            *r == self@.capabilities,
    {
        &self.capabilities
    }

    /// The current phase.
    pub fn phase(&self) -> (r: PhaseKind)
        ensures
            r == self@.kind(),
    {
        match &self.app_state {
            AppStateImpl::NotLaunched { .. } => PhaseKind::NotLaunched,
            AppStateImpl::Launching { .. } => PhaseKind::Launching,
            AppStateImpl::ProcessingEvents { .. } => PhaseKind::ProcessingEvents,
            AppStateImpl::Waiting { .. } => PhaseKind::Waiting,
            AppStateImpl::PollFinished { .. } => PhaseKind::PollFinished,
            AppStateImpl::Terminated => PhaseKind::Terminated,
        }
    }

    /// The policy currently in effect.
    pub fn control_flow(&self) -> (r: ControlFlow)
        ensures
            r == self@.control_flow,
    {
        self.control_flow
    }

    /// The windows queued before launch, each holding one retain.
    pub fn queued_windows(&self) -> (r: Vec<WindowId>)
        ensures
            r@ == self@.queued_windows(),
    {
        match &self.app_state {
            AppStateImpl::NotLaunched { queued_windows, .. } => queued_windows.clone(),
            AppStateImpl::Launching { queued_windows, .. } => queued_windows.clone(),
            _ => Vec::new(),
        }
    }

    /// The run-loop waker, whose schedule the host timer follows.
    pub fn waker(&self) -> (r: &EventLoopWaker)
        ensures
            r@ == self@.waker,
    {
        &self.waker
    }

    /// Registers the one supported window. Before launch it is queued,
    /// and the caller retains it until `did_finish_launching` hands it
    /// back; while events are processed it is shown at once.
    pub fn set_key_window(&mut self, window: WindowId) -> (r: Result<WindowAction, WindowError>)
        requires
            old(self).wf(),
            window_registration_phase(old(self)@.kind()),
        ensures
            final(self).wf(),
            r == set_key_window_result(old(self)@),
            final(self)@ == set_key_window_model(old(self)@, window),
    {
        if let AppStateImpl::Terminated = &self.app_state {
            return Err(WindowError::PostTermination);
        }
        if self.window_registered {
            return Err(WindowError::OnlyOneWindow);
        }
        self.window_registered = true;
        match &mut self.app_state {
            AppStateImpl::NotLaunched { queued_windows, .. } => {
                queued_windows.push(window);
                Ok(WindowAction::Queued)
            },
            _ => Ok(WindowAction::MakeKeyAndVisible),
        }
    }

    /// Hands the user's handler to the state machine, before launch. This
    /// happens once: afterwards the phase is no longer `NotLaunched`.
    pub fn will_launch(&mut self, queued_event_handler: H)
        requires
            old(self).wf(),
            old(self)@.kind() == PhaseKind::NotLaunched,
        ensures
            final(self).wf(),
            final(self)@.kind() == PhaseKind::Launching,
            final(self)@.handler_log == queued_event_handler.received(),
            final(self)@ == will_launch_model(old(self)@, queued_event_handler.received()),
    {
        let mut previous = AppStateImpl::Terminated;
        std::mem::swap(&mut self.app_state, &mut previous);
        match previous {
            AppStateImpl::NotLaunched { queued_windows, queued_events } => {
                self.handler_base = Ghost(queued_event_handler.received());
                self.app_state = AppStateImpl::Launching { queued_windows, queued_events, queued_event_handler };
                proof {
                    lemma_trace_push(self.trace@, PhaseKind::Launching);
                }
                self.trace = Ghost(self.trace@.push(PhaseKind::Launching));
            },
            other => {
                self.app_state = other;
            },
        }
    }

    /// The host finished launching: the waker is started, and the handler
    /// receives the `Init` start, every event queued before launch in
    /// order, and the user's events.
    /// Returns the queued windows; the caller performs the layout fix on
    /// each that is still referenced and releases each exactly once.
    pub fn did_finish_launching(&mut self) -> (windows: Vec<WindowId>)
        requires
            old(self).wf(),
            old(self)@.kind() == PhaseKind::Launching,
        ensures
            final(self).wf(),
            windows@ == old(self)@.queued_windows(),
            final(self)@.handler_log == old(self)@.handler_log + launch_deliveries(old(self)@.queued_events()),
            final(self)@.policies.len() == old(self)@.policies.len() + old(self)@.queued_events().len() + 2,
            final(self)@ == did_finish_launching_model(
                old(self)@,
                final(self)@.policies.skip(old(self)@.policies.len() as int),
            ),
    {
        let ghost before = self@;
        let mut previous = AppStateImpl::Terminated;
        std::mem::swap(&mut self.app_state, &mut previous);
        if let AppStateImpl::Launching { queued_windows, mut queued_events, queued_event_handler } = previous {
            self.app_state = AppStateImpl::ProcessingEvents {
                event_handler: queued_event_handler,
                active_control_flow: ControlFlow::Poll,
            };
            proof {
                lemma_trace_push(self.trace@, PhaseKind::ProcessingEvents);
            }
            self.trace = Ghost(self.trace@.push(PhaseKind::ProcessingEvents));
            self.waker.start();
            let ghost entered = self@;
            let ghost events = queued_events@;
            self.deliver(Event::NewEvents(StartCause::Init));
            let ghost init = self@.delivered;
            while queued_events.len() > 0
                invariant
                    self@.kind() == PhaseKind::ProcessingEvents,
                    self@.phase == entered.phase,
                    self@.trace == entered.trace,
                    self@.waker == entered.waker,
                    self@.capabilities == entered.capabilities,
                    self@.window_registered == entered.window_registered,
                    init.len() <= self@.delivered.len(),
                    self@.policies.len() == self@.delivered.len(),
                    self@.handler_base == before.handler_base,
                    self@.handler_log == before.handler_base + self@.delivered,
                    self@.policies.subrange(0, before.policies.len() as int) == before.policies,
                    before.policies.len() <= self@.policies.len(),
                    self@.delivered.subrange(0, init.len() as int) == init,
                    events.len() == (self@.delivered.len() - init.len()) + queued_events@.len(),
                    queued_events@ == events.skip(events.len() - queued_events@.len()),
                    forall|i: int| 0 <= i < self@.delivered.len() - init.len()
                        ==> #[trigger] self@.delivered[init.len() + i] == Delivery::NonUser(events[i]),
                decreases queued_events@.len(),
            {
                let event = queued_events.remove(0);
                self.deliver(event);
            }
            let ghost looped = self@.delivered;
            self.deliver_user_events();
            proof {
                let mapped = events.map_values(|e: Event<W>| Delivery::NonUser(e));
                let expected = init + mapped + seq![Delivery::UserEvents];
                assert(before.queued_events() == events);
                assert(init =~= before.delivered.push(Delivery::NonUser(Event::NewEvents(StartCause::Init))));
                assert(before.delivered + launch_deliveries(events) =~= expected);
                assert(looped.len() == init.len() + events.len());
                assert(self@.delivered == looped.push(Delivery::UserEvents));
                assert forall|i: int| 0 <= i < expected.len() implies self@.delivered[i] == expected[i] by {
                    if i < init.len() {
                        assert(looped[i] == looped.subrange(0, init.len() as int)[i]);
                    } else if i < init.len() + events.len() {
                        let k = i - init.len();
                        assert(looped[init.len() + k] == Delivery::NonUser(events[k]));
                    }
                }
                assert(self@.delivered =~= expected);
                assert(before.delivered.len() == 0);
                assert(before.delivered =~= Seq::<Delivery<W>>::empty());
                assert(before.handler_log == before.handler_base + before.delivered);
                assert(before.handler_log =~= before.handler_base);
                assert(self@.handler_log =~= before.handler_log + launch_deliveries(events));
                let left = self@.policies.skip(before.policies.len() as int);
                assert(self@.policies =~= before.policies + left);
                assert(left.last() == self@.control_flow);
            }
            queued_windows
        } else {
            self.app_state = previous;
            Vec::new()
        }
    }

    /// The run loop woke at `now` (or entered for the first time). Before
    /// launch nothing happens. Otherwise a new iteration begins under the
    /// policy in effect, and the handler receives its start cause.
    pub fn handle_wakeup_transition(&mut self, now: Instant)
        requires
            old(self).wf(),
            old(self)@.kind() != PhaseKind::ProcessingEvents,
            old(self)@.kind() != PhaseKind::Terminated,
        ensures
            final(self).wf(),
            old(self)@.phase matches PhaseModel::Waiting { start } ==> final(self)@.handler_log
                == old(self)@.handler_log.push(
                Delivery::NonUser(Event::NewEvents(wait_cause(old(self)@.control_flow, start, now))),
            ),
            old(self)@.kind() == PhaseKind::PollFinished ==> final(self)@.handler_log
                == old(self)@.handler_log.push(Delivery::NonUser(Event::NewEvents(StartCause::Poll))),
            (old(self)@.kind() == PhaseKind::NotLaunched || old(self)@.kind() == PhaseKind::Launching)
                ==> final(self)@ == old(self)@,
            final(self)@ == wakeup_model(old(self)@, now, final(self)@.control_flow),
    {
        let mut previous = AppStateImpl::Terminated;
        std::mem::swap(&mut self.app_state, &mut previous);
        match previous {
            AppStateImpl::Waiting { waiting_event_handler, start } => {
                let cause = resume_cause(self.control_flow, start, now);
                self.app_state = AppStateImpl::ProcessingEvents {
                    event_handler: waiting_event_handler,
                    active_control_flow: self.control_flow,
                };
                proof {
                    lemma_trace_push(self.trace@, PhaseKind::ProcessingEvents);
                }
                self.trace = Ghost(self.trace@.push(PhaseKind::ProcessingEvents));
                self.deliver(Event::NewEvents(cause));
            },
            AppStateImpl::PollFinished { waiting_event_handler } => {
                self.app_state = AppStateImpl::ProcessingEvents {
                    event_handler: waiting_event_handler,
                    active_control_flow: ControlFlow::Poll,
                };
                proof {
                    lemma_trace_push(self.trace@, PhaseKind::ProcessingEvents);
                }
                self.trace = Ghost(self.trace@.push(PhaseKind::ProcessingEvents));
                self.deliver(Event::NewEvents(StartCause::Poll));
            },
            other => {
                self.app_state = other;
            },
        }
    }

    /// An event from the host: queued for replay before launch, handed to
    /// the handler while events are processed.
    pub fn handle_nonuser_event(&mut self, event: Event<W>)
        requires
            old(self).wf(),
            old(self)@.kind() == PhaseKind::NotLaunched || old(self)@.kind() == PhaseKind::Launching
                || old(self)@.kind() == PhaseKind::ProcessingEvents,
        ensures
            final(self).wf(),
            old(self)@.kind() == PhaseKind::ProcessingEvents ==> final(self)@.handler_log
                == old(self)@.handler_log.push(Delivery::NonUser(event)),
            old(self)@.kind() != PhaseKind::ProcessingEvents ==> final(self)@.handler_log
                == old(self)@.handler_log,
            final(self)@ == nonuser_event_model(old(self)@, event, final(self)@.control_flow),
    {
        match &mut self.app_state {
            AppStateImpl::NotLaunched { queued_events, .. } => {
                queued_events.push(event);
            },
            AppStateImpl::Launching { queued_events, .. } => {
                queued_events.push(event);
            },
            _ => {
                self.deliver(event);
            },
        }
    }

    /// The user's events are waiting: the handler drains them while events
    /// are processed; before launch nothing happens.
    pub fn handle_user_events(&mut self)
        requires
            old(self).wf(),
            old(self)@.kind() == PhaseKind::NotLaunched || old(self)@.kind() == PhaseKind::Launching
                || old(self)@.kind() == PhaseKind::ProcessingEvents,
        ensures
            final(self).wf(),
            old(self)@.kind() == PhaseKind::ProcessingEvents ==> final(self)@.handler_log
                == old(self)@.handler_log.push(Delivery::UserEvents),
            old(self)@.kind() != PhaseKind::ProcessingEvents ==> final(self)@.handler_log
                == old(self)@.handler_log,
            final(self)@ == user_events_model(old(self)@, final(self)@.control_flow),
    {
        if let AppStateImpl::ProcessingEvents { .. } = &self.app_state {
            self.deliver_user_events();
        }
    }

    /// The run loop is about to sleep at `now`. The handler is told that
    /// the events are cleared; then the policy it leaves in place when it
    /// returns is compared with the one the iteration began under, the
    /// waker is reprogrammed if it changed, and the machine goes idle.
    /// `Exit` cannot be honoured: the previous policy stays. Returns the
    /// policy the handler left (the last one recorded), so that an ignored
    /// `Exit` can be reported. Before launch nothing happens, and the
    /// current policy is returned.
    pub fn handle_events_cleared(&mut self, now: Instant) -> (requested: ControlFlow)
        requires
            old(self).wf(),
            old(self)@.kind() == PhaseKind::NotLaunched || old(self)@.kind() == PhaseKind::Launching
                || old(self)@.kind() == PhaseKind::ProcessingEvents,
        ensures
            final(self).wf(),
            old(self)@.kind() == PhaseKind::ProcessingEvents ==> final(self)@.handler_log
                == old(self)@.handler_log.push(Delivery::NonUser(Event::EventsCleared)),
            old(self)@.kind() == PhaseKind::ProcessingEvents ==> final(self)@.last_policy() == requested,
            old(self)@.kind() != PhaseKind::ProcessingEvents ==> requested == old(self)@.control_flow,
            final(self)@ == events_cleared_model(old(self)@, requested, now),
    {
        if let AppStateImpl::ProcessingEvents { .. } = &self.app_state {
        } else {
            return self.control_flow;
        }
        self.deliver(Event::EventsCleared);
        let requested = self.control_flow;
        let mut previous = AppStateImpl::Terminated;
        std::mem::swap(&mut self.app_state, &mut previous);
        if let AppStateImpl::ProcessingEvents { event_handler, active_control_flow } = previous {
            let policy = match requested {
                ControlFlow::Exit => active_control_flow,
                other => other,
            };
            let changed = policy != active_control_flow;
            self.control_flow = policy;
            match policy {
                ControlFlow::Wait => {
                    self.app_state = AppStateImpl::Waiting { waiting_event_handler: event_handler, start: now };
                    if changed {
                        self.waker.stop();
                    }
                },
                ControlFlow::WaitUntil(deadline) => {
                    self.app_state = AppStateImpl::Waiting { waiting_event_handler: event_handler, start: now };
                    if changed {
                        self.waker.start_at(deadline, now);
                    }
                },
                _ => {
                    self.app_state = AppStateImpl::PollFinished { waiting_event_handler: event_handler };
                    if changed {
                        self.waker.start();
                    }
                },
            }
            let ghost next = if policy is Poll {
                PhaseKind::PollFinished
            } else {
                PhaseKind::Waiting
            };
            proof {
                lemma_trace_push(self.trace@, next);
            }
            self.trace = Ghost(self.trace@.push(next));
        } else {
            self.app_state = previous;
        }
        requested
    }

    /// The application terminates: the handler receives `LoopDestroyed`
    /// and is given back to the caller to drop; no event is delivered
    /// again.
    pub fn terminated(&mut self) -> (handler: H)
        requires
            old(self).wf(),
            old(self)@.kind() == PhaseKind::ProcessingEvents,
        ensures
            final(self).wf(),
            handler.received() == old(self)@.handler_log.push(Delivery::NonUser(Event::LoopDestroyed)),
            final(self)@ == terminated_model(old(self)@, final(self)@.control_flow),
    {
        self.deliver(Event::LoopDestroyed);
        let mut previous = AppStateImpl::Terminated;
        std::mem::swap(&mut self.app_state, &mut previous);
        proof {
            lemma_trace_push(self.trace@, PhaseKind::Terminated);
        }
        self.trace = Ghost(self.trace@.push(PhaseKind::Terminated));
        match previous {
            AppStateImpl::ProcessingEvents { event_handler, .. } => event_handler,
            _ => vstd::pervasive::unreached(),
        }
    }

    /// Invokes the handler, owned by the `ProcessingEvents` phase, with
    /// `event`.
    fn deliver(&mut self, event: Event<W>)
        requires
            old(self)@.kind() == PhaseKind::ProcessingEvents,
        ensures
            final(self)@ == old(self)@.deliver(Delivery::NonUser(event), final(self)@.control_flow),
    {
        let ghost recorded = event;
        match &mut self.app_state {
            AppStateImpl::ProcessingEvents { event_handler, .. } => {
                event_handler.handle_nonuser_event(event, &mut self.control_flow);
            },
            _ => {},
        }
        self.delivered = Ghost(self.delivered@.push(Delivery::NonUser(recorded)));
        self.policies = Ghost(self.policies@.push(self.control_flow));
    }

    /// Lets the handler, owned by the `ProcessingEvents` phase, drain the
    /// user's event queue.
    fn deliver_user_events(&mut self)
        requires
            old(self)@.kind() == PhaseKind::ProcessingEvents,
        ensures
            final(self)@ == old(self)@.deliver(Delivery::UserEvents, final(self)@.control_flow),
    {
        match &mut self.app_state {
            AppStateImpl::ProcessingEvents { event_handler, .. } => {
                event_handler.handle_user_events(&mut self.control_flow);
            },
            _ => {},
        }
        self.delivered = Ghost(self.delivered@.push(Delivery::UserEvents));
        self.policies = Ghost(self.policies@.push(self.control_flow));
    }
}

} // verus!
