//! Properties of the lifecycle state machine that relate several
//! transitions, stated over the model that every transition is proved to
//! follow.
use vstd::prelude::*;
use crate::event::{ControlFlow, Delivery, Event, Instant, StartCause, WindowId};
use crate::model::{
    AppModel, PhaseKind, PhaseModel, WindowAction, did_finish_launching_model, events_cleared_model,
    holds_handler, nonuser_event_model, rank, set_key_window_model, set_key_window_result,
    step_allowed, terminated_model, user_events_model, wait_cause, wakeup_model, will_launch_model,
};
use crate::waker::NextFire;

verus! {

/// The phases visited start before launch, move only along the lifecycle
/// (`NotLaunched`, `Launching`, then `ProcessingEvents` alternating with
/// `Waiting` or `PollFinished`, then `Terminated`), never go back to an
/// earlier stage, and nothing but `Terminated` follows `Terminated`.
pub proof fn lemma_phase_order<W>(m: AppModel<W>)
    requires
        m.wf(),
    ensures
        m.trace[0] == PhaseKind::NotLaunched,
        m.trace.last() == m.kind(),
        forall|i: int| 0 <= i < m.trace.len() - 1 ==> #[trigger] step_allowed(m.trace[i], m.trace[i + 1]),
        forall|i: int, j: int|
            0 <= i <= j < m.trace.len() ==> rank(#[trigger] m.trace[i]) <= rank(#[trigger] m.trace[j]),
        forall|i: int, j: int|
            0 <= i <= j < m.trace.len() && #[trigger] m.trace[i] == PhaseKind::Terminated
                ==> #[trigger] m.trace[j] == PhaseKind::Terminated,
{
    assert forall|i: int, j: int|
        0 <= i <= j < m.trace.len() && #[trigger] m.trace[i] == PhaseKind::Terminated
            implies #[trigger] m.trace[j] == PhaseKind::Terminated by {
        assert(rank(m.trace[i]) <= rank(m.trace[j]));
    }
}

/// The handler has one owner at a time: only `will_launch` brings it in,
/// every other transition from a phase that owns it hands it to a phase
/// that owns it, and only termination lets it go. It is invoked only while
/// the `ProcessingEvents` phase owns it: every transition that invokes it
/// starts or ends in that phase. While a phase owns it, the handler's own
/// account of its calls is what it had before it was handed over followed
/// by exactly the calls the state machine made.
pub proof fn lemma_single_handler<W>(
    m: AppModel<W>,
    event: Event<W>,
    now: Instant,
    c: ControlFlow,
    left: Seq<ControlFlow>,
    received: Seq<Delivery<W>>,
)
    requires
        m.wf(),
    ensures
        !holds_handler(m.kind()) <==> (m.kind() == PhaseKind::NotLaunched || m.kind()
            == PhaseKind::Terminated),
        holds_handler(m.kind()) ==> m.handler_log == m.handler_base + m.delivered,
        m.kind() == PhaseKind::NotLaunched ==> holds_handler(will_launch_model(m, received).kind()),
        m.kind() == PhaseKind::Launching ==> did_finish_launching_model(m, left).kind()
            == PhaseKind::ProcessingEvents,
        holds_handler(wakeup_model(m, now, c).kind()) <==> holds_handler(m.kind()),
        holds_handler(nonuser_event_model(m, event, c).kind()) <==> holds_handler(m.kind()),
        holds_handler(user_events_model(m, c).kind()) <==> holds_handler(m.kind()),
        holds_handler(events_cleared_model(m, c, now).kind()) <==> holds_handler(m.kind()),
        m.kind() == PhaseKind::ProcessingEvents ==> terminated_model(m, c).kind()
            == PhaseKind::Terminated,
        wakeup_model(m, now, c).delivered.len() > m.delivered.len() ==> wakeup_model(m, now, c).kind()
            == PhaseKind::ProcessingEvents,
        nonuser_event_model(m, event, c).delivered.len() > m.delivered.len() ==> m.kind()
            == PhaseKind::ProcessingEvents,
        user_events_model(m, c).delivered.len() > m.delivered.len() ==> m.kind()
            == PhaseKind::ProcessingEvents,
        events_cleared_model(m, c, now).delivered.len() > m.delivered.len() ==> m.kind()
            == PhaseKind::ProcessingEvents,
{
}

/// A window registered before launch is queued, which takes one retain;
/// launch hands it back exactly once for release, and afterwards no window
/// is held for release.
pub proof fn lemma_queued_window_released_once<W>(
    m: AppModel<W>,
    window: WindowId,
    left: Seq<ControlFlow>,
    received: Seq<Delivery<W>>,
)
    requires
        m.wf(),
        m.kind() == PhaseKind::NotLaunched,
        !m.window_registered,
    ensures
        set_key_window_result(m) == Ok::<WindowAction, crate::model::WindowError>(WindowAction::Queued),
        set_key_window_model(m, window).queued_windows() == seq![window],
        will_launch_model(set_key_window_model(m, window), received).queued_windows() == seq![window],
        did_finish_launching_model(will_launch_model(set_key_window_model(m, window), received), left).queued_windows()
            == Seq::<WindowId>::empty(),
{
    assert(m.queued_windows().len() == 0);
    assert(set_key_window_model(m, window).queued_windows() =~= seq![window]);
}

/// When an iteration that began under `Poll` ends with the handler leaving
/// `WaitUntil(t)` in place, the machine waits under `WaitUntil(t)` and the
/// waker fires at `t`, or at once if `t` has passed. Whenever the handler
/// leaves `Wait`, the machine waits and the waker is stopped.
pub proof fn lemma_waker_follows_policy<W>(m: AppModel<W>, t: Instant, now: Instant)
    requires
        m.wf(),
        m.kind() == PhaseKind::ProcessingEvents,
    ensures
        m.phase == (PhaseModel::<W>::ProcessingEvents { active_control_flow: ControlFlow::Poll })
            ==> events_cleared_model(m, ControlFlow::WaitUntil(t), now).waker == (if now.nanos
            < t.nanos {
            NextFire::At(t)
        } else {
            NextFire::Immediately
        }),
        m.phase == (PhaseModel::<W>::ProcessingEvents { active_control_flow: ControlFlow::Poll })
            ==> events_cleared_model(m, ControlFlow::WaitUntil(t), now).kind() == PhaseKind::Waiting,
        m.phase == (PhaseModel::<W>::ProcessingEvents { active_control_flow: ControlFlow::Poll })
            ==> events_cleared_model(m, ControlFlow::WaitUntil(t), now).control_flow
            == ControlFlow::WaitUntil(t),
        events_cleared_model(m, ControlFlow::Wait, now).waker == NextFire::Never,
        events_cleared_model(m, ControlFlow::Wait, now).kind() == PhaseKind::Waiting,
{
}

/// A wake-up at or after the requested resume time reports that the
/// resume time was reached; one before it reports a cancelled wait that
/// carries the requested time.
pub proof fn lemma_wait_until_resolution<W>(m: AppModel<W>, start: Instant, t: Instant, now: Instant, c: ControlFlow)
    requires
        m.wf(),
        m.phase == (PhaseModel::<W>::Waiting { start }),
        m.control_flow == ControlFlow::WaitUntil(t),
    ensures
        wakeup_model(m, now, c).kind() == PhaseKind::ProcessingEvents,
        wakeup_model(m, now, c).phase == (PhaseModel::<W>::ProcessingEvents {
            active_control_flow: ControlFlow::WaitUntil(t),
        }),
        now.nanos >= t.nanos ==> wakeup_model(m, now, c).delivered.last() == Delivery::NonUser(
            Event::<W>::NewEvents(StartCause::ResumeTimeReached { start, requested_resume: t }),
        ),
        now.nanos < t.nanos ==> wakeup_model(m, now, c).delivered.last() == Delivery::NonUser(
            Event::<W>::NewEvents(StartCause::WaitCancelled { start, requested_resume: Some(t) }),
        ),
{
}

/// A handler that leaves `Exit` in place when told the events are cleared
/// is recorded as having asked for it, yet the policy the iteration began
/// under is kept: the machine idles as that policy says, the waker is left
/// as it was, and the application does not terminate.
pub proof fn lemma_exit_downgrade<W>(m: AppModel<W>, active: ControlFlow, now: Instant)
    requires
        m.wf(),
        m.phase == (PhaseModel::<W>::ProcessingEvents { active_control_flow: active }),
    ensures
        events_cleared_model(m, ControlFlow::Exit, now).last_policy() == ControlFlow::Exit,
        events_cleared_model(m, ControlFlow::Exit, now).control_flow == active,
        events_cleared_model(m, ControlFlow::Exit, now).waker == m.waker,
        events_cleared_model(m, ControlFlow::Exit, now).kind() != PhaseKind::Terminated,
        events_cleared_model(m, ControlFlow::Exit, now).kind() == (if active is Poll {
            PhaseKind::PollFinished
        } else {
            PhaseKind::Waiting
        }),
{
}

/// Only the first launch takes the handler: once it has, the state is no
/// longer `NotLaunched`, so a further `will_launch` is outside what the
/// state machine admits, and the launched state keeps what was queued.
pub proof fn lemma_second_launch_rejected<W>(m: AppModel<W>, received: Seq<Delivery<W>>)
    requires
        m.wf(),
        m.kind() == PhaseKind::NotLaunched,
    ensures
        will_launch_model(m, received).kind() == PhaseKind::Launching,
        will_launch_model(m, received).queued_windows() == m.queued_windows(),
        will_launch_model(m, received).queued_events() == m.queued_events(),
        will_launch_model(m, received).kind() != PhaseKind::NotLaunched,
{
}

} // verus!
