use std::cell::{Cell, RefCell};
use std::rc::Rc;

use winit_ios::app_state::{resume_cause, still_referenced, AppState};
use winit_ios::event::{ControlFlow, Event, EventHandler, HandlerLog, Instant, StartCause, WindowId};
use winit_ios::model::{PhaseKind, WindowAction, WindowError};
use winit_ios::platform::{Capabilities, NSOperatingSystemVersion};
use winit_ios::waker::NextFire;

/// Records every invocation and, when told to, sets the policy on the next
/// one.
struct Recorder {
    log: Rc<RefCell<Vec<String>>>,
    next_policy: Rc<Cell<Option<ControlFlow>>>,
}

impl Recorder {
    fn apply(&self, control_flow: &mut ControlFlow) {
        if let Some(policy) = self.next_policy.take() {
            *control_flow = policy;
        }
    }
}

impl EventHandler<u32> for Recorder {
    fn received(&self) -> HandlerLog<u32> {
        panic!("the log of received calls exists for the verifier only")
    }

    fn handle_nonuser_event(&mut self, event: Event<u32>, control_flow: &mut ControlFlow) {
        self.log.borrow_mut().push(format!("{:?}", event));
        self.apply(control_flow);
    }

    fn handle_user_events(&mut self, control_flow: &mut ControlFlow) {
        self.log.borrow_mut().push("UserEvents".to_string());
        self.apply(control_flow);
    }
}

struct Fixture {
    state: AppState<u32, Recorder>,
    log: Rc<RefCell<Vec<String>>>,
    next_policy: Rc<Cell<Option<ControlFlow>>>,
}

fn caps() -> Capabilities {
    Capabilities::from_version(NSOperatingSystemVersion { major: 12, minor: 1, patch: 0 })
}

fn fixture() -> Fixture {
    let log = Rc::new(RefCell::new(Vec::new()));
    let next_policy = Rc::new(Cell::new(None));
    Fixture { state: AppState::new(caps()), log, next_policy }
}

fn recorder(f: &Fixture) -> Recorder {
    Recorder { log: f.log.clone(), next_policy: f.next_policy.clone() }
}

fn launched() -> Fixture {
    let mut f = fixture();
    let handler = recorder(&f);
    f.state.will_launch(handler);
    f.state.did_finish_launching();
    f
}

fn at(nanos: u64) -> Instant {
    Instant { nanos }
}

const MS: u64 = 1_000_000;

#[test]
fn new_state_is_not_launched() {
    let f = fixture();
    assert_eq!(f.state.phase(), PhaseKind::NotLaunched);
    assert_eq!(f.state.control_flow(), ControlFlow::Poll);
    assert_eq!(f.state.waker().next_fire(), NextFire::Never);
    assert!(f.state.capabilities().supports_safe_area);
}

#[test]
fn end_to_end_wait_until_scenario() {
    let mut f = fixture();
    let now = 1_000 * MS;
    let w1 = WindowId { raw: 0x1000 };
    assert_eq!(f.state.set_key_window(w1), Ok(WindowAction::Queued));
    let handler = recorder(&f);
    f.state.will_launch(handler);
    assert_eq!(f.state.phase(), PhaseKind::Launching);

    let windows = f.state.did_finish_launching();
    assert_eq!(windows, vec![w1]);
    assert_eq!(f.state.phase(), PhaseKind::ProcessingEvents);
    assert_eq!(f.log.borrow()[0], "NewEvents(Init)");

    f.next_policy.set(Some(ControlFlow::WaitUntil(at(now + 50 * MS))));
    let requested = f.state.handle_events_cleared(at(now));
    assert_eq!(requested, ControlFlow::WaitUntil(at(now + 50 * MS)));
    assert_eq!(f.state.phase(), PhaseKind::Waiting);
    assert_eq!(f.state.waker().next_fire(), NextFire::At(at(now + 50 * MS)));

    f.state.handle_wakeup_transition(at(now + 60 * MS));
    assert_eq!(f.state.phase(), PhaseKind::ProcessingEvents);
    assert_eq!(f.state.control_flow(), ControlFlow::WaitUntil(at(now + 50 * MS)));
    let last = f.log.borrow().last().cloned().unwrap();
    let expected = Event::<u32>::NewEvents(StartCause::ResumeTimeReached {
        start: at(now),
        requested_resume: at(now + 50 * MS),
    });
    assert_eq!(last, format!("{:?}", expected));
}

#[test]
fn launch_leaves_not_launched_for_good() {
    let mut f = fixture();
    let first = recorder(&f);
    f.state.will_launch(first);
    assert_ne!(f.state.phase(), PhaseKind::NotLaunched);
    f.state.did_finish_launching();
    assert_ne!(f.state.phase(), PhaseKind::NotLaunched);
    assert_eq!(f.log.borrow()[0], "NewEvents(Init)");
}

#[test]
fn queued_events_are_replayed_in_order_at_launch() {
    let mut f = fixture();
    f.state.handle_nonuser_event(Event::Suspended(false));
    f.state.handle_nonuser_event(Event::WindowEvent { window_id: WindowId { raw: 7 }, event: 3 });
    let handler = recorder(&f);
    f.state.will_launch(handler);
    f.state.handle_nonuser_event(Event::Suspended(true));
    assert!(f.log.borrow().is_empty());
    f.state.did_finish_launching();
    assert_eq!(
        *f.log.borrow(),
        vec![
            "NewEvents(Init)".to_string(),
            "Suspended(false)".to_string(),
            "WindowEvent { window_id: WindowId { raw: 7 }, event: 3 }".to_string(),
            "Suspended(true)".to_string(),
            "UserEvents".to_string(),
        ]
    );
}

#[test]
fn events_are_delivered_while_processing() {
    let mut f = launched();
    f.state.handle_nonuser_event(Event::Suspended(true));
    f.state.handle_user_events();
    let log = f.log.borrow();
    assert_eq!(log[log.len() - 2], "Suspended(true)");
    assert_eq!(log[log.len() - 1], "UserEvents");
}

#[test]
fn user_events_before_launch_do_nothing() {
    let mut f = fixture();
    f.state.handle_user_events();
    assert!(f.log.borrow().is_empty());
    assert_eq!(f.state.phase(), PhaseKind::NotLaunched);
}

#[test]
fn wakeup_before_launch_is_ignored() {
    let mut f = fixture();
    f.state.handle_wakeup_transition(at(5));
    assert_eq!(f.state.phase(), PhaseKind::NotLaunched);
    let handler = recorder(&f);
    f.state.will_launch(handler);
    f.state.handle_wakeup_transition(at(5));
    assert_eq!(f.state.phase(), PhaseKind::Launching);
    assert!(f.log.borrow().is_empty());
}

#[test]
fn events_cleared_before_launch_is_ignored() {
    let mut f = fixture();
    assert_eq!(f.state.handle_events_cleared(at(5)), ControlFlow::Poll);
    assert_eq!(f.state.phase(), PhaseKind::NotLaunched);
}

#[test]
fn poll_iteration_keeps_waker_and_resumes_with_poll() {
    let mut f = launched();
    assert_eq!(f.state.waker().next_fire(), NextFire::Immediately);
    f.state.handle_events_cleared(at(10));
    assert_eq!(f.state.phase(), PhaseKind::PollFinished);
    assert_eq!(f.state.waker().next_fire(), NextFire::Immediately);
    assert_eq!(f.log.borrow().last().unwrap(), "EventsCleared");
    f.state.handle_wakeup_transition(at(20));
    assert_eq!(f.state.phase(), PhaseKind::ProcessingEvents);
    assert_eq!(f.log.borrow().last().unwrap(), "NewEvents(Poll)");
}

#[test]
fn poll_to_wait_stops_waker() {
    let mut f = launched();
    f.next_policy.set(Some(ControlFlow::WaitUntil(at(100))));
    f.state.handle_events_cleared(at(10));
    assert_eq!(f.state.waker().next_fire(), NextFire::At(at(100)));
    f.state.handle_wakeup_transition(at(100));
    f.next_policy.set(Some(ControlFlow::Wait));
    f.state.handle_events_cleared(at(110));
    assert_eq!(f.state.phase(), PhaseKind::Waiting);
    assert_eq!(f.state.waker().next_fire(), NextFire::Never);
    f.state.handle_wakeup_transition(at(200));
    let expected = Event::<u32>::NewEvents(StartCause::WaitCancelled {
        start: at(110),
        requested_resume: None,
    });
    assert_eq!(f.log.borrow().last().unwrap(), &format!("{:?}", expected));
}

#[test]
fn wait_to_poll_fires_waker_immediately() {
    let mut f = launched();
    f.next_policy.set(Some(ControlFlow::Wait));
    f.state.handle_events_cleared(at(10));
    f.state.handle_wakeup_transition(at(20));
    f.next_policy.set(Some(ControlFlow::Poll));
    f.state.handle_events_cleared(at(30));
    assert_eq!(f.state.phase(), PhaseKind::PollFinished);
    assert_eq!(f.state.waker().next_fire(), NextFire::Immediately);
}

#[test]
fn wait_until_in_the_past_fires_immediately() {
    let mut f = launched();
    f.next_policy.set(Some(ControlFlow::WaitUntil(at(5))));
    f.state.handle_events_cleared(at(10));
    assert_eq!(f.state.phase(), PhaseKind::Waiting);
    assert_eq!(f.state.waker().next_fire(), NextFire::Immediately);
}

#[test]
fn early_wakeup_cancels_wait_until() {
    let mut f = launched();
    f.next_policy.set(Some(ControlFlow::WaitUntil(at(100))));
    f.state.handle_events_cleared(at(10));
    f.state.handle_wakeup_transition(at(40));
    let expected = Event::<u32>::NewEvents(StartCause::WaitCancelled {
        start: at(10),
        requested_resume: Some(at(100)),
    });
    assert_eq!(f.log.borrow().last().unwrap(), &format!("{:?}", expected));
}

#[test]
fn unchanged_wait_until_restamps_start() {
    let mut f = launched();
    f.next_policy.set(Some(ControlFlow::WaitUntil(at(100))));
    f.state.handle_events_cleared(at(10));
    f.state.handle_wakeup_transition(at(40));
    f.state.handle_events_cleared(at(50));
    assert_eq!(f.state.phase(), PhaseKind::Waiting);
    assert_eq!(f.state.waker().next_fire(), NextFire::At(at(100)));
    f.state.handle_wakeup_transition(at(120));
    let expected = Event::<u32>::NewEvents(StartCause::ResumeTimeReached {
        start: at(50),
        requested_resume: at(100),
    });
    assert_eq!(f.log.borrow().last().unwrap(), &format!("{:?}", expected));
}

#[test]
fn exit_is_downgraded_to_previous_policy() {
    let mut f = launched();
    f.next_policy.set(Some(ControlFlow::Exit));
    let requested = f.state.handle_events_cleared(at(10));
    assert_eq!(requested, ControlFlow::Exit);
    assert_eq!(f.state.control_flow(), ControlFlow::Poll);
    assert_eq!(f.state.phase(), PhaseKind::PollFinished);
    assert_eq!(f.state.waker().next_fire(), NextFire::Immediately);
}

#[test]
fn exit_during_wait_keeps_waiting() {
    let mut f = launched();
    f.next_policy.set(Some(ControlFlow::Wait));
    f.state.handle_events_cleared(at(10));
    f.state.handle_wakeup_transition(at(20));
    f.next_policy.set(Some(ControlFlow::Exit));
    f.state.handle_events_cleared(at(30));
    assert_eq!(f.state.control_flow(), ControlFlow::Wait);
    assert_eq!(f.state.phase(), PhaseKind::Waiting);
}

#[test]
fn terminated_delivers_loop_destroyed() {
    let mut f = launched();
    f.state.terminated();
    assert_eq!(f.state.phase(), PhaseKind::Terminated);
    assert_eq!(f.log.borrow().last().unwrap(), "LoopDestroyed");
}

#[test]
fn window_after_termination_is_an_error() {
    let mut f = launched();
    f.state.terminated();
    assert_eq!(f.state.set_key_window(WindowId { raw: 1 }), Err(WindowError::PostTermination));
}

#[test]
fn second_window_is_an_error() {
    let mut f = fixture();
    assert_eq!(f.state.set_key_window(WindowId { raw: 1 }), Ok(WindowAction::Queued));
    assert_eq!(f.state.set_key_window(WindowId { raw: 2 }), Err(WindowError::OnlyOneWindow));
    let handler = recorder(&f);
    f.state.will_launch(handler);
    assert_eq!(f.state.did_finish_launching(), vec![WindowId { raw: 1 }]);
}

#[test]
fn window_while_running_is_shown_at_once() {
    let mut f = launched();
    assert_eq!(f.state.set_key_window(WindowId { raw: 9 }), Ok(WindowAction::MakeKeyAndVisible));
    assert_eq!(f.state.set_key_window(WindowId { raw: 10 }), Err(WindowError::OnlyOneWindow));
}

#[test]
fn launch_without_windows_releases_nothing() {
    let mut f = fixture();
    let handler = recorder(&f);
    f.state.will_launch(handler);
    assert!(f.state.did_finish_launching().is_empty());
}

#[test]
fn queued_window_is_handed_back_once() {
    let mut f = fixture();
    let w = WindowId { raw: 0xbeef };
    f.state.set_key_window(w).unwrap();
    let handler = recorder(&f);
    f.state.will_launch(handler);
    let released = f.state.did_finish_launching();
    assert_eq!(released.iter().filter(|x| **x == w).count(), 1);
}

#[test]
fn layout_fix_only_for_referenced_windows() {
    assert!(!still_referenced(0));
    assert!(!still_referenced(1));
    assert!(still_referenced(2));
}

#[test]
fn resume_cause_at_and_before_deadline() {
    let wait_until = ControlFlow::WaitUntil(at(100));
    assert_eq!(
        resume_cause(wait_until, at(1), at(100)),
        StartCause::ResumeTimeReached { start: at(1), requested_resume: at(100) }
    );
    assert_eq!(
        resume_cause(wait_until, at(1), at(99)),
        StartCause::WaitCancelled { start: at(1), requested_resume: Some(at(100)) }
    );
    assert_eq!(
        resume_cause(ControlFlow::Wait, at(1), at(500)),
        StartCause::WaitCancelled { start: at(1), requested_resume: None }
    );
}

#[test]
fn queued_windows_are_visible_until_launch_finishes() {
    let mut f = fixture();
    assert!(f.state.queued_windows().is_empty());
    f.state.set_key_window(WindowId { raw: 5 }).unwrap();
    assert_eq!(f.state.queued_windows(), vec![WindowId { raw: 5 }]);
    let handler = recorder(&f);
    f.state.will_launch(handler);
    assert_eq!(f.state.queued_windows(), vec![WindowId { raw: 5 }]);
    f.state.did_finish_launching();
    assert!(f.state.queued_windows().is_empty());
}

#[test]
fn decision_uses_policy_left_at_events_cleared() {
    let mut f = launched();
    f.next_policy.set(Some(ControlFlow::Wait));
    f.state.handle_nonuser_event(Event::Suspended(false));
    assert_eq!(f.state.control_flow(), ControlFlow::Wait);
    f.next_policy.set(Some(ControlFlow::WaitUntil(at(500))));
    let requested = f.state.handle_events_cleared(at(100));
    assert_eq!(requested, ControlFlow::WaitUntil(at(500)));
    assert_eq!(f.state.phase(), PhaseKind::Waiting);
    assert_eq!(f.state.control_flow(), ControlFlow::WaitUntil(at(500)));
    assert_eq!(f.state.waker().next_fire(), NextFire::At(at(500)));
}
