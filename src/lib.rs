//! The iOS lifecycle core of a windowing library: the application state
//! machine that turns the host's run-loop callbacks into a portable,
//! callback-driven event loop, and the run-loop waker that emulates the
//! `Poll` / `Wait` / `WaitUntil` policies.
pub mod app_state;
pub mod event;
pub mod event_loop;
pub mod laws;
pub mod model;
pub mod observer;
pub mod platform;
pub mod waker;
