//! The run-loop waker: a single repeating host timer whose next fire date
//! is reprogrammed to emulate polling, waiting and waiting with a deadline.
//! This module holds the timer's schedule; the host glue mirrors it onto
//! the real timer.
use vstd::prelude::*;
use crate::event::Instant;

verus! {

/// When the waker's timer fires next.
#[derive(Clone, Copy, Debug, PartialEq, Eq, Structural)]
pub enum NextFire {
    /// Far in the future: the run loop may sleep indefinitely.
    Never,
    /// In the past: the timer fires on the next pass of the run loop.
    Immediately,
    /// Once, at this point in time.
    At(Instant),
}

/// The schedule of the run-loop timer.
pub struct EventLoopWaker {
    next_fire: NextFire,
}

/// The schedule `start_at(deadline)` programs when called at `now`.
pub open spec fn start_at_schedule(deadline: Instant, now: Instant) -> NextFire {
    if now.nanos >= deadline.nanos {
        NextFire::Immediately
    } else {
        NextFire::At(deadline)
    }
}

impl View for EventLoopWaker {
    type V = NextFire;

    closed spec fn view(&self) -> NextFire {
        self.next_fire
    }
}

impl EventLoopWaker {
    /// A waker whose timer is created with its first fire far in the future.
    pub fn new() -> (r: EventLoopWaker)
        ensures
            r@ == NextFire::Never,
    {
        EventLoopWaker { next_fire: NextFire::Never }
    }

    /// The current schedule.
    pub fn next_fire(&self) -> (r: NextFire)
        ensures
            r == self@,
    {
        self.next_fire
    }

    /// Pushes the next fire far into the future.
    pub fn stop(&mut self)
        ensures
            final(self)@ == NextFire::Never,
    {
        self.next_fire = NextFire::Never;
    }

    /// Makes the timer fire on the next pass of the run loop.
    pub fn start(&mut self)
        ensures
            final(self)@ == NextFire::Immediately,
    {
        self.next_fire = NextFire::Immediately;
    }

    /// Makes the timer fire at `deadline`, or at once if `now` has already
    /// reached it.
    pub fn start_at(&mut self, deadline: Instant, now: Instant)
        ensures
            final(self)@ == start_at_schedule(deadline, now),
    {
        if now.reached(&deadline) {
            self.start();
        } else {
            self.next_fire = NextFire::At(deadline);
        }
    }
}

} // verus!
