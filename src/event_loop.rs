//! The portable event-loop facade: it owns the channel through which other
//! threads send user events to the main thread.
use vstd::prelude::*;
use std::sync::mpsc::{Receiver, Sender};

verus! {

#[verifier::external_type_specification]
#[verifier::external_body]
#[verifier::reject_recursive_types(T)]
pub struct ExSender<T>(Sender<T>);

#[verifier::external_type_specification]
#[verifier::external_body]
#[verifier::reject_recursive_types(T)]
pub struct ExReceiver<T>(Receiver<T>);

/// Relies on std::sync::mpsc::channel to create a new channel; nothing is
/// assumed of it.
pub assume_specification<T>[ std::sync::mpsc::channel::<T> ]() -> (Sender<T>, Receiver<T>);

/// What the user's handler sees of the event loop: the two ends of the
/// user-event channel.
#[verifier::reject_recursive_types(T)]
pub struct EventLoopWindowTarget<T> {
    receiver: Receiver<T>,
    sender_to_clone: Sender<T>,
}

impl<T> EventLoopWindowTarget<T> {
    /// The receiving end of the user-event channel.
    pub closed spec fn receiver_end(&self) -> Receiver<T> {
        self.receiver
    }

    /// The sending end of the user-event channel.
    pub closed spec fn sender_end(&self) -> Sender<T> {
        self.sender_to_clone
    }

    /// A target with a fresh user-event channel.
    pub fn new() -> (r: EventLoopWindowTarget<T>) {
        let (sender_to_clone, receiver) = std::sync::mpsc::channel();
        EventLoopWindowTarget { receiver, sender_to_clone }
    }

    /// The end the main thread drains user events from.
    pub fn receiver(&self) -> (r: &Receiver<T>)
        ensures
            *r == self.receiver_end(),
    {
        &self.receiver
    }

    /// The end that proxies clone to send user events.
    pub fn sender(&self) -> (r: &Sender<T>)
        ensures
            *r == self.sender_end(),
    {
        &self.sender_to_clone
    }
}

/// The event loop facade.
#[verifier::reject_recursive_types(T)]
pub struct EventLoop<T> {
    pub window_target: EventLoopWindowTarget<T>,
}

impl<T> EventLoop<T> {
    /// A facade with a fresh user-event channel.
    pub fn new() -> (r: EventLoop<T>) {
        EventLoop { window_target: EventLoopWindowTarget::new() }
    }

    pub fn window_target(&self) -> (r: &EventLoopWindowTarget<T>)
        ensures
            r == &self.window_target,
    {
        &self.window_target
    }
}

} // verus!
