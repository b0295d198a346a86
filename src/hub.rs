//! The broadcast hub: one process-wide fan-out channel that keeps the most
//! recent frames, and one subscription per connection.

use vstd::prelude::*;
use tokio::sync::broadcast;
use crate::frame::Frame;

verus! {

/// How many of the most recent frames the hub keeps for subscribers that fall behind.
pub const RETENTION: usize = 32;

#[verifier::external_type_specification]
#[verifier::external_body]
#[verifier::reject_recursive_types(T)]
pub struct ExSender<T>(broadcast::Sender<T>);

#[verifier::external_type_specification]
#[verifier::external_body]
#[verifier::reject_recursive_types(T)]
pub struct ExReceiver<T>(broadcast::Receiver<T>);

/// Relies on `broadcast::Sender::new`: a channel with no receiver yet, which
/// panics only on a capacity of zero or above `usize::MAX / 2`.
#[verifier::external_body]
fn new_sender(capacity: usize) -> (r: broadcast::Sender<Frame>)
    requires
        0 < capacity <= usize::MAX / 2,
{
    broadcast::Sender::new(capacity)
}

/// Relies on `broadcast::Sender::send`: it never blocks, and reports how many
/// receivers there were, an error meaning that there were none.
#[verifier::external_body]
fn send_frame(sender: &broadcast::Sender<Frame>, frame: Frame) -> (r: usize) {
    match sender.send(frame) {
        Ok(n) => n,
        Err(_) => 0,
    }
}

/// Relies on `broadcast::Sender::subscribe`: a receiver of what is sent from now on.
#[verifier::external_body]
fn subscribe_receiver(sender: &broadcast::Sender<Frame>) -> (r: broadcast::Receiver<Frame>) {
    sender.subscribe()
}

/// The shared fan-out channel. Every frame published reaches every subscription
/// that exists at the time, in one order for all of them.
pub struct Hub {
    sender: broadcast::Sender<Frame>,
}

/// One connection's cursor into the hub. It sees only frames published after
/// it was made; one that falls more than the retention behind is told how many
/// it missed.
pub struct Subscription {
    pub receiver: broadcast::Receiver<Frame>,
}

impl Hub {
    /// A hub that keeps at least `capacity` recent frames.
    pub fn new(capacity: usize) -> (r: Hub)
        requires
            0 < capacity <= usize::MAX / 2,
    {
        Hub { sender: new_sender(capacity) }
    }

    /// Hands `frame` to every current subscription and returns how many there
    /// were; with none it is dropped, which is no error.
    pub fn publish(&self, frame: Frame) -> (r: usize) {
        send_frame(&self.sender, frame)
    }

    /// A new subscription, starting after the last frame published.
    pub fn subscribe(&self) -> (r: Subscription) {
        Subscription { receiver: subscribe_receiver(&self.sender) }
    }
}

} // verus!
