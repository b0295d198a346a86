//! The rules of one client connection. The connection waits on two sources at
//! once, frames from its socket and deliveries from its hub subscription; each
//! event from either is handed here, and the answer says what to do next.

use vstd::prelude::*;
use crate::frame::{CommandType, Frame};

verus! {

/// What the socket side yielded.
pub enum Inbound {
    /// A whole frame was decoded.
    Frame(Frame),
    /// Reading failed, or the bytes were no valid frame.
    Error,
    /// The peer closed its side of the stream.
    End,
}

/// What the hub subscription yielded.
pub enum Delivery {
    /// The next frame published.
    Frame(Frame),
    /// The subscription fell behind and missed this many frames; it goes on
    /// from the oldest frame still kept.
    Lagged(u64),
    /// The hub will deliver nothing more.
    Closed,
}

/// What the connection does in answer to an event.
pub enum Action {
    /// Hand the frame, as it came, to the hub.
    Publish(Frame),
    /// Note that the client asked to subscribe; delivery is not filtered by topic.
    Subscribed,
    /// A command reserved for later use: observed, nothing else.
    Unsupported(CommandType),
    /// Encode the frame and write it to the socket.
    Send(Frame),
    /// Report that the subscription missed this many frames, and go on.
    ReportLag(u64),
    /// Stop both directions and release the socket and the subscription.
    Close,
}

/// Where a connection is in its life.
#[derive(Clone, Copy, Debug, PartialEq, Eq, Structural)]
pub enum ConnState {
    Active,
    Closed,
}

/// The answer to an inbound event.
pub open spec fn inbound_action(ev: Inbound) -> Action {
    match ev {
        Inbound::Frame(f) => match f.command_type {
            CommandType::Pub => Action::Publish(f),
            CommandType::Sub => Action::Subscribed,
            c => Action::Unsupported(c),
        },
        Inbound::Error => Action::Close,
        Inbound::End => Action::Close,
    }
}

/// The answer to a delivery from the hub.
pub open spec fn delivery_action(ev: Delivery) -> Action {
    match ev {
        Delivery::Frame(f) => Action::Send(f),
        Delivery::Lagged(n) => Action::ReportLag(n),
        Delivery::Closed => Action::Close,
    }
}

/// The state after answering with `a` from an active connection.
pub open spec fn state_after(a: Action) -> ConnState {
    match a {
        Action::Close => ConnState::Closed,
        _ => ConnState::Active,
    }
}

/// One connection's state machine: `Active` until an event ends it, then
/// `Closed` for good.
pub struct Connection {
    state: ConnState,
}

impl Connection {
    /// The current state.
    pub closed spec fn view_state(&self) -> ConnState {
        self.state
    }

    /// A connection just accepted, with its subscription in place.
    pub fn new() -> (r: Connection)
        ensures
            r.view_state() == ConnState::Active,
    {
        Connection { state: ConnState::Active }
    }

    /// Whether the connection still runs.
    pub fn is_active(&self) -> (r: bool)
        ensures
            r == (self.view_state() == ConnState::Active),
    {
        self.state == ConnState::Active
    }

    /// Dispatches an inbound event: a `Pub` frame is published verbatim, a `Sub`
    /// is noted, other commands are only observed, and a read error, a protocol
    /// error or the end of the stream close the connection.
    pub fn on_inbound(&mut self, ev: Inbound) -> (r: Action)
        requires
            old(self).view_state() == ConnState::Active,
        ensures
            r == inbound_action(ev),
            final(self).view_state() == state_after(r),
    {
        let r = match ev {
            Inbound::Frame(f) => match f.command_type {
                CommandType::Pub => Action::Publish(f),
                CommandType::Sub => Action::Subscribed,
                c => Action::Unsupported(c),
            },
            Inbound::Error => Action::Close,
            Inbound::End => Action::Close,
        };
        if let Action::Close = r {
            self.state = ConnState::Closed;
        }
        r
    }

    /// Dispatches a delivery from the hub: a frame is sent on to the client, a
    /// lag is reported and the connection goes on, and a closed hub closes it.
    pub fn on_delivery(&mut self, ev: Delivery) -> (r: Action)
        requires
            old(self).view_state() == ConnState::Active,
        ensures
            r == delivery_action(ev),
            final(self).view_state() == state_after(r),
    {
        let r = match ev {
            Delivery::Frame(f) => Action::Send(f),
            Delivery::Lagged(n) => Action::ReportLag(n),
            Delivery::Closed => Action::Close,
        };
        if let Action::Close = r {
            self.state = ConnState::Closed;
        }
        r
    }

    /// Records how a write to the socket went: a failed write closes the connection.
    pub fn on_write(&mut self, written: bool)
        requires
            old(self).view_state() == ConnState::Active,
        ensures
            final(self).view_state() == (if written {
                ConnState::Active
            } else {
                ConnState::Closed
            }),
    {
        if !written {
            self.state = ConnState::Closed;
        }
    }
}

} // verus!
