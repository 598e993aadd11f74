//! The decisions of one subscriber session.
//!
//! A session forwards what the hub queued for it and ignores whatever its
//! peer sends: the protocol pushes from server to client only. It ends when
//! the peer has closed the connection or a send to the peer has failed, and
//! for no other reason.

use vstd::prelude::*;

verus! {

/// What the transport reports to a session.
#[derive(Clone, Copy, Debug, PartialEq, Eq, Structural)]
pub enum SessionEvent {
    /// A queued message went out to the peer.
    Sent,
    /// A send to the peer failed.
    SendFailed,
    /// The peer sent a payload; it has no defined effect.
    Inbound,
    /// The peer closed the connection, or the connection broke.
    PeerClosed,
}

/// What the session does next.
#[derive(Clone, Copy, Debug, PartialEq, Eq, Structural)]
pub enum SessionStep {
    /// Go on forwarding.
    Continue,
    /// Drop the subscription and stop; no other session is affected.
    End,
}

/// The session policy.
pub open spec fn step_of(event: SessionEvent) -> SessionStep {
    match event {
        SessionEvent::Sent => SessionStep::Continue,
        SessionEvent::Inbound => SessionStep::Continue,
        SessionEvent::SendFailed => SessionStep::End,
        SessionEvent::PeerClosed => SessionStep::End,
    }
}

/// Decides what a session does after `event`.
pub fn session_step(event: SessionEvent) -> (step: SessionStep)
    ensures
        step == step_of(event),
{
    match event {
        SessionEvent::Sent | SessionEvent::Inbound => SessionStep::Continue,
        SessionEvent::SendFailed | SessionEvent::PeerClosed => SessionStep::End,
    }
}

} // verus!
