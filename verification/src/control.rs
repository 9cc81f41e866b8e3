//! Classification of host control notifications.
//!
//! The host service manager delivers control notifications on a thread it
//! owns. The callback installed there must acknowledge each notification
//! promptly and may forward at most one event into the supervisor's queue;
//! this module holds the decision, so the callback itself stays a thin shim.

use vstd::prelude::*;

verus! {

/// A control notification, already narrowed to the closed set the manager
/// cares about. Anything unrecognized arrives as `Other`.
#[derive(Clone, Copy, PartialEq, Eq, Structural, Debug)]
pub enum ControlEvent {
    Interrogate,
    Stop,
    Other,
}

/// The acknowledgment the callback returns to the host.
#[derive(Clone, Copy, PartialEq, Eq, Structural, Debug)]
pub enum HandlerAck {
    /// The notification was handled (the host sees no error).
    Handled,
    /// The notification is not implemented and was dropped.
    NotImplemented,
}

/// What the control callback does with one notification: how it answers the
/// host, and whether it forwards an event to the supervisor's queue.
#[derive(Clone, Copy, PartialEq, Eq, Structural, Debug)]
pub struct ControlResponse {
    pub ack: HandlerAck,
    pub forward: Option<ControlEvent>,
}

/// Decide the response to one control notification.
///
/// `Interrogate` is acknowledged as handled at once and never queued; `Stop`
/// is acknowledged and forwarded so the control loop can act on it; anything
/// else is acknowledged as not implemented and dropped.
pub fn handle_control(event: ControlEvent) -> (r: ControlResponse)
    ensures
        event is Interrogate ==> r == (ControlResponse {
            ack: HandlerAck::Handled,
            forward: None,
        }),
        event is Stop ==> r == (ControlResponse {
            ack: HandlerAck::Handled,
            forward: Some(ControlEvent::Stop),
        }),
        event is Other ==> r == (ControlResponse {
            ack: HandlerAck::NotImplemented,
            forward: None,
        }),
{
    match event {
        ControlEvent::Interrogate => ControlResponse { ack: HandlerAck::Handled, forward: None },
        ControlEvent::Stop => ControlResponse {
            ack: HandlerAck::Handled,
            forward: Some(ControlEvent::Stop),
        },
        ControlEvent::Other => ControlResponse { ack: HandlerAck::NotImplemented, forward: None },
    }
}

} // verus!
