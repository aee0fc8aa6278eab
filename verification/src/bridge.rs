//! The bridge between the capture and the application's listeners: every
//! event is announced once, on one fixed channel, and a failed announcement
//! is reported to the publisher without stopping it.

use crate::event::{kind_label, InputEvent, InputEventView};
use vstd::prelude::*;
use vstd::string::StringExecFns;

verus! {

/// What listeners receive for one event: the channel it is announced on and
/// the two fields of its payload.
#[derive(Clone, Debug)]
pub struct Emission {
    pub channel: String,
    pub event_type: String,
    pub key: String,
}

/// What an [`Emission`] is, mathematically.
pub struct EmissionView {
    pub channel: Seq<char>,
    pub event_type: Seq<char>,
    pub key: Seq<char>,
}

impl View for Emission {
    type V = EmissionView;

    open spec fn view(&self) -> EmissionView {
        EmissionView { channel: self.channel@, event_type: self.event_type@, key: self.key@ }
    }
}

/// An announcement that failed, with the reason that the broadcast surface gave.
#[derive(Clone, Debug)]
pub struct BridgeError {
    pub reason: String,
}

/// The name of the channel on which input events are announced.
pub open spec fn channel_name() -> Seq<char> {
    "input-event"@
}

/// The announcement of an event: the fixed channel, the label of the event's
/// kind and the event's code.
pub open spec fn emission_of(event: InputEventView) -> EmissionView {
    EmissionView { channel: channel_name(), event_type: kind_label(event.kind), key: event.code }
}

/// The channel on which input events are announced.
pub fn channel() -> (name: &'static str)
    ensures
        name@ == channel_name(),
{
    "input-event"
}

/// Prepares the one announcement of an event. The event is used up by it.
pub fn prepare(event: InputEvent) -> (emission: Emission)
    ensures
        emission@ == emission_of(event@),
        emission@.key.len() > 0,
{
    let (kind, code) = event.into_parts();
    Emission { channel: String::from_str(channel()), event_type: kind.label(), key: code }
}

/// Turns the answer of the broadcast surface into the publisher's result:
/// `Ok` exactly when the announcement went out, else the error with the
/// surface's reason.
pub fn settle(outcome: Result<(), String>) -> (result: Result<(), BridgeError>)
    ensures
        outcome is Ok <==> result is Ok,
        outcome is Err ==> result is Err && result->Err_0.reason@ == outcome->Err_0@,
{
    match outcome {
        Ok(()) => Ok(()),
        Err(reason) => Err(BridgeError { reason }),
    }
}

impl BridgeError {
    /// The reason in words.
    pub fn message(&self) -> (text: String)
        ensures
            text@ == self.reason@,
    {
        self.reason.clone()
    }
}

} // verus!
