//! The capture side: raw events from the operating system's input hook are
//! turned into [`InputEvent`]s, one by one and in the order in which they
//! arrive, until the hook fails.

use crate::bridge::BridgeError;
use crate::event::{EventKind, InputEvent, InputEventView};
use vstd::prelude::*;
use vstd::string::StringExecFns;

verus! {

/// An event as the input hook reports it. Keys and buttons come with their
/// symbolic name (`KeyA`, `Left`); pointer movement comes without its position,
/// which nothing here reads.
#[derive(Clone, Debug)]
pub enum RawEvent {
    KeyPress(String),
    KeyRelease(String),
    ButtonPress(String),
    ButtonRelease(String),
    MouseMove,
    Wheel { delta_x: i64, delta_y: i64 },
}

/// Whether the capture still listens. `Stopped` is final.
#[derive(Clone, Copy, Debug, PartialEq, Eq, Structural)]
pub enum CaptureState {
    Listening,
    Stopped,
}

/// What can happen to a running capture.
#[derive(Clone, Debug)]
pub enum CaptureSignal {
    /// The hook reported an event.
    Raw(RawEvent),
    /// An event was handed on; `delivered` tells whether anyone took it.
    Delivery { delivered: bool },
    /// The hook gave up.
    HookFailed,
}

/// The handle of the capture, owned by whoever started it.
#[derive(Clone, Copy, Debug, PartialEq, Eq, Structural)]
pub struct Capture {
    pub state: CaptureState,
}

/// The category of a raw event, where it is one of the four that are forwarded.
pub open spec fn raw_kind(raw: RawEvent) -> Option<EventKind> {
    match raw {
        RawEvent::KeyPress(_) => Some(EventKind::KeyPress),
        RawEvent::KeyRelease(_) => Some(EventKind::KeyRelease),
        RawEvent::ButtonPress(_) => Some(EventKind::ButtonPress),
        RawEvent::ButtonRelease(_) => Some(EventKind::ButtonRelease),
        RawEvent::MouseMove => None,
        RawEvent::Wheel { .. } => None,
    }
}

/// The name of the key or button of a raw event; empty where it has none.
pub open spec fn raw_name(raw: RawEvent) -> Seq<char> {
    match raw {
        RawEvent::KeyPress(name) => name@,
        RawEvent::KeyRelease(name) => name@,
        RawEvent::ButtonPress(name) => name@,
        RawEvent::ButtonRelease(name) => name@,
        RawEvent::MouseMove => Seq::empty(),
        RawEvent::Wheel { .. } => Seq::empty(),
    }
}

/// The event that a raw event becomes: one of the same category under the
/// same name, or none where the category is not forwarded or the name is missing.
pub open spec fn normalized(raw: RawEvent) -> Option<InputEventView> {
    match raw_kind(raw) {
        Some(kind) => if raw_name(raw).len() > 0 {
            Some(InputEventView { kind, code: raw_name(raw) })
        } else {
            None
        },
        None => None,
    }
}

/// The view of an event that may be absent.
pub open spec fn view_of(event: Option<InputEvent>) -> Option<InputEventView> {
    match event {
        Some(event) => Some(event@),
        None => None,
    }
}

/// The state of a capture after a signal: only a failure of the hook stops it.
pub open spec fn state_after(state: CaptureState, signal: CaptureSignal) -> CaptureState {
    match signal {
        CaptureSignal::HookFailed => CaptureState::Stopped,
        _ => state,
    }
}

/// The state of a capture after a run of signals.
pub open spec fn state_after_all(state: CaptureState, signals: Seq<CaptureSignal>) -> CaptureState
    decreases signals.len(),
{
    if signals.len() == 0 {
        state
    } else {
        state_after(state_after_all(state, signals.drop_last()), signals.last())
    }
}

/// Whether a run of signals holds no failure of the hook.
pub open spec fn no_hook_failure(signals: Seq<CaptureSignal>) -> bool {
    forall|i: int| 0 <= i < signals.len() ==> !((#[trigger] signals[i]) is HookFailed)
}

/// The line that reports a failed hook.
pub open spec fn failure_report(error: Seq<char>) -> Seq<char> {
    "Error: "@ + error
}

/// Turns a raw event into the event to forward, if there is one.
pub fn normalize(raw: RawEvent) -> (event: Option<InputEvent>)
    ensures
        view_of(event) == normalized(raw),
{
    match raw {
        RawEvent::KeyPress(name) => InputEvent::new(EventKind::KeyPress, name),
        RawEvent::KeyRelease(name) => InputEvent::new(EventKind::KeyRelease, name),
        RawEvent::ButtonPress(name) => InputEvent::new(EventKind::ButtonPress, name),
        RawEvent::ButtonRelease(name) => InputEvent::new(EventKind::ButtonRelease, name),
        RawEvent::MouseMove => None,
        RawEvent::Wheel { .. } => None,
    }
}

impl Capture {
    /// Starts a capture. It listens from the first moment.
    pub fn start() -> (capture: Capture)
        ensures
            capture.state == CaptureState::Listening,
    {
        Capture { state: CaptureState::Listening }
    }

    /// The hook reported an event: returns what is to be published, if
    /// anything. A stopped capture publishes nothing.
    pub fn on_raw_event(&self, raw: RawEvent) -> (event: Option<InputEvent>)
        ensures
            self.state == CaptureState::Listening ==> view_of(event) == normalized(raw),
            self.state == CaptureState::Stopped ==> event is None,
    {
        match self.state {
            CaptureState::Listening => normalize(raw),
            CaptureState::Stopped => None,
        }
    }

    /// An event was handed on. Whether or not anyone took it, the capture
    /// goes on; the answer says whether it still listens.
    pub fn on_delivery(&mut self, outcome: &Result<(), BridgeError>) -> (listening: bool)
        ensures
            final(self).state == state_after(
                old(self).state,
                CaptureSignal::Delivery { delivered: outcome is Ok },
            ),
            final(self).state == old(self).state,
            listening == (old(self).state == CaptureState::Listening),
    {
        match self.state {
            CaptureState::Listening => true,
            CaptureState::Stopped => false,
        }
    }

    /// The hook gave up: the capture stops for good, and the line to report
    /// is returned. Nothing else is asked for; the application lives on.
    pub fn on_hook_failure(&mut self, error: &str) -> (report: String)
        ensures
            final(self).state == state_after(old(self).state, CaptureSignal::HookFailed),
            final(self).state == CaptureState::Stopped,
            report@ == failure_report(error@),
    {
        self.state = CaptureState::Stopped;
        let mut report = String::from_str("Error: ");
        report.append(error);
        report
    }
}

/// A raw event of one of the four forwarded categories that has a name
/// becomes an event of that category under that name.
pub proof fn lemma_supported_is_forwarded(raw: RawEvent)
    requires
        raw_kind(raw) is Some,
        raw_name(raw).len() > 0,
    ensures
        normalized(raw) is Some,
        normalized(raw).unwrap().kind == raw_kind(raw).unwrap(),
        normalized(raw).unwrap().code == raw_name(raw),
        normalized(raw).unwrap().code.len() > 0,
{
}

/// A raw event of any other category becomes nothing.
pub proof fn lemma_unsupported_is_dropped(raw: RawEvent)
    requires
        raw_kind(raw) is None,
    ensures
        normalized(raw) is None,
        raw is MouseMove || raw is Wheel,
{
}

/// However many events are captured and handed on, taken or not, the capture
/// keeps listening: it stops when the hook fails and not before.
pub proof fn lemma_listens_until_hook_fails(signals: Seq<CaptureSignal>)
    ensures
        state_after_all(CaptureState::Listening, signals) == CaptureState::Listening
            <==> no_hook_failure(signals),
    decreases signals.len(),
{
    if signals.len() > 0 {
        let front = signals.drop_last();
        lemma_listens_until_hook_fails(front);
        if state_after_all(CaptureState::Listening, signals) == CaptureState::Listening {
            assert forall|i: int| 0 <= i < signals.len() implies !((#[trigger] signals[i])
                is HookFailed) by {
                if i < front.len() {
                    assert(front[i] == signals[i]);
                }
            }
        } else {
            if !(signals.last() is HookFailed) {
                let i = choose|i: int| 0 <= i < front.len() && (#[trigger] front[i]) is HookFailed;
                assert(signals[i] == front[i]);
            }
        }
    }
}

/// A stopped capture stays stopped.
pub proof fn lemma_stopped_stays_stopped(signals: Seq<CaptureSignal>)
    ensures
        state_after_all(CaptureState::Stopped, signals) == CaptureState::Stopped,
    decreases signals.len(),
{
    if signals.len() > 0 {
        lemma_stopped_stays_stopped(signals.drop_last());
    }
}

} // verus!
