//! The normalised input event that is forwarded to the application's listeners.

use vstd::prelude::*;
use vstd::string::StringExecFns;

verus! {

/// The four categories of input that are forwarded.
#[derive(Clone, Copy, Debug, PartialEq, Eq, Structural)]
pub enum EventKind {
    KeyPress,
    KeyRelease,
    ButtonPress,
    ButtonRelease,
}

/// The text under which a kind is announced to listeners.
pub open spec fn kind_label(kind: EventKind) -> Seq<char> {
    match kind {
        EventKind::KeyPress => "KeyPress"@,
        EventKind::KeyRelease => "KeyRelease"@,
        EventKind::ButtonPress => "ButtonPress"@,
        EventKind::ButtonRelease => "ButtonRelease"@,
    }
}

impl EventKind {
    /// The label of this kind as an owned string.
    pub fn label(self) -> (text: String)
        ensures
            text@ == kind_label(self),
    {
        match self {
            EventKind::KeyPress => String::from_str("KeyPress"),
            EventKind::KeyRelease => String::from_str("KeyRelease"),
            EventKind::ButtonPress => String::from_str("ButtonPress"),
            EventKind::ButtonRelease => String::from_str("ButtonRelease"),
        }
    }
}

/// What an [`InputEvent`] is, mathematically: a kind and the characters of its code.
pub struct InputEventView {
    pub kind: EventKind,
    pub code: Seq<char>,
}

/// One keyboard or pointer-button event, ready for delivery.
///
/// The kind and the code are always present together: no value of this type
/// has an empty code, and neither part can be changed after construction.
#[derive(Debug)]
pub struct InputEvent {
    kind: EventKind,
    code: String,
}

impl View for InputEvent {
    type V = InputEventView;

    closed spec fn view(&self) -> InputEventView {
        InputEventView { kind: self.kind, code: self.code@ }
    }
}

impl InputEvent {
    #[verifier::type_invariant]
    spec fn code_present(self) -> bool {
        self.code@.len() > 0
    }

    /// Builds an event, unless the code is empty: a partial event is never made.
    pub fn new(kind: EventKind, code: String) -> (made: Option<InputEvent>)
        ensures
            code@.len() == 0 ==> made is None,
            code@.len() > 0 ==> made == Some(made.unwrap()) && made.unwrap()@ == (InputEventView {
                kind,
                code: code@,
            }),
    {
        if code.as_str().is_empty() {
            None
        } else {
            Some(InputEvent { kind, code })
        }
    }

    /// The category of the event.
    pub fn kind(&self) -> (kind: EventKind)
        ensures
            kind == self@.kind,
    {
        self.kind
    }

    /// The symbolic name of the key or button; never empty.
    pub fn code(&self) -> (code: &str)
        ensures
            code@ == self@.code,
            code@.len() > 0,
    {
        proof {
            use_type_invariant(self);
        }
        self.code.as_str()
    }

    /// Takes the event apart into its kind and its code.
    pub fn into_parts(self) -> (parts: (EventKind, String))
        ensures
            parts.0 == self@.kind,
            parts.1@ == self@.code,
            parts.1@.len() > 0,
    {
        proof {
            use_type_invariant(&self);
        }
        (self.kind, self.code)
    }
}

} // verus!
