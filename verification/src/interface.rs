use crate::errors::{LineFailure, LogParserError};
use vstd::prelude::*;

verus! {

/// The observers that a run reports to.
#[derive(Debug, Clone, Copy, PartialEq, Eq, Structural)]
pub enum CallbackType {
    /// Told once, when a run has reached the end of its input.
    Success,
    /// Told of each line that was set aside.
    Warning,
    /// Told of what ended a run before its time.
    Error,
}

/// What an observer is handed, as texts.
pub struct PayloadView {
    pub error: Option<Seq<char>>,
    pub data: Option<Seq<char>>,
}

/// What an observer is handed: the tag of a failure, if there is one to
/// report, and a text, which is the result of the run for a success and the
/// line or circumstance concerned otherwise.
#[derive(Debug, Clone, PartialEq, Eq)]
pub struct CallbackPayload {
    pub error: Option<&'static str>,
    pub data: Option<String>,
}

impl View for CallbackPayload {
    type V = PayloadView;

    open spec fn view(&self) -> PayloadView {
        PayloadView {
            error: match self.error {
                Some(tag) => Some(tag@),
                None => None,
            },
            data: match self.data {
                Some(text) => Some(text@),
                None => None,
            },
        }
    }
}

/// What an observer of the given kind is handed for a failure and a text. A
/// success carries no failure, whatever is passed for one; a warning and an
/// error carry the tag of theirs.
pub open spec fn payload_of(
    cb_type: CallbackType,
    error: Option<LogParserError>,
    data: Option<Seq<char>>,
) -> PayloadView {
    PayloadView {
        error: match error {
            Some(failure) if cb_type != CallbackType::Success => Some(failure.tag()),
            _ => None,
        },
        data,
    }
}

/// What the observer of warnings is handed for a line that was set aside:
/// the tag of the kind of failure, and the line.
pub open spec fn warning_payload(failure: LineFailure, data: Option<Seq<char>>) -> PayloadView {
    PayloadView { error: Some(failure.tag()), data }
}

impl CallbackPayload {
    /// Makes what the observer of warnings is handed for a line that was
    /// set aside.
    pub fn warning(failure: LineFailure, data: Option<String>) -> (payload: CallbackPayload)
        ensures
            payload.data == data,
            payload@ == warning_payload(
                failure,
                match data {
                    Some(text) => Some(text@),
                    None => None,
                },
            ),
    {
        CallbackPayload { error: Some(<&'static str>::from(failure)), data }
    }

    /// Makes what an observer of the given kind is handed. A warning and an
    /// error must come with their failure.
    pub fn new(cb_type: CallbackType, error: Option<LogParserError>, data: Option<String>) -> (payload:
        CallbackPayload)
        requires
            cb_type != CallbackType::Success ==> error is Some,
        ensures
            payload.data == data,
            payload@ == payload_of(
                cb_type,
                error,
                match data {
                    Some(text) => Some(text@),
                    None => None,
                },
            ),
    {
        match cb_type {
            CallbackType::Success => CallbackPayload { error: None, data },
            _ => match error {
                Some(failure) => CallbackPayload { error: Some(<&'static str>::from(failure)), data },
                None => CallbackPayload { error: None, data },
            },
        }
    }
}

/// One call of an observer, as texts.
pub struct Notice {
    pub cb_type: CallbackType,
    pub payload: PayloadView,
}

/// One call of an observer: which observer is called, and with what.
#[derive(Debug, Clone, PartialEq, Eq)]
pub struct Notification {
    pub cb_type: CallbackType,
    pub payload: CallbackPayload,
}

impl View for Notification {
    type V = Notice;

    open spec fn view(&self) -> Notice {
        Notice { cb_type: self.cb_type, payload: self.payload@ }
    }
}

} // verus!
