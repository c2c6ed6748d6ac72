//! The kinds of event that polling the wiiuse C library reports.

use vstd::prelude::*;
use vstd::std_specs::convert::FromSpecImpl;

use crate::decimal::{decimal_digits, u32_to_decimal};

verus! {

/// Event code of `WIIUSE_NONE` in the wiiuse C header.
pub const WIIUSE_EVENT_TYPE_WIIUSE_NONE: u32 = 0;
/// Event code of `WIIUSE_EVENT` in the wiiuse C header.
pub const WIIUSE_EVENT_TYPE_WIIUSE_EVENT: u32 = 1;
/// Event code of `WIIUSE_STATUS` in the wiiuse C header.
pub const WIIUSE_EVENT_TYPE_WIIUSE_STATUS: u32 = 2;
/// Event code of `WIIUSE_DISCONNECT` in the wiiuse C header.
pub const WIIUSE_EVENT_TYPE_WIIUSE_DISCONNECT: u32 = 4;
/// Event code of `WIIUSE_READ_DATA` in the wiiuse C header.
pub const WIIUSE_EVENT_TYPE_WIIUSE_READ_DATA: u32 = 6;

/// An event code that names no event kind.
#[derive(Debug)]
pub struct UnknownEventError(u32);

/// The kind of an event reported for a Wii remote.
#[allow(non_camel_case_types)]
pub enum WiiuseEvent {
    /// No event (the C library's `WIIUSE_NONE`).
    NoEvent,
    Event,
    Status,
    Disconnect,
    ReadData,
}

/// The event kind that a code stands for; every code that is not one of
/// the four recognised kinds reads as `NoEvent`.
pub open spec fn event_of_code(value: u32) -> WiiuseEvent {
    if value == WIIUSE_EVENT_TYPE_WIIUSE_EVENT {
        WiiuseEvent::Event
    } else if value == WIIUSE_EVENT_TYPE_WIIUSE_STATUS {
        WiiuseEvent::Status
    } else if value == WIIUSE_EVENT_TYPE_WIIUSE_DISCONNECT {
        WiiuseEvent::Disconnect
    } else if value == WIIUSE_EVENT_TYPE_WIIUSE_READ_DATA {
        WiiuseEvent::ReadData
    } else {
        WiiuseEvent::NoEvent
    }
}

impl From<u32> for WiiuseEvent {
    fn from(value: u32) -> (ev: Self)
        ensures
            ev == event_of_code(value),
    {
        if value == WIIUSE_EVENT_TYPE_WIIUSE_EVENT {
            WiiuseEvent::Event
        } else if value == WIIUSE_EVENT_TYPE_WIIUSE_STATUS {
            WiiuseEvent::Status
        } else if value == WIIUSE_EVENT_TYPE_WIIUSE_DISCONNECT {
            WiiuseEvent::Disconnect
        } else if value == WIIUSE_EVENT_TYPE_WIIUSE_READ_DATA {
            WiiuseEvent::ReadData
        } else {
            WiiuseEvent::NoEvent
        }
    }
}

impl FromSpecImpl<u32> for WiiuseEvent {
    open spec fn obeys_from_spec() -> bool {
        true
    }

    open spec fn from_spec(v: u32) -> Self {
        event_of_code(v)
    }
}

impl UnknownEventError {
    /// The code that named no event kind.
    pub closed spec fn spec_code(&self) -> u32 {
        self.0
    }

    /// Wraps an event code that names no event kind.
    pub fn new(code: u32) -> (e: Self)
        ensures
            e.spec_code() == code,
    {
        UnknownEventError(code)
    }

    /// The code that named no event kind.
    pub fn code(&self) -> (c: u32)
        ensures
            c == self.spec_code(),
    {
        self.0
    }

    /// The error's message: `Unbekannter C-Event-Code empfangen: <code>`.
    pub fn to_string(&self) -> (s: String)
        ensures
            s@ == "Unbekannter C-Event-Code empfangen: "@ + decimal_digits(self.spec_code() as nat),
    {
        let prefix = "Unbekannter C-Event-Code empfangen: ";
        let digits = u32_to_decimal(self.0);
        String::from_str(prefix).concat(digits.as_str())
    }
}

/// Decoding events is one to one apart from `NoEvent`: two codes that
/// decode to the same event kind other than `NoEvent` are the same code,
/// and the code of `WIIUSE_NONE` decodes to `NoEvent`.
pub proof fn lemma_event_decoding_injective(c1: u32, c2: u32)
    ensures
        event_of_code(c1) != WiiuseEvent::NoEvent && event_of_code(c1) == event_of_code(c2) ==> c1
            == c2,
        event_of_code(WIIUSE_EVENT_TYPE_WIIUSE_NONE) == WiiuseEvent::NoEvent,
{
}

} // verus!
