//! The buttons of a Wii remote, decoded from the button codes that the
//! wiiuse C library reports.

use vstd::prelude::*;
use vstd::std_specs::convert::TryFromSpecImpl;

use crate::decimal::{decimal_digits, u32_to_decimal};

verus! {

/// Code of the "2" button in the wiiuse C header.
pub const WIIMOTE_BUTTON_TWO: u32 = 0x0001;
/// Code of the "1" button in the wiiuse C header.
pub const WIIMOTE_BUTTON_ONE: u32 = 0x0002;
/// Code of the "B" button in the wiiuse C header.
pub const WIIMOTE_BUTTON_B: u32 = 0x0004;
/// Code of the "A" button in the wiiuse C header.
pub const WIIMOTE_BUTTON_A: u32 = 0x0008;
/// Code of the "-" button in the wiiuse C header.
pub const WIIMOTE_BUTTON_MINUS: u32 = 0x0010;
/// Code of the "Home" button in the wiiuse C header.
pub const WIIMOTE_BUTTON_HOME: u32 = 0x0080;
/// Code of the d-pad "left" button in the wiiuse C header.
pub const WIIMOTE_BUTTON_LEFT: u32 = 0x0100;
/// Code of the d-pad "right" button in the wiiuse C header.
pub const WIIMOTE_BUTTON_RIGHT: u32 = 0x0200;
/// Code of the d-pad "down" button in the wiiuse C header.
pub const WIIMOTE_BUTTON_DOWN: u32 = 0x0400;
/// Code of the d-pad "up" button in the wiiuse C header.
pub const WIIMOTE_BUTTON_UP: u32 = 0x0800;
/// Code of the "+" button in the wiiuse C header.
pub const WIIMOTE_BUTTON_PLUS: u32 = 0x1000;

/// A single button of a Wii remote.
#[derive(Debug, Clone, Copy, PartialEq, Eq, Structural)]
pub enum WiimoteButton {
    One,
    Two,
    B,
    A,
    Minus,
    Home,
    Left,
    Right,
    Down,
    Up,
    Plus,
}

/// A button code that names no button that the decoder recognises.
#[derive(Debug, PartialEq, Eq, Structural)]
pub struct UnknownWiimoteButtonError(u32);

/// The button that a code stands for. The code of the "2" button is not
/// decoded: `Two` is never the result of a decoding.
pub open spec fn button_of_code(value: u32) -> Option<WiimoteButton> {
    if value == WIIMOTE_BUTTON_A {
        Some(WiimoteButton::A)
    } else if value == WIIMOTE_BUTTON_B {
        Some(WiimoteButton::B)
    } else if value == WIIMOTE_BUTTON_ONE {
        Some(WiimoteButton::One)
    } else if value == WIIMOTE_BUTTON_HOME {
        Some(WiimoteButton::Home)
    } else if value == WIIMOTE_BUTTON_MINUS {
        Some(WiimoteButton::Minus)
    } else if value == WIIMOTE_BUTTON_LEFT {
        Some(WiimoteButton::Left)
    } else if value == WIIMOTE_BUTTON_RIGHT {
        Some(WiimoteButton::Right)
    } else if value == WIIMOTE_BUTTON_DOWN {
        Some(WiimoteButton::Down)
    } else if value == WIIMOTE_BUTTON_UP {
        Some(WiimoteButton::Up)
    } else if value == WIIMOTE_BUTTON_PLUS {
        Some(WiimoteButton::Plus)
    } else {
        None
    }
}

impl UnknownWiimoteButtonError {
    /// The code that could not be decoded.
    pub closed spec fn spec_code(&self) -> u32 {
        self.0
    }

    /// Wraps a button code that could not be decoded.
    pub fn new(code: u32) -> (e: Self)
        ensures
            e.spec_code() == code,
    {
        UnknownWiimoteButtonError(code)
    }

    /// The code that could not be decoded.
    pub fn code(&self) -> (c: u32)
        ensures
            c == self.spec_code(),
    {
        self.0
    }

    /// The error's message: `unknown wiimote button code <code>`.
    pub fn to_string(&self) -> (s: String)
        ensures
            s@ == "unknown wiimote button code "@ + decimal_digits(self.spec_code() as nat),
    {
        let prefix = "unknown wiimote button code ";
        let digits = u32_to_decimal(self.0);
        String::from_str(prefix).concat(digits.as_str())
    }
}

impl TryFrom<u32> for WiimoteButton {
    type Error = UnknownWiimoteButtonError;

    fn try_from(value: u32) -> (res: Result<Self, Self::Error>)
        ensures
            button_of_code(value) matches Some(b) ==> res == Ok::<WiimoteButton, UnknownWiimoteButtonError>(b),
            button_of_code(value) is None ==> (res matches Err(e) && e.spec_code() == value),
    {
        let res = if value == WIIMOTE_BUTTON_A {
            WiimoteButton::A
        } else if value == WIIMOTE_BUTTON_B {
            WiimoteButton::B
        } else if value == WIIMOTE_BUTTON_ONE {
            WiimoteButton::One
        } else if value == WIIMOTE_BUTTON_HOME {
            WiimoteButton::Home
        } else if value == WIIMOTE_BUTTON_MINUS {
            WiimoteButton::Minus
        } else if value == WIIMOTE_BUTTON_LEFT {
            WiimoteButton::Left
        } else if value == WIIMOTE_BUTTON_RIGHT {
            WiimoteButton::Right
        } else if value == WIIMOTE_BUTTON_DOWN {
            WiimoteButton::Down
        } else if value == WIIMOTE_BUTTON_UP {
            WiimoteButton::Up
        } else if value == WIIMOTE_BUTTON_PLUS {
            WiimoteButton::Plus
        } else {
            return Err(UnknownWiimoteButtonError(value));
        };
        Ok(res)
    }
}

impl TryFromSpecImpl<u32> for WiimoteButton {
    open spec fn obeys_try_from_spec() -> bool {
        true
    }

    closed spec fn try_from_spec(v: u32) -> Result<Self, Self::Error> {
        match button_of_code(v) {
            Some(b) => Ok(b),
            None => Err(UnknownWiimoteButtonError(v)),
        }
    }
}

/// Decoding is one to one: two codes that decode to the same button are
/// the same code. The "2" button is never the result of a decoding, and
/// exactly ten codes decode at all.
pub proof fn lemma_button_decoding_injective(c1: u32, c2: u32)
    ensures
        button_of_code(c1) is Some && button_of_code(c1) == button_of_code(c2) ==> c1 == c2,
        button_of_code(c1) != Some(WiimoteButton::Two),
        button_of_code(c1) is Some <==> (c1 == WIIMOTE_BUTTON_A || c1 == WIIMOTE_BUTTON_B || c1
            == WIIMOTE_BUTTON_ONE || c1 == WIIMOTE_BUTTON_HOME || c1 == WIIMOTE_BUTTON_MINUS || c1
            == WIIMOTE_BUTTON_LEFT || c1 == WIIMOTE_BUTTON_RIGHT || c1 == WIIMOTE_BUTTON_DOWN || c1
            == WIIMOTE_BUTTON_UP || c1 == WIIMOTE_BUTTON_PLUS),
{
}

} // verus!
