//! Verified core of a binding to the wiiuse Wii remote library: the
//! decoding of button and event codes, the LED configuration, the button
//! mask, and the decisions that surround the calls into the C library.

pub mod button_flags;
pub mod buttons;
pub mod control;
pub mod decimal;
pub mod events;
pub mod leds;

pub use button_flags::WiimoteButton;
pub use control::WiimoteId;
pub use leds::WiimoteLeds;

use vstd::prelude::*;

verus! {

/// The timeout, in milliseconds, that the C library uses while an
/// expansion is detected, until it has finished its handshake.
pub const DEFAULT_EXPANSION_TIMEOUT: u8 = 100;

/// The timeout, in milliseconds, that the C library uses for normal
/// polling.
pub const DEFAULT_POLL_TIMEOUT: u8 = 100;

} // verus!
