//! The decisions that surround the calls into the wiiuse C library: how
//! arguments are handed over, how its results are read, which remote an id
//! selects, and what connecting all remotes answers.

use vstd::prelude::*;
use vstd::utf8::{decode_utf8, encode_utf8, encode_utf8_decode_utf8, encode_utf8_valid_utf8, valid_utf8};

use crate::button_flags::WiimoteButton;
use crate::decimal::{decimal_digits, u32_to_decimal};

verus! {

/// The position of a remote in the array that the C library allocated.
pub struct WiimoteId(pub usize);

impl std::ops::Deref for WiimoteId {
    type Target = usize;

    fn deref(&self) -> (r: &usize)
        ensures
            *r == self.0,
    {
        &self.0
    }
}

/// A count as the C library's `int` parameters take it: the same bits,
/// read as a signed number.
pub fn to_c_int(n: u32) -> (r: i32)
    ensures
        r == n as i32,
        n <= i32::MAX ==> r == n,
        n > i32::MAX ==> r == n - 0x1_0000_0000,
{
    let r = n as i32;
    proof {
        assert(n <= 0x7fff_ffffu32 ==> r as int == n as int) by (bit_vector)
            requires
                r == n as i32,
        ;
        assert(n > 0x7fff_ffffu32 ==> r as int == n as int - 0x1_0000_0000) by (bit_vector)
            requires
                r == n as i32,
        ;
    }
    r
}

/// The number of remotes that a search or a connection attempt reports:
/// the C library's count, or zero where it reports a failure (a negative
/// number).
pub fn found_count(raw: i32) -> (n: u32)
    ensures
        raw < 0 ==> n == 0,
        raw >= 0 ==> n == raw,
{
    if raw < 0 {
        0
    } else {
        raw as u32
    }
}

/// The number of remotes that had an event, as polling reports it: the C
/// library's count, or zero where it reports a failure (a negative
/// number).
pub fn poll_count(raw: i32) -> (n: u32)
    ensures
        raw < 0 ==> n == 0,
        raw >= 0 ==> n == raw,
{
    found_count(raw)
}

/// The rumble status as the C library takes it: `1` for on, `0` for off.
pub fn rumble_arg(status: bool) -> (r: i32)
    ensures
        r == (if status { 1i32 } else { 0i32 }),
{
    if status {
        1
    } else {
        0
    }
}

/// Whether any of `buttons` is pressed in the button word `current_btns`
/// that the C library keeps for a remote.
pub fn is_button_pressed(current_btns: u16, buttons: WiimoteButton) -> (pressed: bool)
    ensures
        pressed == (current_btns & buttons.spec_bits() != 0),
{
    (current_btns & buttons.bits()) != 0
}

/// The slot of the remote with index `index` in an array of
/// `max_wiimotes` remotes, or `None` when the index is out of range.
pub fn slot_index(index: usize, max_wiimotes: i32) -> (slot: Option<usize>)
    requires
        max_wiimotes >= 0,
    ensures
        slot == (if index < max_wiimotes { Some(index) } else { None::<usize> }),
{
    let len = max_wiimotes as usize;
    if index < len {
        Some(index)
    } else {
        None
    }
}

/// Why connecting all remotes failed.
#[derive(Debug, Clone, Copy, PartialEq, Eq, Structural)]
pub enum ConnectError {
    /// The search found no remote.
    NoControllerFound,
    /// The search found `found` remotes, but none could be connected.
    ConnectionFailed { found: u32 },
}

impl ConnectError {
    /// The message of the error: `no controller found`, or
    /// `connection error (found <found>)`.
    pub fn to_string(&self) -> (s: String)
        ensures
            *self == ConnectError::NoControllerFound ==> s@ == "no controller found"@,
            self matches ConnectError::ConnectionFailed { found } ==> s@ == "connection error (found "@
                + decimal_digits(found as nat) + ")"@,
    {
        match self {
            ConnectError::NoControllerFound => String::from_str("no controller found"),
            ConnectError::ConnectionFailed { found } => {
                let digits = u32_to_decimal(*found);
                String::from_str("connection error (found ").concat(digits.as_str()).concat(")")
            },
        }
    }
}

/// The first decision of connecting all remotes, taken after the search:
/// go on to connect when the search found a remote, else fail.
pub fn check_found(found: u32) -> (r: Result<(), ConnectError>)
    ensures
        found == 0 <==> r == Err::<(), ConnectError>(ConnectError::NoControllerFound),
        found > 0 <==> r is Ok,
{
    if found == 0 {
        Err(ConnectError::NoControllerFound)
    } else {
        Ok(())
    }
}

/// The answer of connecting all remotes, once `found` remotes were found
/// and `count` of them connected: the count when it is positive, else an
/// error that names how many were found.
pub fn connect_outcome(found: u32, count: u32) -> (r: Result<u32, ConnectError>)
    requires
        found > 0,
    ensures
        count > 0 ==> r == Ok::<u32, ConnectError>(count),
        count == 0 ==> r == Err::<u32, ConnectError>(ConnectError::ConnectionFailed { found }),
{
    if count > 0 {
        Ok(count)
    } else {
        Err(ConnectError::ConnectionFailed { found })
    }
}

/// The answer of disconnecting the remote with a given id: `Ok` when the
/// remote exists, else the message `wiimot with id {} not found`, braces
/// included.
pub fn disconnect_outcome(found: bool) -> (r: Result<(), String>)
    ensures
        found <==> r is Ok,
        r matches Err(msg) ==> msg@ == "wiimot with id {} not found"@,
{
    if found {
        Ok(())
    } else {
        Err(String::from_str("wiimot with id {} not found"))
    }
}

/// Calls `std::str::from_utf8` and keeps the text, dropping the error.
/// Trusted, not proved: the text comes back exactly when the bytes are
/// well-formed UTF-8 (vstd's `valid_utf8`: right byte patterns, no overlong
/// encoding, no surrogate, nothing above U+10FFFF), and it is the decoding
/// that vstd's `decode_utf8` describes.
#[verifier::external_body]
fn str_from_utf8(bytes: &[u8]) -> (s: Option<&str>)
    ensures
        s is Some <==> valid_utf8(bytes@),
        s matches Some(text) ==> text@ == decode_utf8(bytes@),
{
    std::str::from_utf8(bytes).ok()
}

/// The version text read from the bytes of the C library's version string
/// (`None` for a null pointer): `unknown` for a null pointer, `utf8-error`
/// for bytes that are not UTF-8, else the decoded text.
pub open spec fn spec_version_text(raw: Option<Seq<u8>>) -> Seq<char> {
    match raw {
        None => "unknown"@,
        Some(bytes) => if valid_utf8(bytes) {
            decode_utf8(bytes)
        } else {
            "utf8-error"@
        },
    }
}

/// The version text of the C library, from the bytes of the string that it
/// returned (`None` for a null pointer).
pub fn version_text(raw: Option<&[u8]>) -> (text: String)
    ensures
        text@ == spec_version_text(
            match raw {
                Some(bytes) => Some(bytes@),
                None => None,
            },
        ),
{
    match raw {
        None => String::from_str("unknown"),
        Some(bytes) => match str_from_utf8(bytes) {
            Some(s) => String::from_str(s),
            None => String::from_str("utf8-error"),
        },
    }
}

/// The version text of the UTF-8 bytes of a string is that string: a
/// version string is read back unchanged.
pub proof fn lemma_version_text_of_encoded(text: Seq<char>)
    ensures
        spec_version_text(Some(encode_utf8(text))) == text,
{
    encode_utf8_valid_utf8(text);
    encode_utf8_decode_utf8(text);
}

} // verus!
