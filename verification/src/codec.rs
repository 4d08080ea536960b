//! The protocol codec: pure interpretation of fixed-width byte packets as
//! typed command values, and the per-channel dispatch that turns one datagram
//! into one `Command`.

use vstd::prelude::*;
use crate::command::{Axis, ButtonId, Channel, Command, ProtocolError};

verus! {

/// The reserved wire code for the left mouse button.
pub const LEFT_CODE: u8 = 90;
/// The reserved wire code for the right mouse button.
pub const RIGHT_CODE: u8 = 91;
/// The reserved wire code for the middle mouse button.
pub const MIDDLE_CODE: u8 = 92;
/// A press is encoded as the button code offset by this amount.
pub const PRESS_OFFSET: u8 = 128;

/// Which button a normalized wire code in `[1, 127]` denotes: the three
/// reserved codes map to the named buttons, anything else is carried raw.
pub open spec fn button_of_code(c: u8) -> ButtonId {
    if c == LEFT_CODE {
        ButtonId::Left
    } else if c == RIGHT_CODE {
        ButtonId::Right
    } else if c == MIDDLE_CODE {
        ButtonId::Middle
    } else {
        ButtonId::Raw(c)
    }
}

/// Maps a normalized button code to its `ButtonId`.
pub fn to_button(c: u8) -> (b: ButtonId)
    requires
        1 <= c < PRESS_OFFSET,
    ensures
        b == button_of_code(c),
{
    if c == LEFT_CODE {
        ButtonId::Left
    } else if c == RIGHT_CODE {
        ButtonId::Right
    } else if c == MIDDLE_CODE {
        ButtonId::Middle
    } else {
        ButtonId::Raw(c)
    }
}

/// The signed relative delta that one wire byte denotes: bytes of 129 and
/// above wrap below zero, bytes up to and including 128 stand for themselves,
/// giving the range `[-127, 128]`.
pub open spec fn rel_of_byte(b: u8) -> int {
    if b >= 129 {
        b - 256
    } else {
        b as int
    }
}

/// The wire byte that carries a relative delta in `[-127, 128]`.
pub open spec fn byte_of_rel(d: int) -> int {
    if d < 0 {
        d + 256
    } else {
        d
    }
}

/// Decodes one byte as a signed relative movement or scroll delta.
pub fn to_rel_coord(b: u8) -> (d: i16)
    ensures
        d as int == rel_of_byte(b),
        -127 <= d <= 128,
{
    if b >= 129 {
        (b as i16) - 256
    } else {
        b as i16
    }
}

/// Re-encodes a relative delta as its wire byte.
pub fn encode_rel(d: i16) -> (b: u8)
    requires
        -127 <= d <= 128,
    ensures
        b as int == byte_of_rel(d as int),
{
    if d < 0 {
        (d + 256) as u8
    } else {
        d as u8
    }
}

/// Round trip: every wire byte decodes to a delta in the supported range,
/// and re-encoding that delta reproduces the byte.
pub proof fn lemma_rel_round_trip(b: u8)
    ensures
        -127 <= rel_of_byte(b) <= 128,
        byte_of_rel(rel_of_byte(b)) == b as int,
{
}

/// Reserved codes map exactly to the named buttons; any other valid code maps
/// to itself as a raw button identifier.
pub proof fn lemma_reserved_codes(c: u8)
    requires
        1 <= c < PRESS_OFFSET,
    ensures
        button_of_code(LEFT_CODE) == ButtonId::Left,
        button_of_code(RIGHT_CODE) == ButtonId::Right,
        button_of_code(MIDDLE_CODE) == ButtonId::Middle,
        c != LEFT_CODE && c != RIGHT_CODE && c != MIDDLE_CODE ==> button_of_code(c)
            == ButtonId::Raw(c),
{
}

/// What one byte on the button channel decodes to, if anything: codes in
/// `[1, 127]` are releases, codes offset by 128 (so bytes in `[129, 255]`)
/// are presses, and the two bytes whose normalized code is not positive
/// (0 and 128) are rejected.
pub open spec fn decode_button_spec(b: u8) -> Option<Command> {
    if 1 <= b && b < PRESS_OFFSET {
        Some(Command::Release(button_of_code(b)))
    } else if b > PRESS_OFFSET {
        Some(Command::Press(button_of_code((b - PRESS_OFFSET) as u8)))
    } else {
        None
    }
}

/// A release code and the same code offset as a press decode to the same
/// button, differing only in the press/release tag; the one code rejected as
/// a release (zero) is likewise rejected as a press.
pub proof fn lemma_press_release_agree(b: u8)
    requires
        b < PRESS_OFFSET,
    ensures
        b == 0 ==> decode_button_spec(b) is None && decode_button_spec((b + PRESS_OFFSET) as u8)
            is None,
        b >= 1 ==> decode_button_spec(b) == Some(Command::Release(button_of_code(b))),
        b >= 1 ==> decode_button_spec((b + PRESS_OFFSET) as u8) == Some(
            Command::Press(button_of_code(b)),
        ),
{
}

/// Relies on `bytes_convert::from_bytes` at `i8`: the buffer is consumed one
/// byte at a time with `bytes::Buf::get_i8`, so the first element of the
/// result is the first byte reinterpreted as a signed two's-complement byte.
#[verifier::external_body]
fn read_i8(b: &[u8]) -> (r: i8)
    requires
        b@.len() >= 1,
    ensures
        r as int == if b@[0] < 128 {
            b@[0] as int
        } else {
            b@[0] - 256
        },
{
    bytes_convert::from_bytes::<i8, &[u8]>(b)[0]
}

/// Relies on `bytes_convert::from_bytes` at `u16`: the buffer is consumed two
/// bytes at a time with `bytes::Buf::get_u16`, which reads an unsigned 16-bit
/// integer in big-endian order.
#[verifier::external_body]
fn read_u16(b: &[u8]) -> (r: u16)
    requires
        b@.len() == 2,
    ensures
        r as int == b@[0] * 256 + b@[1],
{
    bytes_convert::from_bytes::<u16, &[u8]>(b)[0]
}

/// Decodes a two-byte packet as an unsigned absolute coordinate, high byte
/// first.
pub fn to_abs_coord(packet: &[u8]) -> (r: u16)
    requires
        packet@.len() == 2,
    ensures
        r as int == packet@[0] * 256 + packet@[1],
{
    read_u16(packet)
}

/// Decodes one byte from the button channel: a positive signed byte is a
/// release, a negative one is a press of the code offset back by 128, and a
/// normalized code of zero or below is a protocol error.
pub fn decode_button(packet: &[u8]) -> (r: Result<Command, ProtocolError>)
    ensures
        packet@.len() == 0 ==> r == Err::<Command, ProtocolError>(ProtocolError::Empty),
        packet@.len() >= 1 ==> r == (match decode_button_spec(packet@[0]) {
            Some(c) => Ok::<Command, ProtocolError>(c),
            None => Err::<Command, ProtocolError>(ProtocolError::BadCode),
        }),
{
    if packet.len() == 0 {
        return Err(ProtocolError::Empty);
    }
    let code: i8 = read_i8(packet);
    if code >= 1 {
        Ok(Command::Release(to_button(code as u8)))
    } else if code <= -1 && code >= -127 {
        let normalized: u8 = ((code as i16) + 128) as u8;
        Ok(Command::Press(to_button(normalized)))
    } else {
        Err(ProtocolError::BadCode)
    }
}

/// What one datagram on a given channel decodes to. The button channel may
/// reject a byte; the delta channels accept every byte. An empty datagram is
/// always rejected. Only the first byte of a longer datagram is read, as the
/// wire format fixes one byte per packet on these channels.
pub open spec fn decode_packet_spec(ch: Channel, bytes: Seq<u8>) -> Result<
    Command,
    ProtocolError,
> {
    if bytes.len() == 0 {
        Err(ProtocolError::Empty)
    } else {
        match ch {
            Channel::Button => match decode_button_spec(bytes[0]) {
                Some(c) => Ok(c),
                None => Err(ProtocolError::BadCode),
            },
            Channel::Scroll => Ok(Command::Scroll(rel_of_byte(bytes[0]) as i16)),
            Channel::MoveX => Ok(Command::MoveAxis(Axis::X, rel_of_byte(bytes[0]) as i16)),
            Channel::MoveY => Ok(Command::MoveAxis(Axis::Y, rel_of_byte(bytes[0]) as i16)),
        }
    }
}

/// The per-datagram step of a channel listener: decode the payload for the
/// listener's channel, or report why it cannot be decoded.
pub fn decode_packet(ch: Channel, packet: &[u8]) -> (r: Result<Command, ProtocolError>)
    ensures
        r == decode_packet_spec(ch, packet@),
{
    if packet.len() == 0 {
        return Err(ProtocolError::Empty);
    }
    match ch {
        Channel::Button => decode_button(packet),
        Channel::Scroll => Ok(Command::Scroll(to_rel_coord(packet[0]))),
        Channel::MoveX => Ok(Command::MoveAxis(Axis::X, to_rel_coord(packet[0]))),
        Channel::MoveY => Ok(Command::MoveAxis(Axis::Y, to_rel_coord(packet[0]))),
    }
}

} // verus!
