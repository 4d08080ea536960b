//! The screen-info service's pure half: the immutable screen resolution and
//! the fixed-size record that every request on the service is answered with.

use vstd::prelude::*;

verus! {

/// The four bytes of an unsigned 32-bit integer, most significant first.
pub open spec fn be_bytes_u32(x: u32) -> Seq<u8> {
    seq![
        (x / 0x1000000) as u8,
        ((x / 0x10000) % 256) as u8,
        ((x / 256) % 256) as u8,
        (x % 256) as u8,
    ]
}

/// An immutable screen resolution: a pair of positive dimensions, fixed at
/// startup and read concurrently by every connection handler.
#[derive(Clone, Copy, Debug, PartialEq, Eq, Structural)]
pub struct ScreenSize {
    pub width: u32,
    pub height: u32,
}

/// The eight-byte record that encodes a screen size on the wire: the width's
/// four bytes followed by the height's, each most significant first.
pub open spec fn screen_record(s: ScreenSize) -> Seq<u8> {
    be_bytes_u32(s.width) + be_bytes_u32(s.height)
}

/// Relies on `bytes_convert::to_bytes` at `u32`: each value contributes its
/// `u32::to_be_bytes`, the big-endian byte representation, in slice order.
#[verifier::external_body]
fn encode_u32_pair(a: u32, b: u32) -> (r: Vec<u8>)
    ensures
        r@ == be_bytes_u32(a) + be_bytes_u32(b),
{
    bytes_convert::to_bytes(&[a, b])
}

impl ScreenSize {
    /// Whether the pair is a valid screen size: both dimensions positive.
    pub open spec fn wf(self) -> bool {
        self.width > 0 && self.height > 0
    }

    /// Builds a screen size from its dimensions, rejecting a zero width or
    /// height.
    pub fn new(width: u32, height: u32) -> (r: Option<ScreenSize>)
        ensures
            r is Some <==> (width > 0 && height > 0),
            r matches Some(s) ==> s == (ScreenSize { width, height }) && s.wf(),
    {
        if width > 0 && height > 0 {
            Some(ScreenSize { width, height })
        } else {
            None
        }
    }

    /// The reply sent for every request: exactly eight bytes encoding the two
    /// dimensions. The record is a pure function of the size, so every call
    /// within a session returns byte-identical output.
    pub fn response_bytes(&self) -> (r: Vec<u8>)
        ensures
            r@ == screen_record(*self),
            r@.len() == 8,
    {
        encode_u32_pair(self.width, self.height)
    }

    /// The per-request step of a connection handler: a successful read of at
    /// least one byte is answered with the screen record, whatever the bytes
    /// held; a failed or empty read ends the session with no reply.
    pub fn session_reply(&self, read_len: usize) -> (r: Option<Vec<u8>>)
        ensures
            read_len > 0 ==> (r matches Some(v) && v@ == screen_record(*self)),
            read_len == 0 ==> r is None,
    {
        if read_len > 0 {
            Some(self.response_bytes())
        } else {
            None
        }
    }
}

} // verus!
