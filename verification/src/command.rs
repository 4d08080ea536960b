//! The typed values that flow through the bridge: channels, buttons, and
//! decoded commands.

use vstd::prelude::*;

verus! {

/// One logical category of input event; each channel is served by its own
/// network port and listener.
#[derive(Clone, Copy, Debug, PartialEq, Eq, Structural)]
pub enum Channel {
    /// Button presses and releases, multiplexed on one port by the wire
    /// encoding (a press is the release code offset by 128).
    Button,
    /// Vertical scroll-wheel deltas.
    Scroll,
    /// Relative pointer movement along the horizontal axis.
    MoveX,
    /// Relative pointer movement along the vertical axis.
    MoveY,
}

/// A pointer axis.
#[derive(Clone, Copy, Debug, PartialEq, Eq, Structural)]
pub enum Axis {
    X,
    Y,
}

/// A mouse button. The three reserved wire codes map to the named buttons;
/// every other valid code is carried through unchanged, so unclassified
/// buttons keep working end to end.
#[derive(Clone, Copy, Debug, PartialEq, Eq, Structural)]
pub enum ButtonId {
    Left,
    Right,
    Middle,
    /// A button the protocol does not classify, identified by its wire code.
    Raw(u8),
}

/// One decoded input command, constructed by a listener and consumed exactly
/// once by the device writer.
#[derive(Clone, Copy, Debug, PartialEq, Eq, Structural)]
pub enum Command {
    /// Move the pointer by a signed relative delta along one axis.
    MoveAxis(Axis, i16),
    /// Scroll vertically by a signed relative delta.
    Scroll(i16),
    /// Press a button.
    Press(ButtonId),
    /// Release a button.
    Release(ButtonId),
}

/// Why a packet could not be decoded.
#[derive(Clone, Copy, Debug, PartialEq, Eq, Structural)]
pub enum ProtocolError {
    /// The datagram held no payload byte.
    Empty,
    /// The button code was out of range: zero as a release, or exactly the
    /// press offset, both of which normalize to a non-positive code.
    BadCode,
}

} // verus!
