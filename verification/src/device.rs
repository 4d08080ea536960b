//! The device writer's pure half: translating decoded commands into the
//! `(kind, code, value)` event records that the virtual input device
//! consumes, and draining the command queue into one event batch. The
//! constants mirror the Linux input-event conventions that the device layer
//! uses: key events carry a button code with value 1 for press and 0 for
//! release, relative events carry a signed delta, and a press is followed by
//! a synchronization report so it takes effect at once.

use vstd::prelude::*;
use crate::command::{Axis, ButtonId, Command};
use crate::queue::{CommandQueue, TaggedCommand};

verus! {

/// Event kind: synchronization.
pub const EV_SYN: u16 = 0;
/// Event kind: key (button) state change.
pub const EV_KEY: u16 = 1;
/// Event kind: relative axis movement.
pub const EV_REL: u16 = 2;
/// Synchronization code: report the batch.
pub const SYN_REPORT: u16 = 0;
/// Relative axis code: horizontal pointer movement.
pub const REL_X: u16 = 0;
/// Relative axis code: vertical pointer movement.
pub const REL_Y: u16 = 1;
/// Relative axis code: vertical scroll wheel.
pub const REL_WHEEL: u16 = 11;
/// Device code for the left mouse button.
pub const BTN_LEFT: u16 = 0x110;
/// Device code for the right mouse button.
pub const BTN_RIGHT: u16 = 0x111;
/// Device code for the middle mouse button.
pub const BTN_MIDDLE: u16 = 0x112;

/// One raw input event record: kind, code, and value.
pub type EventRecord = (u16, u16, i32);

/// The device code that a button maps to: the named buttons carry the fixed
/// device codes, and a raw button carries its wire code through unchanged.
pub open spec fn code_of_button(b: ButtonId) -> u16 {
    match b {
        ButtonId::Left => BTN_LEFT,
        ButtonId::Right => BTN_RIGHT,
        ButtonId::Middle => BTN_MIDDLE,
        ButtonId::Raw(c) => c as u16,
    }
}

/// Maps a button to its device code.
pub fn button_code(b: ButtonId) -> (c: u16)
    ensures
        c == code_of_button(b),
{
    match b {
        ButtonId::Left => BTN_LEFT,
        ButtonId::Right => BTN_RIGHT,
        ButtonId::Middle => BTN_MIDDLE,
        ButtonId::Raw(c) => c as u16,
    }
}

/// The event records that applying one command writes to the device: a press
/// is a key-down followed by a synchronization report, a release is a key-up,
/// a move is one relative event on its axis (the vertical delta is inverted,
/// as the wire's downward-positive convention is opposite to the device's),
/// and a scroll is one relative event on the wheel axis.
pub open spec fn events_of_command(cmd: Command) -> Seq<EventRecord> {
    match cmd {
        Command::Press(b) => seq![(EV_KEY, code_of_button(b), 1i32), (EV_SYN, SYN_REPORT, 0i32)],
        Command::Release(b) => seq![(EV_KEY, code_of_button(b), 0i32)],
        Command::MoveAxis(Axis::X, d) => seq![(EV_REL, REL_X, d as i32)],
        Command::MoveAxis(Axis::Y, d) => seq![(EV_REL, REL_Y, (-(d as int)) as i32)],
        Command::Scroll(d) => seq![(EV_REL, REL_WHEEL, d as i32)],
    }
}

/// Translates one command into the event records to write, in order.
pub fn command_events(cmd: Command) -> (r: Vec<EventRecord>)
    ensures
        r@ == events_of_command(cmd),
{
    let mut out: Vec<EventRecord> = Vec::new();
    match cmd {
        Command::Press(b) => {
            out.push((EV_KEY, button_code(b), 1i32));
            out.push((EV_SYN, SYN_REPORT, 0i32));
        },
        Command::Release(b) => {
            out.push((EV_KEY, button_code(b), 0i32));
        },
        Command::MoveAxis(Axis::X, d) => {
            out.push((EV_REL, REL_X, d as i32));
        },
        Command::MoveAxis(Axis::Y, d) => {
            out.push((EV_REL, REL_Y, -(d as i32)));
        },
        Command::Scroll(d) => {
            out.push((EV_REL, REL_WHEEL, d as i32));
        },
    }
    proof {
        assert(out@ =~= events_of_command(cmd));
    }
    out
}

/// The event records of a whole queue, front to back.
pub open spec fn events_of_queue(s: Seq<TaggedCommand>) -> Seq<EventRecord>
    decreases s.len(),
{
    if s.len() == 0 {
        Seq::empty()
    } else {
        events_of_command(s[0].cmd) + events_of_queue(s.drop_first())
    }
}

/// One periodic flush of the device writer: every queued command is taken,
/// in queue order, and translated into the concatenated batch of event
/// records to write; the queue is left empty.
pub fn flush_events(q: &mut CommandQueue) -> (r: Vec<EventRecord>)
    ensures
        r@ == events_of_queue(old(q)@),
        final(q)@ == Seq::<TaggedCommand>::empty(),
{
    let mut out: Vec<EventRecord> = Vec::new();
    loop
        invariant
            out@ + events_of_queue(q@) == events_of_queue(old(q)@),
        ensures
            out@ == events_of_queue(old(q)@),
            q@.len() == 0,
        decreases q@.len(),
    {
        let next = q.dequeue();
        match next {
            Some(t) => {
                let mut evs = command_events(t.cmd);
                out.append(&mut evs);
                proof {
                    assert(out@ + events_of_queue(q@) =~= events_of_queue(old(q)@));
                }
            },
            None => {
                proof {
                    assert(events_of_queue(q@) =~= Seq::<EventRecord>::empty());
                    assert(out@ =~= out@ + events_of_queue(q@));
                }
                break;
            },
        }
    }
    out
}

} // verus!
