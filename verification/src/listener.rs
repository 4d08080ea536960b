//! The channel listener's pure half: the per-datagram step that decodes one
//! packet for the listener's channel and, on success, enqueues the command,
//! tagged with its source, before the next datagram is read. Because the
//! listener is single-threaded, this is what preserves per-channel arrival
//! order into the command queue.

use vstd::prelude::*;
use crate::codec::{decode_packet, decode_packet_spec};
use crate::command::{Channel, ProtocolError};
use crate::queue::{CommandQueue, TaggedCommand};

verus! {

/// Handles one datagram: a decodable packet appends exactly its command to
/// the back of the queue; a malformed one is reported and leaves the queue
/// untouched, so a bad packet never disturbs the stream.
pub fn listener_step(ch: Channel, packet: &[u8], q: &mut CommandQueue) -> (r: Result<
    (),
    ProtocolError,
>)
    ensures
        decode_packet_spec(ch, packet@) matches Ok(c) ==> r is Ok && final(q)@ == old(q)@.push(
            (TaggedCommand { source: ch, cmd: c }),
        ),
        decode_packet_spec(ch, packet@) matches Err(e) ==> r == Err::<(), ProtocolError>(e)
            && final(q)@ == old(q)@,
{
    match decode_packet(ch, packet) {
        Ok(cmd) => {
            q.enqueue(TaggedCommand { source: ch, cmd });
            Ok(())
        },
        Err(e) => Err(e),
    }
}

} // verus!
