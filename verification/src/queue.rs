//! The command queue: the in-process multi-producer/single-consumer buffer
//! that carries decoded commands from every channel listener to the single
//! device writer. The queue is strictly first-in first-out, and each element
//! remembers which channel produced it, so the per-channel ordering laws can
//! be stated and proved over the queue's contents.

use vstd::prelude::*;
use crate::command::{Channel, Command};

verus! {

/// One queued command together with the channel whose listener enqueued it.
#[derive(Clone, Copy, Debug, PartialEq, Eq, Structural)]
pub struct TaggedCommand {
    pub source: Channel,
    pub cmd: Command,
}

/// The commands of one channel, in the order they stand in the queue.
pub open spec fn from_channel(s: Seq<TaggedCommand>, c: Channel) -> Seq<Command>
    decreases s.len(),
{
    if s.len() == 0 {
        Seq::empty()
    } else if s.last().source == c {
        from_channel(s.drop_last(), c).push(s.last().cmd)
    } else {
        from_channel(s.drop_last(), c)
    }
}

/// A first-in first-out queue of tagged commands. Its view is the sequence of
/// elements currently queued, oldest first.
pub struct CommandQueue {
    items: Vec<TaggedCommand>,
}

impl View for CommandQueue {
    type V = Seq<TaggedCommand>;

    closed spec fn view(&self) -> Seq<TaggedCommand> {
        self.items@
    }
}

impl CommandQueue {
    /// Creates an empty queue.
    pub fn new() -> (q: CommandQueue)
        ensures
            q@ == Seq::<TaggedCommand>::empty(),
    {
        CommandQueue { items: Vec::new() }
    }

    /// How many commands are queued.
    pub fn len(&self) -> (n: usize)
        ensures
            n == self@.len(),
    {
        self.items.len()
    }

    /// Enqueues one command at the back.
    pub fn enqueue(&mut self, t: TaggedCommand)
        ensures
            final(self)@ == old(self)@.push(t),
    {
        self.items.push(t);
    }

    /// Dequeues the oldest command, or reports the queue empty.
    pub fn dequeue(&mut self) -> (r: Option<TaggedCommand>)
        ensures
            old(self)@.len() == 0 ==> r is None && final(self)@ == old(self)@,
            old(self)@.len() > 0 ==> r == Some(old(self)@[0]) && final(self)@
                == old(self)@.drop_first(),
    {
        if self.items.len() == 0 {
            None
        } else {
            let t = self.items.remove(0);
            proof {
                assert(self.items@ =~= old(self)@.drop_first());
            }
            Some(t)
        }
    }

    /// Dequeues everything at once: the result is exactly the queue's
    /// contents, oldest first, and the queue is left empty.
    pub fn drain(&mut self) -> (r: Vec<TaggedCommand>)
        ensures
            r@ == old(self)@,
            final(self)@ == Seq::<TaggedCommand>::empty(),
    {
        let mut drained: Vec<TaggedCommand> = Vec::new();
        core::mem::swap(&mut drained, &mut self.items);
        drained
    }
}

/// Enqueuing appends to the producing channel's own projection and leaves
/// every other channel's projection unchanged: listeners cannot disturb each
/// other's order through the queue.
pub proof fn lemma_enqueue_per_channel(s: Seq<TaggedCommand>, t: TaggedCommand, c: Channel)
    ensures
        t.source == c ==> from_channel(s.push(t), c) == from_channel(s, c).push(t.cmd),
        t.source != c ==> from_channel(s.push(t), c) == from_channel(s, c),
{
    assert(s.push(t).drop_last() =~= s);
}

/// Dequeuing takes from the front: the head of the queue carries the head of
/// its own channel's projection, and what remains queued carries the rest of
/// every projection in order. Commands enqueued by a single listener are
/// therefore dequeued in the same relative order they were enqueued.
pub proof fn lemma_dequeue_per_channel(s: Seq<TaggedCommand>, c: Channel)
    requires
        s.len() > 0,
    ensures
        s[0].source == c ==> from_channel(s, c) == seq![s[0].cmd] + from_channel(
            s.drop_first(),
            c,
        ),
        s[0].source != c ==> from_channel(s, c) == from_channel(s.drop_first(), c),
    decreases s.len(),
{
    if s.len() == 1 {
        assert(s.drop_first() =~= Seq::<TaggedCommand>::empty());
        assert(s.drop_last() =~= Seq::<TaggedCommand>::empty());
        if s[0].source == c {
            assert(from_channel(s, c) =~= seq![s[0].cmd] + from_channel(s.drop_first(), c));
        }
    } else {
        let init = s.drop_last();
        lemma_dequeue_per_channel(init, c);
        assert(init.drop_first() =~= s.drop_first().drop_last());
        assert(s.drop_first().last() == s.last());
        assert(s.drop_first().len() > 0);
        if s[0].source == c {
            if s.last().source == c {
                assert(from_channel(s, c) == from_channel(init, c).push(s.last().cmd));
                assert(from_channel(s.drop_first(), c) == from_channel(
                    s.drop_first().drop_last(),
                    c,
                ).push(s.last().cmd));
                assert(from_channel(s, c) =~= seq![s[0].cmd] + from_channel(s.drop_first(), c));
            } else {
                assert(from_channel(s, c) =~= seq![s[0].cmd] + from_channel(s.drop_first(), c));
            }
        } else {
            if s.last().source == c {
                assert(from_channel(s, c) =~= from_channel(s.drop_first(), c));
            } else {
                assert(from_channel(s, c) =~= from_channel(s.drop_first(), c));
            }
        }
    }
}

/// When every queued command comes from one of two distinct channels, the two
/// projections partition the queue: nothing is lost, duplicated, or
/// attributed to a third party.
pub proof fn lemma_two_channel_partition(s: Seq<TaggedCommand>, a: Channel, b: Channel)
    requires
        a != b,
        forall|i: int| 0 <= i < s.len() ==> s[i].source == a || s[i].source == b,
    ensures
        from_channel(s, a).len() + from_channel(s, b).len() == s.len(),
    decreases s.len(),
{
    if s.len() > 0 {
        let init = s.drop_last();
        assert(forall|i: int| 0 <= i < init.len() ==> init[i] == s[i]);
        lemma_two_channel_partition(init, a, b);
    }
}

} // verus!
