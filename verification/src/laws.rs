//! What holds of the engine over whole runs: many reads, many writes, a
//! frame sent and received again.

use crate::buffer::{contents, payload};
use crate::codec::{frame_of, BytesCodec, Decoder, Encoder};
use crate::frames::FramesView;
use bytes::{Bytes, BytesMut};
use vstd::prelude::*;

verus! {

/// The state after the bytes `data` have arrived one by one, each in a read
/// of its own, where the codec answered "not yet" after every byte but the
/// last.
pub open spec fn after_single_byte_reads(s: FramesView, data: Seq<u8>) -> FramesView
    decreases data.len(),
{
    if data.len() == 0 {
        s
    } else if data.len() == 1 {
        s.after_read(data)
    } else {
        after_single_byte_reads(s.after_read(data.take(1)).after_decode(None), data.skip(1))
    }
}

/// A run of writes: the transport takes `accepted[i]` bytes on its i-th
/// write, or all that is pending if that is fewer. The run stops where the
/// buffer is empty, where the counts run out, or at a write that takes
/// nothing. The result is what the transport has seen, in order, and the
/// state the engine is left in.
pub open spec fn drain(s: FramesView, accepted: Seq<nat>) -> (Seq<u8>, FramesView)
    decreases accepted.len(),
{
    if accepted.len() == 0 || s.wb.len() == 0 || accepted[0] == 0 {
        (Seq::empty(), s)
    } else {
        let n = if accepted[0] <= s.wb.len() {
            accepted[0]
        } else {
            s.wb.len()
        };
        let rest = drain(s.after_write(n), accepted.drop_first());
        (s.wb.take(n as int) + rest.0, rest.1)
    }
}

/// Bytes that arrive in single-byte reads, before the end of input, leave
/// the engine in the state that one read of all of them leaves it in: the
/// codec is offered the same buffer, and so finds the same frame.
pub proof fn single_byte_reads_accumulate(s: FramesView, data: Seq<u8>)
    requires
        data.len() > 0,
        !s.eof,
    ensures
        after_single_byte_reads(s, data) == s.after_read(data),
    decreases data.len(),
{
    if data.len() > 1 {
        let waiting = s.after_read(data.take(1)).after_decode(None);
        let rest = data.skip(1);
        assert(after_single_byte_reads(s, data) == after_single_byte_reads(waiting, rest));
        single_byte_reads_accumulate(waiting, rest);
        assert(waiting.rb + rest =~= s.rb + data);
    }
}

/// The end of input is final. Whatever happens to an engine that has seen
/// it (a frame taken or not, bytes sent, bytes written), it has still seen
/// it and its buffer is still on offer, so that it never asks for a read.
pub proof fn eof_is_sticky(s: FramesView, len: Option<nat>, bytes: Seq<u8>, n: nat)
    requires
        s.wf(),
        s.eof,
    ensures
        s.after_decode(len).eof && s.after_decode(len).wf(),
        s.after_send(bytes).eof && s.after_send(bytes).wf(),
        s.after_write(n).eof && s.after_write(n).wf(),
        s.after_decode(len).is_readable,
{
}

/// However the transport splits its writes, what it has seen followed by
/// what is still pending is the write buffer as it was: nothing is lost,
/// repeated or reordered, and only the write buffer changes.
pub proof fn drain_keeps_order(s: FramesView, accepted: Seq<nat>)
    ensures
        drain(s, accepted).0 + drain(s, accepted).1.wb == s.wb,
        drain(s, accepted).1 == (FramesView { wb: drain(s, accepted).1.wb, ..s }),
    decreases accepted.len(),
{
    if accepted.len() == 0 || s.wb.len() == 0 || accepted[0] == 0 {
        assert(Seq::<u8>::empty() + s.wb =~= s.wb);
    } else {
        let n = if accepted[0] <= s.wb.len() {
            accepted[0]
        } else {
            s.wb.len()
        };
        let rest = drain(s.after_write(n), accepted.drop_first());
        drain_keeps_order(s.after_write(n), accepted.drop_first());
        assert((s.wb.take(n as int) + rest.0) + rest.1.wb =~= s.wb.take(n as int) + (rest.0
            + rest.1.wb));
        assert(s.wb.take(n as int) + s.wb.skip(n as int) =~= s.wb);
    }
}

/// A transport that takes at least one byte on every write has the whole
/// write buffer after at most as many writes as the buffer has bytes, and
/// has then seen exactly the bytes of the buffer, in order.
pub proof fn drain_empties(s: FramesView, accepted: Seq<nat>)
    requires
        accepted.len() >= s.wb.len(),
        forall|i: int| 0 <= i < accepted.len() ==> accepted[i] >= 1,
    ensures
        drain(s, accepted).1.wb.len() == 0,
        drain(s, accepted).0 == s.wb,
    decreases accepted.len(),
{
    drain_keeps_order(s, accepted);
    if accepted.len() == 0 || s.wb.len() == 0 {
        assert(drain(s, accepted).1.wb.len() == 0);
    } else {
        let n = if accepted[0] <= s.wb.len() {
            accepted[0]
        } else {
            s.wb.len()
        };
        let tail = accepted.drop_first();
        assert forall|i: int| 0 <= i < tail.len() implies tail[i] >= 1 by {
            assert(tail[i] == accepted[i + 1]);
        }
        drain_empties(s.after_write(n), tail);
    }
    assert(drain(s, accepted).0 + drain(s, accepted).1.wb =~= drain(s, accepted).0);
}

/// The bytes of `items`, one item after the other.
pub open spec fn concat(items: Seq<Seq<u8>>) -> Seq<u8>
    decreases items.len(),
{
    if items.len() == 0 {
        Seq::empty()
    } else {
        items[0] + concat(items.drop_first())
    }
}

/// The state after the encodings `items` have been sent, first to last.
pub open spec fn after_sends(s: FramesView, items: Seq<Seq<u8>>) -> FramesView
    decreases items.len(),
{
    if items.len() == 0 {
        s
    } else {
        after_sends(s.after_send(items[0]), items.drop_first())
    }
}

/// Items sent one after the other stand in the write buffer one after the
/// other, behind what was pending before.
pub proof fn sends_concatenate(s: FramesView, items: Seq<Seq<u8>>)
    ensures
        after_sends(s, items) == s.after_send(concat(items)),
        after_sends(s, items).wb == s.wb + concat(items),
    decreases items.len(),
{
    if items.len() == 0 {
        assert(s.wb + concat(items) =~= s.wb);
    } else {
        let rest = items.drop_first();
        sends_concatenate(s.after_send(items[0]), rest);
        assert((s.wb + items[0]) + concat(rest) =~= s.wb + (items[0] + concat(rest)));
    }
}

/// Several items sent and then flushed to a transport that takes at least
/// one byte on every write, however few: the transport sees what was
/// pending before and then the encodings of the items, in the order in
/// which they were sent, and nothing stays behind.
pub proof fn partial_writes_deliver_in_order(
    s: FramesView,
    items: Seq<Seq<u8>>,
    accepted: Seq<nat>,
)
    requires
        accepted.len() >= s.wb.len() + concat(items).len(),
        forall|i: int| 0 <= i < accepted.len() ==> accepted[i] >= 1,
    ensures
        drain(after_sends(s, items), accepted).0 == s.wb + concat(items),
        drain(after_sends(s, items), accepted).1.wb.len() == 0,
{
    sends_concatenate(s, items);
    drain_empties(after_sends(s, items), accepted);
}

/// The pass-through codec gives back what it was given: a non-empty item,
/// encoded into an empty write buffer, drained to a transport that hands
/// the same bytes to the read side of a new engine in one read, is decoded
/// as one frame that holds the bytes of the item and leaves nothing behind.
pub proof fn bytes_round_trip(codec: BytesCodec, item: Bytes, accepted: Seq<nat>, back: BytesMut)
    requires
        payload(item).len() > 0,
        accepted.len() >= payload(item).len(),
        forall|i: int| 0 <= i < accepted.len() ==> accepted[i] >= 1,
    ensures
        codec.encoded(item) == Ok::<Seq<u8>, std::convert::Infallible>(payload(item)),
        ({
            let sent = drain(FramesView::fresh().after_send(payload(item)), accepted).0;
            let received = FramesView::fresh().after_read(sent);
            &&& sent == payload(item)
            &&& !received.eof
            &&& received.is_readable
            &&& codec.frame_len(received.rb) == Some(payload(item).len())
            &&& received.after_decode(codec.frame_len(received.rb)).rb.len() == 0
            &&& codec.is_item(frame_of(codec.frame_len(received.rb), received.rb), back) <==> contents(
                back,
            ) == payload(item)
        }),
{
    let start = FramesView::fresh().after_send(payload(item));
    assert(start.wb =~= payload(item));
    drain_empties(start, accepted);
    let sent = drain(start, accepted).0;
    let received = FramesView::fresh().after_read(sent);
    assert(received.rb =~= payload(item));
    assert(received.rb.take(received.rb.len() as int) =~= received.rb);
}

} // verus!
