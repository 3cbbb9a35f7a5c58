//! The framing engine: two byte buffers, two flags and a codec, driven by a
//! caller that owns the suspension points.
//!
//! The engine never touches the transport. `poll_next` and `poll_flush` say
//! what the transport has to do next; `read_done` and `write_done` take in
//! what it did. A transport that is not ready changes nothing here: the
//! caller simply asks again later and gets the same answer.

use crate::buffer::{advance, as_slice, contents, fits};
use crate::codec::{frame_of, took_frame, Decoder, Encoder};
use crate::error::{new_write_zero, write_zero, FramesError};
use bytes::BytesMut;
use vstd::prelude::*;

verus! {

/// The buffering state as plain values.
pub struct FramesView {
    /// The transport has ended: a read gave no byte.
    pub eof: bool,
    /// The read buffer may hold a frame that the codec has not been offered.
    pub is_readable: bool,
    /// Bytes received and not yet taken by the decoder, oldest first.
    pub rb: Seq<u8>,
    /// Bytes encoded and not yet taken by the transport, oldest first.
    pub wb: Seq<u8>,
}

impl FramesView {
    /// The state of a new engine.
    pub open spec fn fresh() -> FramesView {
        FramesView { eof: false, is_readable: false, rb: Seq::empty(), wb: Seq::empty() }
    }

    /// The end of input leaves the buffer to be offered to the codec.
    pub open spec fn wf(self) -> bool {
        self.eof ==> self.is_readable
    }

    /// The state once a read has completed with the bytes `data`; a read of
    /// no byte is the end of input.
    pub open spec fn after_read(self, data: Seq<u8>) -> FramesView {
        FramesView {
            eof: self.eof || data.len() == 0,
            is_readable: true,
            rb: self.rb + data,
            wb: self.wb,
        }
    }

    /// The state once the transport has taken the first `n` bytes of the
    /// write buffer.
    pub open spec fn after_write(self, n: nat) -> FramesView {
        FramesView { wb: self.wb.skip(n as int), ..self }
    }

    /// The state once `bytes` have been appended to the write buffer.
    pub open spec fn after_send(self, bytes: Seq<u8>) -> FramesView {
        FramesView { wb: self.wb + bytes, ..self }
    }

    /// The state once a decode call has run that found a frame of the given
    /// length, or none.
    pub open spec fn after_decode(self, len: Option<nat>) -> FramesView {
        match len {
            Some(n) => FramesView { rb: self.rb.skip(n as int), ..self },
            None => FramesView { is_readable: self.eof, ..self },
        }
    }
}

/// What the engine answers when asked for the next item.
pub enum Next<T> {
    /// The next item of the sequence.
    Frame(T),
    /// The sequence has ended.
    End,
    /// The transport has to be read; report the outcome with `read_done`.
    Read,
}

/// What the engine answers when asked to flush.
pub enum Flush {
    /// The transport has to be offered the pending bytes; report how many it
    /// took with `write_done`.
    Write,
    /// Nothing is pending: the transport's own flush is what is left.
    Sync,
}

/// What the engine answers when asked to close.
pub enum Close {
    /// The transport has to be offered the pending bytes; report how many it
    /// took with `write_done`.
    Write,
    /// Nothing is pending, and the transport has not flushed yet.
    Sync,
    /// All output is out: the transport can be shut down.
    Shutdown,
}

/// The text of the error that a write of no byte ends in.
pub open spec fn write_zero_text() -> Seq<char> {
    "failed to write frame to transport"@
}

/// The buffers, the flags and the codec.
pub struct FramesInner<C> {
    eof: bool,
    is_readable: bool,
    codec: C,
    rb: BytesMut,
    wb: BytesMut,
}

impl<C> FramesInner<C> {
    /// The state as plain values.
    pub closed spec fn view(&self) -> FramesView {
        FramesView {
            eof: self.eof,
            is_readable: self.is_readable,
            rb: contents(self.rb),
            wb: contents(self.wb),
        }
    }

    /// The codec in its present state.
    pub closed spec fn codec(&self) -> C {
        self.codec
    }

    /// Empty buffers and cleared flags around `codec`.
    pub fn new(codec: C) -> (r: Self)
        ensures
            r@ == FramesView::fresh(),
            r.codec() == codec,
    {
        Self { eof: false, is_readable: false, codec, rb: BytesMut::new(), wb: BytesMut::new() }
    }
}

impl<C> FramesInner<C> where C: Encoder {
    /// Encodes `item` onto the end of the write buffer, into which it has to
    /// fit.
    pub fn encode(&mut self, item: C::Item) -> (r: Result<(), C::Error>)
        requires
            old(self).codec().encoded(item) matches Ok(bytes) ==> fits(
                old(self)@.wb.len(),
                bytes.len(),
            ),
        ensures
            match old(self).codec().encoded(item) {
                Ok(bytes) => r is Ok && final(self)@ == old(self)@.after_send(bytes),
                Err(e) => r == Err::<(), C::Error>(e) && final(self)@ == old(self)@,
            },
    {
        self.codec.encode(item, &mut self.wb)
    }
}

impl<C> FramesInner<C> where C: Decoder {
    /// Offers the read buffer to the codec.
    pub fn decode(&mut self) -> (r: Option<C::Item>)
        ensures
            took_frame(
                old(self).codec().frame_len(old(self)@.rb),
                old(self)@.rb,
                final(self)@.rb,
                r.is_some(),
            ),
            r matches Some(item) ==> old(self).codec().is_item(
                frame_of(old(self).codec().frame_len(old(self)@.rb), old(self)@.rb),
                item,
            ),
            final(self)@ == (FramesView { rb: final(self)@.rb, ..old(self)@ }),
    {
        self.codec.decode(&mut self.rb)
    }

    /// Offers the read buffer to the codec after the end of input.
    pub fn decode_eof(&mut self) -> (r: Option<C::Item>)
        ensures
            took_frame(
                old(self).codec().frame_len_eof(old(self)@.rb),
                old(self)@.rb,
                final(self)@.rb,
                r.is_some(),
            ),
            r matches Some(item) ==> old(self).codec().is_item(
                frame_of(old(self).codec().frame_len_eof(old(self)@.rb), old(self)@.rb),
                item,
            ),
            final(self)@ == (FramesView { rb: final(self)@.rb, ..old(self)@ }),
    {
        self.codec.decode_eof(&mut self.rb)
    }
}

/// A transport and the buffering state that frames it.
pub struct Frames<S, C> {
    /// The transport. The engine holds it and never calls it.
    pub source: S,
    inner: FramesInner<C>,
}

impl<S, C> Frames<S, C> {
    /// The buffering state as plain values.
    pub closed spec fn view(&self) -> FramesView {
        self.inner@
    }

    /// The codec in its present state.
    pub closed spec fn codec(&self) -> C {
        self.inner.codec()
    }

    /// The transport held.
    pub closed spec fn transport(&self) -> S {
        self.source
    }

    /// Every engine that `new` made and the methods below changed is
    /// well-formed.
    pub open spec fn wf(&self) -> bool {
        self@.wf()
    }

    /// An engine that owns `source` and `codec`, with nothing buffered.
    pub fn new(source: S, codec: C) -> (r: Self)
        ensures
            r@ == FramesView::fresh(),
            r.wf(),
            r.transport() == source,
            r.codec() == codec,
    {
        Self { source, inner: FramesInner::new(codec) }
    }

    /// Whether the transport has ended.
    pub fn is_eof(&self) -> (r: bool)
        ensures
            r == self@.eof,
    {
        self.inner.eof
    }

    /// The number of bytes received that the codec has not taken.
    pub fn buffered(&self) -> (n: usize)
        ensures
            n == self@.rb.len(),
    {
        self.inner.rb.len()
    }

    /// Whether the read buffer is on offer to the codec.
    pub fn is_readable(&self) -> (r: bool)
        ensures
            r == self@.is_readable,
    {
        self.inner.is_readable
    }

    /// The transport, to be written to, and the bytes to offer it: all
    /// that is pending, oldest first. The engine is as it was but for what
    /// the caller does to the transport.
    pub fn transport_and_pending(&mut self) -> (r: (&mut S, &[u8]))
        ensures
            *r.0 == old(self).transport(),
            r.1@ == old(self)@.wb,
            final(self)@ == old(self)@,
            final(self).codec() == old(self).codec(),
            final(self).transport() == *final(r.0),
    {
        (&mut self.source, as_slice(&self.inner.wb))
    }

    /// Takes in a completed transport read that produced `data`. A read of
    /// no byte marks the end of input. No read is issued after the end of
    /// input, so none can complete then; and `data` has to fit into the
    /// read buffer.
    pub fn read_done(&mut self, data: &[u8])
        requires
            !old(self)@.eof,
            fits(old(self)@.rb.len(), data@.len()),
        ensures
            final(self)@ == old(self)@.after_read(data@),
            final(self).wf(),
            final(self).codec() == old(self).codec(),
            final(self).transport() == old(self).transport(),
    {
        if data.len() == 0 {
            self.inner.eof = true;
        } else {
            self.inner.rb.extend_from_slice(data);
        }
        self.inner.is_readable = true;
        assert(old(self)@.rb + data@ =~= final(self)@.rb);
    }

    /// What a flush has to do next: write while bytes are pending, then let
    /// the transport flush.
    pub fn poll_flush(&self) -> (r: Flush)
        ensures
            r is Write <==> self@.wb.len() > 0,
    {
        if !self.inner.wb.is_empty() {
            Flush::Write
        } else {
            Flush::Sync
        }
    }

    /// What a close has to do next: a full flush first, so that no buffered
    /// output is dropped, and only then the shutdown of the transport.
    /// `synced` tells whether the transport has flushed since the write
    /// buffer ran empty.
    pub fn poll_close(&self, synced: bool) -> (r: Close)
        ensures
            r is Write <==> self@.wb.len() > 0,
            r is Shutdown <==> self@.wb.len() == 0 && synced,
    {
        if !self.inner.wb.is_empty() {
            Close::Write
        } else if !synced {
            Close::Sync
        } else {
            Close::Shutdown
        }
    }

    /// The bytes to offer to the transport on the next write: all that is
    /// pending, oldest first.
    pub fn pending(&self) -> (bytes: &[u8])
        ensures
            bytes@ == self@.wb,
    {
        as_slice(&self.inner.wb)
    }
}

impl<S, C> Frames<S, C> where C: Decoder {
    /// The length of the frame that the codec finds if the engine is asked
    /// for the next item now: none while the buffer is not to be offered.
    pub open spec fn frame_len(&self) -> Option<nat> {
        if !self@.is_readable {
            None
        } else if self@.eof {
            self.codec().frame_len_eof(self@.rb)
        } else {
            self.codec().frame_len(self@.rb)
        }
    }

    /// Asks for the next item. While the buffer is to be offered, the codec
    /// is offered all of it; an item found is handed out and the buffer
    /// stays on offer. After "not yet" the sequence ends if the transport
    /// has ended; otherwise the transport has to be read.
    pub fn poll_next(&mut self) -> (r: Next<C::Item>)
        requires
            old(self).wf(),
        ensures
            final(self).wf(),
            final(self).transport() == old(self).transport(),
            final(self)@ == old(self)@.after_decode(old(self).frame_len()),
            match old(self).frame_len() {
                Some(n) => n <= old(self)@.rb.len() && match r {
                    Next::Frame(item) => old(self).codec().is_item(
                        old(self)@.rb.take(n as int),
                        item,
                    ),
                    _ => false,
                },
                None => if old(self)@.eof {
                    r is End
                } else {
                    r is Read
                },
            },
            old(self)@.eof ==> !(r is Read),
            !old(self)@.is_readable ==> final(self).codec() == old(self).codec(),
    {
        if self.inner.is_readable {
            if self.inner.eof {
                return match self.inner.decode_eof() {
                    Some(frame) => Next::Frame(frame),
                    None => Next::End,
                };
            }
            if let Some(frame) = self.inner.decode() {
                return Next::Frame(frame);
            }
            self.inner.is_readable = false;
        }
        // Room for the bytes to come, unless the buffer is at its limit.
        if self.inner.rb.len() < isize::MAX as usize {
            self.inner.rb.reserve(1);
        }
        Next::Read
    }
}

impl<S, C> Frames<S, C> where C: Encoder {
    /// An engine accepts an item at any time.
    pub fn poll_ready(&self) -> (r: Result<(), FramesError<C::Error>>)
        ensures
            r is Ok,
    {
        Ok(())
    }

    /// Submits `item`: its encoding joins the end of the write buffer, into
    /// which it has to fit. A failure of the encoder is handed back and
    /// leaves the buffer alone.
    pub fn start_send(&mut self, item: C::Item) -> (r: Result<(), FramesError<C::Error>>)
        requires
            old(self).codec().encoded(item) matches Ok(bytes) ==> fits(
                old(self)@.wb.len(),
                bytes.len(),
            ),
        ensures
            match old(self).codec().encoded(item) {
                Ok(bytes) => r is Ok && final(self)@ == old(self)@.after_send(bytes),
                Err(e) => r == Err::<(), FramesError<C::Error>>(FramesError::Encode(e))
                    && final(self)@ == old(self)@,
            },
            final(self).transport() == old(self).transport(),
    {
        match self.inner.encode(item) {
            Ok(()) => Ok(()),
            Err(e) => Err(FramesError::Encode(e)),
        }
    }

    /// Takes in a completed transport write that took `n` of the pending
    /// bytes. A write that took none is fatal; any other count, short of
    /// all or not, moves the buffer on by that many bytes.
    pub fn write_done(&mut self, n: usize) -> (r: Result<(), FramesError<C::Error>>)
        requires
            old(self)@.wb.len() > 0,
            n <= old(self)@.wb.len(),
        ensures
            n == 0 ==> r == Err::<(), FramesError<C::Error>>(
                FramesError::Io(write_zero(write_zero_text())),
            ) && final(self)@ == old(self)@,
            n > 0 ==> r is Ok && final(self)@ == old(self)@.after_write(n as nat),
            final(self).wf() == old(self).wf(),
            final(self).codec() == old(self).codec(),
            final(self).transport() == old(self).transport(),
    {
        if n == 0 {
            return Err(FramesError::Io(new_write_zero("failed to write frame to transport")));
        }
        advance(&mut self.inner.wb, n);
        Ok(())
    }
}

} // verus!
