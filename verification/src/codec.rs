//! The codec interface that the engine consumes, and a pass-through codec.

use crate::buffer::{contents, fits, payload, put};
use bytes::{Bytes, BytesMut};
use std::convert::Infallible;
use vstd::prelude::*;

verus! {

/// Recognises frames at the front of the bytes received so far.
///
/// An implementation describes itself by three spec functions; `decode` and
/// `decode_eof` are held to them. The codec may keep state of its own, so the
/// description is read off the codec as it is before the call.
pub trait Decoder {
    type Item;

    /// The number of leading bytes of `buf` that make up the next frame, or
    /// `None` while `buf` holds no complete frame.
    spec fn frame_len(&self, buf: Seq<u8>) -> Option<nat>;

    /// The same once the transport has ended: the codec may take what is
    /// left as a last frame.
    spec fn frame_len_eof(&self, buf: Seq<u8>) -> Option<nat>;

    /// Whether `item` is the value of the frame made of the bytes `frame`.
    spec fn is_item(&self, frame: Seq<u8>, item: Self::Item) -> bool;

    /// Takes one frame from the front of `buf`, or leaves `buf` as it is
    /// when no frame is complete yet.
    fn decode(&mut self, buf: &mut BytesMut) -> (r: Option<Self::Item>)
        ensures
            took_frame(
                old(self).frame_len(contents(*old(buf))),
                contents(*old(buf)),
                contents(*final(buf)),
                r.is_some(),
            ),
            r matches Some(item) ==> old(self).is_item(
                frame_of(old(self).frame_len(contents(*old(buf))), contents(*old(buf))),
                item,
            ),
    ;

    /// As `decode`, called once the transport has ended.
    fn decode_eof(&mut self, buf: &mut BytesMut) -> (r: Option<Self::Item>)
        ensures
            took_frame(
                old(self).frame_len_eof(contents(*old(buf))),
                contents(*old(buf)),
                contents(*final(buf)),
                r.is_some(),
            ),
            r matches Some(item) ==> old(self).is_item(
                frame_of(old(self).frame_len_eof(contents(*old(buf))), contents(*old(buf))),
                item,
            ),
    ;
}

/// What a decode call does to the buffer: with a frame of `n` bytes at the
/// front it returns an item and exactly those `n` bytes are gone; with none
/// it returns nothing and the buffer is untouched.
pub open spec fn took_frame(
    len: Option<nat>,
    before: Seq<u8>,
    after: Seq<u8>,
    some: bool,
) -> bool {
    match len {
        Some(n) => some && n <= before.len() && after == before.skip(n as int),
        None => !some && after == before,
    }
}

/// The bytes of the frame at the front of `buf`; empty where there is none.
pub open spec fn frame_of(len: Option<nat>, buf: Seq<u8>) -> Seq<u8> {
    match len {
        Some(n) => buf.take(n as int),
        None => Seq::<u8>::empty(),
    }
}

/// Serialises items onto the end of the outgoing bytes.
pub trait Encoder {
    type Item;

    type Error;

    /// The bytes that encoding `item` appends, or the failure it ends in.
    spec fn encoded(&self, item: Self::Item) -> Result<Seq<u8>, Self::Error>;

    /// Appends the serialised `item` to `dest`. The bytes already in `dest`
    /// stay; on failure `dest` is left exactly as it was. The bytes to
    /// append have to fit into `dest`.
    fn encode(&mut self, item: Self::Item, dest: &mut BytesMut) -> (r: Result<(), Self::Error>)
        requires
            old(self).encoded(item) matches Ok(bytes) ==> fits(
                contents(*old(dest)).len(),
                bytes.len(),
            ),
        ensures
            match old(self).encoded(item) {
                Ok(bytes) => r is Ok && contents(*final(dest)) == contents(*old(dest)) + bytes,
                Err(e) => r == Err::<(), Self::Error>(e) && contents(*final(dest)) == contents(
                    *old(dest),
                ),
            },
    ;
}

/// The pass-through codec: whatever is buffered is one item, and an item is
/// written out byte for byte.
pub struct BytesCodec {}

impl Decoder for BytesCodec {
    type Item = BytesMut;

    open spec fn frame_len(&self, buf: Seq<u8>) -> Option<nat> {
        if buf.len() > 0 {
            Some(buf.len())
        } else {
            None
        }
    }

    open spec fn frame_len_eof(&self, buf: Seq<u8>) -> Option<nat> {
        self.frame_len(buf)
    }

    open spec fn is_item(&self, frame: Seq<u8>, item: BytesMut) -> bool {
        contents(item) == frame
    }

    fn decode(&mut self, buf: &mut BytesMut) -> (r: Option<BytesMut>) {
        if !buf.is_empty() {
            let n: usize = buf.len();
            Some(buf.split_to(n))
        } else {
            None
        }
    }

    fn decode_eof(&mut self, buf: &mut BytesMut) -> (r: Option<BytesMut>) {
        self.decode(buf)
    }
}

impl Encoder for BytesCodec {
    type Item = Bytes;

    type Error = Infallible;

    open spec fn encoded(&self, item: Bytes) -> Result<Seq<u8>, Infallible> {
        Ok(payload(item))
    }

    fn encode(&mut self, item: Bytes, dest: &mut BytesMut) -> (r: Result<(), Infallible>) {
        dest.reserve(item.len());
        put(dest, item);
        Ok(())
    }
}

} // verus!
