//! The byte buffers of the `bytes` crate, as the engine and the codecs see
//! them: a sequence of bytes, taken from the front and extended at the back.
//!
//! Nothing in this file is proved. Each item states what the named function
//! of `bytes` does to the sequence of bytes that a buffer holds. A buffer
//! cannot grow past `isize::MAX` bytes: the functions that extend one panic
//! there, so each of them asks that the new length stay within that limit.

use bytes::{Buf, BufMut, Bytes, BytesMut};
use vstd::prelude::*;

verus! {

/// `bytes::BytesMut`, carried as it is; what it holds is `contents`.
#[verifier::external_type_specification]
#[verifier::external_body]
pub struct ExBytesMut(bytes::BytesMut);

/// `bytes::Bytes`, carried as it is; what it holds is `payload`.
#[verifier::external_type_specification]
#[verifier::external_body]
pub struct ExBytes(bytes::Bytes);

/// The bytes that a `BytesMut` holds, front first: what `&buf[..]` shows.
pub uninterp spec fn contents(buf: BytesMut) -> Seq<u8>;

/// The bytes that a `Bytes` holds, front first: what `&item[..]` shows.
pub uninterp spec fn payload(item: Bytes) -> Seq<u8>;

/// Whether a buffer of `len` bytes can take `more` bytes.
pub open spec fn fits(len: nat, more: nat) -> bool {
    len + more <= isize::MAX
}

/// `BytesMut::new` returns a buffer that holds no bytes.
pub assume_specification[ bytes::BytesMut::new ]() -> (buf: BytesMut)
    ensures
        contents(buf) == Seq::<u8>::empty(),
;

/// `BytesMut::len` returns the number of bytes held.
pub assume_specification[ bytes::BytesMut::len ](buf: &BytesMut) -> (n: usize)
    ensures
        n == contents(*buf).len(),
;

/// `BytesMut::is_empty` tells whether no byte is held.
pub assume_specification[ bytes::BytesMut::is_empty ](buf: &BytesMut) -> (r: bool)
    ensures
        r == (contents(*buf).len() == 0),
;

/// `BytesMut::split_to` hands out the first `at` bytes and keeps the rest.
/// It panics when `at` is larger than the length, which `requires` excludes.
pub assume_specification[ bytes::BytesMut::split_to ](buf: &mut BytesMut, at: usize) -> (head:
    BytesMut)
    requires
        at <= contents(*old(buf)).len(),
    ensures
        contents(head) == contents(*old(buf)).take(at as int),
        contents(*final(buf)) == contents(*old(buf)).skip(at as int),
;

/// `BytesMut::reserve` changes the capacity only: the bytes held stay. It
/// panics when the capacity asked for overflows, which `requires` excludes.
pub assume_specification[ bytes::BytesMut::reserve ](buf: &mut BytesMut, additional: usize)
    requires
        fits(contents(*old(buf)).len(), additional as nat),
    ensures
        contents(*final(buf)) == contents(*old(buf)),
;

/// `BytesMut::extend_from_slice` appends the slice to the bytes held. It
/// reserves room for the slice first, and so panics where `reserve` does.
pub assume_specification[ bytes::BytesMut::extend_from_slice ](buf: &mut BytesMut, extend: &[u8])
    requires
        fits(contents(*old(buf)).len(), extend@.len()),
    ensures
        contents(*final(buf)) == contents(*old(buf)) + extend@,
;

/// `Bytes::len` returns the number of bytes held.
pub assume_specification[ bytes::Bytes::len ](item: &Bytes) -> (n: usize)
    ensures
        n == payload(*item).len(),
;

/// `Buf::advance` on a `BytesMut` drops the first `count` bytes. It panics
/// when `count` is larger than the length, which `requires` excludes.
#[verifier::external_body]
pub(crate) fn advance(buf: &mut BytesMut, count: usize)
    requires
        count <= contents(*old(buf)).len(),
    ensures
        contents(*final(buf)) == contents(*old(buf)).skip(count as int),
{
    buf.advance(count)
}

/// `BufMut::put` on a `BytesMut` appends every byte of `item`, in order. It
/// reserves room for the item first, and so panics where `reserve` does.
#[verifier::external_body]
pub(crate) fn put(dest: &mut BytesMut, item: Bytes)
    requires
        fits(contents(*old(dest)).len(), payload(item).len()),
    ensures
        contents(*final(dest)) == contents(*old(dest)) + payload(item),
{
    dest.put(item)
}

/// `AsRef<[u8]>::as_ref` on a `BytesMut` borrows the bytes held as a slice.
#[verifier::external_body]
pub(crate) fn as_slice(buf: &BytesMut) -> (bytes: &[u8])
    ensures
        bytes@ == contents(*buf),
{
    buf.as_ref()
}

} // verus!
