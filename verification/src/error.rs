//! What a caller of the engine can be told went wrong.

use vstd::prelude::*;

verus! {

/// `futures::io::Error`, the error of every transport operation, carried
/// as it is.
#[verifier::external_type_specification]
#[verifier::external_body]
pub struct ExIoError(futures::io::Error);

/// The error that `futures::io::Error::new` builds from the kind `WriteZero`
/// and the text `message`.
pub uninterp spec fn write_zero(message: Seq<char>) -> futures::io::Error;

/// `futures::io::Error::new`, with the kind `WriteZero`: the value depends on
/// the message alone.
#[verifier::external_body]
pub(crate) fn new_write_zero(message: &str) -> (e: futures::io::Error)
    ensures
        e == write_zero(message@),
{
    futures::io::Error::new(futures::io::ErrorKind::WriteZero, message)
}

/// A failure of the write side.
pub enum FramesError<E> {
    /// The transport failed, or took no byte of a non-empty buffer.
    Io(futures::io::Error),
    /// The encoder refused an item.
    Encode(E),
}

impl<E> From<futures::io::Error> for FramesError<E> {
    fn from(val: futures::io::Error) -> (r: Self) {
        FramesError::Io(val)
    }
}

impl<E> vstd::std_specs::convert::FromSpecImpl<futures::io::Error> for FramesError<E> {
    open spec fn obeys_from_spec() -> bool {
        true
    }

    open spec fn from_spec(val: futures::io::Error) -> Self {
        FramesError::Io(val)
    }
}

} // verus!
