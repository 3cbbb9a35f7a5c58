use bytes::{Bytes, BytesMut};
use frames::{BytesCodec, Close, Decoder, Encoder, Flush, Frames, FramesError, FramesInner, Next};
use std::convert::Infallible;

/// Frames of one length byte and that many bytes of payload; at the end of
/// input whatever is left is the last frame. Its ghost description is left
/// blank: nothing runs it, and nothing here is proved from it.
struct Prefixed;

impl Decoder for Prefixed {
    type Item = Vec<u8>;

    fn frame_len(&self, _: vstd::seq::Seq<u8>) -> Option<vstd::prelude::nat> {
        None
    }

    fn frame_len_eof(&self, _: vstd::seq::Seq<u8>) -> Option<vstd::prelude::nat> {
        None
    }

    fn is_item(&self, _: vstd::seq::Seq<u8>, _: Vec<u8>) -> bool {
        true
    }

    fn decode(&mut self, buf: &mut BytesMut) -> Option<Vec<u8>> {
        if buf.is_empty() || buf.len() < 1 + buf[0] as usize {
            return None;
        }
        let frame = buf.split_to(1 + buf[0] as usize);
        Some(frame[1..].to_vec())
    }

    fn decode_eof(&mut self, buf: &mut BytesMut) -> Option<Vec<u8>> {
        if buf.is_empty() {
            return None;
        }
        let n = buf.len();
        Some(buf.split_to(n).to_vec())
    }
}

impl Encoder for Prefixed {
    type Item = Vec<u8>;
    type Error = String;

    fn encoded(&self, _: Vec<u8>) -> Result<vstd::seq::Seq<u8>, String> {
        Err(String::new())
    }

    fn encode(&mut self, item: Vec<u8>, dest: &mut BytesMut) -> Result<(), String> {
        if item.len() > 255 {
            return Err(format!("{} bytes do not fit a frame", item.len()));
        }
        dest.extend_from_slice(&[item.len() as u8]);
        dest.extend_from_slice(&item);
        Ok(())
    }
}

/// Drains the write buffer into the `Vec` that stands for the transport,
/// which takes at most `k` bytes per write. Returns the number of writes.
fn flush_with_limit<C: Encoder>(f: &mut Frames<Vec<u8>, C>, k: usize) -> Result<usize, FramesError<C::Error>> {
    let mut writes = 0;
    loop {
        match f.poll_flush() {
            Flush::Sync => return Ok(writes),
            Flush::Write => {
                let (sink, bytes) = f.transport_and_pending();
                let n = bytes.len().min(k);
                sink.extend_from_slice(&bytes[..n]);
                writes += 1;
                f.write_done(n)?;
            }
        }
    }
}

fn frame_of<T>(next: Next<T>) -> T {
    match next {
        Next::Frame(item) => item,
        Next::End => panic!("the sequence ended"),
        Next::Read => panic!("the engine asked for a read"),
    }
}

#[test]
fn it_works() {
    assert_eq!(2 + 2, 4);
}

#[test]
fn new_engine_is_idle() {
    let f = Frames::new(Vec::<u8>::new(), BytesCodec {});
    assert!(!f.is_eof());
    assert!(!f.is_readable());
    assert!(f.pending().is_empty());
    assert!(matches!(f.poll_flush(), Flush::Sync));
    assert!(f.poll_ready().is_ok());
}

#[test]
fn two_items_reach_the_transport_in_order() {
    let mut f = Frames::new(Vec::<u8>::new(), BytesCodec {});
    assert!(f.start_send(Bytes::from_static(&[1, 2, 3])).is_ok());
    assert!(f.start_send(Bytes::from_static(&[4, 5])).is_ok());
    assert_eq!(f.pending(), &[1, 2, 3, 4, 5]);
    assert!(matches!(f.poll_flush(), Flush::Write));
    let writes = flush_with_limit(&mut f, usize::MAX);
    assert!(matches!(writes, Ok(1)));
    assert_eq!(f.source, vec![1, 2, 3, 4, 5]);
    assert!(f.pending().is_empty());
}

#[test]
fn partial_writes_drain_the_buffer() {
    let mut f = Frames::new(Vec::<u8>::new(), BytesCodec {});
    assert!(f.start_send(Bytes::from_static(&[1, 2, 3])).is_ok());
    assert!(f.start_send(Bytes::from_static(&[4, 5])).is_ok());
    assert!(f.start_send(Bytes::from_static(&[6, 7, 8, 9])).is_ok());
    let writes = flush_with_limit(&mut f, 2);
    assert!(matches!(writes, Ok(5)));
    assert_eq!(f.source, vec![1, 2, 3, 4, 5, 6, 7, 8, 9]);
    assert!(matches!(f.poll_flush(), Flush::Sync));
}

#[test]
fn a_partial_write_advances_by_what_was_taken() {
    let mut f = Frames::new((), BytesCodec {});
    assert!(f.start_send(Bytes::from_static(&[1, 2, 3, 4, 5])).is_ok());
    assert!(f.write_done(2).is_ok());
    assert_eq!(f.pending(), &[3, 4, 5]);
    assert!(f.write_done(3).is_ok());
    assert!(f.pending().is_empty());
}

#[test]
fn a_write_of_nothing_is_fatal() {
    let mut f = Frames::new(Vec::<u8>::new(), BytesCodec {});
    assert!(f.start_send(Bytes::from_static(&[1, 2, 3])).is_ok());
    match flush_with_limit(&mut f, 0) {
        Err(FramesError::Io(e)) => {
            assert_eq!(e.kind(), std::io::ErrorKind::WriteZero);
            assert_eq!(e.to_string(), "failed to write frame to transport");
        }
        _ => panic!("the flush did not fail"),
    }
    assert_eq!(f.pending(), &[1, 2, 3]);
    assert!(f.source.is_empty());
}

#[test]
fn an_empty_item_leaves_nothing_to_flush() {
    let mut f = Frames::new(Vec::<u8>::new(), BytesCodec {});
    assert!(f.start_send(Bytes::new()).is_ok());
    assert!(matches!(f.poll_flush(), Flush::Sync));
}

#[test]
fn an_encode_failure_leaves_the_buffer_alone() {
    let mut f = Frames::new(Vec::<u8>::new(), Prefixed);
    assert!(f.start_send(vec![7, 8]).is_ok());
    match f.start_send(vec![0; 256]) {
        Err(FramesError::Encode(e)) => assert_eq!(e, "256 bytes do not fit a frame"),
        _ => panic!("the item was accepted"),
    }
    assert_eq!(f.pending(), &[2, 7, 8]);
}

#[test]
fn an_io_error_becomes_a_frames_error() {
    let e = std::io::Error::new(std::io::ErrorKind::BrokenPipe, "gone");
    match FramesError::<Infallible>::from(e) {
        FramesError::Io(e) => assert_eq!(e.kind(), std::io::ErrorKind::BrokenPipe),
        FramesError::Encode(_) => panic!("not a transport failure"),
    }
}

#[test]
fn a_new_engine_asks_for_a_read() {
    let mut f = Frames::new((), BytesCodec {});
    assert!(matches!(f.poll_next(), Next::Read));
    assert!(matches!(f.poll_next(), Next::Read));
    assert!(!f.is_readable());
    assert!(!f.is_eof());
}

#[test]
fn what_was_read_is_one_item() {
    let mut f = Frames::new((), BytesCodec {});
    assert!(matches!(f.poll_next(), Next::Read));
    f.read_done(&[7, 8]);
    assert_eq!(f.buffered(), 2);
    assert!(f.is_readable());
    let item = frame_of(f.poll_next());
    assert_eq!(&item[..], &[7, 8]);
    assert_eq!(f.buffered(), 0);
    assert!(f.is_readable());
    assert!(matches!(f.poll_next(), Next::Read));
    assert!(!f.is_readable());
}

#[test]
fn a_frame_in_single_bytes_is_one_item() {
    let mut f = Frames::new((), Prefixed);
    for byte in [3u8, 10, 20] {
        assert!(matches!(f.poll_next(), Next::Read));
        f.read_done(&[byte]);
    }
    assert!(matches!(f.poll_next(), Next::Read));
    f.read_done(&[30]);
    assert_eq!(frame_of(f.poll_next()), vec![10, 20, 30]);
    assert!(matches!(f.poll_next(), Next::Read));
}

#[test]
fn two_frames_in_one_read_are_two_items() {
    let mut f = Frames::new((), Prefixed);
    assert!(matches!(f.poll_next(), Next::Read));
    f.read_done(&[1, 9, 2, 8, 7]);
    assert_eq!(frame_of(f.poll_next()), vec![9]);
    assert_eq!(frame_of(f.poll_next()), vec![8, 7]);
    assert!(matches!(f.poll_next(), Next::Read));
}

#[test]
fn trailing_bytes_at_the_end_are_the_last_item() {
    let mut f = Frames::new((), Prefixed);
    assert!(matches!(f.poll_next(), Next::Read));
    f.read_done(&[5, 1, 2]);
    assert!(matches!(f.poll_next(), Next::Read));
    f.read_done(&[]);
    assert!(f.is_eof());
    assert!(f.is_readable());
    assert_eq!(frame_of(f.poll_next()), vec![5, 1, 2]);
    assert!(matches!(f.poll_next(), Next::End));
}

#[test]
fn the_end_without_trailing_bytes_ends_the_sequence() {
    let mut f = Frames::new((), BytesCodec {});
    assert!(matches!(f.poll_next(), Next::Read));
    f.read_done(&[]);
    assert!(matches!(f.poll_next(), Next::End));
}

#[test]
fn no_read_is_asked_for_after_the_end() {
    let mut f = Frames::new((), BytesCodec {});
    assert!(matches!(f.poll_next(), Next::Read));
    f.read_done(&[1]);
    assert_eq!(&frame_of(f.poll_next())[..], &[1]);
    assert!(matches!(f.poll_next(), Next::Read));
    f.read_done(&[]);
    for _ in 0..4 {
        assert!(matches!(f.poll_next(), Next::End));
        assert!(f.is_eof());
    }
}

#[test]
fn an_item_comes_back_through_a_loopback() {
    let mut f = Frames::new(Vec::<u8>::new(), BytesCodec {});
    assert!(f.start_send(Bytes::from_static(b"hello")).is_ok());
    assert!(matches!(flush_with_limit(&mut f, 2), Ok(3)));
    let wire = f.source.clone();
    assert!(matches!(f.poll_next(), Next::Read));
    f.read_done(&wire);
    assert_eq!(&frame_of(f.poll_next())[..], b"hello");
}

#[test]
fn the_codec_takes_all_that_is_buffered() {
    let mut codec = BytesCodec {};
    let mut buf = BytesMut::from(&[1u8, 2, 3][..]);
    let item = codec.decode(&mut buf);
    assert_eq!(item.as_deref(), Some(&[1u8, 2, 3][..]));
    assert!(buf.is_empty());
    assert!(codec.decode(&mut buf).is_none());
    assert!(codec.decode_eof(&mut buf).is_none());
    buf.extend_from_slice(&[4]);
    assert_eq!(codec.decode_eof(&mut buf).as_deref(), Some(&[4u8][..]));
}

#[test]
fn the_codec_appends_an_item_as_it_is() {
    let mut codec = BytesCodec {};
    let mut dest = BytesMut::from(&[9u8][..]);
    assert!(codec.encode(Bytes::from_static(&[1, 2]), &mut dest).is_ok());
    assert_eq!(&dest[..], &[9, 1, 2]);
}

#[test]
fn the_buffering_state_encodes_and_decodes() {
    let mut inner = FramesInner::new(BytesCodec {});
    assert!(inner.decode().is_none());
    assert!(inner.decode_eof().is_none());
    assert!(inner.encode(Bytes::from_static(&[1])).is_ok());
    assert!(inner.decode().is_none());
}

#[test]
fn a_close_flushes_before_it_shuts_down() {
    let mut f = Frames::new(Vec::<u8>::new(), BytesCodec {});
    assert!(matches!(f.poll_close(false), Close::Sync));
    assert!(matches!(f.poll_close(true), Close::Shutdown));
    assert!(f.start_send(Bytes::from_static(&[1, 2])).is_ok());
    assert!(matches!(f.poll_close(false), Close::Write));
    assert!(matches!(f.poll_close(true), Close::Write));
    assert!(f.write_done(1).is_ok());
    assert!(matches!(f.poll_close(false), Close::Write));
    assert!(f.write_done(1).is_ok());
    assert!(matches!(f.poll_close(false), Close::Sync));
    assert!(matches!(f.poll_close(true), Close::Shutdown));
}
