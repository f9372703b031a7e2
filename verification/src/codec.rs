//! Framing: cutting a stream of bytes into messages.
//!
//! Every message travels as one document whose first four bytes hold, as a
//! little-endian signed 32-bit number, the length of the whole document, these
//! four bytes included. [`parse_buffer`] finds the next document in a buffer
//! that grows as bytes arrive. Turning a document into a message is left to the
//! caller, who owns the serializer.

use crate::buffer::{buffer_advance, buffer_as_slice, buffer_bytes, buffer_len};
use bytes::BytesMut;
use vstd::prelude::*;
use vstd::slice::{slice_subrange, slice_to_vec};

verus! {

/// What one attempt to parse gave.
#[derive(Debug, PartialEq, Eq)]
pub enum EitherMessage {
    /// One whole frame. It has left the buffer.
    FullMessage(Vec<u8>),
    /// No whole frame yet: read at least this many bytes before the next
    /// attempt. The buffer is as it was.
    NeedMoreData(usize),
}

pub enum EitherMessageView {
    FullMessage(Seq<u8>),
    NeedMoreData(usize),
}

impl View for EitherMessage {
    type V = EitherMessageView;

    open spec fn view(&self) -> EitherMessageView {
        match self {
            EitherMessage::FullMessage(frame) => EitherMessageView::FullMessage(frame@),
            EitherMessage::NeedMoreData(count) => EitherMessageView::NeedMoreData(*count),
        }
    }
}

/// The number in the first four bytes: little-endian, signed, 32 bits.
pub open spec fn header(bytes: Seq<u8>) -> int
    recommends
        bytes.len() >= 4,
{
    let word = bytes[0] as int + bytes[1] as int * 0x100 + bytes[2] as int * 0x1_0000
        + bytes[3] as int * 0x100_0000;
    if word < 0x8000_0000 {
        word
    } else {
        word - 0x1_0000_0000
    }
}

/// The length that the header announces, as the parser counts it. A negative
/// header counts as the machine word with the same bits, which is more than any
/// buffer holds.
pub open spec fn frame_len(bytes: Seq<u8>) -> nat
    recommends
        bytes.len() >= 4,
{
    if header(bytes) >= 0 {
        header(bytes) as nat
    } else {
        (usize::MAX + 1 + header(bytes)) as nat
    }
}

/// A frame: bytes whose header gives their own number.
pub open spec fn is_frame(bytes: Seq<u8>) -> bool {
    bytes.len() >= 4 && header(bytes) == bytes.len()
}

/// One attempt to parse `bytes`: the result, and the bytes that stay behind.
///
/// Without a header the parser asks for four bytes. With a header and fewer
/// bytes than it announces, the parser asks for the bytes that are missing.
/// Otherwise the announced bytes leave as a frame. The parser does not judge
/// them: bytes that are no document fail to decode, and the connection closes.
pub open spec fn parse(bytes: Seq<u8>) -> (EitherMessageView, Seq<u8>) {
    if bytes.len() < 4 {
        (EitherMessageView::NeedMoreData(4), bytes)
    } else if frame_len(bytes) <= bytes.len() {
        (
            EitherMessageView::FullMessage(bytes.take(frame_len(bytes) as int)),
            bytes.skip(frame_len(bytes) as int),
        )
    } else {
        (EitherMessageView::NeedMoreData((frame_len(bytes) - bytes.len()) as usize), bytes)
    }
}

/// Reads the first four bytes as an unsigned little-endian word.
fn read_word(bytes: &[u8]) -> (word: u32)
    requires
        bytes@.len() >= 4,
    ensures
        word == bytes@[0] as int + bytes@[1] as int * 0x100 + bytes@[2] as int * 0x1_0000
            + bytes@[3] as int * 0x100_0000,
{
    bytes[0] as u32 + bytes[1] as u32 * 0x100 + bytes[2] as u32 * 0x1_0000 + bytes[3] as u32
        * 0x100_0000
}

/// Tries to take one frame off the front of `buffer`.
pub fn parse_buffer(buffer: &mut BytesMut) -> (parsed: EitherMessage)
    ensures
        (parsed@, buffer_bytes(*final(buffer))) == parse(buffer_bytes(*old(buffer))),
{
    let len = buffer_len(buffer);
    if len < 4 {
        return EitherMessage::NeedMoreData(4);
    }
    let bytes = buffer_as_slice(buffer);
    let word = read_word(bytes);
    let frame_len: usize = if word < 0x8000_0000 {
        word as usize
    } else {
        usize::MAX - (0xFFFF_FFFFu32 - word) as usize
    };
    if frame_len <= len {
        let frame = slice_to_vec(slice_subrange(bytes, 0, frame_len));
        buffer_advance(buffer, frame_len);
        EitherMessage::FullMessage(frame)
    } else {
        EitherMessage::NeedMoreData(frame_len - len)
    }
}

/// Whether `bytes` are one frame and nothing else. What a serializer hands out
/// to be sent must pass: then the receiver's parser gives it back whole.
pub fn holds_one_frame(bytes: &[u8]) -> (whole: bool)
    ensures
        whole == is_frame(bytes@),
{
    if bytes.len() < 4 {
        return false;
    }
    let word = read_word(bytes);
    word < 0x8000_0000 && word as usize == bytes.len()
}

/// Feeding `chunks` one at a time into a buffer that holds `buffer`, with one
/// attempt to parse after each chunk: the results in order, and what the buffer
/// holds in the end.
pub open spec fn feed(buffer: Seq<u8>, chunks: Seq<Seq<u8>>) -> (Seq<EitherMessageView>, Seq<u8>)
    decreases chunks.len(),
{
    if chunks.len() == 0 {
        (Seq::empty(), buffer)
    } else {
        let (result, rest) = parse(buffer + chunks.first());
        let (results, end) = feed(rest, chunks.drop_first());
        (seq![result] + results, end)
    }
}

/// A buffer that holds the beginning of a frame, and not all of it, has no
/// frame to give: the parser asks for more and leaves the buffer alone. Once
/// the header is there, it asks for exactly the bytes that are missing.
pub proof fn law_partial_frame(frame: Seq<u8>, len: int)
    requires
        is_frame(frame),
        0 <= len < frame.len(),
    ensures
        parse(frame.take(len)) == (
            EitherMessageView::NeedMoreData(
                if len < 4 {
                    4usize
                } else {
                    (frame.len() - len) as usize
                },
            ),
            frame.take(len),
        ),
{
    let part = frame.take(len);
    if len >= 4 {
        assert(header(part) == header(frame));
    }
}

/// A frame in an empty buffer parses to that frame, and nothing stays behind.
pub proof fn law_frame_round_trip(frame: Seq<u8>)
    requires
        is_frame(frame),
    ensures
        parse(frame) == (EitherMessageView::FullMessage(frame), Seq::<u8>::empty()),
{
    assert(frame.take(frame.len() as int) == frame);
    assert(frame.skip(frame.len() as int) == Seq::<u8>::empty());
}

/// A frame at the front of a buffer leaves as it is, whatever follows it, and
/// what follows stays behind.
pub proof fn law_frame_before_rest(frame: Seq<u8>, rest: Seq<u8>)
    requires
        is_frame(frame),
    ensures
        parse(frame + rest) == (EitherMessageView::FullMessage(frame), rest),
{
    let bytes = frame + rest;
    assert(header(bytes) == header(frame));
    assert(bytes.take(frame.len() as int) == frame);
    assert(bytes.skip(frame.len() as int) == rest);
}

proof fn lemma_feed_frame(frame: Seq<u8>, buffer: Seq<u8>, chunks: Seq<Seq<u8>>)
    requires
        is_frame(frame),
        chunks.len() > 0,
        chunks.last().len() > 0,
        buffer + chunks.flatten() == frame,
    ensures
        feed(buffer, chunks).0.len() == chunks.len(),
        forall|i: int|
            0 <= i < chunks.len() - 1 ==> (#[trigger] feed(buffer, chunks).0[i]) is NeedMoreData,
        feed(buffer, chunks).0.last() == EitherMessageView::FullMessage(frame),
        feed(buffer, chunks).1 == Seq::<u8>::empty(),
    decreases chunks.len(),
{
    let fed = buffer + chunks.first();
    let later = chunks.drop_first();
    let (result, rest) = parse(fed);
    let (results, end) = feed(rest, later);
    assert(buffer + chunks.flatten() == fed + later.flatten());
    if later.len() == 0 {
        assert(later.flatten() == Seq::<u8>::empty());
        assert(fed == frame);
        law_frame_round_trip(frame);
        assert(feed(buffer, chunks).0 == seq![result]);
    } else {
        assert(later.last() == chunks.last());
        later.lemma_flatten_length_ge_single_element_length(later.len() - 1);
        later.lemma_flatten_and_flatten_alt_are_equivalent();
        assert(fed == frame.take(fed.len() as int));
        law_partial_frame(frame, fed.len() as int);
        assert(rest == fed);
        lemma_feed_frame(frame, fed, later);
        assert forall|i: int| 0 <= i < chunks.len() - 1 implies (#[trigger] feed(
            buffer,
            chunks,
        ).0[i]) is NeedMoreData by {
            if i > 0 {
                assert(feed(buffer, chunks).0[i] == results[i - 1]);
            }
        }
        assert(feed(buffer, chunks).0.last() == results.last());
    }
}

/// A frame that arrives in pieces, each piece followed by an attempt to parse:
/// every attempt but the last asks for more, the last gives the frame, and the
/// buffer ends empty, so that the next attempt asks for a header. The last piece
/// must bring at least one byte, or the frame would be whole before it.
pub proof fn law_incremental_parse(frame: Seq<u8>, chunks: Seq<Seq<u8>>)
    requires
        is_frame(frame),
        chunks.flatten() == frame,
        chunks.len() > 0 ==> chunks.last().len() > 0,
    ensures
        feed(Seq::empty(), chunks).0.len() == chunks.len(),
        forall|i: int|
            0 <= i < chunks.len() - 1 ==> (#[trigger] feed(Seq::empty(), chunks).0[i])
                is NeedMoreData,
        feed(Seq::empty(), chunks).0.last() == EitherMessageView::FullMessage(frame),
        feed(Seq::empty(), chunks).1 == Seq::<u8>::empty(),
        parse(feed(Seq::empty(), chunks).1).0 == EitherMessageView::NeedMoreData(4),
{
    assert(chunks.len() > 0) by {
        if chunks.len() == 0 {
            assert(chunks.flatten() == Seq::<u8>::empty());
        }
    }
    assert(Seq::<u8>::empty() + chunks.flatten() == frame);
    lemma_feed_frame(frame, Seq::empty(), chunks);
}

} // verus!
