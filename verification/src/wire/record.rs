//! Whole frames on the wire: a frame as the payload of a record, and a record
//! as a length in four bytes followed by that payload.

use vstd::prelude::*;
use crate::frame::Frame;
use crate::frame::FrameView;
use crate::wire::prim::be32;
use crate::wire::prim::lemma_be32_len;
use crate::wire::prim::lemma_holds_at_concat;
use crate::wire::prim::DecodeError;
use crate::wire::prim::Wire;

verus! {

/// The number of bytes in the length prefix of a record.
pub const PREFIX_SIZE: usize = 4;

/// The longest payload that the length prefix of a record can announce.
pub const MAX_PAYLOAD: usize = 0xFFFF_FFFF;

/// The frame that a payload stands for: the payload holds the frame and
/// nothing behind it.
#[verifier::opaque]
pub open spec fn payload_decoding(payload: Seq<u8>) -> Result<FrameView, DecodeError> {
    match Frame::decoding(payload, 0) {
        Ok((frame, end)) => if end == payload.len() {
            Ok(frame)
        } else {
            Err(DecodeError::TrailingBytes)
        },
        Err(e) => Err(e),
    }
}

/// The record of a frame: the length of its encoding in four bytes, then
/// the encoding.
pub open spec fn record_encoding(v: FrameView) -> Seq<u8>
    recommends
        Frame::encoding(v).len() <= MAX_PAYLOAD,
{
    be32(Frame::encoding(v).len() as u32) + Frame::encoding(v)
}

/// The encoding of a frame, to be the payload of a record.
pub fn encode_frame(frame: &Frame) -> (payload: Vec<u8>)
    ensures
        payload@ == Frame::encoding(frame@),
{
    let mut payload: Vec<u8> = Vec::new();
    frame.encode(&mut payload);
    assert(payload@ =~= Frame::encoding(frame@));
    payload
}

/// The frame that a payload stands for, or why it stands for none.
pub fn decode_frame(payload: &[u8]) -> (r: Result<Frame, DecodeError>)
    ensures
        match r {
            Ok(frame) => payload_decoding(payload@) == Ok::<FrameView, DecodeError>(frame@),
            Err(e) => payload_decoding(payload@) == Err::<FrameView, DecodeError>(e),
        },
{
    reveal(payload_decoding);
    match Frame::decode(payload, 0) {
        Ok((frame, end)) => {
            if end == payload.len() {
                Ok(frame)
            } else {
                Err(DecodeError::TrailingBytes)
            }
        },
        Err(e) => Err(e),
    }
}

/// The record of a frame, or `None` where the encoding of the frame is
/// longer than a length prefix can announce.
pub fn encode_record(frame: &Frame) -> (r: Option<Vec<u8>>)
    ensures
        r is Some <==> Frame::encoding(frame@).len() <= MAX_PAYLOAD,
        r matches Some(record) ==> record@ == record_encoding(frame@),
{
    let mut payload = encode_frame(frame);
    if payload.len() > MAX_PAYLOAD {
        return None;
    }
    let len: u32 = payload.len() as u32;
    let mut record: Vec<u8> = Vec::new();
    len.encode(&mut record);
    record.append(&mut payload);
    assert(record@ =~= record_encoding(frame@));
    Some(record)
}

/// Decoding the encoding of a well-formed frame gives the frame back.
pub proof fn lemma_frame_roundtrip(v: FrameView)
    requires
        Frame::wf(v),
    ensures
        payload_decoding(Frame::encoding(v)) == Ok::<FrameView, DecodeError>(v),
{
    reveal(payload_decoding);
    let bytes = Frame::encoding(v);
    assert(bytes.subrange(0, bytes.len() as int) =~= bytes);
    Frame::lemma_roundtrip(v, bytes, 0);
}

/// Frames of one value have one encoding, and so one record.
pub proof fn lemma_encoding_deterministic(a: Frame, b: Frame)
    requires
        a@ == b@,
    ensures
        Frame::encoding(a@) == Frame::encoding(b@),
        record_encoding(a@) == record_encoding(b@),
{
}

/// The encoding of a frame starts with the tag of its variant, in four
/// bytes.
pub proof fn lemma_encoding_starts_with_tag(v: FrameView)
    ensures
        Frame::encoding(v).len() >= 4,
        Frame::encoding(v).subrange(0, 4) == be32(v.tag()),
        u32::decoding(Frame::encoding(v), 0) == Ok::<(u32, int), DecodeError>((v.tag(), 4int)),
{
    let bytes = Frame::encoding(v);
    assert(bytes.subrange(0, bytes.len() as int) =~= bytes);
    lemma_be32_len(v.tag());
    lemma_holds_at_concat(bytes, 0, be32(v.tag()), v.payload_encoding());
    u32::lemma_roundtrip(v.tag(), bytes, 0);
}

/// The prefix of a record announces the exact length of the payload, and a
/// reader that takes as many bytes as announced has the frame.
pub proof fn lemma_record_length(v: FrameView)
    requires
        Frame::wf(v),
        Frame::encoding(v).len() <= MAX_PAYLOAD,
    ensures
        record_encoding(v).len() == 4 + Frame::encoding(v).len(),
        u32::decoding(record_encoding(v), 0) == Ok::<(u32, int), DecodeError>(
            (Frame::encoding(v).len() as u32, 4int),
        ),
        record_encoding(v).subrange(4, 4 + Frame::encoding(v).len() as int) == Frame::encoding(v),
        payload_decoding(record_encoding(v).subrange(4, 4 + Frame::encoding(v).len() as int))
            == Ok::<FrameView, DecodeError>(v),
{
    let payload = Frame::encoding(v);
    let record = record_encoding(v);
    let len = payload.len() as u32;
    lemma_be32_len(len);
    assert(record.subrange(0, record.len() as int) =~= record);
    lemma_holds_at_concat(record, 0, be32(len), payload);
    u32::lemma_roundtrip(len, record, 0);
    assert(record.subrange(4, 4 + payload.len() as int) =~= payload);
    lemma_frame_roundtrip(v);
}

} // verus!
