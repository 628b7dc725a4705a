//! Reading session files and frame streams from a source that hands over its
//! bytes in chunks of any size.

use vstd::prelude::*;
use crate::frame::Frame;
use crate::frame::FrameView;
use crate::wire::prim::be32;
use crate::wire::prim::be64;
use crate::wire::prim::lemma_be64_inverse;
use crate::wire::prim::lemma_holds_at_concat;
use crate::wire::prim::DecodeError;
use crate::wire::prim::Wire;
use crate::wire::record::decode_frame;
use crate::wire::prim::lemma_be32_len;
use crate::wire::record::payload_decoding;
use crate::writer::header_encoding;
use crate::writer::FileHeader;
use crate::writer::FileHeaderView;
use crate::writer::DCRR_MAGIC;
use crate::writer::DCRR_VERSION;
use crate::writer::HEADER_SIZE;

verus! {

/// Why a reader has no header or frame to give.
#[derive(Debug, Clone, Copy, PartialEq, Eq, Structural)]
pub enum ReadError {
    /// The source has not yet given all bytes of the next header or frame.
    /// Nothing is lost: the same call succeeds once the bytes are there.
    NeedMoreData,
    /// The source ended inside a header or a frame.
    UnexpectedEof,
    /// The first four bytes are not the magic of a session file.
    InvalidMagic,
    /// The header names a version of the format other than the current one.
    UnsupportedVersion,
    /// The reader was made for a stream without a header.
    NoHeader,
    /// The payload of a record is not the encoding of a frame.
    Decode(DecodeError),
}

/// The header that 32 bytes stand for.
pub open spec fn header_decoding(s: Seq<u8>) -> Result<FileHeaderView, ReadError>
    recommends
        s.len() == HEADER_SIZE,
{
    if s.subrange(0, 4) != DCRR_MAGIC@ {
        Err(ReadError::InvalidMagic)
    } else {
        match (u32::decoding(s, 4), u64::decoding(s, 8)) {
            (Ok((version, _)), Ok((created_at, _))) => if version == DCRR_VERSION {
                Ok(
                    FileHeaderView {
                        magic: DCRR_MAGIC@,
                        version,
                        created_at,
                        reserved: s.subrange(16, 32),
                    },
                )
            } else {
                Err(ReadError::UnsupportedVersion)
            },
            _ => Err(ReadError::UnexpectedEof),
        }
    }
}

/// What stands at the front of the bytes that a reader holds.
pub enum Front {
    /// A whole record, with the frame it holds and the bytes behind it.
    Record { frame: FrameView, rest: Seq<u8> },
    /// Nothing, and the source has ended: the stream ends here.
    End,
    /// Less than a whole record, and the source has not ended.
    NeedMore,
    /// Less than a whole record though the source has ended, or a record
    /// whose payload is no frame.
    Failed(ReadError),
}

/// What stands at the front of `pending`, where `finished` says whether the
/// source has ended.
pub open spec fn front(pending: Seq<u8>, finished: bool) -> Front {
    if pending.len() == 0 && finished {
        Front::End
    } else {
        match u32::decoding(pending, 0) {
            Ok((len, start)) if start + len <= pending.len() => {
                match payload_decoding(pending.subrange(start, start + len)) {
                    Ok(frame) => Front::Record { frame, rest: pending.skip(start + len) },
                    Err(e) => Front::Failed(ReadError::Decode(e)),
                }
            },
            _ => if finished {
                Front::Failed(ReadError::UnexpectedEof)
            } else {
                Front::NeedMore
            },
        }
    }
}

/// All that a reader gives of the bytes it holds while the source has not
/// ended.
pub struct Drained {
    /// The frames of the whole records at the front, in order.
    pub frames: Seq<FrameView>,
    /// The bytes behind those records.
    pub rest: Seq<u8>,
    /// Why the record at the front of `rest` is no frame, if it is whole.
    pub failure: Option<ReadError>,
}

/// The frames `frames`, and then all that `more` says.
pub open spec fn joined(frames: Seq<FrameView>, more: Drained) -> Drained {
    Drained { frames: frames + more.frames, rest: more.rest, failure: more.failure }
}

/// The frames that a reader gives of `pending` while the source has not
/// ended: those of the whole records at the front, up to the first that is
/// no frame.
pub open spec fn drained(pending: Seq<u8>) -> Drained
    decreases pending.len(),
{
    match front(pending, false) {
        Front::Record { frame, rest } => joined(seq![frame], drained(rest)),
        Front::Failed(e) => Drained { frames: Seq::empty(), rest: pending, failure: Some(e) },
        _ => Drained { frames: Seq::empty(), rest: pending, failure: None },
    }
}

/// A reader of session files and frame streams. The source's bytes are fed
/// to it in chunks of any size; it gives the header and the frames as far as
/// the bytes reach.
pub struct FrameReader {
    /// The bytes that were fed, from some byte on.
    buffer: Vec<u8>,
    /// How many bytes of the buffer are read.
    read: usize,
    header: Option<FileHeader>,
    expect_header: bool,
    finished: bool,
}

/// What a [`FrameReader`] stands for.
pub struct FrameReaderView {
    /// The bytes that were fed and not yet read, in order.
    pub pending: Seq<u8>,
    /// The header, once it was read.
    pub header: Option<FileHeaderView>,
    /// The stream starts with a header.
    pub expect_header: bool,
    /// The source has ended.
    pub finished: bool,
}

impl FrameReaderView {
    /// The reader with other bytes to read.
    pub open spec fn with_pending(self, pending: Seq<u8>) -> FrameReaderView {
        FrameReaderView { pending, ..self }
    }

    /// The reader once the header that its stream starts with is read, or
    /// why the header cannot be read. A reader of a stream without a header,
    /// or one that has read it, stays as it is.
    pub open spec fn past_header(self) -> Result<FrameReaderView, ReadError> {
        if !self.expect_header || self.header is Some {
            Ok(self)
        } else if self.pending.len() < HEADER_SIZE {
            Err(
                if self.finished {
                    ReadError::UnexpectedEof
                } else {
                    ReadError::NeedMoreData
                },
            )
        } else {
            match header_decoding(self.pending.subrange(0, HEADER_SIZE as int)) {
                Ok(header) => Ok(
                    FrameReaderView {
                        pending: self.pending.skip(HEADER_SIZE as int),
                        header: Some(header),
                        ..self
                    },
                ),
                Err(e) => Err(e),
            }
        }
    }
}

/// The bytes of a buffer behind those that are read.
pub open spec fn unread(buffer: Seq<u8>, read: usize) -> Seq<u8> {
    if read <= buffer.len() {
        buffer.skip(read as int)
    } else {
        Seq::empty()
    }
}

impl View for FrameReader {
    type V = FrameReaderView;

    closed spec fn view(&self) -> FrameReaderView {
        FrameReaderView {
            pending: unread(self.buffer@, self.read),
            header: match self.header {
                Some(h) => Some(h@),
                None => None,
            },
            expect_header: self.expect_header,
            finished: self.finished,
        }
    }
}

impl FrameReader {
    /// A reader that holds no bytes yet. With `expect_header` the stream
    /// starts with the header of a session file.
    pub fn new(expect_header: bool) -> (reader: FrameReader)
        ensures
            reader@ == (FrameReaderView {
                pending: Seq::empty(),
                header: None,
                expect_header,
                finished: false,
            }),
    {
        let reader = FrameReader {
            buffer: Vec::new(),
            read: 0,
            header: None,
            expect_header,
            finished: false,
        };
        assert(unread(reader.buffer@, 0) =~= Seq::empty());
        reader
    }

    /// Hands the next bytes of the source to the reader. The bytes that are
    /// read are let go of first, so that the buffer holds no more than what
    /// is left to read.
    pub fn feed(&mut self, chunk: &[u8])
        ensures
            final(self)@ == old(self)@.with_pending(old(self)@.pending + chunk@),
    {
        let ghost pending = self@.pending;
        if self.read > 0 {
            if self.read < self.buffer.len() {
                let rest = self.buffer.split_off(self.read);
                self.buffer = rest;
            } else {
                self.buffer = Vec::new();
            }
            self.read = 0;
        }
        assert(self.buffer@ =~= pending);
        self.buffer.extend_from_slice(chunk);
        assert(self.buffer@ =~= pending + chunk@);
        assert(unread(self.buffer@, 0) =~= self.buffer@);
    }

    /// The bytes that are left to read.
    fn rest(&self) -> (rest: &[u8])
        ensures
            rest@ == self@.pending,
    {
        let len: usize = self.buffer.len();
        let from: usize = if self.read <= len {
            self.read
        } else {
            len
        };
        let rest = vstd::slice::slice_subrange(self.buffer.as_slice(), from, len);
        assert(rest@ =~= self@.pending);
        rest
    }

    /// Counts `count` more bytes as read.
    fn advance(&mut self, count: usize)
        requires
            count <= old(self)@.pending.len(),
        ensures
            final(self)@ == old(self)@.with_pending(old(self)@.pending.skip(count as int)),
    {
        if self.read <= self.buffer.len() {
            self.read = self.read + count;
        }
        assert(unread(self.buffer@, self.read) =~= unread(old(self).buffer@, old(self).read).skip(
            count as int,
        ));
    }

    /// Tells the reader that the source has ended.
    pub fn finish(&mut self)
        ensures
            final(self)@ == (FrameReaderView { finished: true, ..old(self)@ }),
    {
        self.finished = true;
    }

    /// The header, if one was read.
    pub fn header(&self) -> (header: Option<&FileHeader>)
        ensures
            match header {
                Some(h) => self@.header == Some(h@),
                None => self@.header is None,
            },
    {
        self.header.as_ref()
    }

    /// Reads the header where the stream starts with one and it is not read
    /// yet.
    fn read_header_if_needed(&mut self) -> (r: Result<(), ReadError>)
        ensures
            match r {
                Ok(_) => old(self)@.past_header() == Ok::<FrameReaderView, ReadError>(
                    final(self)@,
                ),
                Err(e) => old(self)@.past_header() == Err::<FrameReaderView, ReadError>(e)
                    && final(self)@ == old(self)@,
            },
    {
        if !self.expect_header || self.header.is_some() {
            return Ok(());
        }
        let pending = self.rest();
        if pending.len() < HEADER_SIZE {
            if self.finished {
                return Err(ReadError::UnexpectedEof);
            } else {
                return Err(ReadError::NeedMoreData);
            }
        }
        let head = vstd::slice::slice_subrange(pending, 0, HEADER_SIZE);
        let ghost bytes = head@;
        if head[0] != DCRR_MAGIC[0] || head[1] != DCRR_MAGIC[1] || head[2] != DCRR_MAGIC[2]
            || head[3] != DCRR_MAGIC[3] {
            assert(bytes.subrange(0, 4) != DCRR_MAGIC@) by {
                assert(forall|i: int| 0 <= i < 4 ==> bytes.subrange(0, 4)[i] == bytes[i]);
            }
            return Err(ReadError::InvalidMagic);
        }
        assert(bytes.subrange(0, 4) =~= DCRR_MAGIC@);
        let version: u32 = match u32::decode(head, 4) {
            Ok((version, _)) => version,
            Err(_) => {
                return Err(ReadError::UnexpectedEof);
            },
        };
        let created_at: u64 = match u64::decode(head, 8) {
            Ok((created_at, _)) => created_at,
            Err(_) => {
                return Err(ReadError::UnexpectedEof);
            },
        };
        if version != DCRR_VERSION {
            return Err(ReadError::UnsupportedVersion);
        }
        let reserved: [u8; 16] = [
            head[16],
            head[17],
            head[18],
            head[19],
            head[20],
            head[21],
            head[22],
            head[23],
            head[24],
            head[25],
            head[26],
            head[27],
            head[28],
            head[29],
            head[30],
            head[31],
        ];
        assert(reserved@ =~= bytes.subrange(16, 32));
        self.header = Some(FileHeader { magic: DCRR_MAGIC, version, created_at, reserved });
        self.advance(HEADER_SIZE);
        Ok(())
    }

    /// Reads the header of the session file: 32 bytes that start with the
    /// magic and name the current version. Once read, the header is given
    /// again on every call. A reader of a stream without a header has none
    /// to give.
    pub fn read_header(&mut self) -> (r: Result<FileHeader, ReadError>)
        ensures
            match old(self)@.past_header() {
                Err(e) => r == Err::<FileHeader, ReadError>(e) && final(self)@ == old(self)@,
                Ok(body) => {
                    &&& final(self)@ == body
                    &&& match body.header {
                        Some(header) => r matches Ok(h) && h@ == header,
                        None => r == Err::<FileHeader, ReadError>(ReadError::NoHeader),
                    }
                },
            },
    {
        self.read_header_if_needed()?;
        match &self.header {
            Some(h) => Ok(
                FileHeader {
                    magic: h.magic,
                    version: h.version,
                    created_at: h.created_at,
                    reserved: h.reserved,
                },
            ),
            None => Err(ReadError::NoHeader),
        }
    }

    /// Reads the next frame: the header first where the stream starts with
    /// one, then a length in four bytes, then as many bytes as it says, which
    /// hold the frame. `Ok(None)` says that the source ended in front of a
    /// record.
    pub fn read_frame(&mut self) -> (r: Result<Option<Frame>, ReadError>)
        ensures
            match old(self)@.past_header() {
                Err(e) => r == Err::<Option<Frame>, ReadError>(e) && final(self)@ == old(self)@,
                Ok(body) => match front(body.pending, body.finished) {
                    Front::Record { frame, rest } => {
                        &&& r matches Ok(Some(f))
                        &&& f@ == frame
                        &&& final(self)@ == body.with_pending(rest)
                    },
                    Front::End => r == Ok::<Option<Frame>, ReadError>(None) && final(self)@
                        == body,
                    Front::NeedMore => r == Err::<Option<Frame>, ReadError>(
                        ReadError::NeedMoreData,
                    ) && final(self)@ == body,
                    Front::Failed(e) => r == Err::<Option<Frame>, ReadError>(e) && final(self)@
                        == body,
                },
            },
    {
        self.read_header_if_needed()?;
        let pending = self.rest();
        if pending.len() == 0 && self.finished {
            return Ok(None);
        }
        let short: ReadError = if self.finished {
            ReadError::UnexpectedEof
        } else {
            ReadError::NeedMoreData
        };
        let (len, start) = match u32::decode(pending, 0) {
            Ok((len, start)) => (len, start),
            Err(_) => {
                return Err(short);
            },
        };
        if len as u64 > (pending.len() - start) as u64 {
            return Err(short);
        }
        let end: usize = start + len as usize;
        let payload = vstd::slice::slice_subrange(pending, start, end);
        match decode_frame(payload) {
            Ok(frame) => {
                self.advance(end);
                Ok(Some(frame))
            },
            Err(e) => Err(ReadError::Decode(e)),
        }
    }

    /// The next item of the stream of frames: a frame, the error that ends
    /// the stream, or `None` at its end.
    pub fn next(&mut self) -> (r: Option<Result<Frame, ReadError>>)
        ensures
            match old(self)@.past_header() {
                Err(e) => r == Some(Err::<Frame, ReadError>(e)) && final(self)@ == old(self)@,
                Ok(body) => match front(body.pending, body.finished) {
                    Front::Record { frame, rest } => {
                        &&& r matches Some(Ok(f))
                        &&& f@ == frame
                        &&& final(self)@ == body.with_pending(rest)
                    },
                    Front::End => r is None && final(self)@ == body,
                    Front::NeedMore => r == Some(Err::<Frame, ReadError>(ReadError::NeedMoreData))
                        && final(self)@ == body,
                    Front::Failed(e) => r == Some(Err::<Frame, ReadError>(e)) && final(self)@
                        == body,
                },
            },
    {
        match self.read_frame() {
            Ok(Some(frame)) => Some(Ok(frame)),
            Ok(None) => None,
            Err(e) => Some(Err(e)),
        }
    }
}

/// Reading the encoding of a header of the current format gives the header
/// back.
pub proof fn lemma_header_roundtrip(header: FileHeaderView)
    requires
        header.magic == DCRR_MAGIC@,
        header.version == DCRR_VERSION,
        header.reserved.len() == 16,
    ensures
        header_encoding(header).len() == HEADER_SIZE,
        header_decoding(header_encoding(header)) == Ok::<FileHeaderView, ReadError>(header),
{
    let bytes = header_encoding(header);
    lemma_be32_len(header.version);
    lemma_be64_inverse(header.created_at);
    assert(bytes.subrange(0, bytes.len() as int) =~= bytes);
    lemma_holds_at_concat(
        bytes,
        0,
        header.magic + be32(header.version) + be64(header.created_at),
        header.reserved,
    );
    lemma_holds_at_concat(bytes, 0, header.magic + be32(header.version), be64(header.created_at));
    lemma_holds_at_concat(bytes, 0, header.magic, be32(header.version));
    u32::lemma_roundtrip(header.version, bytes, 4);
    u64::lemma_roundtrip(header.created_at, bytes, 8);
    assert(bytes.subrange(16, 32) =~= header.reserved);
    assert(bytes.subrange(0, 4) =~= header.magic);
}

/// Bytes that come behind a whole record change neither the record nor
/// whether its payload is a frame; they only stand behind it.
pub proof fn lemma_front_extends(a: Seq<u8>, b: Seq<u8>)
    ensures
        match front(a, false) {
            Front::Record { frame, rest } => front(a + b, false) == (Front::Record {
                frame,
                rest: rest + b,
            }) && rest.len() < a.len(),
            Front::Failed(e) => front(a + b, false) == Front::Failed(e),
            _ => true,
        },
{
    reveal(crate::wire::prim::from_be32);
    let whole = a + b;
    if let Ok((len, start)) = u32::decoding(a, 0) {
        if start + len <= a.len() {
            assert(u32::decoding(whole, 0) == u32::decoding(a, 0));
            assert(whole.subrange(start, start + len) =~= a.subrange(start, start + len));
            assert(whole.skip(start + len) =~= a.skip(start + len) + b);
        }
    }
}

/// A whole record at the front is the same whether or not the source has
/// ended. It leaves less bytes than there were, and its frame is the first
/// that a reader gives.
pub proof fn lemma_front_record(pending: Seq<u8>, finished: bool)
    ensures
        front(pending, finished) matches Front::Record { frame, rest } ==> {
            &&& front(pending, false) == front(pending, finished)
            &&& rest.len() < pending.len()
            &&& drained(pending) == joined(seq![frame], drained(rest))
        },
        front(pending, finished) matches Front::Failed(ReadError::Decode(e)) ==> front(
            pending,
            false,
        ) == front(pending, finished),
{
    lemma_front_extends(pending, Seq::empty());
}

/// A reader gives the same frames of `a + b` whether it is handed `a` and
/// then `b`, or both at once.
pub proof fn lemma_chunking(a: Seq<u8>, b: Seq<u8>)
    ensures
        drained(a + b) == if drained(a).failure is Some {
            Drained { rest: drained(a).rest + b, ..drained(a) }
        } else {
            joined(drained(a).frames, drained(drained(a).rest + b))
        },
    decreases a.len(),
{
    lemma_front_extends(a, b);
    match front(a, false) {
        Front::Record { frame, rest } => {
            lemma_chunking(rest, b);
            let first = seq![frame];
            let tail = drained(rest);
            if tail.failure is None {
                let more = drained(tail.rest + b);
                assert(first + (tail.frames + more.frames) =~= (first + tail.frames)
                    + more.frames);
            }
        },
        Front::Failed(e) => {},
        _ => {
            assert(Seq::<FrameView>::empty() + drained(a + b).frames =~= drained(a + b).frames);
        },
    }
}

/// The chunks one behind the other.
pub open spec fn concat_all(chunks: Seq<Seq<u8>>) -> Seq<u8>
    decreases chunks.len(),
{
    if chunks.len() == 0 {
        Seq::empty()
    } else {
        concat_all(chunks.drop_last()) + chunks.last()
    }
}

/// All that a reader gives when it is handed the chunks one by one and
/// gives, after each, the frames that have become whole. After a failure it
/// gives no more frames.
pub open spec fn drained_in_chunks(chunks: Seq<Seq<u8>>) -> Drained
    decreases chunks.len(),
{
    if chunks.len() == 0 {
        Drained { frames: Seq::empty(), rest: Seq::empty(), failure: None }
    } else {
        let before = drained_in_chunks(chunks.drop_last());
        if before.failure is Some {
            Drained { rest: before.rest + chunks.last(), ..before }
        } else {
            joined(before.frames, drained(before.rest + chunks.last()))
        }
    }
}

/// However the source cuts a stream into chunks, down to single bytes, a
/// reader gives the frames that it gives of the stream in one piece.
pub proof fn lemma_chunking_independence(chunks: Seq<Seq<u8>>)
    ensures
        drained_in_chunks(chunks) == drained(concat_all(chunks)),
    decreases chunks.len(),
{
    if chunks.len() == 0 {
    } else {
        lemma_chunking_independence(chunks.drop_last());
        lemma_chunking(concat_all(chunks.drop_last()), chunks.last());
    }
}

} // verus!
