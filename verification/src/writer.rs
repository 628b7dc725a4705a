//! Writing session files and frame streams.

use vstd::prelude::*;
use crate::frame::Frame;
use crate::wire::prim::be32;
use crate::wire::prim::be64;
use crate::wire::prim::Wire;
use crate::wire::record::encode_record;
use crate::wire::record::record_encoding;
use crate::wire::record::MAX_PAYLOAD;

verus! {

/// The first four bytes of a session file: the letters DCRR.
pub const DCRR_MAGIC: [u8; 4] = [0x44, 0x43, 0x52, 0x52];

/// The one version of the session file format.
pub const DCRR_VERSION: u32 = 1;

/// The number of bytes in the header of a session file.
pub const HEADER_SIZE: usize = 32;

/// The header of a session file.
#[derive(Debug, Clone, PartialEq, Eq)]
pub struct FileHeader {
    pub magic: [u8; 4],
    pub version: u32,
    /// When the file was made, in milliseconds since the Unix epoch.
    pub created_at: u64,
    pub reserved: [u8; 16],
}

/// What a [`FileHeader`] stands for.
pub struct FileHeaderView {
    pub magic: Seq<u8>,
    pub version: u32,
    pub created_at: u64,
    pub reserved: Seq<u8>,
}

impl View for FileHeader {
    type V = FileHeaderView;

    open spec fn view(&self) -> FileHeaderView {
        FileHeaderView {
            magic: self.magic@,
            version: self.version,
            created_at: self.created_at,
            reserved: self.reserved@,
        }
    }
}

/// The bytes of a header: the magic, the version in four bytes, the time in
/// eight, and the reserved bytes.
pub open spec fn header_encoding(header: FileHeaderView) -> Seq<u8> {
    header.magic + be32(header.version) + be64(header.created_at) + header.reserved
}

/// The header is one that this library writes: the magic and the version
/// of the format, and sixteen reserved bytes that are all zero.
pub open spec fn is_current_header(header: FileHeaderView) -> bool {
    &&& header.magic == DCRR_MAGIC@
    &&& header.version == DCRR_VERSION
    &&& header.reserved == Seq::new(16, |i: int| 0u8)
}

/// The time of now as the crate chrono tells it (`Utc::now`), in
/// milliseconds since the Unix epoch (`timestamp_millis`). Nothing is claimed
/// of the number: it tells the time. The call fails on a machine whose clock
/// stands before 1970.
#[verifier::external_body]
pub(crate) fn now_millis() -> i64 {
    chrono::Utc::now().timestamp_millis()
}

/// A time in milliseconds since the Unix epoch as a header holds it: a time
/// before the epoch counts as the epoch.
pub fn millis_since_epoch(now: i64) -> (millis: u64)
    ensures
        millis == if now < 0 {
            0
        } else {
            now
        },
{
    if now < 0 {
        0
    } else {
        now as u64
    }
}

/// The time of now in milliseconds since the Unix epoch; 0 where the clock
/// stands before it. Nothing is known of the number: it tells the time.
pub(crate) fn unix_millis() -> u64 {
    millis_since_epoch(now_millis())
}

impl FileHeader {
    /// A header of the current format, made now.
    pub fn new() -> (header: FileHeader)
        ensures
            is_current_header(header@),
    {
        FileHeader::with_timestamp(unix_millis())
    }

    /// A header of the current format, made at the given time.
    pub fn with_timestamp(created_at: u64) -> (header: FileHeader)
        ensures
            is_current_header(header@),
            header.created_at == created_at,
    {
        let header = FileHeader {
            magic: DCRR_MAGIC,
            version: DCRR_VERSION,
            created_at,
            reserved: [0, 0, 0, 0, 0, 0, 0, 0, 0, 0, 0, 0, 0, 0, 0, 0],
        };
        assert(header.reserved@ =~= Seq::new(16, |i: int| 0u8));
        header
    }
}

/// Why a writer refused to write.
#[derive(Debug, Clone, Copy, PartialEq, Eq, Structural)]
pub enum WriteError {
    /// The writer has written a header already.
    HeaderAlreadyWritten,
    /// The writer has written a frame already, and a header can only stand
    /// in front of the frames.
    HeaderAfterFrame,
    /// The encoding of the frame is longer than a record can announce.
    FrameTooLarge,
}

/// A writer of session files and frame streams into a byte buffer.
pub struct FrameWriter {
    writer: Vec<u8>,
    header_written: bool,
    frame_written: bool,
}

/// What a [`FrameWriter`] stands for.
pub struct FrameWriterView {
    /// All bytes of the buffer, those it was made with included.
    pub bytes: Seq<u8>,
    /// The writer has written a header.
    pub header_written: bool,
    /// The writer has written a frame.
    pub frame_written: bool,
}

impl View for FrameWriter {
    type V = FrameWriterView;

    closed spec fn view(&self) -> FrameWriterView {
        FrameWriterView {
            bytes: self.writer@,
            header_written: self.header_written,
            frame_written: self.frame_written,
        }
    }
}

impl FrameWriter {
    /// A writer that appends to `writer`.
    pub fn new(writer: Vec<u8>) -> (w: FrameWriter)
        ensures
            w@ == (FrameWriterView { bytes: writer@, header_written: false, frame_written: false }),
    {
        FrameWriter { writer, header_written: false, frame_written: false }
    }

    /// Writes the header of a session file. A writer writes at most one
    /// header, and none behind a frame.
    pub fn write_header(&mut self, header: &FileHeader) -> (r: Result<(), WriteError>)
        ensures
            match r {
                Ok(_) => {
                    &&& !old(self)@.header_written
                    &&& !old(self)@.frame_written
                    &&& final(self)@ == (FrameWriterView {
                        bytes: old(self)@.bytes + header_encoding(header@),
                        header_written: true,
                        frame_written: false,
                    })
                },
                Err(e) => {
                    &&& final(self)@ == old(self)@
                    &&& e == if old(self)@.header_written {
                        WriteError::HeaderAlreadyWritten
                    } else {
                        WriteError::HeaderAfterFrame
                    }
                    &&& old(self)@.header_written || old(self)@.frame_written
                },
            },
    {
        if self.header_written {
            return Err(WriteError::HeaderAlreadyWritten);
        }
        if self.frame_written {
            return Err(WriteError::HeaderAfterFrame);
        }
        self.writer.extend_from_slice(header.magic.as_slice());
        header.version.encode(&mut self.writer);
        header.created_at.encode(&mut self.writer);
        self.writer.extend_from_slice(header.reserved.as_slice());
        self.header_written = true;
        assert(self.writer@ =~= old(self).writer@ + header_encoding(header@));
        Ok(())
    }

    /// Writes a frame as one record: the length of its encoding in four
    /// bytes, then the encoding.
    pub fn write_frame(&mut self, frame: &Frame) -> (r: Result<(), WriteError>)
        ensures
            match r {
                Ok(_) => {
                    &&& Frame::encoding(frame@).len() <= MAX_PAYLOAD
                    &&& final(self)@ == (FrameWriterView {
                        bytes: old(self)@.bytes + record_encoding(frame@),
                        header_written: old(self)@.header_written,
                        frame_written: true,
                    })
                },
                Err(e) => {
                    &&& Frame::encoding(frame@).len() > MAX_PAYLOAD
                    &&& e == WriteError::FrameTooLarge
                    &&& final(self)@ == old(self)@
                },
            },
    {
        match encode_record(frame) {
            Some(record) => {
                let mut record = record;
                self.writer.append(&mut record);
                self.frame_written = true;
                Ok(())
            },
            None => Err(WriteError::FrameTooLarge),
        }
    }

    /// Hands all that was written on to the buffer. The buffer is memory,
    /// so there is nothing left to do and nothing that can fail.
    pub fn flush(&mut self) -> (r: Result<(), WriteError>)
        ensures
            r is Ok,
            final(self)@ == old(self)@,
    {
        Ok(())
    }

    /// The buffer with all that was written.
    pub fn into_inner(self) -> (writer: Vec<u8>)
        ensures
            writer@ == self@.bytes,
    {
        self.writer
    }

    /// Whether the writer has written a header.
    pub fn header_written(&self) -> (written: bool)
        ensures
            written == self@.header_written,
    {
        self.header_written
    }
}

/// The encoding of a header with four bytes of magic and sixteen reserved
/// bytes is 32 bytes long.
pub proof fn lemma_header_length(header: FileHeaderView)
    requires
        header.magic.len() == 4,
        header.reserved.len() == 16,
    ensures
        header_encoding(header).len() == HEADER_SIZE,
{
    reveal(be32);
    reveal(be64);
}

} // verus!
