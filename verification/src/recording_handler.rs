//! A recording that arrives over a connection, message by message: the
//! recorder first says where it records, is told what the server already
//! has, and then sends its frames.

use vstd::prelude::*;
use vstd::string::StringSliceAdditionalSpecFns;
use crate::asset_cache::is_manifest;
use crate::asset_cache::manifest::frame_entries;
use crate::asset_cache::manifest::generate_manifest;
use crate::asset_cache::manifest::manifest_frame;
use crate::asset_cache::manifest::CacheManifest;
use crate::asset_cache::manifest::CacheManifestView;
use crate::asset_cache::manifest::DEFAULT_MANIFEST_LIMIT;
use crate::asset_cache::origin::decimal;
use crate::asset_cache::origin::decimal_string;
use crate::asset_cache::origin::site_origin;
use crate::asset_cache::AssetError;
use crate::asset_cache::AssetErrorView;
use crate::asset_cache::AssetFileStore;
use crate::asset_cache::MetadataStore;
use crate::asset_cache::SiteInfoView;
use crate::frame::CacheManifestDataView;
use crate::frame::Frame;
use crate::frame::FrameView;
use crate::reader::front;
use crate::reader::FrameReader;
use crate::reader::Front;
use crate::storage::StorageState;
use crate::text::join;
use crate::text::contains;
use crate::text::occurs_in;
use crate::wire::prim::Wire;
use crate::wire::record::encode_record;
use crate::wire::record::record_encoding;
use crate::wire::record::MAX_PAYLOAD;

verus! {

/// The most bytes that a recording has where nothing else is set: 100 MiB.
pub const DEFAULT_MAX_SIZE: usize = 104_857_600;

/// How a recording over a connection is to be taken.
#[derive(Debug, Clone, PartialEq, Eq)]
pub struct RecordingConfig {
    /// The most bytes that the recording may have.
    pub max_size: usize,
    /// The directory below that of all recordings in which the session file
    /// is made.
    pub subdir: Option<String>,
    /// The name of the session file, where it is not to be a new one.
    pub custom_filename: Option<String>,
}

/// The URL that a recorder names in the first frame of its stream, where
/// that frame stands whole in `bytes` and says where the recorder records.
pub open spec fn announced_url(bytes: Seq<u8>) -> Option<Seq<char>> {
    match front(bytes, false) {
        Front::Record { frame: FrameView::RecordingMetadata(metadata), rest } => Some(
            metadata.initial_url,
        ),
        _ => None,
    }
}

/// The URL that a recorder names in the first frame of its stream, once
/// that frame stands whole in the bytes that have arrived.
pub fn find_metadata(bytes: &[u8]) -> (url: Option<String>)
    ensures
        url.deep_view() == announced_url(bytes@),
{
    let mut reader = FrameReader::new(false);
    reader.feed(bytes);
    assert(Seq::<u8>::empty() + bytes@ =~= bytes@);
    match reader.read_frame() {
        Ok(Some(Frame::RecordingMetadata(metadata))) => Some(metadata.initial_url),
        _ => None,
    }
}

/// The name of the session file: the one that the caller's own start gave,
/// else the one that the configuration names, else a new one.
pub fn choose_filename(started: Option<String>, custom: Option<String>, fresh: String) -> (name:
    String)
    ensures
        name@ == match (started, custom) {
            (Some(given), _) => given@,
            (None, Some(given)) => given@,
            (None, None) => fresh@,
        },
{
    match started {
        Some(given) => given,
        None => match custom {
            Some(given) => given,
            None => fresh,
        },
    }
}

/// The origin under which the assets of the recording are counted: the one
/// that the caller sets, else the one of the site.
pub fn choose_origin(custom: Option<String>, site: String) -> (origin: String)
    ensures
        origin@ == match custom {
            Some(given) => given@,
            None => site@,
        },
{
    match custom {
        Some(given) => given,
        None => site,
    }
}

/// What a recorder is answered once it has said where it records.
#[derive(Debug, Clone, PartialEq, Eq)]
pub struct Opening {
    /// The origin under which the assets of the recording are counted.
    pub origin: String,
    /// The manifest of that origin.
    pub manifest: CacheManifest,
    /// The record of the frame that tells the recorder the manifest.
    pub manifest_record: Vec<u8>,
}

/// The frame that tells a recorder a manifest.
pub open spec fn manifest_frame_of(manifest: CacheManifestView) -> FrameView {
    FrameView::CacheManifest(
        CacheManifestDataView {
            site_origin: manifest.site_origin,
            assets: frame_entries(manifest.assets),
        },
    )
}

/// What is said of a manifest that does not fit in a frame.
pub open spec fn manifest_too_large() -> AssetErrorView {
    AssetErrorView::Storage("the manifest is too large for a frame"@)
}

/// What a recorder is answered, given the origin under which its assets are
/// counted and the manifest of that origin: the record of the frame that
/// tells the manifest. A manifest whose frame is longer than a record can
/// announce is an error.
pub fn opening_for(origin: String, manifest: CacheManifest) -> (r: Result<Opening, AssetError>)
    ensures
        if Frame::encoding(manifest_frame_of(manifest@)).len() <= MAX_PAYLOAD {
            &&& r matches Ok(opening)
            &&& opening.origin@ == origin@
            &&& opening.manifest@ == manifest@
            &&& opening.manifest_record@ == record_encoding(manifest_frame_of(manifest@))
        } else {
            r matches Err(e) && e@ == manifest_too_large()
        },
{
    let frame = manifest_frame(&manifest);
    match encode_record(&frame) {
        Some(manifest_record) => Ok(Opening { origin, manifest, manifest_record }),
        None => Err(AssetError::Storage("the manifest is too large for a frame".to_owned())),
    }
}

/// Opens a recording: notes in the index that it started at `initial_url`
/// on the site of that URL, and makes the manifest for the recorder, with at
/// most 200 assets of the origin under which its assets are counted.
///
/// A URL that is none is refused, and nothing is answered.
pub fn open_recording<M: MetadataStore, S: AssetFileStore>(
    storage: &mut StorageState<M, S>,
    filename: &str,
    initial_url: &str,
    custom_origin: Option<String>,
) -> (r: Result<Opening, AssetError>)
    ensures
        final(storage).active_recordings == old(storage).active_recordings,
        final(storage).asset_file_store == old(storage).asset_file_store,
        final(storage).metadata_store.assets() == old(storage).metadata_store.assets(),
        final(storage).metadata_store.usage() == old(storage).metadata_store.usage(),
        site_origin(initial_url@) is None ==> r is Err,
        match site_origin(initial_url@) {
            Some(site) => {
                let noted = old(storage).metadata_store.recordings().insert(
                    filename@,
                    SiteInfoView { origin: site, initial_url: initial_url@ },
                );
                &&& r is Ok ==> final(storage).metadata_store.recordings() == noted
                &&& r is Err ==> final(storage).metadata_store.recordings() == noted
                    || final(storage).metadata_store.recordings()
                    == old(storage).metadata_store.recordings()
            },
            None => final(storage).metadata_store.recordings()
                == old(storage).metadata_store.recordings(),
        },
        r matches Ok(opening) ==> {
            &&& site_origin(initial_url@) matches Some(site)
            &&& opening.origin@ == match custom_origin {
                Some(given) => given@,
                None => site,
            }
            &&& opening.manifest@.site_origin == opening.origin@
            &&& is_manifest(
                opening.manifest@.assets,
                opening.origin@,
                DEFAULT_MANIFEST_LIMIT as nat,
                final(storage).metadata_store.assets(),
                final(storage).metadata_store.usage(),
            )
            &&& Frame::encoding(manifest_frame_of(opening.manifest@)).len() <= MAX_PAYLOAD
            &&& opening.manifest_record@ == record_encoding(manifest_frame_of(opening.manifest@))
        },
{
    let info = storage.metadata_store.register_recording(filename, initial_url)?;
    let origin = choose_origin(custom_origin, info.origin);
    let manifest = generate_manifest(&storage.metadata_store, origin.as_str(), None)?;
    opening_for(origin, manifest)
}

/// Whether a recording that has `total` bytes so far may take `more`.
pub fn within_limit(total: usize, more: usize, max_size: usize) -> (r: Option<usize>)
    ensures
        r == if total + more <= max_size {
            Some((total + more) as usize)
        } else {
            None
        },
{
    if more <= max_size && total <= max_size - more {
        Some(total + more)
    } else {
        None
    }
}

/// What is said of a recording that grew beyond its limit.
pub fn too_large_message(total: u64) -> (message: String)
    ensures
        message@ == "Recording too large ("@ + decimal(total as nat) + " bytes)"@,
{
    let digits = decimal_string(total);
    let mut message = join("Recording too large (", digits.as_str());
    message.append(" bytes)");
    message
}

/// The kinds of failure of a connection that the server tells apart.
#[derive(Debug, Clone, Copy, PartialEq, Eq, Structural)]
pub enum FailureKind {
    ConnectionReset,
    BrokenPipe,
    UnexpectedEof,
    Other,
}

/// The failure says no more than that the other side has gone.
///
/// Where the kind of the failure is known, it is a reset, a broken pipe or
/// an unexpected end. Where it is not, the message has to say so.
pub open spec fn normal_close(kind: Option<FailureKind>, message: Seq<char>) -> bool {
    match kind {
        Some(kind) => kind != FailureKind::Other,
        None => {
            let bytes = vstd::utf8::encode_utf8(message);
            ||| occurs_in(bytes, "connection closed".spec_bytes())
            ||| occurs_in(bytes, "broken pipe".spec_bytes())
            ||| occurs_in(bytes, "Connection reset".spec_bytes())
        },
    }
}

/// Whether the failure of a connection says no more than that the other
/// side has gone. A recording whose connection ends so is complete if it
/// ends where a frame ends; any other failure sets it aside.
pub fn is_normal_close(kind: Option<FailureKind>, message: &str) -> (normal: bool)
    ensures
        normal == normal_close(kind, message@),
{
    match kind {
        Some(FailureKind::Other) => false,
        Some(_) => true,
        None => contains(message, "connection closed") || contains(message, "broken pipe")
            || contains(message, "Connection reset"),
    }
}

/// How far a recording over a connection has come.
#[derive(Debug, Clone, Copy, PartialEq, Eq, Structural)]
pub enum RecordingPhase {
    /// The recorder has not yet said where it records.
    WaitingForMetadata,
    /// The recorder has said where it records; the recording is not open
    /// yet.
    Opening,
    /// The frames of the recorder are taken in.
    Recording,
    /// The connection has ended, or the recording was given up.
    Closed,
}

/// What is to be done with a message of bytes.
#[derive(Debug, Clone, PartialEq, Eq)]
pub enum Received {
    /// Nothing yet: the first frame has not arrived in full, or it does not
    /// say where the recorder records.
    Waiting,
    /// The recorder records at this URL: the recording is to be opened.
    Metadata { initial_url: String },
    /// The bytes go on to the session file.
    Data,
    /// With these bytes the recording has grown to `total` bytes, which is
    /// beyond its limit: it is to be set aside.
    TooLarge { total: usize },
    /// Nothing: the recording takes no bytes now.
    Ignored,
}

/// What is to be done at the end of a connection.
#[derive(Debug, Clone, Copy, PartialEq, Eq, Structural)]
pub enum Closing {
    /// Nothing was recorded: there is no session file.
    Discard,
    /// The stream has ended: the recording is complete if it ends where a
    /// frame ends.
    Finish,
    /// The connection failed: the recording is to be set aside.
    Abort,
    /// Nothing: the recording was closed before.
    Ignored,
}

/// The messages of one connection of a recorder, and what they add up to.
pub struct RecordingSession {
    max_size: usize,
    buffer: Vec<u8>,
    total_bytes: usize,
    phase: RecordingPhase,
}

/// What a [`RecordingSession`] stands for.
pub struct RecordingSessionView {
    /// The most bytes that the recording may have.
    pub max_size: usize,
    /// The bytes that arrived before the recording was open, in order.
    pub buffered: Seq<u8>,
    /// How many bytes have arrived in all.
    pub total_bytes: usize,
    /// How far the recording has come.
    pub phase: RecordingPhase,
}

impl View for RecordingSession {
    type V = RecordingSessionView;

    closed spec fn view(&self) -> RecordingSessionView {
        RecordingSessionView {
            max_size: self.max_size,
            buffered: self.buffer@,
            total_bytes: self.total_bytes,
            phase: self.phase,
        }
    }
}

/// The number of bytes when `more` arrive behind `total`; the largest number
/// where the sum is beyond it.
pub open spec fn counted(total: usize, more: nat) -> usize {
    if total + more <= usize::MAX {
        (total + more) as usize
    } else {
        usize::MAX
    }
}

impl RecordingSession {
    /// A connection on which nothing has arrived.
    pub fn new(max_size: usize) -> (session: RecordingSession)
        ensures
            session@ == (RecordingSessionView {
                max_size,
                buffered: Seq::empty(),
                total_bytes: 0,
                phase: RecordingPhase::WaitingForMetadata,
            }),
    {
        RecordingSession {
            max_size,
            buffer: Vec::new(),
            total_bytes: 0,
            phase: RecordingPhase::WaitingForMetadata,
        }
    }

    /// How far the recording has come.
    pub fn phase(&self) -> (phase: RecordingPhase)
        ensures
            phase == self@.phase,
    {
        self.phase
    }

    /// How many bytes have arrived in all.
    pub fn total_bytes(&self) -> (total: usize)
        ensures
            total == self@.total_bytes,
    {
        self.total_bytes
    }

    /// Takes a message of bytes.
    ///
    /// Before the recorder has said where it records, the bytes are kept,
    /// and the first frame is looked at as soon as it stands whole in them.
    /// While the frames are taken in, the bytes are counted against the
    /// limit of the recording.
    pub fn on_binary(&mut self, data: &[u8]) -> (r: Received)
        ensures
            final(self)@.max_size == old(self)@.max_size,
            match old(self)@.phase {
                RecordingPhase::WaitingForMetadata => {
                    &&& final(self)@.buffered == old(self)@.buffered + data@
                    &&& final(self)@.total_bytes == counted(old(self)@.total_bytes, data@.len())
                    &&& match announced_url(final(self)@.buffered) {
                        Some(url) => {
                            &&& r matches Received::Metadata { initial_url }
                            &&& initial_url@ == url
                            &&& final(self)@.phase == RecordingPhase::Opening
                        },
                        None => {
                            &&& r is Waiting
                            &&& final(self)@.phase == RecordingPhase::WaitingForMetadata
                        },
                    }
                },
                RecordingPhase::Recording => {
                    &&& final(self)@.buffered == old(self)@.buffered
                    &&& final(self)@.total_bytes == counted(old(self)@.total_bytes, data@.len())
                    &&& if old(self)@.total_bytes + data@.len() <= old(self)@.max_size {
                        r is Data && final(self)@.phase == RecordingPhase::Recording
                    } else {
                        &&& r == (Received::TooLarge { total: final(self)@.total_bytes })
                        &&& final(self)@.phase == RecordingPhase::Closed
                    }
                },
                _ => r is Ignored && final(self)@ == old(self)@,
            },
    {
        match self.phase {
            RecordingPhase::WaitingForMetadata => {
                self.buffer.extend_from_slice(data);
                assert(self.buffer@ =~= old(self).buffer@ + data@);
                self.total_bytes = count(self.total_bytes, data.len());
                match find_metadata(self.buffer.as_slice()) {
                    Some(initial_url) => {
                        self.phase = RecordingPhase::Opening;
                        Received::Metadata { initial_url }
                    },
                    None => Received::Waiting,
                }
            },
            RecordingPhase::Recording => {
                let within = within_limit(self.total_bytes, data.len(), self.max_size);
                self.total_bytes = count(self.total_bytes, data.len());
                match within {
                    Some(_) => Received::Data,
                    None => {
                        self.phase = RecordingPhase::Closed;
                        Received::TooLarge { total: self.total_bytes }
                    },
                }
            },
            _ => Received::Ignored,
        }
    }

    /// Says that the recording is open, and gives the bytes that arrived
    /// before: they are the first of its stream.
    pub fn opened(&mut self) -> (bytes: Vec<u8>)
        ensures
            final(self)@.max_size == old(self)@.max_size,
            final(self)@.total_bytes == old(self)@.total_bytes,
            if old(self)@.phase == RecordingPhase::Opening {
                &&& bytes@ == old(self)@.buffered
                &&& final(self)@.buffered == Seq::<u8>::empty()
                &&& final(self)@.phase == RecordingPhase::Recording
            } else {
                bytes@.len() == 0 && final(self)@ == old(self)@
            },
    {
        match self.phase {
            RecordingPhase::Opening => {
                self.phase = RecordingPhase::Recording;
                let mut bytes: Vec<u8> = Vec::new();
                bytes.append(&mut self.buffer);
                assert(bytes@ =~= old(self).buffer@);
                bytes
            },
            _ => Vec::new(),
        }
    }

    /// Takes the end of the connection: a message that closes it where
    /// `failure` is `None`, else a failure with its kind, where that is
    /// known, and its message.
    ///
    /// A connection that ends before the recording is open leaves nothing.
    /// One that is closed, or fails in a way that says no more than that the
    /// recorder has gone, ends the stream; any other failure sets the
    /// recording aside.
    pub fn on_close(&mut self, failure: Option<(Option<FailureKind>, &str)>) -> (r: Closing)
        ensures
            final(self)@ == (RecordingSessionView { phase: RecordingPhase::Closed, ..old(self)@ }),
            r == match old(self)@.phase {
                RecordingPhase::WaitingForMetadata => Closing::Discard,
                RecordingPhase::Opening => Closing::Discard,
                RecordingPhase::Recording => match failure {
                    None => Closing::Finish,
                    Some((kind, message)) => if normal_close(kind, message@) {
                        Closing::Finish
                    } else {
                        Closing::Abort
                    },
                },
                RecordingPhase::Closed => Closing::Ignored,
            },
    {
        let phase = self.phase;
        self.phase = RecordingPhase::Closed;
        match phase {
            RecordingPhase::WaitingForMetadata => Closing::Discard,
            RecordingPhase::Opening => Closing::Discard,
            RecordingPhase::Recording => match failure {
                None => Closing::Finish,
                Some((kind, message)) => {
                    if is_normal_close(kind, message) {
                        Closing::Finish
                    } else {
                        Closing::Abort
                    }
                },
            },
            RecordingPhase::Closed => Closing::Ignored,
        }
    }
}

/// The number of bytes when `more` arrive behind `total`.
fn count(total: usize, more: usize) -> (sum: usize)
    ensures
        sum == counted(total, more as nat),
{
    if more <= usize::MAX - total {
        total + more
    } else {
        usize::MAX
    }
}

} // verus!
