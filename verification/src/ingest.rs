//! Taking in a recording: which frames of the stream are kept in the session
//! file, and in what form.

use vstd::prelude::*;
use crate::asset_cache::fetcher::FetchResponse;
use crate::asset_cache::hash::content_hash;
use crate::asset_cache::blobs_hashed;
use crate::asset_cache::ids_well_formed;
use crate::asset_cache::rows_have_bytes;
use crate::asset_cache::usage_kept;
use crate::asset_cache::AssetError;
use crate::asset_cache::AssetErrorView;
use crate::asset_cache::AssetFileStore;
use crate::asset_cache::MetadataStore;
use crate::frame::Frame;
use crate::frame::FrameView;
use crate::reader::drained;
use crate::reader::Drained;
use crate::reader::front;
use crate::reader::header_decoding;
use crate::reader::joined;
use crate::reader::lemma_front_record;
use crate::reader::lemma_header_roundtrip;
use crate::reader::lemma_chunking;
use crate::reader::FrameReader;
use crate::reader::FrameReaderView;
use crate::reader::Front;
use crate::reader::ReadError;
use crate::storage::is_mismatch;
use crate::storage::names_random_id;
use crate::storage::FilterStep;
use crate::storage::ResumeStep;
use crate::storage::StorageState;
use crate::wire::prim::Wire;
use crate::wire::record::lemma_record_length;
use crate::wire::record::record_encoding;
use crate::wire::record::MAX_PAYLOAD;
use crate::writer::header_encoding;
use crate::writer::is_current_header;
use crate::writer::FileHeader;
use crate::writer::FileHeaderView;
use crate::writer::DCRR_MAGIC;
use crate::writer::DCRR_VERSION;
use crate::writer::FrameWriter;
use crate::writer::FrameWriterView;
use crate::writer::WriteError;
use crate::writer::HEADER_SIZE;

verus! {

/// The frame is kept in the session file as it is: it is neither an asset,
/// nor a reference to one, nor a heartbeat.
pub open spec fn passes_through(frame: FrameView) -> bool {
    !(frame is Asset) && !(frame is AssetReference) && !(frame is Heartbeat)
}

/// The frame cannot be kept before the server has fetched an asset itself:
/// it is an asset without bytes that the recorder could not fetch for a
/// reason other than the answer of the server, or a reference to an asset.
pub open spec fn may_need_fetch(frame: FrameView) -> bool {
    match frame {
        FrameView::Asset(asset) => asset.buf.len() == 0 && (asset.fetch_error is CORS
            || asset.fetch_error is Network || asset.fetch_error is Unknown),
        FrameView::AssetReference(_) => true,
        _ => false,
    }
}

/// The URL of the asset that a frame holds or refers to.
pub open spec fn asset_url_of(frame: FrameView) -> Seq<char> {
    match frame {
        FrameView::Asset(asset) => asset.url,
        FrameView::AssetReference(reference) => reference.url,
        _ => Seq::empty(),
    }
}

/// `kept` is what the session file may hold for `frame`; `None` says that
/// it holds nothing.
///
/// A heartbeat is never kept. An asset is kept as a reference to it, with
/// the id, the URL and the MIME type of the asset, or not at all. A
/// reference is kept as a reference with its id and URL, or not at all.
/// Every other frame is kept as it is.
pub open spec fn kept_for(frame: FrameView, kept: Option<FrameView>) -> bool {
    match frame {
        FrameView::Heartbeat => kept is None,
        FrameView::Asset(asset) => match kept {
            Some(FrameView::AssetReference(reference)) => reference.asset_id == asset.asset_id
                && reference.url == asset.url && reference.mime == asset.mime,
            Some(_) => false,
            None => true,
        },
        FrameView::AssetReference(given) => match kept {
            Some(FrameView::AssetReference(reference)) => reference.asset_id == given.asset_id
                && reference.url == given.url,
            Some(_) => false,
            None => true,
        },
        _ => kept == Some(frame),
    }
}

/// `output` is what a session file may hold for the frames `input`: for
/// each frame of the input, in order, what is kept for it.
pub open spec fn filtered(input: Seq<FrameView>, output: Seq<FrameView>) -> bool
    decreases input.len(),
{
    if input.len() == 0 {
        output.len() == 0
    } else {
        ||| kept_for(input.last(), None) && filtered(input.drop_last(), output)
        ||| output.len() > 0 && kept_for(input.last(), Some(output.last())) && filtered(
            input.drop_last(),
            output.drop_last(),
        )
    }
}

/// The frames among `frames` that are kept as they are, in order.
pub open spec fn passing(frames: Seq<FrameView>) -> Seq<FrameView>
    decreases frames.len(),
{
    if frames.len() == 0 {
        Seq::empty()
    } else if passes_through(frames.last()) {
        passing(frames.drop_last()).push(frames.last())
    } else {
        passing(frames.drop_last())
    }
}

/// What is kept for one part of a stream and what is kept for the next make
/// up what is kept for both.
pub proof fn lemma_filtered_append(
    input: Seq<FrameView>,
    output: Seq<FrameView>,
    more_input: Seq<FrameView>,
    more_output: Seq<FrameView>,
)
    requires
        filtered(input, output),
        filtered(more_input, more_output),
    ensures
        filtered(input + more_input, output + more_output),
    decreases more_input.len(),
{
    if more_input.len() == 0 {
        assert(input + more_input =~= input);
        assert(output + more_output =~= output);
    } else {
        let whole = input + more_input;
        assert(whole.drop_last() =~= input + more_input.drop_last());
        assert(whole.last() == more_input.last());
        if kept_for(more_input.last(), None) && filtered(more_input.drop_last(), more_output) {
            lemma_filtered_append(input, output, more_input.drop_last(), more_output);
        } else {
            lemma_filtered_append(input, output, more_input.drop_last(), more_output.drop_last());
            let all = output + more_output;
            assert(all.drop_last() =~= output + more_output.drop_last());
            assert(all.last() == more_output.last());
        }
    }
}

/// The frames that are neither assets, nor references to assets, nor
/// heartbeats stand in the session file as they stand in the stream, and in
/// the same order.
pub proof fn lemma_filtered_keeps_order(input: Seq<FrameView>, output: Seq<FrameView>)
    requires
        filtered(input, output),
    ensures
        passing(output) == passing(input),
    decreases input.len(),
{
    if input.len() > 0 {
        if kept_for(input.last(), None) && filtered(input.drop_last(), output) {
            lemma_filtered_keeps_order(input.drop_last(), output);
        } else {
            lemma_filtered_keeps_order(input.drop_last(), output.drop_last());
        }
    }
}

/// A session file holds neither an asset with its bytes nor a heartbeat.
pub proof fn lemma_filtered_holds_no_assets(input: Seq<FrameView>, output: Seq<FrameView>)
    requires
        filtered(input, output),
    ensures
        forall|i: int|
            0 <= i < output.len() ==> !((#[trigger] output[i]) is Asset) && !(output[i]
                is Heartbeat),
    decreases input.len(),
{
    if input.len() > 0 {
        if kept_for(input.last(), None) && filtered(input.drop_last(), output) {
            lemma_filtered_holds_no_assets(input.drop_last(), output);
        } else {
            lemma_filtered_holds_no_assets(input.drop_last(), output.drop_last());
            assert forall|i: int| 0 <= i < output.len() implies !((#[trigger] output[i]) is Asset)
                && !(output[i] is Heartbeat) by {
                if i < output.len() - 1 {
                    assert(output[i] == output.drop_last()[i]);
                }
            }
        }
    }
}

/// The records of the frames, one behind the other.
pub open spec fn records(frames: Seq<FrameView>) -> Seq<u8>
    decreases frames.len(),
{
    if frames.len() == 0 {
        Seq::empty()
    } else {
        records(frames.drop_last()) + record_encoding(frames.last())
    }
}

/// Why a recording was set aside.
#[derive(Debug, Clone, PartialEq, Eq)]
pub enum IngestError {
    /// The stream is no sequence of frames, or ended inside one.
    Read(ReadError),
    /// A frame could not be written.
    Write(WriteError),
    /// The asset cache refused an asset.
    Asset(AssetError),
    /// The source of the stream failed.
    Source(String),
    /// The stream is longer than recordings may be.
    TooLarge,
}

/// The value that an [`IngestError`] stands for.
pub enum IngestErrorView {
    Read(ReadError),
    Write(WriteError),
    Asset(AssetErrorView),
    Source(Seq<char>),
    TooLarge,
}

impl View for IngestError {
    type V = IngestErrorView;

    open spec fn view(&self) -> IngestErrorView {
        match self {
            IngestError::Read(e) => IngestErrorView::Read(*e),
            IngestError::Write(e) => IngestErrorView::Write(*e),
            IngestError::Asset(e) => IngestErrorView::Asset(e@),
            IngestError::Source(m) => IngestErrorView::Source(m@),
            IngestError::TooLarge => IngestErrorView::TooLarge,
        }
    }
}

impl IngestError {
    /// A copy of the error.
    pub fn copy(&self) -> (r: IngestError)
        ensures
            r@ == self@,
    {
        match self {
            IngestError::Read(e) => IngestError::Read(*e),
            IngestError::Write(e) => IngestError::Write(*e),
            IngestError::Asset(e) => IngestError::Asset(e.copy()),
            IngestError::Source(m) => IngestError::Source(m.clone()),
            IngestError::TooLarge => IngestError::TooLarge,
        }
    }
}

/// How far a recording has come.
#[derive(Debug, Clone, Copy, PartialEq, Eq, Structural)]
pub enum IngestState {
    /// The header that the stream starts with has not arrived in full.
    AwaitingHeader,
    /// Frames are taken in as the bytes arrive.
    Active,
    /// A frame waits for the server to fetch its asset.
    Waiting,
    /// The stream ended where a frame ends: the session file is complete.
    Committed,
    /// The recording failed: the session file is set aside.
    Quarantined,
}

/// What a recording needs next.
#[derive(Debug, Clone, PartialEq, Eq)]
pub enum Next {
    /// More bytes of the stream, or its end.
    Input,
    /// The asset at this URL, fetched by the server.
    Fetch(String),
    /// Nothing: the session file is complete.
    Committed,
    /// Nothing: the session file is to be set aside, for this reason.
    Quarantined(IngestError),
}

/// What one step of a recording brings: the bytes to add to the session
/// file, and what the recording needs next.
#[derive(Debug, Clone, PartialEq, Eq)]
pub struct Step {
    pub output: Vec<u8>,
    pub next: Next,
}

/// The taking in of one recording: the bytes of the stream go in, the bytes
/// of the session file come out.
pub struct IngestSession {
    reader: FrameReader,
    site_origin: Option<String>,
    state: IngestState,
    waiting: Option<Frame>,
    failure: Option<IngestError>,
    taken: Ghost<Seq<FrameView>>,
    written: Ghost<Seq<FrameView>>,
}

/// What an [`IngestSession`] stands for.
pub struct IngestSessionView {
    /// How far the recording has come.
    pub state: IngestState,
    /// The origin of the site that the recording belongs to, if it is known.
    pub site_origin: Option<Seq<char>>,
    /// The bytes of the stream that were handed over and not yet read.
    pub pending: Seq<u8>,
    /// The source of the stream has ended.
    pub finished: bool,
    /// The frames of the stream of which it is settled what is kept for
    /// them, in order.
    pub taken: Seq<FrameView>,
    /// The frames that went to the session file, in order.
    pub written: Seq<FrameView>,
    /// The frame that waits for the server to fetch its asset.
    pub waiting: Option<FrameView>,
    /// Why the recording was set aside, if it was.
    pub failure: Option<IngestErrorView>,
}

impl IngestSessionView {
    /// The frames that were read from the stream, in order: those that are
    /// settled, and the one that waits.
    pub open spec fn consumed(self) -> Seq<FrameView> {
        match self.waiting {
            Some(frame) => self.taken.push(frame),
            None => self.taken,
        }
    }

    /// The recording with the next bytes of the stream handed over.
    pub open spec fn fed(self, chunk: Seq<u8>) -> IngestSessionView {
        IngestSessionView { pending: self.pending + chunk, ..self }
    }

    /// The recording at the end of the source of its stream.
    pub open spec fn ended(self) -> IngestSessionView {
        IngestSessionView { finished: true, ..self }
    }

    /// The recording has come to its end, one way or the other.
    pub open spec fn is_over(self) -> bool {
        self.state == IngestState::Committed || self.state == IngestState::Quarantined
    }
}

/// What a step added to a sequence that only grows.
pub open spec fn added<T>(before: Seq<T>, after: Seq<T>) -> Seq<T> {
    after.skip(before.len() as int)
}

/// `after` is `before` with more behind it.
pub open spec fn grown<T>(before: Seq<T>, after: Seq<T>) -> bool {
    before.len() <= after.len() && after.subrange(0, before.len() as int) == before
}

/// Every reference to an asset among the frames names the asset by a random
/// id of the due form.
pub open spec fn references_named(frames: Seq<FrameView>) -> bool {
    forall|i: int|
        0 <= i < frames.len() && (#[trigger] frames[i]) is AssetReference ==> names_random_id(
            frames[i],
        )
}

/// What a step keeps of the cache. Where the random ids of the index were
/// of the due form before, they are after, and the references that the step
/// wrote name such ids. Where all bytes of the store lay under their content
/// hash before, they do after; and where every asset that the index knew had
/// its bytes in the store before, every one that it knows has them after.
pub open spec fn cache_kept<M: MetadataStore, S: AssetFileStore>(
    before: StorageState<M, S>,
    after: StorageState<M, S>,
    written_before: Seq<FrameView>,
    written_after: Seq<FrameView>,
) -> bool {
    &&& ids_well_formed(before.metadata_store.assets()) ==> ids_well_formed(
        after.metadata_store.assets(),
    ) && references_named(added(written_before, written_after))
    &&& blobs_hashed(before.asset_file_store.blobs()) ==> blobs_hashed(
        after.asset_file_store.blobs(),
    )
    &&& rows_have_bytes(
        before.metadata_store.assets(),
        before.asset_file_store.blobs(),
    ) ==> rows_have_bytes(after.metadata_store.assets(), after.asset_file_store.blobs())
}

/// What a step wrote is what may be kept for the frames that it settled.
pub open spec fn kept_in_step(before: IngestSessionView, after: IngestSessionView) -> bool {
    filtered(added(before.taken, after.taken), added(before.written, after.written))
}

/// What is kept for the frame does not fit in a record: its encoding is
/// longer than a length prefix can announce.
pub open spec fn too_large_to_keep(frame: FrameView) -> bool {
    exists|kept: FrameView| #[trigger]
        kept_for(frame, Some(kept)) && Frame::encoding(kept).len() > MAX_PAYLOAD
}

/// What a recording needs after a step, said of the recording as the step
/// left it.
pub open spec fn next_fits(after: IngestSessionView, next: Next) -> bool {
    match next {
        Next::Input => {
            &&& after.state == IngestState::Active || after.state == IngestState::AwaitingHeader
            &&& !after.finished
            &&& after.failure is None
            &&& after.waiting is None
            &&& after.state == IngestState::Active ==> front(after.pending, false) is NeedMore
            &&& after.state == IngestState::AwaitingHeader ==> after.pending.len() < HEADER_SIZE
        },
        Next::Fetch(url) => {
            &&& after.state == IngestState::Waiting
            &&& after.failure is None
            &&& after.waiting matches Some(frame)
            &&& may_need_fetch(frame)
            &&& url@ == asset_url_of(frame)
        },
        Next::Committed => {
            &&& after.state == IngestState::Committed
            &&& after.failure is None
            &&& after.waiting is None
            &&& after.finished
            &&& after.pending.len() == 0
        },
        Next::Quarantined(e) => {
            &&& after.state == IngestState::Quarantined
            &&& after.failure == Some(e@)
            &&& after.waiting is None
        },
    }
}

/// A step took in the frames that stand whole in `before.pending`, up to
/// the first that has to wait for a fetch, that cannot be written, or that
/// is no frame; `output` is what it gave for the session file.
///
/// The records of the frames that it wrote are the output. The frames that
/// it read are the first that a reader gives of the bytes, and the bytes
/// behind them stay. Bytes that are no frame set the recording aside, and
/// so does the end of the source inside a frame. A recording is set aside
/// for a frame that cannot be written only where what is kept for the frame
/// is too large for a record; that frame is the first behind the frames
/// that the step settled.
pub open spec fn took_frames(
    before: IngestSessionView,
    after: IngestSessionView,
    output: Seq<u8>,
    next: Next,
) -> bool {
    &&& after.site_origin == before.site_origin
    &&& after.finished == before.finished
    &&& grown(before.taken, after.taken)
    &&& grown(before.written, after.written)
    &&& output == records(added(before.written, after.written))
    &&& after.state != IngestState::AwaitingHeader
    &&& next_fits(after, next)
    &&& !(next matches Next::Quarantined(IngestError::Write(_))) ==> drained(before.pending)
        == joined(added(before.taken, after.consumed()), drained(after.pending))
    &&& match next {
        Next::Quarantined(IngestError::Read(e)) => front(after.pending, after.finished)
            == Front::Failed(e),
        Next::Quarantined(IngestError::Write(e)) => {
            let read = added(before.taken, after.taken);
            &&& e == WriteError::FrameTooLarge
            &&& after.waiting is None
            &&& drained(before.pending).frames.len() > read.len()
            &&& drained(before.pending).frames.subrange(0, read.len() as int) == read
            &&& too_large_to_keep(drained(before.pending).frames[read.len() as int])
        },
        Next::Quarantined(_) => false,
        _ => true,
    }
}

/// A record that is no frame sets the recording aside: after a step over
/// bytes that hold one, the recording neither waits for more bytes nor is its
/// session file complete. It is set aside, at once or when the frame that
/// waits for its asset is settled.
pub proof fn lemma_bad_record_sets_aside(
    before: IngestSessionView,
    after: IngestSessionView,
    output: Seq<u8>,
    next: Next,
)
    requires
        took_frames(before, after, output, next),
        drained(before.pending).failure is Some,
    ensures
        next is Quarantined || next is Fetch,
        next is Fetch ==> drained(after.pending).failure is Some,
{
    if next is Input {
        assert(drained(after.pending).failure is None);
    }
    if next is Committed {
        assert(u32::decoding(after.pending, 0) is Err);
        assert(front(after.pending, false) is NeedMore);
        assert(drained(after.pending).failure is None);
    }
}

/// However a stream is cut into chunks, a recording takes in the same
/// frames: a step that ends waiting for more bytes, and the step over the
/// next chunk, amount to one step over the bytes of both. What the two give
/// for the session file, one behind the other, is what the one step gives,
/// and the recording is left as the one step leaves it.
pub proof fn lemma_steps_join(
    before: IngestSessionView,
    middle: IngestSessionView,
    first_output: Seq<u8>,
    chunk: Seq<u8>,
    after: IngestSessionView,
    second_output: Seq<u8>,
    next: Next,
)
    requires
        took_frames(before, middle, first_output, Next::Input),
        kept_in_step(before, middle),
        took_frames(middle.fed(chunk), after, second_output, next),
        kept_in_step(middle, after),
    ensures
        took_frames(before.fed(chunk), after, first_output + second_output, next),
        kept_in_step(before, after),
{
    let first_read = added(before.taken, middle.taken);
    let second_read = added(middle.taken, after.taken);
    let first_kept = added(before.written, middle.written);
    let second_kept = added(middle.written, after.written);
    let whole = before.fed(chunk);
    assert(added(before.taken, after.taken) =~= first_read + second_read);
    assert(added(before.written, after.written) =~= first_kept + second_kept);
    assert(after.taken.subrange(0, before.taken.len() as int) =~= middle.taken.subrange(
        0,
        before.taken.len() as int,
    ));
    assert(after.written.subrange(0, before.written.len() as int) =~= middle.written.subrange(
        0,
        before.written.len() as int,
    ));
    lemma_records_append(first_kept, second_kept);
    lemma_filtered_append(first_read, first_kept, second_read, second_kept);
    // what a reader gives of the bytes of both steps
    let left = drained(middle.pending);
    assert(left.frames =~= Seq::<FrameView>::empty());
    assert(first_read + left.frames =~= first_read);
    assert(drained(before.pending).frames == first_read);
    lemma_chunking(before.pending, chunk);
    let rest = drained(middle.pending + chunk);
    assert(drained(whole.pending) == joined(first_read, rest));
    match next {
        Next::Quarantined(IngestError::Write(_)) => {
            let all = drained(whole.pending).frames;
            let read = first_read + second_read;
            assert(all =~= first_read + rest.frames);
            assert(all.subrange(0, read.len() as int) =~= first_read + rest.frames.subrange(
                0,
                second_read.len() as int,
            ));
            assert(all[read.len() as int] == rest.frames[second_read.len() as int]);
        },
        _ => {
            let seen = added(middle.taken, after.consumed());
            assert(added(before.taken, after.consumed()) =~= first_read + seen);
            assert(first_read + (seen + drained(after.pending).frames) =~= (first_read + seen)
                + drained(after.pending).frames);
        },
    }
}

/// The end of the source joins the steps before it in the same way: a step
/// that ends waiting for more bytes, and the step at the end of the source,
/// amount to one step over the same bytes at the end of the source.
pub proof fn lemma_last_step_joins(
    before: IngestSessionView,
    middle: IngestSessionView,
    first_output: Seq<u8>,
    after: IngestSessionView,
    second_output: Seq<u8>,
    next: Next,
)
    requires
        took_frames(before, middle, first_output, Next::Input),
        kept_in_step(before, middle),
        took_frames(middle.ended(), after, second_output, next),
        kept_in_step(middle, after),
    ensures
        took_frames(before.ended(), after, first_output + second_output, next),
        kept_in_step(before, after),
{
    let first_read = added(before.taken, middle.taken);
    let second_read = added(middle.taken, after.taken);
    let first_kept = added(before.written, middle.written);
    let second_kept = added(middle.written, after.written);
    assert(added(before.taken, after.taken) =~= first_read + second_read);
    assert(added(before.written, after.written) =~= first_kept + second_kept);
    assert(after.taken.subrange(0, before.taken.len() as int) =~= middle.taken.subrange(
        0,
        before.taken.len() as int,
    ));
    assert(after.written.subrange(0, before.written.len() as int) =~= middle.written.subrange(
        0,
        before.written.len() as int,
    ));
    lemma_records_append(first_kept, second_kept);
    lemma_filtered_append(first_read, first_kept, second_read, second_kept);
    let rest = drained(middle.pending);
    assert(rest.frames =~= Seq::<FrameView>::empty());
    assert(first_read + rest.frames =~= first_read);
    match next {
        Next::Quarantined(IngestError::Write(_)) => {},
        _ => {
            let seen = added(middle.taken, after.consumed());
            assert(seen + drained(after.pending).frames =~= Seq::<FrameView>::empty());
            assert(seen =~= Seq::<FrameView>::empty());
            assert(added(before.taken, after.consumed()) =~= first_read + seen);
        },
    }
}

/// The frames are kept in a session file as they are, and each fits in a
/// record.
pub open spec fn plain_stream(frames: Seq<FrameView>) -> bool {
    forall|i: int|
        0 <= i < frames.len() ==> {
            &&& passes_through(#[trigger] frames[i])
            &&& Frame::encoding(frames[i]).len() <= MAX_PAYLOAD
        }
}

/// Every frame is well formed.
pub open spec fn well_formed(frames: Seq<FrameView>) -> bool {
    forall|i: int| 0 <= i < frames.len() ==> Frame::wf(#[trigger] frames[i])
}

/// A reader gives of the records of well-formed frames those frames, and
/// nothing is left behind them.
pub proof fn lemma_drained_records(frames: Seq<FrameView>)
    requires
        well_formed(frames),
        forall|i: int|
            0 <= i < frames.len() ==> Frame::encoding(#[trigger] frames[i]).len() <= MAX_PAYLOAD,
    ensures
        drained(records(frames)) == (Drained { frames, rest: Seq::empty(), failure: None }),
    decreases frames.len(),
{
    let nothing = Seq::<u8>::empty();
    assert(u32::decoding(nothing, 0) is Err);
    assert(front(nothing, false) is NeedMore);
    if frames.len() == 0 {
        assert(drained(nothing).frames =~= frames);
    } else {
        let first = frames.drop_last();
        let last = frames.last();
        let record = record_encoding(last);
        let len = Frame::encoding(last).len() as int;
        assert(Frame::wf(last));
        lemma_drained_records(first);
        lemma_chunking(records(first), record);
        lemma_record_length(last);
        assert(nothing + record =~= record);
        assert(record.skip(4 + len) =~= nothing);
        assert(front(record, false) == (Front::Record { frame: last, rest: nothing }));
        assert(drained(record).frames =~= seq![last]);
        assert(first + seq![last] =~= frames);
    }
}

/// Of frames that are kept as they are, a session file holds those frames.
pub proof fn lemma_filtered_plain(input: Seq<FrameView>, output: Seq<FrameView>)
    requires
        filtered(input, output),
        forall|i: int| 0 <= i < input.len() ==> passes_through(#[trigger] input[i]),
    ensures
        output == input,
    decreases input.len(),
{
    if input.len() == 0 {
        assert(output =~= input);
    } else {
        assert(passes_through(input.last()));
        lemma_filtered_plain(input.drop_last(), output.drop_last());
        assert(output =~= output.drop_last().push(output.last()));
        assert(input =~= input.drop_last().push(input.last()));
    }
}

/// Frames that are kept as they are are taken in whatever the stores hold.
/// Where the whole records in the bytes that a step has before it are all
/// frames of that kind, the step settles all of them, gives their records
/// for the session file and leaves the bytes behind them. While the source
/// has not ended the recording then waits for more bytes. Once it has, the
/// session file is complete if no bytes are left, and the recording is set
/// aside for a stream that ends inside a frame if some are.
pub proof fn lemma_plain_frames_are_kept(
    before: IngestSessionView,
    after: IngestSessionView,
    output: Seq<u8>,
    next: Next,
)
    requires
        took_frames(before, after, output, next),
        kept_in_step(before, after),
        drained(before.pending).failure is None,
        plain_stream(drained(before.pending).frames),
    ensures
        after.taken == before.taken + drained(before.pending).frames,
        after.written == before.written + drained(before.pending).frames,
        output == records(drained(before.pending).frames),
        after.pending == drained(before.pending).rest,
        after.waiting is None,
        if !before.finished {
            next is Input && after.state == IngestState::Active
        } else if drained(before.pending).rest.len() == 0 {
            next is Committed && after.state == IngestState::Committed
        } else {
            &&& next matches Next::Quarantined(IngestError::Read(ReadError::UnexpectedEof))
            &&& after.state == IngestState::Quarantined
        },
{
    let all = drained(before.pending);
    let frames = all.frames;
    let nothing = Seq::<u8>::empty();
    assert(u32::decoding(nothing, 0) is Err);
    let read = added(before.taken, after.taken);
    match next {
        Next::Quarantined(IngestError::Write(_)) => {
            let i = read.len() as int;
            let kept = choose|kept: FrameView| #[trigger]
                kept_for(frames[i], Some(kept)) && Frame::encoding(kept).len() > MAX_PAYLOAD;
            assert(passes_through(frames[i]));
            assert(false);
        },
        Next::Quarantined(IngestError::Asset(_)) => {},
        Next::Quarantined(IngestError::Source(_)) => {},
        Next::Quarantined(IngestError::TooLarge) => {},
        Next::Fetch(_) => {
            let frame = after.waiting->0;
            let seen = added(before.taken, after.taken.push(frame));
            assert(seen.last() == frame);
            assert(frames[seen.len() - 1] == frame);
            assert(passes_through(frames[seen.len() - 1]));
            assert(false);
        },
        _ => {
            lemma_front_record(after.pending, after.finished);
            assert(drained(after.pending).frames =~= Seq::<FrameView>::empty());
            assert(read + Seq::<FrameView>::empty() =~= read);
            assert(read == frames);
            lemma_filtered_plain(read, added(before.written, after.written));
            assert(after.taken =~= before.taken + frames);
            assert(after.written =~= before.written + frames);
        },
    }
}

/// A recording is not set aside for frames that are whole and can be kept,
/// whatever the stores hold. Where the whole records in the bytes that a
/// step has before it are all frames, none with a reference too large for a
/// record, the step settles them all or stops at one that waits for its
/// asset. Where it settles them all, the recording waits for more bytes
/// while the source has not ended; once it has, the session file is complete
/// if no bytes are left behind the frames, and the recording is set aside
/// for a stream that ends inside a frame if some are.
pub proof fn lemma_whole_frames_are_taken(
    before: IngestSessionView,
    after: IngestSessionView,
    output: Seq<u8>,
    next: Next,
)
    requires
        took_frames(before, after, output, next),
        drained(before.pending).failure is None,
        forall|i: int|
            0 <= i < drained(before.pending).frames.len() ==> !too_large_to_keep(
                #[trigger] drained(before.pending).frames[i],
            ),
    ensures
        next is Fetch || {
            &&& after.taken == before.taken + drained(before.pending).frames
            &&& after.pending == drained(before.pending).rest
            &&& after.waiting is None
        },
        !before.finished ==> next is Fetch || next is Input,
        before.finished && drained(before.pending).rest.len() == 0 ==> next is Fetch
            || next is Committed,
        before.finished && drained(before.pending).rest.len() > 0 ==> next is Fetch
            || next matches Next::Quarantined(IngestError::Read(ReadError::UnexpectedEof)),
{
    let frames = drained(before.pending).frames;
    let nothing = Seq::<u8>::empty();
    assert(u32::decoding(nothing, 0) is Err);
    let read = added(before.taken, after.taken);
    match next {
        Next::Quarantined(IngestError::Write(_)) => {
            assert(too_large_to_keep(frames[read.len() as int]));
        },
        Next::Quarantined(IngestError::Asset(_)) => {},
        Next::Quarantined(IngestError::Source(_)) => {},
        Next::Quarantined(IngestError::TooLarge) => {},
        Next::Fetch(_) => {},
        _ => {
            lemma_front_record(after.pending, after.finished);
            assert(drained(after.pending).frames =~= Seq::<FrameView>::empty());
            assert(read + Seq::<FrameView>::empty() =~= read);
            assert(read == frames);
            assert(after.taken =~= before.taken + frames);
        },
    }
}

/// A recording of a stream of well-formed frames that are kept as they are
/// ends with a complete session file, whatever the stores hold. Handed the
/// records of the frames, the recording gives the same records, byte for
/// byte, and waits for more; at the end of the source it gives nothing more
/// and its session file is complete.
pub proof fn lemma_plain_recording_commits(
    start: IngestSessionView,
    frames: Seq<FrameView>,
    middle: IngestSessionView,
    first: Step,
    end: IngestSessionView,
    last: Step,
)
    requires
        start.state == IngestState::Active,
        start.pending.len() == 0,
        !start.finished,
        well_formed(frames),
        plain_stream(frames),
        went_on(start.fed(records(frames)), middle, first.output@, first.next),
        kept_in_step(start, middle),
        went_on(middle.ended(), end, last.output@, last.next),
        kept_in_step(middle, end),
    ensures
        first.next is Input,
        first.output@ == records(frames),
        last.next is Committed,
        last.output@.len() == 0,
        end.state == IngestState::Committed,
        end.taken == start.taken + frames,
        end.written == start.written + frames,
{
    let nothing = Seq::<u8>::empty();
    let none = Seq::<FrameView>::empty();
    lemma_drained_records(frames);
    assert(start.pending + records(frames) =~= records(frames));
    lemma_plain_frames_are_kept(start.fed(records(frames)), middle, first.output@, first.next);
    assert(middle.pending =~= nothing);
    assert(u32::decoding(nothing, 0) is Err);
    assert(front(nothing, false) is NeedMore);
    assert(drained(nothing).frames =~= none);
    lemma_plain_frames_are_kept(middle.ended(), end, last.output@, last.next);
    assert(middle.taken + none =~= middle.taken);
    assert(middle.written + none =~= middle.written);
}

/// A step went on with a recording as far as the bytes that were handed
/// over reach; `output` is what it gave for the session file.
///
/// A recording that is over stays as it is, one that was set aside gives
/// its reason again, and one that waits for a fetch goes on waiting. A
/// recording whose stream starts with a header reads it once its 32 bytes
/// are there, and gives the same header for the session file; a header that
/// is none sets the recording aside. Then the frames are taken in.
pub open spec fn went_on(
    before: IngestSessionView,
    after: IngestSessionView,
    output: Seq<u8>,
    next: Next,
) -> bool {
    match before.state {
        IngestState::Committed => after == before && output.len() == 0 && next is Committed,
        IngestState::Quarantined => {
            &&& after == before
            &&& output.len() == 0
            &&& next matches Next::Quarantined(e)
            &&& before.failure == Some(e@)
        },
        IngestState::Waiting => {
            &&& after == before
            &&& output.len() == 0
            &&& next matches Next::Fetch(url)
            &&& before.waiting matches Some(frame)
            &&& url@ == asset_url_of(frame)
        },
        IngestState::Active => took_frames(before, after, output, next),
        IngestState::AwaitingHeader => if before.pending.len() < HEADER_SIZE {
            &&& output.len() == 0
            &&& if before.finished {
                &&& after == (IngestSessionView {
                    state: IngestState::Quarantined,
                    failure: Some(IngestErrorView::Read(ReadError::UnexpectedEof)),
                    ..before
                })
                &&& next matches Next::Quarantined(IngestError::Read(ReadError::UnexpectedEof))
            } else {
                after == before && next is Input
            }
        } else {
            match header_decoding(before.pending.subrange(0, HEADER_SIZE as int)) {
                Err(e) => {
                    &&& output.len() == 0
                    &&& after == (IngestSessionView {
                        state: IngestState::Quarantined,
                        failure: Some(IngestErrorView::Read(e)),
                        ..before
                    })
                    &&& next matches Next::Quarantined(IngestError::Read(x)) && x == e
                },
                Ok(header) => {
                    &&& output.len() >= HEADER_SIZE
                    &&& output.subrange(0, HEADER_SIZE as int) == header_encoding(header)
                    &&& took_frames(
                        IngestSessionView {
                            state: IngestState::Active,
                            pending: before.pending.skip(HEADER_SIZE as int),
                            ..before
                        },
                        after,
                        output.skip(HEADER_SIZE as int),
                        next,
                    )
                },
            }
        },
    }
}

/// A recording of a session file of well-formed frames that are kept as
/// they are gives the same session file, whatever the stores hold. Handed
/// the header and the records of the frames, the recording gives the same
/// header and the same records, byte for byte, and waits for more; at the
/// end of the source it gives nothing more and its session file is complete.
pub proof fn lemma_plain_session_file_commits(
    start: IngestSessionView,
    header: FileHeaderView,
    frames: Seq<FrameView>,
    middle: IngestSessionView,
    first: Step,
    end: IngestSessionView,
    last: Step,
)
    requires
        start.state == IngestState::AwaitingHeader,
        start.pending.len() == 0,
        !start.finished,
        header.magic == DCRR_MAGIC@,
        header.version == DCRR_VERSION,
        header.reserved.len() == 16,
        well_formed(frames),
        plain_stream(frames),
        went_on(
            start.fed(header_encoding(header) + records(frames)),
            middle,
            first.output@,
            first.next,
        ),
        kept_in_step(start, middle),
        went_on(middle.ended(), end, last.output@, last.next),
        kept_in_step(middle, end),
    ensures
        first.next is Input,
        first.output@ == header_encoding(header) + records(frames),
        last.next is Committed,
        last.output@.len() == 0,
        end.state == IngestState::Committed,
        end.taken == start.taken + frames,
        end.written == start.written + frames,
{
    let nothing = Seq::<u8>::empty();
    let none = Seq::<FrameView>::empty();
    let head = header_encoding(header);
    let body = records(frames);
    let fed = start.fed(head + body);
    lemma_header_roundtrip(header);
    lemma_drained_records(frames);
    assert(fed.pending =~= head + body);
    assert(fed.pending.subrange(0, HEADER_SIZE as int) =~= head);
    assert(fed.pending.skip(HEADER_SIZE as int) =~= body);
    let active = IngestSessionView { state: IngestState::Active, pending: body, ..fed };
    lemma_plain_frames_are_kept(
        active,
        middle,
        first.output@.skip(HEADER_SIZE as int),
        first.next,
    );
    assert(first.output@ =~= first.output@.subrange(0, HEADER_SIZE as int)
        + first.output@.skip(HEADER_SIZE as int));
    assert(middle.pending =~= nothing);
    assert(u32::decoding(nothing, 0) is Err);
    assert(front(nothing, false) is NeedMore);
    assert(drained(nothing).frames =~= none);
    lemma_plain_frames_are_kept(middle.ended(), end, last.output@, last.next);
    assert(middle.taken + none =~= middle.taken);
    assert(middle.written + none =~= middle.written);
}

impl View for IngestSession {
    type V = IngestSessionView;

    closed spec fn view(&self) -> IngestSessionView {
        IngestSessionView {
            state: self.state,
            site_origin: self.site_origin.deep_view(),
            pending: self.reader@.pending,
            finished: self.reader@.finished,
            taken: self.taken@,
            written: self.written@,
            waiting: match self.waiting {
                Some(frame) => Some(frame@),
                None => None,
            },
            failure: match self.failure {
                Some(error) => Some(error@),
                None => None,
            },
        }
    }
}

impl IngestSession {
    /// What holds of a recording at every step: the session file holds what
    /// may be kept for the frames taken so far, a frame waits exactly while
    /// the recording waits, and only a finished stream is complete.
    pub closed spec fn wf(&self) -> bool {
        &&& filtered(self.taken@, self.written@)
        &&& self.waiting is Some <==> self.state == IngestState::Waiting
        &&& self.waiting matches Some(frame) ==> may_need_fetch(frame@)
        &&& self.failure is Some <==> self.state == IngestState::Quarantined
        &&& self.state == IngestState::AwaitingHeader ==> {
            &&& self.reader@.expect_header
            &&& self.reader@.header is None
            &&& self.taken@.len() == 0
            &&& self.written@.len() == 0
        }
        &&& self.state == IngestState::Active || self.state == IngestState::Waiting
            ==> self.reader@.past_header() == Ok::<FrameReaderView, ReadError>(self.reader@)
        &&& self.state == IngestState::Committed ==> self.reader@.finished
            && self.reader@.pending.len() == 0
    }

    /// What a session file holds is what may be kept for the frames of the
    /// stream: the frames that pass through stand in it as in the stream,
    /// and it holds neither the bytes of an asset nor a heartbeat. A frame
    /// waits exactly while the recording waits.
    pub proof fn lemma_session_file(&self)
        requires
            self.wf(),
        ensures
            filtered(self@.taken, self@.written),
            passing(self@.written) == passing(self@.taken),
            forall|i: int|
                0 <= i < self@.written.len() ==> !((#[trigger] self@.written[i]) is Asset) && !(
                self@.written[i] is Heartbeat),
            self@.waiting is Some <==> self@.state == IngestState::Waiting,
    {
        lemma_filtered_keeps_order(self@.taken, self@.written);
        lemma_filtered_holds_no_assets(self@.taken, self@.written);
    }

    /// A recording of a stream of frames without a header, for a session
    /// file whose header is made now. The bytes of that header are given
    /// with it: they are the first of the session file.
    pub fn frames_only(site_origin: Option<String>) -> (r: (IngestSession, Vec<u8>))
        ensures
            r.0.wf(),
            r.0@ == (IngestSessionView {
                state: IngestState::Active,
                site_origin: site_origin.deep_view(),
                pending: Seq::empty(),
                finished: false,
                taken: Seq::empty(),
                written: Seq::empty(),
                waiting: None,
                failure: None,
            }),
            r.1@.len() == HEADER_SIZE,
            header_decoding(r.1@) matches Ok(header) && is_current_header(header),
    {
        let header = FileHeader::new();
        let mut writer = FrameWriter::new(Vec::new());
        let _ = writer.write_header(&header);
        let bytes = writer.into_inner();
        proof {
            crate::reader::lemma_header_roundtrip(header@);
            assert(bytes@ =~= header_encoding(header@));
        }
        let session = IngestSession {
            reader: FrameReader::new(false),
            site_origin,
            state: IngestState::Active,
            waiting: None,
            failure: None,
            taken: Ghost(Seq::empty()),
            written: Ghost(Seq::empty()),
        };
        (session, bytes)
    }

    /// A recording of a stream that starts with the header of a session
    /// file. The session file gets that header.
    pub fn with_header(site_origin: Option<String>) -> (session: IngestSession)
        ensures
            session.wf(),
            session@ == (IngestSessionView {
                state: IngestState::AwaitingHeader,
                site_origin: site_origin.deep_view(),
                pending: Seq::empty(),
                finished: false,
                taken: Seq::empty(),
                written: Seq::empty(),
                waiting: None,
                failure: None,
            }),
    {
        IngestSession {
            reader: FrameReader::new(true),
            site_origin,
            state: IngestState::AwaitingHeader,
            waiting: None,
            failure: None,
            taken: Ghost(Seq::empty()),
            written: Ghost(Seq::empty()),
        }
    }

    /// How far the recording has come.
    pub fn state(&self) -> (state: IngestState)
        ensures
            state == self@.state,
    {
        self.state
    }

    /// Takes in the frames that stand whole in the bytes that the reader
    /// holds, up to the first that has to wait for a fetch, that cannot be
    /// written, or that is no frame.
    fn advance<M: MetadataStore, S: AssetFileStore>(
        &mut self,
        storage: &mut StorageState<M, S>,
        writer: &mut FrameWriter,
    ) -> (next: Next)
        requires
            old(self).wf(),
            old(self)@.state == IngestState::Active,
        ensures
            final(self).wf(),
            final(storage).active_recordings == old(storage).active_recordings,
            usage_kept(
                old(storage).metadata_store.usage(),
                final(storage).metadata_store.usage(),
            ),
            cache_kept(
                *old(storage),
                *final(storage),
                old(self)@.written,
                final(self)@.written,
            ),
            kept_in_step(old(self)@, final(self)@),
            final(writer)@ == (FrameWriterView {
                bytes: old(writer)@.bytes + records(
                    added(old(self)@.written, final(self)@.written),
                ),
                header_written: old(writer)@.header_written,
                frame_written: old(writer)@.frame_written || final(self)@.written.len()
                    > old(self)@.written.len(),
            }),
            took_frames(
                old(self)@,
                final(self)@,
                records(added(old(self)@.written, final(self)@.written)),
                next,
            ),
    {
        let ghost start = self.reader@.pending;
        let ghost taken0 = self.taken@;
        let ghost written0 = self.written@;
        let ghost bytes0 = writer@.bytes;
        let ghost flag0 = writer@.frame_written;
        proof {
            assert(taken0.subrange(0, taken0.len() as int) =~= taken0);
            assert(written0.subrange(0, written0.len() as int) =~= written0);
            assert(added(taken0, self.taken@) =~= Seq::empty());
            assert(added(written0, self.written@) =~= Seq::empty());
            assert(bytes0 + records(Seq::empty()) =~= bytes0);
            assert(Seq::<FrameView>::empty() + drained(start).frames =~= drained(start).frames);
        }
        loop
            invariant
                self.wf(),
                self.state == IngestState::Active,
                self@.site_origin == old(self)@.site_origin,
                self.reader@.finished == old(self)@.finished,
                storage.active_recordings == old(storage).active_recordings,
                usage_kept(old(storage).metadata_store.usage(), storage.metadata_store.usage()),
                cache_kept(*old(storage), *storage, written0, self.written@),
                grown(taken0, self.taken@),
                grown(written0, self.written@),
                filtered(added(taken0, self.taken@), added(written0, self.written@)),
                writer@ == (FrameWriterView {
                    bytes: bytes0 + records(added(written0, self.written@)),
                    header_written: old(writer)@.header_written,
                    frame_written: flag0 || self.written@.len() > written0.len(),
                }),
                drained(start) == joined(added(taken0, self.taken@), drained(self.reader@.pending)),
                taken0 == old(self)@.taken,
                written0 == old(self)@.written,
                start == old(self)@.pending,
                bytes0 == old(writer)@.bytes,
                flag0 == old(writer)@.frame_written,
            decreases self.reader@.pending.len(),
        {
            let ghost pending = self.reader@.pending;
            let ghost taken = self.taken@;
            let ghost written = self.written@;
            proof {
                lemma_front_record(pending, self.reader@.finished);
            }
            let frame = match self.reader.read_frame() {
                Ok(Some(frame)) => frame,
                Ok(None) => {
                    self.state = IngestState::Committed;
                    return Next::Committed;
                },
                Err(ReadError::NeedMoreData) => {
                    return Next::Input;
                },
                Err(e) => {
                    self.state = IngestState::Quarantined;
                    self.failure = Some(IngestError::Read(e));
                    return Next::Quarantined(IngestError::Read(e));
                },
            };
            let ghost read = frame@;
            let ghost rest = self.reader@.pending;
            proof {
                let more = drained(rest);
                assert(added(taken0, taken) + (seq![read] + more.frames) =~= added(
                    taken0,
                    taken.push(read),
                ) + more.frames);
            }
            let origin: Option<&str> = match &self.site_origin {
                Some(origin) => Some(origin.as_str()),
                None => None,
            };
            match storage.filter_frame(frame, origin) {
                FilterStep::Write(kept) => {
                    match writer.write_frame(&kept) {
                        Ok(_) => {
                            proof {
                                let grown_taken = taken.push(read);
                                let grown_written = written.push(kept@);
                                assert(grown_taken.drop_last() =~= taken);
                                assert(grown_written.drop_last() =~= written);
                                assert(added(written0, grown_written).drop_last() =~= added(
                                    written0,
                                    written,
                                ));
                                assert(grown_taken.subrange(0, taken0.len() as int) =~= taken0);
                                assert(grown_written.subrange(0, written0.len() as int)
                                    =~= written0);
                                assert(bytes0 + records(added(written0, written)) + record_encoding(
                                    kept@,
                                ) =~= bytes0 + records(added(written0, grown_written)));
                                assert(added(written0, grown_written) =~= added(
                                    written0,
                                    written,
                                ).push(kept@));
                                assert(added(taken0, grown_taken).drop_last() =~= added(
                                    taken0,
                                    taken,
                                ));
                            }
                            self.taken = Ghost(taken.push(read));
                            self.written = Ghost(written.push(kept@));
                        },
                        Err(e) => {
                            self.state = IngestState::Quarantined;
                            self.failure = Some(IngestError::Write(e));
                            proof {
                                let settled = added(taken0, taken);
                                let all = drained(start).frames;
                                assert(all =~= settled + (seq![read] + drained(rest).frames));
                                assert(all.subrange(0, settled.len() as int) =~= settled);
                                assert(all[settled.len() as int] == read);
                                assert(kept_for(read, Some(kept@)) && Frame::encoding(kept@).len()
                                    > MAX_PAYLOAD);
                                assert(too_large_to_keep(read));
                            }
                            return Next::Quarantined(IngestError::Write(e));
                        },
                    }
                },
                FilterStep::Skip => {
                    proof {
                        let grown_taken = taken.push(read);
                        assert(grown_taken.drop_last() =~= taken);
                        assert(grown_taken.subrange(0, taken0.len() as int) =~= taken0);
                        assert(added(taken0, grown_taken).drop_last() =~= added(taken0, taken));
                    }
                    self.taken = Ghost(taken.push(read));
                },
                FilterStep::Fetch { url, frame: waiting } => {
                    self.waiting = Some(waiting);
                    self.state = IngestState::Waiting;
                    proof {
                        assert(added(taken0, taken.push(read)) =~= added(taken0, self@.consumed()));
                    }
                    return Next::Fetch(url);
                },
            }
        }
    }

    /// Goes on with the recording as far as the bytes that were handed over
    /// reach.
    fn proceed<M: MetadataStore, S: AssetFileStore>(
        &mut self,
        storage: &mut StorageState<M, S>,
    ) -> (step: Step)
        requires
            old(self).wf(),
        ensures
            final(self).wf(),
            final(storage).active_recordings == old(storage).active_recordings,
            usage_kept(
                old(storage).metadata_store.usage(),
                final(storage).metadata_store.usage(),
            ),
            cache_kept(
                *old(storage),
                *final(storage),
                old(self)@.written,
                final(self)@.written,
            ),
            kept_in_step(old(self)@, final(self)@),
            went_on(old(self)@, final(self)@, step.output@, step.next),
    {
        match self.state {
            IngestState::Committed => Step { output: Vec::new(), next: Next::Committed },
            IngestState::Quarantined => {
                let error = match &self.failure {
                    Some(error) => error.copy(),
                    None => IngestError::TooLarge,
                };
                Step { output: Vec::new(), next: Next::Quarantined(error) }
            },
            IngestState::Waiting => {
                let url = match &self.waiting {
                    Some(Frame::Asset(asset)) => asset.url.clone(),
                    Some(Frame::AssetReference(reference)) => reference.url.clone(),
                    _ => String::new(),
                };
                Step { output: Vec::new(), next: Next::Fetch(url) }
            },
            IngestState::AwaitingHeader => {
                match self.reader.read_header() {
                    Ok(header) => {
                        let mut writer = FrameWriter::new(Vec::new());
                        let _ = writer.write_header(&header);
                        self.state = IngestState::Active;
                        let ghost head = writer@.bytes;
                        let ghost before = self@;
                        proof {
                            crate::writer::lemma_header_length(header@);
                            assert(head =~= header_encoding(header@));
                        }
                        let next = self.advance(storage, &mut writer);
                        let output = writer.into_inner();
                        proof {
                            let tail = records(added(before.written, self@.written));
                            assert(output@.subrange(0, HEADER_SIZE as int) =~= head);
                            assert(output@.skip(HEADER_SIZE as int) =~= tail);
                        }
                        Step { output, next }
                    },
                    Err(ReadError::NeedMoreData) => Step { output: Vec::new(), next: Next::Input },
                    Err(e) => {
                        self.state = IngestState::Quarantined;
                        self.failure = Some(IngestError::Read(e));
                        Step { output: Vec::new(), next: Next::Quarantined(IngestError::Read(e)) }
                    },
                }
            },
            IngestState::Active => {
                let mut writer = FrameWriter::new(Vec::new());
                let ghost before = self@;
                let next = self.advance(storage, &mut writer);
                let output = writer.into_inner();
                proof {
                    assert(output@ =~= records(added(before.written, self@.written)));
                }
                Step { output, next }
            },
        }
    }

    /// Hands the next bytes of the stream to the recording, and goes on as
    /// far as they reach. A recording that is over takes no more bytes.
    pub fn feed<M: MetadataStore, S: AssetFileStore>(
        &mut self,
        storage: &mut StorageState<M, S>,
        chunk: &[u8],
    ) -> (step: Step)
        requires
            old(self).wf(),
        ensures
            final(self).wf(),
            final(storage).active_recordings == old(storage).active_recordings,
            usage_kept(
                old(storage).metadata_store.usage(),
                final(storage).metadata_store.usage(),
            ),
            cache_kept(
                *old(storage),
                *final(storage),
                old(self)@.written,
                final(self)@.written,
            ),
            kept_in_step(old(self)@, final(self)@),
            if old(self)@.is_over() {
                went_on(old(self)@, final(self)@, step.output@, step.next)
            } else {
                went_on(old(self)@.fed(chunk@), final(self)@, step.output@, step.next)
            },
    {
        if self.state != IngestState::Committed && self.state != IngestState::Quarantined {
            self.reader.feed(chunk);
        }
        self.proceed(storage)
    }

    /// Tells the recording that the source of its stream has ended, and
    /// goes on to the end: a stream that ends where a frame ends makes the
    /// session file complete; one that ends inside a frame sets it aside.
    pub fn finish<M: MetadataStore, S: AssetFileStore>(
        &mut self,
        storage: &mut StorageState<M, S>,
    ) -> (step: Step)
        requires
            old(self).wf(),
        ensures
            final(self).wf(),
            final(storage).active_recordings == old(storage).active_recordings,
            usage_kept(
                old(storage).metadata_store.usage(),
                final(storage).metadata_store.usage(),
            ),
            cache_kept(
                *old(storage),
                *final(storage),
                old(self)@.written,
                final(self)@.written,
            ),
            kept_in_step(old(self)@, final(self)@),
            went_on(old(self)@.ended(), final(self)@, step.output@, step.next),
    {
        self.reader.finish();
        self.proceed(storage)
    }

    /// Hands over what the server's fetch of an asset brought, and goes on.
    ///
    /// Content that does not have the hash that the waiting reference names
    /// sets the recording aside. In every other case it is settled what is
    /// kept for the frame that waited, and the frames behind it are taken
    /// in; a reference that is too large to be written sets the recording
    /// aside. A recording that does not wait goes on as it would without.
    pub fn fetched<M: MetadataStore, S: AssetFileStore>(
        &mut self,
        storage: &mut StorageState<M, S>,
        result: Result<FetchResponse, AssetError>,
    ) -> (step: Step)
        requires
            old(self).wf(),
        ensures
            final(self).wf(),
            final(storage).active_recordings == old(storage).active_recordings,
            usage_kept(
                old(storage).metadata_store.usage(),
                final(storage).metadata_store.usage(),
            ),
            cache_kept(
                *old(storage),
                *final(storage),
                old(self)@.written,
                final(self)@.written,
            ),
            kept_in_step(old(self)@, final(self)@),
            match old(self)@.waiting {
                None => went_on(old(self)@, final(self)@, step.output@, step.next),
                Some(frame) => if is_mismatch(frame, result) {
                    &&& step.output@.len() == 0
                    &&& step.next matches Next::Quarantined(IngestError::Asset(e))
                    &&& frame matches FrameView::AssetReference(reference)
                    &&& result matches Ok(response)
                    &&& e@ == (AssetErrorView::HashMismatch {
                        expected: reference.hash,
                        actual: content_hash(response.body@),
                    })
                    &&& final(self)@ == (IngestSessionView {
                        state: IngestState::Quarantined,
                        waiting: None,
                        failure: Some(IngestErrorView::Asset(e@)),
                        ..old(self)@
                    })
                    &&& final(storage).metadata_store == old(storage).metadata_store
                    &&& final(storage).asset_file_store == old(storage).asset_file_store
                } else {
                    let settled = IngestSessionView {
                        state: IngestState::Active,
                        waiting: None,
                        taken: old(self)@.taken.push(frame),
                        ..old(self)@
                    };
                    ||| took_frames(settled, final(self)@, step.output@, step.next)
                    ||| {
                        &&& final(self)@ == (IngestSessionView {
                            state: IngestState::Quarantined,
                            failure: Some(IngestErrorView::Write(WriteError::FrameTooLarge)),
                            ..settled
                        })
                        &&& step.output@.len() == 0
                        &&& step.next == Next::Quarantined(
                            IngestError::Write(WriteError::FrameTooLarge),
                        )
                        &&& too_large_to_keep(frame)
                    }
                },
            },
    {
        let waiting = match self.waiting.take() {
            Some(frame) => frame,
            None => {
                return self.proceed(storage);
            },
        };
        let ghost frame = waiting@;
        let ghost taken = self.taken@;
        let ghost written = self.written@;
        let origin: Option<&str> = match &self.site_origin {
            Some(origin) => Some(origin.as_str()),
            None => None,
        };
        let mut writer = FrameWriter::new(Vec::new());
        proof {
            assert(taken.push(frame).drop_last() =~= taken);
            assert(written.subrange(0, written.len() as int) =~= written);
            assert(may_need_fetch(frame));
            assert(kept_for(frame, None));
            assert(seq![frame].drop_last() =~= Seq::<FrameView>::empty());
            assert(seq![frame].last() == frame);
            assert(filtered(Seq::<FrameView>::empty(), Seq::<FrameView>::empty()));
            assert(filtered(seq![frame], Seq::empty()));
        }
        match storage.resume_frame(waiting, origin, result) {
            ResumeStep::Write(kept) => {
                match writer.write_frame(&kept) {
                    Ok(_) => {
                        proof {
                            assert(written.push(kept@).drop_last() =~= written);
                            assert(seq![kept@].drop_last() =~= Seq::<FrameView>::empty());
                            assert(seq![kept@].last() == kept@);
                            assert(filtered(seq![frame], seq![kept@]));
                            assert(added(written, written.push(kept@)) =~= seq![kept@]);
                        }
                        self.written = Ghost(written.push(kept@));
                    },
                    Err(e) => {
                        self.taken = Ghost(taken.push(frame));
                        self.state = IngestState::Quarantined;
                        self.failure = Some(IngestError::Write(e));
                        proof {
                            assert(added(written, written) =~= Seq::empty());
                            let settled = taken.push(frame);
                            assert(settled.subrange(0, taken.len() as int + 1) =~= settled);
                            assert(added(taken, settled) =~= seq![frame]);
                            assert(seq![frame].drop_last() =~= Seq::<FrameView>::empty());
                            assert(kept_for(frame, Some(kept@)) && Frame::encoding(kept@).len()
                                > MAX_PAYLOAD);
                            assert(too_large_to_keep(frame));
                        }
                        return Step {
                            output: Vec::new(),
                            next: Next::Quarantined(IngestError::Write(e)),
                        };
                    },
                }
            },
            ResumeStep::Skip => {},
            ResumeStep::Fail(error) => {
                self.state = IngestState::Quarantined;
                self.failure = Some(IngestError::Asset(error.copy()));
                return Step {
                    output: Vec::new(),
                    next: Next::Quarantined(IngestError::Asset(error)),
                };
            },
        }
        self.taken = Ghost(taken.push(frame));
        self.state = IngestState::Active;
        let ghost mid = self@;
        let ghost head = writer@.bytes;
        let next = self.advance(storage, &mut writer);
        let output = writer.into_inner();
        proof {
            let all = added(written, self@.written);
            let tail = added(mid.written, self@.written);
            let first = added(written, mid.written);
            let read = added(mid.taken, self@.taken);
            assert(added(taken, mid.taken) =~= seq![frame]);
            assert(seq![frame].drop_last() =~= Seq::<FrameView>::empty());
            assert(mid.written == written ==> first =~= Seq::<FrameView>::empty());
            assert(filtered(seq![frame], first));
            lemma_filtered_append(seq![frame], first, read, tail);
            assert(added(taken, self@.taken) =~= seq![frame] + read);
            assert(all =~= first + tail);
            if mid.written.len() > written.len() {
                let kept = mid.written.last();
                assert(all =~= seq![kept] + tail);
                lemma_records_append(seq![kept], tail);
                assert(seq![kept].drop_last() =~= Seq::<FrameView>::empty());
                assert(seq![kept].last() == kept);
                assert(records(Seq::<FrameView>::empty()) =~= Seq::<u8>::empty());
                assert(records(seq![kept]) =~= Seq::<u8>::empty() + record_encoding(kept));
                assert(records(seq![kept]) =~= record_encoding(kept));
            } else {
                assert(all =~= tail);
            }
            assert(output@ =~= records(all));
            assert(self@.written.subrange(0, written.len() as int) =~= mid.written.subrange(
                0,
                written.len() as int,
            ));
        }
        Step { output, next }
    }

    /// Sets the recording aside for a reason that lies outside the stream:
    /// its source failed, or it grew too large. A recording that is over
    /// stays as it is: one that was set aside before gives the reason that
    /// it was set aside for then.
    pub fn abort(&mut self, error: IngestError) -> (step: Step)
        requires
            old(self).wf(),
        ensures
            final(self).wf(),
            step.output@.len() == 0,
            if old(self)@.is_over() {
                final(self)@ == old(self)@ && next_fits(final(self)@, step.next)
            } else {
                &&& final(self)@ == (IngestSessionView {
                    state: IngestState::Quarantined,
                    waiting: None,
                    failure: Some(error@),
                    ..old(self)@
                })
                &&& step.next matches Next::Quarantined(e)
                &&& e@ == error@
            },
    {
        match self.state {
            IngestState::Committed => Step { output: Vec::new(), next: Next::Committed },
            IngestState::Quarantined => {
                let kept = match &self.failure {
                    Some(kept) => kept.copy(),
                    None => error,
                };
                Step { output: Vec::new(), next: Next::Quarantined(kept) }
            },
            _ => {
                self.state = IngestState::Quarantined;
                self.waiting = None;
                self.failure = Some(error.copy());
                Step { output: Vec::new(), next: Next::Quarantined(error) }
            },
        }
    }
}

/// The records of two runs of frames, one behind the other, are the records
/// of the frames of both.
pub proof fn lemma_records_append(first: Seq<FrameView>, second: Seq<FrameView>)
    ensures
        records(first + second) == records(first) + records(second),
    decreases second.len(),
{
    if second.len() == 0 {
        assert(first + second =~= first);
        assert(records(first) + records(second) =~= records(first));
    } else {
        let whole = first + second;
        assert(whole.drop_last() =~= first + second.drop_last());
        lemma_records_append(first, second.drop_last());
        assert(records(first) + (records(second.drop_last()) + record_encoding(second.last()))
            =~= records(first) + records(second.drop_last()) + record_encoding(second.last()));
    }
}

} // verus!
