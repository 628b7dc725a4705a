//! The list of recordings, and how a player follows a recording that is
//! still written to.

use vstd::prelude::*;
use crate::asset_cache::AssetFileStore;
use crate::asset_cache::MetadataStore;
use crate::storage::is_listed;
use crate::storage::is_recording_name;
use crate::storage::StorageState;
use crate::writer::HEADER_SIZE;

verus! {

/// A file in the directory of recordings.
#[derive(Debug, Clone, PartialEq, Eq)]
pub struct FileEntry {
    pub filename: String,
    /// The size of the file in bytes.
    pub size: u64,
    /// When the file was made, in milliseconds since the Unix epoch.
    pub created: i64,
}

/// What is told of a recording.
#[derive(Debug, Clone, PartialEq, Eq)]
pub struct RecordingInfo {
    pub id: String,
    pub filename: String,
    /// The size of the session file in bytes.
    pub size: u64,
    /// When the session file was made, in milliseconds since the Unix epoch.
    pub created: i64,
    /// Whether the recording is still written to.
    pub is_active: bool,
}

/// The value that a [`FileEntry`] stands for.
pub struct FileEntryView {
    pub filename: Seq<char>,
    pub size: u64,
    pub created: i64,
}

/// The value that a [`RecordingInfo`] stands for.
pub struct RecordingInfoView {
    pub id: Seq<char>,
    pub filename: Seq<char>,
    pub size: u64,
    pub created: i64,
    pub is_active: bool,
}

impl DeepView for FileEntry {
    type V = FileEntryView;

    open spec fn deep_view(&self) -> FileEntryView {
        FileEntryView { filename: self.filename@, size: self.size, created: self.created }
    }
}

impl View for FileEntry {
    type V = FileEntryView;

    open spec fn view(&self) -> FileEntryView {
        self.deep_view()
    }
}

impl DeepView for RecordingInfo {
    type V = RecordingInfoView;

    open spec fn deep_view(&self) -> RecordingInfoView {
        RecordingInfoView {
            id: self.id@,
            filename: self.filename@,
            size: self.size,
            created: self.created,
            is_active: self.is_active,
        }
    }
}

impl View for RecordingInfo {
    type V = RecordingInfoView;

    open spec fn view(&self) -> RecordingInfoView {
        self.deep_view()
    }
}

/// What is told of the recording in a file: its name, which is its id too,
/// its size and age, and whether it is among the recordings that are
/// written to.
pub open spec fn info_of(entry: FileEntryView, active: Map<Seq<char>, u64>) -> RecordingInfoView {
    RecordingInfoView {
        id: entry.filename,
        filename: entry.filename,
        size: entry.size,
        created: entry.created,
        is_active: active.contains_key(entry.filename),
    }
}

/// What is told of the files that are recordings, in the order of the
/// files. A session file that was set aside is none.
pub open spec fn listed(entries: Seq<FileEntryView>, active: Map<Seq<char>, u64>) -> Seq<
    RecordingInfoView,
>
    decreases entries.len(),
{
    if entries.len() == 0 {
        Seq::empty()
    } else if is_recording_name(entries.last().filename) {
        listed(entries.drop_last(), active).push(info_of(entries.last(), active))
    } else {
        listed(entries.drop_last(), active)
    }
}

/// The newest stands first.
pub open spec fn newest_first(infos: Seq<RecordingInfoView>) -> bool {
    forall|i: int, j: int| 0 <= i < j < infos.len() ==> infos[i].created >= infos[j].created
}

/// Putting an item into a sequence adds it to what the sequence holds.
proof fn lemma_insert_to_multiset<A>(s: Seq<A>, at: int, item: A)
    requires
        0 <= at <= s.len(),
    ensures
        s.insert(at, item).to_multiset() == s.to_multiset().insert(item),
{
    let grown = s.insert(at, item);
    grown.to_multiset_ensures();
    assert(grown[at] == item);
    assert(grown.remove(at) =~= s);
    assert(grown.to_multiset().remove(item) =~= s.to_multiset());
    assert(grown.contains(item));
    assert(grown.to_multiset() =~= s.to_multiset().insert(item));
}

impl<M: MetadataStore, S: AssetFileStore> StorageState<M, S> {
    /// The recordings among the files of a directory, the newest first.
    /// Every file whose name ends in `.dcrr` is a recording; a session file
    /// that was set aside is not.
    pub fn list_recordings(&self, entries: Vec<FileEntry>) -> (infos: Vec<RecordingInfo>)
        ensures
            newest_first(infos.deep_view()),
            infos.deep_view().to_multiset() == listed(
                entries.deep_view(),
                self.active_recordings@,
            ).to_multiset(),
    {
        let mut infos: Vec<RecordingInfo> = Vec::new();
        let mut i: usize = 0;
        proof {
            assert(entries.deep_view().subrange(0, 0) =~= Seq::empty());
            assert(infos.deep_view() =~= Seq::empty());
        }
        while i < entries.len()
            invariant
                i <= entries.len(),
                newest_first(infos.deep_view()),
                infos.deep_view().to_multiset() == listed(
                    entries.deep_view().subrange(0, i as int),
                    self.active_recordings@,
                ).to_multiset(),
            decreases entries.len() - i,
        {
            let entry = &entries[i];
            proof {
                let seen = entries.deep_view().subrange(0, i as int);
                let next = entries.deep_view().subrange(0, i + 1);
                assert(next.drop_last() =~= seen);
                assert(next.last() == entry@);
            }
            if is_listed(entry.filename.as_str()) {
                let info = RecordingInfo {
                    id: entry.filename.clone(),
                    filename: entry.filename.clone(),
                    size: entry.size,
                    created: entry.created,
                    is_active: self.active_recordings.contains(entry.filename.as_str()),
                };
                let mut at: usize = 0;
                while at < infos.len() && infos[at].created >= info.created
                    invariant
                        at <= infos.len(),
                        forall|k: int| 0 <= k < at ==> infos@[k].created >= info.created,
                    decreases infos.len() - at,
                {
                    at += 1;
                }
                let ghost before = infos.deep_view();
                let ghost item = info@;
                infos.insert(at, info);
                proof {
                    assert(infos.deep_view() =~= before.insert(at as int, item));
                    lemma_insert_to_multiset(before, at as int, item);
                    listed(
                        entries.deep_view().subrange(0, i as int),
                        self.active_recordings@,
                    ).to_multiset_ensures();
                    let grown = infos.deep_view();
                    assert forall|a: int, b: int| 0 <= a < b < grown.len() implies grown[a].created
                        >= grown[b].created by {
                        if a < at && b > at {
                            assert(grown[a] == before[a]);
                            assert(grown[b] == before[b - 1]);
                        } else if a < at && b < at {
                            assert(grown[a] == before[a]);
                            assert(grown[b] == before[b]);
                        } else if a > at {
                            assert(grown[a] == before[a - 1]);
                            assert(grown[b] == before[b - 1]);
                        } else if a == at {
                            assert(grown[b] == before[b - 1]);
                        }
                    }
                }
            }
            i += 1;
        }
        assert(entries.deep_view().subrange(0, i as int) =~= entries.deep_view());
        infos
    }
}

/// How many milliseconds a reader waits before it looks again for more of a
/// recording that is still written to.
pub const TAIL_POLL_MILLIS: u64 = 100;

/// What a reader that follows a recording does after an attempt to read.
#[derive(Debug, Clone, Copy, PartialEq, Eq, Structural)]
pub enum TailStep {
    /// It hands on the bytes that it read.
    Data,
    /// It reads again at once: the file has grown since the attempt.
    Retry,
    /// It ends: all of the file is read and nothing more will come.
    Eof,
    /// It waits a while and reads again: the recording is still written to.
    Wait,
}

/// A reader that follows a session file while it is written to. It reads
/// behind the header of the file.
#[derive(Debug, Clone, PartialEq, Eq)]
pub struct TailingReader {
    filename: String,
    position: u64,
}

/// What a [`TailingReader`] stands for.
pub struct TailingReaderView {
    /// The name of the recording.
    pub filename: Seq<char>,
    /// How many bytes of the file lie before the place that is read next.
    pub position: u64,
}

impl View for TailingReader {
    type V = TailingReaderView;

    closed spec fn view(&self) -> TailingReaderView {
        TailingReaderView { filename: self.filename@, position: self.position }
    }
}

/// The position behind `count` more bytes; the largest number where the sum
/// is beyond it.
pub open spec fn advanced(position: u64, count: usize) -> u64 {
    if position + count <= u64::MAX {
        (position + count) as u64
    } else {
        u64::MAX
    }
}

impl TailingReader {
    /// A reader of the recording of the given name, placed behind the
    /// header of the session file.
    pub fn new(filename: String) -> (reader: TailingReader)
        ensures
            reader@ == (TailingReaderView { filename: filename@, position: HEADER_SIZE as u64 }),
    {
        TailingReader { filename, position: HEADER_SIZE as u64 }
    }

    /// The name of the recording.
    pub fn filename(&self) -> (name: &str)
        ensures
            name@ == self@.filename,
    {
        self.filename.as_str()
    }

    /// How many bytes of the file lie before the place that is read next.
    pub fn position(&self) -> (position: u64)
        ensures
            position == self@.position,
    {
        self.position
    }

    /// What the reader does after an attempt that read `bytes_read` bytes,
    /// where the file has `file_len` bytes and `active` says whether the
    /// recording is still written to.
    ///
    /// Bytes that were read are handed on. Where none were read, the reader
    /// reads again if the file has grown beyond its position, ends if the
    /// recording is written to no more, and waits otherwise.
    pub fn on_read(&mut self, bytes_read: usize, file_len: u64, active: bool) -> (step: TailStep)
        ensures
            final(self)@.filename == old(self)@.filename,
            if bytes_read > 0 {
                step == TailStep::Data && final(self)@.position == advanced(
                    old(self)@.position,
                    bytes_read,
                )
            } else {
                &&& final(self)@.position == old(self)@.position
                &&& step == if file_len > old(self)@.position {
                    TailStep::Retry
                } else if !active {
                    TailStep::Eof
                } else {
                    TailStep::Wait
                }
            },
    {
        if bytes_read > 0 {
            let count: u64 = bytes_read as u64;
            if count <= u64::MAX - self.position {
                self.position = self.position + count;
            } else {
                self.position = u64::MAX;
            }
            TailStep::Data
        } else if file_len > self.position {
            TailStep::Retry
        } else if !active {
            TailStep::Eof
        } else {
            TailStep::Wait
        }
    }
}

} // verus!
