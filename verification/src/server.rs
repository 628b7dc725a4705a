//! What the server answers to a player: the frames in front of a recording,
//! and the assets.

use vstd::prelude::*;
use crate::asset_cache::AssetError;
use crate::asset_cache::AssetFileStore;
use crate::asset_cache::MetadataStore;
use crate::frame::Frame;
use crate::frame::FrameView;
use crate::frame::PlaybackConfigData;
use crate::frame::PlaybackConfigDataView;
use crate::reader::drained;
use crate::reader::lemma_front_record;
use crate::reader::FrameReader;
use crate::storage::StorageState;
use crate::wire::prim::Wire;
use crate::wire::record::encode_record;
use crate::wire::record::record_encoding;
use crate::wire::record::MAX_PAYLOAD;

verus! {

/// The directory below which the server keeps everything, where none is
/// set.
pub const DEFAULT_STORAGE_DIR: &'static str = "./domcorder-storage";

/// The address at which the server listens.
pub const LISTEN_ADDRESS: &'static str = "127.0.0.1:8723";

/// The URL under which players reach the server, where none is set.
pub const DEFAULT_BASE_URL: &'static str = "http://127.0.0.1:8723";

/// What a player is told of a store that cannot say it itself: an empty
/// JSON object.
pub open spec fn empty_config() -> Seq<char> {
    seq!['{', '}']
}

/// The frame that a player is sent in front of the frames of a recording.
/// It names the latest timestamp only for a recording that is still written
/// to.
pub open spec fn playback_config(
    storage_type: Seq<char>,
    config_json: Option<Seq<char>>,
    is_live: bool,
    latest_timestamp: Option<u64>,
) -> FrameView {
    FrameView::PlaybackConfig(
        PlaybackConfigDataView {
            storage_type,
            config_json: match config_json {
                Some(json) => json,
                None => empty_config(),
            },
            is_live,
            latest_timestamp: if is_live {
                latest_timestamp
            } else {
                None
            },
        },
    )
}

/// The frame that a player is sent in front of the frames of a recording.
pub fn playback_config_frame(
    storage_type: String,
    config_json: Option<String>,
    is_live: bool,
    latest_timestamp: Option<u64>,
) -> (frame: Frame)
    ensures
        frame@ == playback_config(
            storage_type@,
            config_json.deep_view(),
            is_live,
            latest_timestamp,
        ),
{
    let config_json = match config_json {
        Some(json) => json,
        None => {
            proof {
                reveal_strlit("{}");
                assert("{}"@ =~= empty_config());
            }
            "{}".to_owned()
        },
    };
    let latest_timestamp = if is_live {
        latest_timestamp
    } else {
        None
    };
    Frame::PlaybackConfig(
        PlaybackConfigData { storage_type, config_json, is_live, latest_timestamp },
    )
}

/// The frame in front of a recording, given what the store said of itself:
/// its kind, and what a player has to know of it or that it could not say.
pub open spec fn prelude_frame(
    storage_type: Seq<char>,
    config_json: Result<String, AssetError>,
    is_live: bool,
    latest_timestamp: Option<u64>,
) -> FrameView {
    playback_config(
        storage_type,
        match config_json {
            Ok(json) => Some(json@),
            Err(_) => None,
        },
        is_live,
        latest_timestamp,
    )
}

/// The bytes that a player is sent in front of the frames of a recording,
/// given what the store said of itself: the record of the frame that tells
/// it. There are none where the frame is longer than a record can announce.
pub fn prelude_for(
    storage_type: String,
    config_json: Result<String, AssetError>,
    is_live: bool,
    latest_timestamp: Option<u64>,
) -> (r: Option<Vec<u8>>)
    ensures
        r is Some <==> Frame::encoding(
            prelude_frame(storage_type@, config_json, is_live, latest_timestamp),
        ).len() <= MAX_PAYLOAD,
        r matches Some(bytes) ==> bytes@ == record_encoding(
            prelude_frame(storage_type@, config_json, is_live, latest_timestamp),
        ),
{
    let config_json = match config_json {
        Ok(json) => Some(json),
        Err(_) => None,
    };
    let frame = playback_config_frame(storage_type, config_json, is_live, latest_timestamp);
    encode_record(&frame)
}

/// The prelude is the one that belongs to some account of a store.
pub open spec fn is_prelude(r: Option<Vec<u8>>, frame: FrameView) -> bool {
    &&& r is Some <==> Frame::encoding(frame).len() <= MAX_PAYLOAD
    &&& r matches Some(bytes) ==> bytes@ == record_encoding(frame)
}

/// The bytes that a player is sent in front of the frames of a recording:
/// the record of the frame that tells it of the store of assets. The store
/// is asked for its kind and for what a player has to know of it; a store
/// that cannot say the latter is told of as an empty object.
pub fn playback_prelude<S: AssetFileStore>(
    asset_file_store: &S,
    is_live: bool,
    latest_timestamp: Option<u64>,
) -> (r: Option<Vec<u8>>)
    ensures
        is_prelude(
            r,
            playback_config(
                asset_file_store.kind(),
                Some(asset_file_store.config()),
                is_live,
                latest_timestamp,
            ),
        ) || is_prelude(
            r,
            playback_config(asset_file_store.kind(), None, is_live, latest_timestamp),
        ),
{
    let storage_type = asset_file_store.storage_type();
    let config_json = asset_file_store.config_json();
    let ghost frame = prelude_frame(storage_type@, config_json, is_live, latest_timestamp);
    let r = prelude_for(storage_type, config_json, is_live, latest_timestamp);
    assert(is_prelude(r, frame));
    r
}

/// The time of the last frame among `frames` that tells a time.
pub open spec fn last_timestamp(frames: Seq<FrameView>) -> Option<u64>
    decreases frames.len(),
{
    if frames.len() == 0 {
        None
    } else {
        match frames.last() {
            FrameView::Timestamp(data) => Some(data.timestamp),
            _ => last_timestamp(frames.drop_last()),
        }
    }
}

/// The latest time that the frames of a recording tell, as far as whole
/// frames stand in `body`, the bytes of its session file behind the header.
pub fn latest_timestamp(body: &[u8]) -> (latest: Option<u64>)
    ensures
        latest == last_timestamp(drained(body@).frames),
{
    let mut reader = FrameReader::new(false);
    reader.feed(body);
    let mut latest: Option<u64> = None;
    let ghost mut taken: Seq<FrameView> = Seq::empty();
    proof {
        assert(Seq::<u8>::empty() + body@ =~= body@);
        assert(taken + drained(body@).frames =~= drained(body@).frames);
    }
    loop
        invariant
            reader@.past_header() == Ok::<crate::reader::FrameReaderView, crate::reader::ReadError>(
                reader@,
            ),
            !reader@.finished,
            drained(body@).frames == taken + drained(reader@.pending).frames,
            latest == last_timestamp(taken),
        decreases reader@.pending.len(),
    {
        proof {
            lemma_front_record(reader@.pending, false);
        }
        let ghost pending = reader@.pending;
        match reader.read_frame() {
            Ok(Some(frame)) => {
                proof {
                    let more = drained(reader@.pending).frames;
                    assert(taken + (seq![frame@] + more) =~= taken.push(frame@) + more);
                    assert(taken.push(frame@).drop_last() =~= taken);
                    taken = taken.push(frame@);
                }
                match frame {
                    Frame::Timestamp(data) => {
                        latest = Some(data.timestamp);
                    },
                    _ => {},
                }
            },
            _ => {
                proof {
                    assert(drained(pending).frames =~= Seq::empty());
                    assert(taken + Seq::<FrameView>::empty() =~= taken);
                }
                return latest;
            },
        }
    }
}

/// What a player is answered that asks for an asset.
#[derive(Debug, Clone, PartialEq, Eq)]
pub enum AssetResponse {
    /// The bytes of the asset, with its content hash and its MIME type.
    Found { hash: String, data: Vec<u8>, mime: String },
    /// No asset goes by the name.
    NotFound,
    /// The index failed to answer.
    DatabaseError,
}

/// How long a player may keep an asset: for good, since the bytes under a
/// name never change.
pub const ASSET_CACHE_CONTROL: &'static str = "public, max-age=31536000, immutable";

/// The MIME type under which an asset is handed out of which the index
/// holds none.
pub open spec fn fallback_mime() -> Seq<char> {
    "application/octet-stream"@
}

/// What a player is answered, given the content hash that the index holds
/// for the name it asked for, what the store gave for that hash, and what
/// the index holds of the asset.
///
/// Bytes that the store cannot give are not found. An asset of which the
/// index holds no MIME type, or does not say it, is handed out as
/// `application/octet-stream`.
pub fn answer_asset(
    hash: String,
    data: Result<Vec<u8>, AssetError>,
    metadata: Result<Option<(String, u64)>, AssetError>,
) -> (r: AssetResponse)
    ensures
        match data {
            Ok(bytes) => {
                &&& r matches AssetResponse::Found { hash: h, data: d, mime }
                &&& h@ == hash@
                &&& d@ == bytes@
                &&& mime@ == match metadata {
                    Ok(Some(found)) => found.0@,
                    _ => fallback_mime(),
                }
            },
            Err(_) => r is NotFound,
        },
{
    let data = match data {
        Ok(data) => data,
        Err(_) => {
            return AssetResponse::NotFound;
        },
    };
    let mime = match metadata {
        Ok(Some((mime, _))) => mime,
        _ => "application/octet-stream".to_owned(),
    };
    AssetResponse::Found { hash, data, mime }
}

/// The content hash that the index holds for a name, given what it answered
/// when asked; else what the player is answered at once: that nothing was
/// found where the index does not know the name, and that the database
/// failed where the index did not answer.
pub fn resolved_hash(resolved: Result<Option<String>, AssetError>) -> (r: Result<
    String,
    AssetResponse,
>)
    ensures
        match resolved {
            Ok(Some(hash)) => r matches Ok(h) && h@ == hash@,
            Ok(None) => r matches Err(answer) && answer is NotFound,
            Err(_) => r matches Err(answer) && answer is DatabaseError,
        },
{
    match resolved {
        Ok(Some(hash)) => Ok(hash),
        Ok(None) => Err(AssetResponse::NotFound),
        Err(_) => Err(AssetResponse::DatabaseError),
    }
}

/// The asset that goes by a random id: the bytes that the store holds under
/// the content hash that the index holds for the id.
///
/// A name that the index does not know finds nothing, and neither does one
/// whose bytes the store cannot give. Both stores are only asked.
pub fn get_asset<M: MetadataStore, S: AssetFileStore>(
    storage: &StorageState<M, S>,
    random_id: &str,
) -> (r: AssetResponse)
    ensures
        r matches AssetResponse::Found { hash, data, mime } ==> {
            &&& storage.metadata_store.assets().contains_key(hash@)
            &&& storage.metadata_store.assets()[hash@].random_id == random_id@
            &&& storage.asset_file_store.blobs().contains_key(hash@)
            &&& data@ == storage.asset_file_store.blobs()[hash@]
        },
{
    let hash = match resolved_hash(storage.metadata_store.resolve_random_id(random_id)) {
        Ok(hash) => hash,
        Err(answer) => {
            return answer;
        },
    };
    let data = storage.asset_file_store.get(hash.as_str());
    let metadata = storage.metadata_store.get_asset_metadata(random_id);
    answer_asset(hash, data, metadata)
}

} // verus!
