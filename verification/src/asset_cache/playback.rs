//! What a player is sent in place of the asset frames of a recording: frames
//! that name the URL at which the asset is handed out.

use vstd::prelude::*;
use crate::asset_cache::hash::content_hash;
use crate::asset_cache::hash::sha256;
use crate::asset_cache::AssetError;
use crate::asset_cache::AssetFileStore;
use crate::asset_cache::MetadataStore;
use crate::frame::AssetData;
use crate::frame::AssetDataView;
use crate::frame::AssetFetchError;
use crate::frame::AssetFetchErrorView;
use crate::frame::Frame;
use crate::frame::FrameView;
use crate::text::join;
use crate::text::starts_with;

verus! {

/// The URL names its server: it starts with `http://` or `https://`.
pub open spec fn is_absolute(url: Seq<char>) -> bool {
    "http://"@.is_prefix_of(url) || "https://"@.is_prefix_of(url)
}

/// The URL as a player can fetch it: a URL that names its server as it is,
/// any other behind the base URL.
pub open spec fn full_url(url: Seq<char>, base_url: Seq<char>) -> Seq<char> {
    if is_absolute(url) {
        url
    } else {
        base_url + url
    }
}

/// The URL as a player can fetch it.
pub fn absolute_url(url: String, base_url: &str) -> (full: String)
    ensures
        full@ == full_url(url@, base_url@),
{
    if starts_with(url.as_str(), "http://") || starts_with(url.as_str(), "https://") {
        url
    } else {
        join(base_url, url.as_str())
    }
}

/// The frame that sends a player to a URL for an asset: an asset frame
/// without bytes and without a fetch error.
pub open spec fn asset_at(asset_id: u32, url: Seq<char>, mime: Option<Seq<char>>) -> FrameView {
    FrameView::Asset(
        AssetDataView {
            asset_id,
            url,
            mime,
            buf: Seq::empty(),
            fetch_error: AssetFetchErrorView::NoError,
        },
    )
}

/// The frame sends a player for the asset to a URL at which the store hands
/// out the asset of the given name, made whole with the base URL.
pub open spec fn sends_to_store<S: AssetFileStore>(
    store: S,
    name: Seq<char>,
    sent: FrameView,
    asset_id: u32,
    mime: Option<Seq<char>>,
    base_url: Seq<char>,
) -> bool {
    exists|url: Seq<char>| #[trigger]
        store.serves(name, url) && sent == asset_at(asset_id, full_url(url, base_url), mime)
}

/// The frame sends a player for the asset to a URL that names its server or
/// starts with the base URL.
pub open spec fn sends_to_server(
    sent: FrameView,
    asset_id: u32,
    mime: Option<Seq<char>>,
    base_url: Seq<char>,
) -> bool {
    &&& sent matches FrameView::Asset(asset)
    &&& sent == asset_at(asset_id, asset.url, mime)
    &&& is_absolute(asset.url) || base_url.is_prefix_of(asset.url)
}

/// A frame that sends a player to the store sends it to a URL that names
/// its server or starts with the base URL.
pub proof fn lemma_sent_to_server<S: AssetFileStore>(
    store: S,
    name: Seq<char>,
    sent: FrameView,
    asset_id: u32,
    mime: Option<Seq<char>>,
    base_url: Seq<char>,
)
    requires
        sends_to_store(store, name, sent, asset_id, mime, base_url),
    ensures
        sends_to_server(sent, asset_id, mime, base_url),
{
    let url = choose|url: Seq<char>| #[trigger]
        store.serves(name, url) && sent == asset_at(asset_id, full_url(url, base_url), mime);
    assert(base_url.is_prefix_of(base_url + url));
}

/// The frame that sends a player to a URL for an asset.
pub fn asset_frame_at(asset_id: u32, url: String, mime: Option<String>) -> (frame: Frame)
    ensures
        frame@ == asset_at(asset_id, url@, mime.deep_view()),
{
    Frame::Asset(
        AssetData { asset_id, url, mime, buf: Vec::new(), fetch_error: AssetFetchError::NoError },
    )
}

/// Turns the frames of a recording into the frames that a player is sent.
pub struct PlaybackFrameTransformer<M: MetadataStore, S: AssetFileStore> {
    metadata_store: M,
    asset_file_store: S,
    base_url: String,
}

impl<M: MetadataStore, S: AssetFileStore> PlaybackFrameTransformer<M, S> {
    /// The index of the transformer.
    pub closed spec fn metadata_store(&self) -> M {
        self.metadata_store
    }

    /// The store of asset bytes of the transformer.
    pub closed spec fn asset_file_store(&self) -> S {
        self.asset_file_store
    }

    /// The base URL of the server that hands the assets out.
    pub closed spec fn base_url(&self) -> Seq<char> {
        self.base_url@
    }

    /// A transformer over the two stores, for a server at `base_url`.
    pub fn new(metadata_store: M, asset_file_store: S, base_url: String) -> (transformer: Self)
        ensures
            transformer.metadata_store() == metadata_store,
            transformer.asset_file_store() == asset_file_store,
            transformer.base_url() == base_url@,
    {
        PlaybackFrameTransformer { metadata_store, asset_file_store, base_url }
    }

    /// The frame that a player is sent for a frame of a recording.
    ///
    /// A reference to an asset becomes an asset frame without bytes, whose
    /// URL is one at which the store hands out the asset of that random id,
    /// made whole with the base URL. An asset frame with bytes that both
    /// stores have becomes such a frame too, for the random id under which
    /// the index knows the bytes; one that they do not have, and one without
    /// bytes, stays as it is, and so does every other frame.
    pub fn transform_frame(&self, frame: Frame) -> (r: Result<Frame, AssetError>)
        ensures
            match frame@ {
                FrameView::AssetReference(reference) => r matches Ok(sent) ==> sends_to_store(
                    self.asset_file_store(),
                    reference.hash,
                    sent@,
                    reference.asset_id,
                    reference.mime,
                    self.base_url(),
                ),
                FrameView::Asset(asset) => if asset.buf.len() == 0 {
                    r matches Ok(sent) && sent@ == frame@
                } else {
                    r matches Ok(sent) ==> {
                        let hash = content_hash(asset.buf);
                        if self.asset_file_store().blobs().contains_key(hash)
                            && self.metadata_store().assets().contains_key(hash) {
                            sends_to_store(
                                self.asset_file_store(),
                                self.metadata_store().assets()[hash].random_id,
                                sent@,
                                asset.asset_id,
                                asset.mime,
                                self.base_url(),
                            )
                        } else {
                            sent@ == frame@
                        }
                    }
                },
                _ => r matches Ok(sent) && sent@ == frame@,
            },
    {
        match frame {
            Frame::AssetReference(reference) => {
                let url = self.asset_file_store.resolve_url(reference.hash.as_str())?;
                let ghost found = url@;
                let full = absolute_url(url, self.base_url.as_str());
                let sent = asset_frame_at(reference.asset_id, full, reference.mime);
                assert(self.asset_file_store().serves(reference.hash@, found));
                Ok(sent)
            },
            Frame::Asset(asset) => {
                if asset.buf.len() == 0 {
                    return Ok(Frame::Asset(asset));
                }
                let hash = sha256(asset.buf.as_slice());
                if !self.asset_file_store.blob_exists(hash.as_str())? {
                    return Ok(Frame::Asset(asset));
                }
                match self.metadata_store.resolve_hashes(hash.as_str())? {
                    Some(random_id) => {
                        let url = self.asset_file_store.resolve_url(random_id.as_str())?;
                        let ghost found = url@;
                        let full = absolute_url(url, self.base_url.as_str());
                        let sent = asset_frame_at(asset.asset_id, full, asset.mime);
                        assert(self.asset_file_store().serves(random_id@, found));
                        Ok(sent)
                    },
                    None => Ok(Frame::Asset(asset)),
                }
            },
            other => Ok(other),
        }
    }
}

} // verus!
