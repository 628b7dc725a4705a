//! The asset cache: a content-addressed store of asset bytes, an index of
//! what is stored, and the rules that keep the two together.

pub mod fetcher;
pub mod hash;
pub mod local;
pub mod manifest;
pub mod origin;
pub mod playback;

use vstd::prelude::*;
use crate::asset_cache::hash::content_hash;
use crate::asset_cache::hash::generate_random_id;
use crate::asset_cache::hash::is_random_id;
use crate::asset_cache::origin::site_origin;
use crate::text::join;

verus! {

/// What went wrong in the asset cache.
#[derive(Debug, Clone, PartialEq, Eq)]
pub enum AssetError {
    /// The store of asset bytes failed, or an asset could not be fetched.
    Storage(String),
    /// The index of assets failed.
    Database(String),
    /// Fetched content does not have the hash that the recorder named.
    HashMismatch { expected: String, actual: String },
    /// No asset goes by the given name.
    NotFound(String),
    /// The text is no URL.
    InvalidUrl(String),
    /// Reading or writing failed.
    Io(String),
}

/// The value that an [`AssetError`] stands for.
pub enum AssetErrorView {
    Storage(Seq<char>),
    Database(Seq<char>),
    HashMismatch { expected: Seq<char>, actual: Seq<char> },
    NotFound(Seq<char>),
    InvalidUrl(Seq<char>),
    Io(Seq<char>),
}

impl DeepView for AssetError {
    type V = AssetErrorView;

    open spec fn deep_view(&self) -> AssetErrorView {
        match self {
            AssetError::Storage(m) => AssetErrorView::Storage(m@),
            AssetError::Database(m) => AssetErrorView::Database(m@),
            AssetError::HashMismatch { expected, actual } => AssetErrorView::HashMismatch {
                expected: expected@,
                actual: actual@,
            },
            AssetError::NotFound(m) => AssetErrorView::NotFound(m@),
            AssetError::InvalidUrl(m) => AssetErrorView::InvalidUrl(m@),
            AssetError::Io(m) => AssetErrorView::Io(m@),
        }
    }
}

impl View for AssetError {
    type V = AssetErrorView;

    open spec fn view(&self) -> AssetErrorView {
        self.deep_view()
    }
}

impl AssetError {
    /// A copy of the error.
    pub fn copy(&self) -> (r: AssetError)
        ensures
            r@ == self@,
    {
        match self {
            AssetError::Storage(m) => AssetError::Storage(m.clone()),
            AssetError::Database(m) => AssetError::Database(m.clone()),
            AssetError::HashMismatch { expected, actual } => AssetError::HashMismatch {
                expected: expected.clone(),
                actual: actual.clone(),
            },
            AssetError::NotFound(m) => AssetError::NotFound(m.clone()),
            AssetError::InvalidUrl(m) => AssetError::InvalidUrl(m.clone()),
            AssetError::Io(m) => AssetError::Io(m.clone()),
        }
    }
}

impl AssetErrorView {
    /// The error in words.
    pub open spec fn message(self) -> Seq<char> {
        match self {
            AssetErrorView::Storage(m) => "Storage error: "@ + m,
            AssetErrorView::Database(m) => "Database error: "@ + m,
            AssetErrorView::HashMismatch { expected, actual } => "Hash mismatch: expected "@
                + expected + ", got "@ + actual,
            AssetErrorView::NotFound(m) => "Asset not found: "@ + m,
            AssetErrorView::InvalidUrl(m) => "Invalid URL: "@ + m,
            AssetErrorView::Io(m) => "IO error: "@ + m,
        }
    }
}

impl AssetError {
    /// The error in words.
    pub fn message(&self) -> (text: String)
        ensures
            text@ == self@.message(),
    {
        match self {
            AssetError::Storage(m) => join("Storage error: ", m.as_str()),
            AssetError::Database(m) => join("Database error: ", m.as_str()),
            AssetError::HashMismatch { expected, actual } => {
                let mut text = join("Hash mismatch: expected ", expected.as_str());
                text.append(", got ");
                text.append(actual.as_str());
                text
            },
            AssetError::NotFound(m) => join("Asset not found: ", m.as_str()),
            AssetError::InvalidUrl(m) => join("Invalid URL: ", m.as_str()),
            AssetError::Io(m) => join("IO error: ", m.as_str()),
        }
    }
}

/// The site that a recording belongs to.
#[derive(Debug, Clone, PartialEq, Eq)]
pub struct SiteInfo {
    /// The origin of the site: scheme, host and port.
    pub origin: String,
    /// The URL that the recording started at.
    pub initial_url: String,
}

/// The value that a [`SiteInfo`] stands for.
pub struct SiteInfoView {
    pub origin: Seq<char>,
    pub initial_url: Seq<char>,
}

impl DeepView for SiteInfo {
    type V = SiteInfoView;

    open spec fn deep_view(&self) -> SiteInfoView {
        SiteInfoView {
            origin: self.origin@,
            initial_url: self.initial_url@,
        }
    }
}

impl View for SiteInfo {
    type V = SiteInfoView;

    open spec fn view(&self) -> SiteInfoView {
        self.deep_view()
    }
}

/// One asset of a site that the server holds, as a recorder is told of it.
#[derive(Debug, Clone, PartialEq, Eq)]
pub struct ManifestEntry {
    /// The URL of the asset.
    pub url: String,
    /// The content hash of the asset.
    pub sha256_hash: String,
}

/// The value that a [`ManifestEntry`] stands for.
pub struct ManifestEntryView {
    pub url: Seq<char>,
    pub sha256_hash: Seq<char>,
}

impl DeepView for ManifestEntry {
    type V = ManifestEntryView;

    open spec fn deep_view(&self) -> ManifestEntryView {
        ManifestEntryView {
            url: self.url@,
            sha256_hash: self.sha256_hash@,
        }
    }
}

impl View for ManifestEntry {
    type V = ManifestEntryView;

    open spec fn view(&self) -> ManifestEntryView {
        self.deep_view()
    }
}

/// One use of an asset on a site.
#[derive(Debug, Clone, PartialEq, Eq)]
pub struct AssetUsageParams {
    /// The origin of the site.
    pub site_origin: String,
    /// The URL of the asset.
    pub url: String,
    /// The content hash of the asset.
    pub sha256_hash: String,
    /// The size of the asset in bytes, 0 where it is not known.
    pub size: u64,
}

/// The value that a [`AssetUsageParams`] stands for.
pub struct AssetUsageParamsView {
    pub site_origin: Seq<char>,
    pub url: Seq<char>,
    pub sha256_hash: Seq<char>,
    pub size: u64,
}

impl DeepView for AssetUsageParams {
    type V = AssetUsageParamsView;

    open spec fn deep_view(&self) -> AssetUsageParamsView {
        AssetUsageParamsView {
            site_origin: self.site_origin@,
            url: self.url@,
            sha256_hash: self.sha256_hash@,
            size: self.size,
        }
    }
}

impl View for AssetUsageParams {
    type V = AssetUsageParamsView;

    open spec fn view(&self) -> AssetUsageParamsView {
        self.deep_view()
    }
}

/// What the index holds of one stored asset.
#[derive(Debug, Clone, PartialEq, Eq)]
pub struct AssetMetadata {
    /// The content hash: the key of the asset in both stores.
    pub sha256_hash: String,
    /// The random id: the name under which players fetch the asset.
    pub random_id: String,
    /// The size of the asset in bytes.
    pub size: u64,
    /// The MIME type of the asset.
    pub mime_type: String,
}

/// The value that a [`AssetMetadata`] stands for.
pub struct AssetMetadataView {
    pub sha256_hash: Seq<char>,
    pub random_id: Seq<char>,
    pub size: u64,
    pub mime_type: Seq<char>,
}

impl DeepView for AssetMetadata {
    type V = AssetMetadataView;

    open spec fn deep_view(&self) -> AssetMetadataView {
        AssetMetadataView {
            sha256_hash: self.sha256_hash@,
            random_id: self.random_id@,
            size: self.size,
            mime_type: self.mime_type@,
        }
    }
}

impl View for AssetMetadata {
    type V = AssetMetadataView;

    open spec fn view(&self) -> AssetMetadataView {
        self.deep_view()
    }
}

/// What the index holds of one asset, beside its content hash.
pub struct AssetRow {
    pub random_id: Seq<char>,
    pub size: u64,
    pub mime_type: Seq<char>,
}

impl AssetMetadataView {
    /// The row that the metadata makes in the index.
    pub open spec fn row(self) -> AssetRow {
        AssetRow { random_id: self.random_id, size: self.size, mime_type: self.mime_type }
    }
}

/// A site, a URL and a content hash: what a count of uses is kept for.
pub type UsageKey = (Seq<char>, Seq<char>, Seq<char>);

/// How often the asset was seen on the site; 0 where it never was.
pub open spec fn uses(usage: Map<UsageKey, nat>, key: UsageKey) -> nat {
    if usage.contains_key(key) {
        usage[key]
    } else {
        0
    }
}

/// No count of uses has gone down from `before` to `after`.
pub open spec fn usage_kept(before: Map<UsageKey, nat>, after: Map<UsageKey, nat>) -> bool {
    forall|key: UsageKey| #[trigger]
        before.contains_key(key) ==> after.contains_key(key) && after[key] >= before[key]
}

/// All rows of `after` but the one of `hash` stood in `before` as they are.
pub open spec fn other_rows_kept(
    before: Map<Seq<char>, AssetRow>,
    after: Map<Seq<char>, AssetRow>,
    hash: Seq<char>,
) -> bool {
    forall|other: Seq<char>| #[trigger]
        after.contains_key(other) && other != hash ==> before.contains_key(other) && after[other]
            == before[other]
}

/// `a` comes before `b` in the order of the dictionary, or is `b`.
pub open spec fn text_le(a: Seq<char>, b: Seq<char>) -> bool
    decreases a.len(),
{
    if a.len() == 0 {
        true
    } else if b.len() == 0 {
        false
    } else if a[0] != b[0] {
        (a[0] as u32) < (b[0] as u32)
    } else {
        text_le(a.drop_first(), b.drop_first())
    }
}

/// How a manifest ranks an asset of a site: by how often it was used, then
/// by its size, then by its URL.
pub struct Rank {
    pub uses: nat,
    pub size: u64,
    pub url: Seq<char>,
}

impl Rank {
    /// `self` stands in a manifest before `other`, or may stand on either
    /// side of it: more uses first, then the larger size, then the URL that
    /// comes first.
    pub open spec fn before_or_same(self, other: Rank) -> bool {
        if self.uses != other.uses {
            self.uses > other.uses
        } else if self.size != other.size {
            self.size > other.size
        } else {
            text_le(self.url, other.url)
        }
    }
}

/// The rank of an entry among the assets of a site.
pub open spec fn rank_of(
    entry: ManifestEntryView,
    site: Seq<char>,
    assets: Map<Seq<char>, AssetRow>,
    usage: Map<UsageKey, nat>,
) -> Rank {
    Rank {
        uses: uses(usage, (site, entry.url, entry.sha256_hash)),
        size: assets[entry.sha256_hash].size,
        url: entry.url,
    }
}

/// The entry names an asset that is stored and was used on the site.
pub open spec fn is_site_asset(
    entry: ManifestEntryView,
    site: Seq<char>,
    assets: Map<Seq<char>, AssetRow>,
    usage: Map<UsageKey, nat>,
) -> bool {
    usage.contains_key((site, entry.url, entry.sha256_hash)) && assets.contains_key(
        entry.sha256_hash,
    )
}

/// `entries` is the manifest of a site: at most `limit` of its assets, the
/// highest in rank, in the order of their rank.
pub open spec fn is_manifest(
    entries: Seq<ManifestEntryView>,
    site: Seq<char>,
    limit: nat,
    assets: Map<Seq<char>, AssetRow>,
    usage: Map<UsageKey, nat>,
) -> bool {
    &&& entries.len() <= limit
    &&& forall|i: int|
        0 <= i < entries.len() ==> is_site_asset(#[trigger] entries[i], site, assets, usage)
    &&& forall|i: int, j: int|
        0 <= i < j < entries.len() ==> rank_of(entries[i], site, assets, usage).before_or_same(
            rank_of(entries[j], site, assets, usage),
        )
    &&& forall|e: ManifestEntryView| #[trigger]
        is_site_asset(e, site, assets, usage) && !entries.contains(e) ==> entries.len() == limit
            && forall|i: int|
            0 <= i < entries.len() ==> rank_of(
                #[trigger] entries[i],
                site,
                assets,
                usage,
            ).before_or_same(rank_of(e, site, assets, usage))
}

/// The index of the asset cache: which assets are stored, under which random
/// id, and how often each was used on each site.
///
/// The contracts of the methods say what this library relies on. They are
/// stated over two maps that stand for what the index holds. An index that
/// is written in verified code says what its maps are; of any other, no
/// more is known of them than the contracts say.
pub trait MetadataStore {
    /// The stored assets, by content hash.
    open spec fn assets(&self) -> Map<Seq<char>, AssetRow> {
        arbitrary()
    }

    /// How often each asset was used on each site.
    open spec fn usage(&self) -> Map<UsageKey, nat> {
        arbitrary()
    }

    /// The site of each recording, by the id of the recording.
    open spec fn recordings(&self) -> Map<Seq<char>, SiteInfoView> {
        arbitrary()
    }

    /// Records that a recording started at `initial_url`, and says which site
    /// it belongs to. A text that is no URL is refused.
    fn register_recording(&mut self, recording_id: &str, initial_url: &str) -> (r: Result<
        SiteInfo,
        AssetError,
    >)
        ensures
            final(self).assets() == old(self).assets(),
            final(self).usage() == old(self).usage(),
            r matches Ok(info) ==> info@.initial_url == initial_url@ && site_origin(initial_url@)
                == Some(info@.origin),
            r matches Ok(info) ==> final(self).recordings() == old(self).recordings().insert(
                recording_id@,
                info@,
            ),
            r is Err ==> final(self).recordings() == old(self).recordings(),
            site_origin(initial_url@) is None ==> r is Err,
    ;

    /// The manifest of a site: at most `limit` of its assets, those used
    /// most, then the largest, first.
    fn get_site_manifest(&self, site_origin: &str, limit: usize) -> (r: Result<
        Vec<ManifestEntry>,
        AssetError,
    >)
        ensures
            r matches Ok(entries) ==> is_manifest(
                entries.deep_view(),
                site_origin@,
                limit as nat,
                self.assets(),
                self.usage(),
            ),
    ;

    /// The random id of the asset with the given content hash, `None` where
    /// no such asset is stored.
    fn resolve_hashes(&self, sha256: &str) -> (r: Result<Option<String>, AssetError>)
        ensures
            r matches Ok(Some(id)) ==> self.assets().contains_key(sha256@)
                && self.assets()[sha256@].random_id == id@,
            r matches Ok(None) ==> !self.assets().contains_key(sha256@),
    ;

    /// The content hash of the asset with the given random id, `None` where
    /// no such asset is stored.
    fn resolve_random_id(&self, random_id: &str) -> (r: Result<Option<String>, AssetError>)
        ensures
            r matches Ok(Some(hash)) ==> self.assets().contains_key(hash@)
                && self.assets()[hash@].random_id == random_id@,
            r matches Ok(None) ==> forall|hash: Seq<char>| #[trigger]
                self.assets().contains_key(hash) ==> self.assets()[hash].random_id != random_id@,
    ;

    /// Counts one more use of an asset on a site.
    fn register_asset_usage(&mut self, params: AssetUsageParams) -> (r: Result<(), AssetError>)
        ensures
            final(self).recordings() == old(self).recordings(),
            final(self).assets() == old(self).assets(),
            r is Ok ==> final(self).usage() == old(self).usage().insert(
                (params@.site_origin, params@.url, params@.sha256_hash),
                uses(old(self).usage(), (params@.site_origin, params@.url, params@.sha256_hash))
                    + 1,
            ),
            r is Err ==> usage_kept(old(self).usage(), final(self).usage()),
    ;

    /// Stores the row of an asset, in place of the row that its content hash
    /// had. Were the random id in use for another asset, that row would go.
    fn store_asset_metadata(&mut self, metadata: AssetMetadata) -> (r: Result<(), AssetError>)
        ensures
            final(self).recordings() == old(self).recordings(),
            final(self).usage() == old(self).usage(),
            r is Ok ==> final(self).assets().contains_key(metadata@.sha256_hash),
            r is Ok ==> final(self).assets()[metadata@.sha256_hash] == metadata@.row(),
            r is Ok ==> other_rows_kept(
                old(self).assets(),
                final(self).assets(),
                metadata@.sha256_hash,
            ),
            r is Err ==> final(self).assets() == old(self).assets(),
    ;

    /// The MIME type and the size of the asset with the given random id,
    /// `None` where no such asset is stored.
    fn get_asset_metadata(&self, random_id: &str) -> (r: Result<Option<(String, u64)>, AssetError>)
        ensures
            r matches Ok(Some(found)) ==> exists|hash: Seq<char>| #[trigger]
                self.assets().contains_key(hash) && self.assets()[hash] == (AssetRow {
                    random_id: random_id@,
                    size: found.1,
                    mime_type: found.0@,
                }),
            r matches Ok(None) ==> forall|hash: Seq<char>| #[trigger]
                self.assets().contains_key(hash) ==> self.assets()[hash].random_id != random_id@,
    ;

    /// The MIME type of the asset with the given random id, `None` where no
    /// such asset is stored.
    fn get_asset_mime_type(&self, random_id: &str) -> (r: Result<Option<String>, AssetError>)
        ensures
            r matches Ok(Some(mime)) ==> exists|hash: Seq<char>| #[trigger]
                self.assets().contains_key(hash) && self.assets()[hash].random_id == random_id@
                    && self.assets()[hash].mime_type == mime@,
            r matches Ok(None) ==> forall|hash: Seq<char>| #[trigger]
                self.assets().contains_key(hash) ==> self.assets()[hash].random_id != random_id@,
    ;
}

/// The store of asset bytes, keyed by content hash.
///
/// The contracts of the methods say what this library relies on. They are
/// stated over a map that stands for what the store holds. A store that is
/// written in verified code says what its map is; of any other, no more is
/// known of it than the contracts say.
pub trait AssetFileStore {
    /// The stored bytes, by content hash.
    open spec fn blobs(&self) -> Map<Seq<char>, Seq<u8>> {
        arbitrary()
    }

    /// Stores the bytes under the hash: all of them, or nothing.
    fn put(&mut self, hash: &str, data: &[u8], mime: &str) -> (r: Result<(), AssetError>)
        ensures
            r is Ok ==> final(self).blobs() == old(self).blobs().insert(hash@, data@),
            r is Err ==> final(self).blobs() == old(self).blobs(),
    ;

    /// Whether bytes are stored under the hash.
    fn blob_exists(&self, hash: &str) -> (r: Result<bool, AssetError>)
        ensures
            r matches Ok(found) ==> found == self.blobs().contains_key(hash@),
    ;

    /// The store hands out the asset of the given name at the given URL. A
    /// store may hand out one asset at more than one URL, and at another one
    /// each time it is asked.
    open spec fn serves(&self, name: Seq<char>, url: Seq<char>) -> bool {
        arbitrary()
    }

    /// The kind of the store.
    open spec fn kind(&self) -> Seq<char> {
        arbitrary()
    }

    /// What a player has to know of the store, as JSON.
    open spec fn config(&self) -> Seq<char> {
        arbitrary()
    }

    /// A URL at which a player finds the asset of the given name.
    fn resolve_url(&self, hash: &str) -> (r: Result<String, AssetError>)
        ensures
            r matches Ok(url) ==> self.serves(hash@, url@),
    ;

    /// The bytes stored under the hash.
    fn get(&self, hash: &str) -> (r: Result<Vec<u8>, AssetError>)
        ensures
            r matches Ok(data) ==> self.blobs().contains_key(hash@) && data@ == self.blobs()[hash@],
    ;

    /// The kind of the store, such as `local`.
    fn storage_type(&self) -> (kind: String)
        ensures
            kind@ == self.kind(),
    ;

    /// What a player has to know of the store, as JSON.
    fn config_json(&self) -> (r: Result<String, AssetError>)
        ensures
            r matches Ok(json) ==> json@ == self.config(),
    ;
}

/// What is to be done to have an asset in both stores.
#[derive(Debug, Clone, PartialEq, Eq)]
pub enum StorePlan {
    /// Both stores have the asset: its random id is the answer.
    UseExisting(String),
    /// The index has the asset and the bytes are gone: the bytes are stored
    /// again and the row is written anew under its random id.
    RestoreBlob(String),
    /// The bytes are stored and the index has no row: a row is made under a
    /// new random id.
    AddMetadata,
    /// Neither store has the asset: the bytes are stored and a row is made
    /// under a new random id.
    StoreNew,
}

/// The value that a [`StorePlan`] stands for.
pub enum StorePlanView {
    UseExisting(Seq<char>),
    RestoreBlob(Seq<char>),
    AddMetadata,
    StoreNew,
}

impl View for StorePlan {
    type V = StorePlanView;

    open spec fn view(&self) -> StorePlanView {
        match self {
            StorePlan::UseExisting(id) => StorePlanView::UseExisting(id@),
            StorePlan::RestoreBlob(id) => StorePlanView::RestoreBlob(id@),
            StorePlan::AddMetadata => StorePlanView::AddMetadata,
            StorePlan::StoreNew => StorePlanView::StoreNew,
        }
    }
}

/// What is to be done for an asset, given whether its bytes are stored and
/// what the index answered when asked for its random id. An index that
/// failed to answer counts as one that has no row.
pub fn plan_store(stored: bool, resolved: Result<Option<String>, AssetError>) -> (plan: StorePlan)
    ensures
        plan@ == match (stored, resolved) {
            (true, Ok(Some(id))) => StorePlanView::UseExisting(id@),
            (true, _) => StorePlanView::AddMetadata,
            (false, Ok(Some(id))) => StorePlanView::RestoreBlob(id@),
            (false, _) => StorePlanView::StoreNew,
        },
{
    match resolved {
        Ok(Some(id)) => {
            if stored {
                StorePlan::UseExisting(id)
            } else {
                StorePlan::RestoreBlob(id)
            }
        },
        _ => {
            if stored {
                StorePlan::AddMetadata
            } else {
                StorePlan::StoreNew
            }
        },
    }
}

/// Every asset of the index goes by a random id of the due form.
pub open spec fn ids_well_formed(assets: Map<Seq<char>, AssetRow>) -> bool {
    forall|hash: Seq<char>| #[trigger]
        assets.contains_key(hash) ==> is_random_id(assets[hash].random_id)
}

/// All bytes of the store lie under their content hash.
pub open spec fn blobs_hashed(blobs: Map<Seq<char>, Seq<u8>>) -> bool {
    forall|hash: Seq<char>| #[trigger]
        blobs.contains_key(hash) ==> hash == content_hash(blobs[hash])
}

/// Every asset that the index knows has its bytes in the store.
pub open spec fn rows_have_bytes(
    assets: Map<Seq<char>, AssetRow>,
    blobs: Map<Seq<char>, Seq<u8>>,
) -> bool {
    forall|hash: Seq<char>| #[trigger] assets.contains_key(hash) ==> blobs.contains_key(hash)
}

/// The bytes of `after` are those of `before`, but that `data` may have been
/// put under `hash`.
pub open spec fn blob_kept_or_put(
    before: Map<Seq<char>, Seq<u8>>,
    after: Map<Seq<char>, Seq<u8>>,
    hash: Seq<char>,
    data: Seq<u8>,
) -> bool {
    after == before || after == before.insert(hash, data)
}

/// The bytes of `after` are those of `before`, with `data` under `hash`
/// where `before` had nothing there.
pub open spec fn blob_ensured(
    before: Map<Seq<char>, Seq<u8>>,
    after: Map<Seq<char>, Seq<u8>>,
    hash: Seq<char>,
    data: Seq<u8>,
) -> bool {
    if before.contains_key(hash) {
        after == before
    } else {
        after == before.insert(hash, data)
    }
}

/// The row of an asset of the given name, size and MIME type.
pub open spec fn new_row(id: Seq<char>, data: Seq<u8>, mime_type: Seq<char>) -> AssetRow {
    AssetRow { random_id: id, size: data.len() as u64, mime_type }
}

/// The index holds the asset under the random id `id` once it was seen to;
/// `blobs` are the bytes that were stored before.
///
/// Its row is the one that was made for it, with the size of the bytes and
/// the given MIME type, or the row that was there. The row that was there
/// stays only for an asset whose bytes were stored: where they were gone,
/// the row is written anew, with the size of the bytes that are put back. An
/// asset that is new to the index goes by a new random id; one that the
/// index had keeps its id, or gets a new one where the index did not say
/// which it had. All other rows are as they were.
pub open spec fn row_ensured(
    before: Map<Seq<char>, AssetRow>,
    after: Map<Seq<char>, AssetRow>,
    blobs: Map<Seq<char>, Seq<u8>>,
    hash: Seq<char>,
    id: Seq<char>,
    data: Seq<u8>,
    mime_type: Seq<char>,
) -> bool {
    &&& after.contains_key(hash)
    &&& after[hash].random_id == id
    &&& other_rows_kept(before, after, hash)
    &&& if before.contains_key(hash) {
        &&& after[hash] == new_row(id, data, mime_type) || (blobs.contains_key(hash)
            && after[hash] == before[hash])
        &&& id == before[hash].random_id || is_random_id(id)
    } else {
        is_random_id(id) && after[hash] == new_row(id, data, mime_type)
    }
}

/// Does what a plan says, and gives the random id of the asset.
///
/// An asset that both stores have is left as it is. Bytes that are gone are
/// stored again, and the row is written anew under its random id. An asset
/// without a row gets one under a new random id, and its bytes are stored
/// where they are not there. The bytes are stored before the row is made,
/// so that a row that is made has its bytes, unless the plan adds a row for
/// bytes that are not there.
pub fn carry_out<M: MetadataStore, S: AssetFileStore>(
    plan: StorePlan,
    sha256_hash: &str,
    data: &[u8],
    mime_type: &str,
    metadata_store: &mut M,
    asset_file_store: &mut S,
) -> (r: Result<String, AssetError>)
    ensures
        final(metadata_store).usage() == old(metadata_store).usage(),
        final(metadata_store).recordings() == old(metadata_store).recordings(),
        sha256_hash@ == content_hash(data@) && blobs_hashed(old(asset_file_store).blobs())
            ==> blobs_hashed(final(asset_file_store).blobs()),
        rows_have_bytes(old(metadata_store).assets(), old(asset_file_store).blobs()) && (plan@
            is AddMetadata ==> old(asset_file_store).blobs().contains_key(sha256_hash@))
            ==> rows_have_bytes(final(metadata_store).assets(), final(asset_file_store).blobs()),
        match plan@ {
            StorePlanView::UseExisting(id) => {
                &&& r matches Ok(given) && given@ == id
                &&& final(metadata_store).assets() == old(metadata_store).assets()
                &&& final(asset_file_store).blobs() == old(asset_file_store).blobs()
            },
            StorePlanView::AddMetadata => {
                &&& final(asset_file_store).blobs() == old(asset_file_store).blobs()
                &&& r matches Ok(given) ==> is_random_id(given@)
            },
            StorePlanView::RestoreBlob(id) => {
                &&& r matches Ok(given) ==> given@ == id && final(asset_file_store).blobs() == old(
                    asset_file_store,
                ).blobs().insert(sha256_hash@, data@)
            },
            StorePlanView::StoreNew => {
                &&& r matches Ok(given) ==> is_random_id(given@) && final(asset_file_store).blobs()
                    == old(asset_file_store).blobs().insert(sha256_hash@, data@)
            },
        },
        blob_kept_or_put(
            old(asset_file_store).blobs(),
            final(asset_file_store).blobs(),
            sha256_hash@,
            data@,
        ),
        match r {
            Ok(given) => !(plan@ is UseExisting) ==> {
                &&& final(metadata_store).assets().contains_key(sha256_hash@)
                &&& final(metadata_store).assets()[sha256_hash@] == new_row(
                    given@,
                    data@,
                    mime_type@,
                )
                &&& other_rows_kept(
                    old(metadata_store).assets(),
                    final(metadata_store).assets(),
                    sha256_hash@,
                )
            },
            Err(_) => final(metadata_store).assets() == old(metadata_store).assets(),
        },
{
    let size: u64 = data.len() as u64;
    let random_id = match plan {
        StorePlan::UseExisting(id) => {
            return Ok(id);
        },
        StorePlan::RestoreBlob(id) => {
            asset_file_store.put(sha256_hash, data, mime_type)?;
            id
        },
        StorePlan::AddMetadata => generate_random_id(),
        StorePlan::StoreNew => {
            let id = generate_random_id();
            asset_file_store.put(sha256_hash, data, mime_type)?;
            id
        },
    };
    let metadata = AssetMetadata {
        sha256_hash: sha256_hash.to_owned(),
        random_id: random_id.clone(),
        size,
        mime_type: mime_type.to_owned(),
    };
    metadata_store.store_asset_metadata(metadata)?;
    Ok(random_id)
}

/// Sees to it that an asset is in both stores, and gives its random id.
///
/// The stores are asked whether the bytes are stored and which random id the
/// index holds; what they say makes the plan, and the plan is carried out.
/// So an asset that both stores have keeps its random id and its row. Where
/// only the index has it, the bytes are stored again and the row is written
/// anew, with the size of the bytes; where only the bytes are there, or
/// nothing, it gets a row under a new random id. No count of uses changes, and an
/// index whose random ids are of the due form stays such an index. A store
/// whose bytes all lie under their content hash stays such a store, where
/// the hash that is given is that of the bytes.
pub fn store_or_get_asset_metadata<M: MetadataStore, S: AssetFileStore>(
    sha256_hash: &str,
    data: &[u8],
    mime_type: &str,
    metadata_store: &mut M,
    asset_file_store: &mut S,
) -> (r: Result<String, AssetError>)
    ensures
        final(metadata_store).usage() == old(metadata_store).usage(),
        final(metadata_store).recordings() == old(metadata_store).recordings(),
        ids_well_formed(old(metadata_store).assets()) ==> ids_well_formed(
            final(metadata_store).assets(),
        ),
        sha256_hash@ == content_hash(data@) && blobs_hashed(old(asset_file_store).blobs())
            ==> blobs_hashed(final(asset_file_store).blobs()),
        rows_have_bytes(
            old(metadata_store).assets(),
            old(asset_file_store).blobs(),
        ) ==> rows_have_bytes(
            final(metadata_store).assets(),
            final(asset_file_store).blobs(),
        ),
        blob_kept_or_put(
            old(asset_file_store).blobs(),
            final(asset_file_store).blobs(),
            sha256_hash@,
            data@,
        ),
        old(asset_file_store).blobs().contains_key(sha256_hash@) ==> final(asset_file_store).blobs()
            == old(asset_file_store).blobs(),
        match r {
            Ok(id) => {
                &&& blob_ensured(
                    old(asset_file_store).blobs(),
                    final(asset_file_store).blobs(),
                    sha256_hash@,
                    data@,
                )
                &&& row_ensured(
                    old(metadata_store).assets(),
                    final(metadata_store).assets(),
                    old(asset_file_store).blobs(),
                    sha256_hash@,
                    id@,
                    data@,
                    mime_type@,
                )
            },
            Err(_) => final(metadata_store).assets() == old(metadata_store).assets(),
        },
{
    let stored = asset_file_store.blob_exists(sha256_hash)?;
    let resolved = metadata_store.resolve_hashes(sha256_hash);
    let plan = plan_store(stored, resolved);
    carry_out(plan, sha256_hash, data, mime_type, metadata_store, asset_file_store)
}

} // verus!
