//! The state that all recordings share: which of them are still written to,
//! and the two stores of the asset cache. With it, the rules by which the
//! frames of a recording are taken in.

use vstd::prelude::*;
use vstd::hash_map::StringHashMap;
use crate::asset_cache::blob_ensured;
use crate::asset_cache::blobs_hashed;
use crate::asset_cache::fetcher::cache_body;
use crate::asset_cache::fetcher::declared_mime;
use crate::asset_cache::fetcher::check_status;
use crate::asset_cache::fetcher::http_error;
use crate::asset_cache::fetcher::is_success;
use crate::asset_cache::fetcher::FetchResponse;
use crate::asset_cache::hash::content_hash;
use crate::asset_cache::hash::is_hex_char;
use crate::asset_cache::hash::is_random_id;
use crate::asset_cache::hash::sha256;
use crate::asset_cache::store_or_get_asset_metadata;
use crate::asset_cache::ids_well_formed;
use crate::asset_cache::blob_kept_or_put;
use crate::asset_cache::new_row;
use crate::asset_cache::row_ensured;
use crate::asset_cache::rows_have_bytes;
use crate::asset_cache::usage_kept;
use crate::asset_cache::uses;
use crate::asset_cache::UsageKey;
use crate::asset_cache::AssetError;
use crate::asset_cache::AssetErrorView;
use crate::asset_cache::AssetFileStore;
use crate::asset_cache::AssetRow;
use crate::asset_cache::AssetUsageParams;
use crate::asset_cache::MetadataStore;
use crate::frame::AssetData;
use crate::frame::AssetDataView;
use crate::frame::AssetFetchError;
use crate::frame::AssetReferenceData;
use crate::frame::AssetReferenceDataView;
use crate::frame::Frame;
use crate::frame::FrameView;
use crate::ingest::asset_url_of;
use crate::ingest::kept_for;
use crate::ingest::may_need_fetch;
use crate::ingest::passes_through;
use crate::text::join;
use crate::vdom::clone_optional;
use crate::text::text_eq;
use crate::writer::unix_millis;

verus! {

/// The end of the name of every session file.
pub open spec fn recording_suffix() -> Seq<char> {
    seq!['.', 'd', 'c', 'r', 'r']
}

/// The end that is added to the name of a session file that is set aside.
pub open spec fn failed_suffix() -> Seq<char> {
    seq!['.', 'f', 'a', 'i', 'l', 'e', 'd']
}

/// The file of this name is listed as a recording: the name ends in `.dcrr`
/// behind at least one character. A file that was set aside is not.
pub open spec fn is_recording_name(name: Seq<char>) -> bool {
    name.len() > 5 && name.subrange(name.len() - 5, name.len() as int) == recording_suffix()
}

/// Whether the file of this name is listed as a recording.
pub fn is_listed(name: &str) -> (listed: bool)
    ensures
        listed == is_recording_name(name@),
{
    let n: usize = name.unicode_len();
    if n <= 5 {
        return false;
    }
    let end = name.substring_char(n - 5, n);
    proof {
        reveal_strlit(".dcrr");
        assert(".dcrr"@ =~= recording_suffix());
    }
    text_eq(end, ".dcrr")
}

/// The name under which a session file is set aside: its name and `.failed`.
pub fn failed_name(filename: &str) -> (name: String)
    ensures
        name@ == filename@ + failed_suffix(),
        !is_recording_name(name@),
{
    proof {
        reveal_strlit(".failed");
        assert(".failed"@ =~= failed_suffix());
    }
    let name = join(filename, ".failed");
    proof {
        let n = name@.len() as int;
        assert(name@.subrange(n - 5, n)[0] == 'a');
    }
    name
}

/// The form in which a generated file name tells the time: date and time of
/// day, then the nanoseconds.
pub open spec fn label_format() -> Seq<char> {
    "%Y-%m-%d_%H-%M-%S.%f"@
}

/// The time of now in the given form, by the crate chrono (`Utc::now`,
/// `format`). Nothing is claimed of the text: it tells the time. The call
/// fails on a form that chrono cannot read, so only the one form that the
/// file names use is let in; and on a machine whose clock stands before 1970.
#[verifier::external_body]
fn timestamp_label(format: &str) -> (label: String)
    requires
        format@ == label_format(),
{
    chrono::Utc::now().format(format).to_string()
}

/// A random UUID of the crate uuid (`Uuid::new_v4`) in its simple form: 32
/// lower-case hexadecimal digits without hyphens.
#[verifier::external_body]
fn random_uuid() -> (id: String)
    ensures
        id@.len() == 32,
        forall|i: int| 0 <= i < id@.len() ==> is_hex_char(#[trigger] id@[i]),
{
    uuid::Uuid::new_v4().simple().to_string()
}

/// The name of a session file made of a label and an id: the label, an
/// underscore, the id and `.dcrr`.
pub open spec fn recording_name(label: Seq<char>, id: Seq<char>) -> Seq<char> {
    label + seq!['_'] + id + recording_suffix()
}

/// The name of a session file made of a label and an id.
pub fn compose_filename(label: &str, id: &str) -> (name: String)
    ensures
        name@ == recording_name(label@, id@),
        is_recording_name(name@),
{
    let mut name = join(label, "_");
    name.append(id);
    name.append(".dcrr");
    proof {
        reveal_strlit("_");
        reveal_strlit(".dcrr");
        assert(name@ =~= recording_name(label@, id@));
        let n = name@.len() as int;
        assert(name@.subrange(n - 5, n) =~= recording_suffix());
    }
    name
}

/// The recordings that are still written to, each with the time, in
/// milliseconds since the Unix epoch, at which it was marked: a hash map
/// from the names of the session files to those times.
pub struct ActiveRecordings {
    entries: StringHashMap<u64>,
}

impl View for ActiveRecordings {
    type V = Map<Seq<char>, u64>;

    closed spec fn view(&self) -> Map<Seq<char>, u64> {
        self.entries@
    }
}

impl ActiveRecordings {
    /// No recording is written to.
    pub fn new() -> (active: ActiveRecordings)
        ensures
            active@ == Map::<Seq<char>, u64>::empty(),
    {
        ActiveRecordings { entries: StringHashMap::new() }
    }

    /// Whether the recording is still written to.
    pub fn contains(&self, filename: &str) -> (found: bool)
        ensures
            found == self@.contains_key(filename@),
    {
        self.entries.contains_key(filename)
    }

    /// Takes the recording out of those that are written to.
    pub fn remove(&mut self, filename: &str)
        ensures
            final(self)@ == old(self)@.remove(filename@),
    {
        self.entries.remove(filename);
    }

    /// Puts the recording among those that are written to, marked at the
    /// time `now`.
    pub fn insert(&mut self, filename: &str, now: u64)
        ensures
            final(self)@ == old(self)@.insert(filename@, now),
    {
        self.entries.insert(filename.to_owned(), now);
    }
}

/// The state that all recordings share.
pub struct StorageState<M: MetadataStore, S: AssetFileStore> {
    /// The recordings that are still written to.
    pub active_recordings: ActiveRecordings,
    /// The index of the asset cache.
    pub metadata_store: M,
    /// The store of asset bytes.
    pub asset_file_store: S,
}

impl<M: MetadataStore, S: AssetFileStore> StorageState<M, S> {
    /// A state over the two stores, in which no recording is written to.
    pub fn new(metadata_store: M, asset_file_store: S) -> (state: Self)
        ensures
            state.active_recordings@ == Map::<Seq<char>, u64>::empty(),
            state.metadata_store == metadata_store,
            state.asset_file_store == asset_file_store,
    {
        StorageState {
            active_recordings: ActiveRecordings::new(),
            metadata_store,
            asset_file_store,
        }
    }

    /// A new name for a session file: the time of now, an underscore, a
    /// random id of 32 hexadecimal digits, and `.dcrr`.
    pub fn generate_filename(&self) -> (name: String)
        ensures
            is_recording_name(name@),
            name@.len() >= 38,
            name@[name@.len() - 38] == '_',
            forall|i: int|
                name@.len() - 37 <= i < name@.len() - 5 ==> is_hex_char(#[trigger] name@[i]),
    {
        let label = timestamp_label("%Y-%m-%d_%H-%M-%S.%f");
        let id = random_uuid();
        let name = compose_filename(label.as_str(), id.as_str());
        proof {
            let n = name@.len() as int;
            assert(n == label@.len() + 38);
            assert forall|i: int| n - 37 <= i < n - 5 implies is_hex_char(#[trigger] name@[i]) by {
                assert(name@[i] == id@[i - (n - 37)]);
            }
        }
        name
    }

    /// Marks a recording as one that is written to.
    pub fn mark_recording_active(&mut self, filename: &str)
        ensures
            final(self).active_recordings@.dom() == old(self).active_recordings@.dom().insert(
                filename@,
            ),
            final(self).metadata_store == old(self).metadata_store,
            final(self).asset_file_store == old(self).asset_file_store,
    {
        let now: u64 = unix_millis();
        self.active_recordings.insert(filename, now);
        assert(final(self).active_recordings@.dom() =~= old(self).active_recordings@.dom().insert(
            filename@,
        ));
    }

    /// Marks a recording as one that is written to no more.
    pub fn mark_recording_completed(&mut self, filename: &str)
        ensures
            final(self).active_recordings@ == old(self).active_recordings@.remove(filename@),
            final(self).metadata_store == old(self).metadata_store,
            final(self).asset_file_store == old(self).asset_file_store,
    {
        self.active_recordings.remove(filename);
    }

    /// Whether a recording is still written to.
    pub fn is_recording_active(&self, filename: &str) -> (active: bool)
        ensures
            active == self.active_recordings@.contains_key(filename@),
    {
        self.active_recordings.contains(filename)
    }
}

/// The server tries to fetch an asset itself where the recorder could not
/// for a reason that may not hold for the server: a refusal across origins,
/// a failure of the network, or a reason unknown. It does not try where the
/// server of the asset answered with an error, nor where there was no error.
pub fn should_fetch_server_side(fetch_error: &AssetFetchError) -> (fetch: bool)
    ensures
        fetch == (fetch_error@ is CORS || fetch_error@ is Network || fetch_error@ is Unknown),
{
    match fetch_error {
        AssetFetchError::CORS => true,
        AssetFetchError::Network => true,
        AssetFetchError::Http => false,
        AssetFetchError::Unknown(_) => true,
        AssetFetchError::NoError => false,
    }
}

/// A reference that is kept in a session file, with what became of the
/// count of its use.
#[derive(Debug, Clone, PartialEq, Eq)]
pub struct KeptReference {
    /// The reference, which names the asset by its random id.
    pub reference: AssetReferenceData,
    /// Whether the index counted the use of the asset on the site. A use
    /// that the index fails to count, and one on no site, is not counted;
    /// the recording goes on all the same.
    pub counted: bool,
}

/// What became of an asset frame.
#[derive(Debug, Clone, PartialEq, Eq)]
pub enum AssetOutcome {
    /// The asset is in the cache: this reference is kept in its place.
    Reference(KeptReference),
    /// The frame is kept in no form.
    Dropped,
    /// The frame has no bytes: the server has to fetch the asset itself.
    NeedsFetch,
}

/// What became of a reference to an asset.
#[derive(Debug, Clone, PartialEq, Eq)]
pub enum ReferenceOutcome {
    /// The cache has the asset: this reference, with the random id in the
    /// place of the content hash, is kept.
    Resolved(KeptReference),
    /// The cache does not have the asset: the server has to fetch it.
    NeedsFetch,
}

/// The index holds an asset of the given random id and MIME type.
pub open spec fn holds_mime(
    assets: Map<Seq<char>, AssetRow>,
    random_id: Seq<char>,
    mime: Seq<char>,
) -> bool {
    exists|hash: Seq<char>| #[trigger]
        assets.contains_key(hash) && assets[hash].random_id == random_id
            && assets[hash].mime_type == mime
}

/// The counts of uses with one more use of the asset on the site.
pub open spec fn counted_once(usage: Map<UsageKey, nat>, key: UsageKey) -> Map<UsageKey, nat> {
    usage.insert(key, uses(usage, key) + 1)
}

/// What became of the counts of uses when a use of an asset on a site was to
/// be counted. A use that was counted raised the count of the asset on the
/// site by one and left all other counts. Where the index failed to count,
/// no count went down. Without a site nothing is counted.
pub open spec fn use_counted(
    counted: bool,
    site_origin: Option<&str>,
    url: Seq<char>,
    hash: Seq<char>,
    before: Map<UsageKey, nat>,
    after: Map<UsageKey, nat>,
) -> bool {
    match site_origin {
        Some(origin) => if counted {
            after == counted_once(before, (origin@, url, hash))
        } else {
            usage_kept(before, after)
        },
        None => !counted && after == before,
    }
}

/// The reference that is kept in the place of an asset under a random id: it
/// has the id, the URL and the MIME type of the asset frame.
pub open spec fn reference_of(
    asset: AssetDataView,
    random_id: Seq<char>,
) -> AssetReferenceDataView {
    AssetReferenceDataView {
        asset_id: asset.asset_id,
        url: asset.url,
        hash: random_id,
        mime: asset.mime,
    }
}

/// The reference that is kept in the place of an asset under a random id.
pub fn reference_to(asset: &AssetData, random_id: String) -> (reference: AssetReferenceData)
    ensures
        reference@ == reference_of(asset@, random_id@),
{
    AssetReferenceData {
        asset_id: asset.asset_id,
        url: asset.url.clone(),
        hash: random_id,
        mime: clone_optional(&asset.mime),
    }
}

/// The MIME type that the index knows, given what it answered when asked:
/// none where it holds none, and none where it failed to answer.
pub fn known_mime(answer: Result<Option<String>, AssetError>) -> (mime: Option<String>)
    ensures
        mime == match answer {
            Ok(found) => found,
            Err(_) => None::<String>,
        },
{
    match answer {
        Ok(found) => found,
        Err(_) => None,
    }
}

/// The reference that is kept for a reference of a recorder to an asset that
/// the index has: the random id stands in the place of the content hash, and
/// the MIME type is the one that the index knows.
pub fn resolved_reference(
    asset_ref: &AssetReferenceData,
    random_id: String,
    mime: Option<String>,
) -> (reference: AssetReferenceData)
    ensures
        reference@ == (AssetReferenceDataView {
            asset_id: asset_ref.asset_id,
            url: asset_ref.url@,
            hash: random_id@,
            mime: mime.deep_view(),
        }),
{
    AssetReferenceData {
        asset_id: asset_ref.asset_id,
        url: asset_ref.url.clone(),
        hash: random_id,
        mime,
    }
}

/// The MIME type under which an asset is stored that names none.
pub open spec fn stored_mime(mime: Option<Seq<char>>) -> Seq<char> {
    match mime {
        Some(m) => m,
        None => "application/octet-stream"@,
    }
}

impl<M: MetadataStore, S: AssetFileStore> StorageState<M, S> {
    /// Counts a use of the asset on the site, where a site is known, and says
    /// whether the index counted it: the count of the asset on the site goes
    /// up by one. Without a site there is nothing to count. That the count
    /// fails does not stop a recording.
    pub fn register_usage(
        &mut self,
        site_origin: Option<&str>,
        url: &str,
        hash: &str,
        size: u64,
    ) -> (counted: bool)
        ensures
            final(self).active_recordings == old(self).active_recordings,
            final(self).asset_file_store == old(self).asset_file_store,
            final(self).metadata_store.assets() == old(self).metadata_store.assets(),
            final(self).metadata_store.recordings() == old(self).metadata_store.recordings(),
            site_origin is None ==> final(self).metadata_store == old(self).metadata_store,
            usage_kept(old(self).metadata_store.usage(), final(self).metadata_store.usage()),
            use_counted(
                counted,
                site_origin,
                url@,
                hash@,
                old(self).metadata_store.usage(),
                final(self).metadata_store.usage(),
            ),
    {
        match site_origin {
            Some(origin) => {
                let params = AssetUsageParams {
                    site_origin: origin.to_owned(),
                    url: url.to_owned(),
                    sha256_hash: hash.to_owned(),
                    size,
                };
                self.metadata_store.register_asset_usage(params).is_ok()
            },
            None => false,
        }
    }

    /// Takes the bytes of an asset frame into the cache and gives the
    /// reference that is kept in its place.
    ///
    /// A frame without bytes is dropped, or has to wait for the server to
    /// fetch the asset. The bytes of any other are stored under their
    /// content hash, with the MIME type of the frame or, where it names
    /// none, `application/octet-stream`; the reference names the random id
    /// of the asset.
    pub fn process_asset_frame(&mut self, asset: &AssetData, site_origin: Option<&str>) -> (r:
        Result<AssetOutcome, AssetError>)
        ensures
            final(self).active_recordings == old(self).active_recordings,
            usage_kept(old(self).metadata_store.usage(), final(self).metadata_store.usage()),
            ids_well_formed(old(self).metadata_store.assets()) ==> ids_well_formed(
                final(self).metadata_store.assets(),
            ),
            blobs_hashed(old(self).asset_file_store.blobs()) ==> blobs_hashed(
                final(self).asset_file_store.blobs(),
            ),
            rows_have_bytes(
                old(self).metadata_store.assets(),
                old(self).asset_file_store.blobs(),
            ) ==> rows_have_bytes(
                final(self).metadata_store.assets(),
                final(self).asset_file_store.blobs(),
            ),
            asset.buf@.len() == 0 ==> {
                &&& final(self).metadata_store == old(self).metadata_store
                &&& final(self).asset_file_store == old(self).asset_file_store
                &&& if may_need_fetch(FrameView::Asset(asset@)) {
                    r matches Ok(AssetOutcome::NeedsFetch)
                } else {
                    r matches Ok(AssetOutcome::Dropped)
                }
            },
            asset.buf@.len() > 0 ==> match r {
                Ok(outcome) => {
                    let hash = content_hash(asset.buf@);
                    &&& outcome matches AssetOutcome::Reference(kept)
                    &&& kept.reference@ == reference_of(asset@, kept.reference.hash@)
                    &&& row_ensured(
                        old(self).metadata_store.assets(),
                        final(self).metadata_store.assets(),
                        old(self).asset_file_store.blobs(),
                        hash,
                        kept.reference.hash@,
                        asset.buf@,
                        stored_mime(asset.mime.deep_view()),
                    )
                    &&& blob_ensured(
                        old(self).asset_file_store.blobs(),
                        final(self).asset_file_store.blobs(),
                        hash,
                        asset.buf@,
                    )
                    &&& use_counted(
                        kept.counted,
                        site_origin,
                        asset.url@,
                        hash,
                        old(self).metadata_store.usage(),
                        final(self).metadata_store.usage(),
                    )
                },
                Err(_) => {
                    &&& final(self).metadata_store.assets() == old(self).metadata_store.assets()
                    &&& final(self).metadata_store.usage() == old(self).metadata_store.usage()
                },
            },
    {
        if asset.buf.len() == 0 {
            if should_fetch_server_side(&asset.fetch_error) {
                return Ok(AssetOutcome::NeedsFetch);
            }
            return Ok(AssetOutcome::Dropped);
        }
        let hash = sha256(asset.buf.as_slice());
        let mime: String = match &asset.mime {
            Some(m) => m.clone(),
            None => "application/octet-stream".to_owned(),
        };
        let random_id = store_or_get_asset_metadata(
            hash.as_str(),
            asset.buf.as_slice(),
            mime.as_str(),
            &mut self.metadata_store,
            &mut self.asset_file_store,
        )?;
        let counted = self.register_usage(
            site_origin,
            asset.url.as_str(),
            hash.as_str(),
            asset.buf.len() as u64,
        );
        Ok(
            AssetOutcome::Reference(
                KeptReference { reference: reference_to(asset, random_id), counted },
            ),
        )
    }

    /// Ends the work on an asset frame without bytes once the server has
    /// tried to fetch the asset: what it fetched is taken into the cache and
    /// the reference to it is given. Where the fetch failed, or the cache
    /// did, the frame is dropped.
    ///
    /// A fetch that failed, and an answer whose status is no success, leave
    /// both stores as they are. What was fetched with success is stored under
    /// its content hash, with the MIME type that the answer declares; the
    /// use of the asset is counted only where the cache took it.
    pub fn complete_asset_frame(
        &mut self,
        asset: &AssetData,
        site_origin: Option<&str>,
        fetched: Result<FetchResponse, AssetError>,
    ) -> (r: Option<KeptReference>)
        ensures
            final(self).active_recordings == old(self).active_recordings,
            final(self).metadata_store.recordings() == old(self).metadata_store.recordings(),
            usage_kept(old(self).metadata_store.usage(), final(self).metadata_store.usage()),
            ids_well_formed(old(self).metadata_store.assets()) ==> ids_well_formed(
                final(self).metadata_store.assets(),
            ),
            blobs_hashed(old(self).asset_file_store.blobs()) ==> blobs_hashed(
                final(self).asset_file_store.blobs(),
            ),
            rows_have_bytes(
                old(self).metadata_store.assets(),
                old(self).asset_file_store.blobs(),
            ) ==> rows_have_bytes(
                final(self).metadata_store.assets(),
                final(self).asset_file_store.blobs(),
            ),
            match fetched {
                Ok(response) if is_success(response.status) => {
                    let hash = content_hash(response.body@);
                    &&& blob_kept_or_put(
                        old(self).asset_file_store.blobs(),
                        final(self).asset_file_store.blobs(),
                        hash,
                        response.body@,
                    )
                    &&& match r {
                        Some(kept) => {
                            &&& kept.reference@ == reference_of(asset@, kept.reference.hash@)
                            &&& row_ensured(
                                old(self).metadata_store.assets(),
                                final(self).metadata_store.assets(),
                                old(self).asset_file_store.blobs(),
                                hash,
                                kept.reference.hash@,
                                response.body@,
                                declared_mime(response.content_type.deep_view()),
                            )
                            &&& blob_ensured(
                                old(self).asset_file_store.blobs(),
                                final(self).asset_file_store.blobs(),
                                hash,
                                response.body@,
                            )
                            &&& use_counted(
                                kept.counted,
                                site_origin,
                                asset.url@,
                                hash,
                                old(self).metadata_store.usage(),
                                final(self).metadata_store.usage(),
                            )
                        },
                        None => {
                            &&& final(self).metadata_store.assets()
                                == old(self).metadata_store.assets()
                            &&& final(self).metadata_store.usage()
                                == old(self).metadata_store.usage()
                        },
                    }
                },
                _ => {
                    &&& r is None
                    &&& final(self).metadata_store == old(self).metadata_store
                    &&& final(self).asset_file_store == old(self).asset_file_store
                },
            },
    {
        let response = match fetched {
            Ok(response) => response,
            Err(_) => {
                return None;
            },
        };
        if check_status(&response).is_err() {
            return None;
        }
        match cache_body(&response, &mut self.metadata_store, &mut self.asset_file_store) {
            Ok((hash, random_id)) => {
                let counted =
                    self.register_usage(site_origin, asset.url.as_str(), hash.as_str(), 0);
                Some(KeptReference { reference: reference_to(asset, random_id), counted })
            },
            Err(_) => None,
        }
    }

    /// The MIME type that the index holds for a random id, `None` where it
    /// holds none or fails to answer.
    fn mime_type_of(&self, random_id: &str) -> (mime: Option<String>)
        ensures
            mime matches Some(m) ==> holds_mime(self.metadata_store.assets(), random_id@, m@),
    {
        known_mime(self.metadata_store.get_asset_mime_type(random_id))
    }

    /// Looks up the asset that a recorder refers to by its content hash, and
    /// gives the reference that is kept: one that names the random id of the
    /// asset, with the MIME type that the index holds. Where the index does
    /// not have the asset, the server has to fetch it.
    pub fn process_asset_reference_frame(
        &mut self,
        asset_ref: &AssetReferenceData,
        site_origin: Option<&str>,
    ) -> (r: Result<ReferenceOutcome, AssetError>)
        ensures
            final(self).active_recordings == old(self).active_recordings,
            final(self).asset_file_store == old(self).asset_file_store,
            final(self).metadata_store.assets() == old(self).metadata_store.assets(),
            usage_kept(old(self).metadata_store.usage(), final(self).metadata_store.usage()),
            match r {
                Ok(ReferenceOutcome::Resolved(kept)) => {
                    let reference = kept.reference;
                    &&& old(self).metadata_store.assets().contains_key(asset_ref.hash@)
                    &&& reference.asset_id == asset_ref.asset_id
                    &&& reference.url@ == asset_ref.url@
                    &&& reference.mime matches Some(mime) ==> holds_mime(
                        old(self).metadata_store.assets(),
                        reference.hash@,
                        mime@,
                    )
                    &&& reference.hash@
                        == old(self).metadata_store.assets()[asset_ref.hash@].random_id
                    &&& use_counted(
                        kept.counted,
                        site_origin,
                        asset_ref.url@,
                        asset_ref.hash@,
                        old(self).metadata_store.usage(),
                        final(self).metadata_store.usage(),
                    )
                },
                Ok(ReferenceOutcome::NeedsFetch) => {
                    &&& !old(self).metadata_store.assets().contains_key(asset_ref.hash@)
                    &&& final(self).metadata_store.usage() == old(self).metadata_store.usage()
                },
                Err(_) => final(self).metadata_store.usage() == old(self).metadata_store.usage(),
            },
    {
        match self.metadata_store.resolve_hashes(asset_ref.hash.as_str())? {
            Some(random_id) => {
                let counted = self.register_usage(
                    site_origin,
                    asset_ref.url.as_str(),
                    asset_ref.hash.as_str(),
                    0,
                );
                let mime = self.mime_type_of(random_id.as_str());
                let reference = resolved_reference(asset_ref, random_id, mime);
                Ok(ReferenceOutcome::Resolved(KeptReference { reference, counted }))
            },
            None => Ok(ReferenceOutcome::NeedsFetch),
        }
    }

    /// Ends the work on a reference to an asset that the cache did not have,
    /// once the server has tried to fetch the asset.
    ///
    /// Content whose hash is not the one that the recorder named is refused
    /// as a mismatch, and nothing is stored. Content with that hash is taken
    /// into the cache, and the reference that names its random id is given.
    pub fn complete_asset_reference(
        &mut self,
        asset_ref: &AssetReferenceData,
        site_origin: Option<&str>,
        fetched: Result<FetchResponse, AssetError>,
    ) -> (r: Result<KeptReference, AssetError>)
        ensures
            final(self).active_recordings == old(self).active_recordings,
            usage_kept(old(self).metadata_store.usage(), final(self).metadata_store.usage()),
            ids_well_formed(old(self).metadata_store.assets()) ==> ids_well_formed(
                final(self).metadata_store.assets(),
            ),
            blobs_hashed(old(self).asset_file_store.blobs()) ==> blobs_hashed(
                final(self).asset_file_store.blobs(),
            ),
            rows_have_bytes(
                old(self).metadata_store.assets(),
                old(self).asset_file_store.blobs(),
            ) ==> rows_have_bytes(
                final(self).metadata_store.assets(),
                final(self).asset_file_store.blobs(),
            ),
            match fetched {
                Err(e) => {
                    &&& r matches Err(x) && x@ == e@
                    &&& final(self).metadata_store == old(self).metadata_store
                    &&& final(self).asset_file_store == old(self).asset_file_store
                },
                Ok(response) => if !is_success(response.status) {
                    &&& r matches Err(x) && x@ == http_error(response.status)
                    &&& final(self).metadata_store == old(self).metadata_store
                    &&& final(self).asset_file_store == old(self).asset_file_store
                } else if content_hash(response.body@) != asset_ref.hash@ {
                    &&& r matches Err(x) && x@ == (AssetErrorView::HashMismatch {
                        expected: asset_ref.hash@,
                        actual: content_hash(response.body@),
                    })
                    &&& final(self).metadata_store == old(self).metadata_store
                    &&& final(self).asset_file_store == old(self).asset_file_store
                } else {
                    match r {
                        Ok(kept) => {
                            let reference = kept.reference;
                            &&& reference.asset_id == asset_ref.asset_id
                            &&& reference.url@ == asset_ref.url@
                            &&& reference.mime matches Some(mime) ==> holds_mime(
                                final(self).metadata_store.assets(),
                                reference.hash@,
                                mime@,
                            )
                            &&& row_ensured(
                                old(self).metadata_store.assets(),
                                final(self).metadata_store.assets(),
                                old(self).asset_file_store.blobs(),
                                asset_ref.hash@,
                                reference.hash@,
                                response.body@,
                                declared_mime(response.content_type.deep_view()),
                            )
                            &&& blob_ensured(
                                old(self).asset_file_store.blobs(),
                                final(self).asset_file_store.blobs(),
                                asset_ref.hash@,
                                response.body@,
                            )
                            &&& use_counted(
                                kept.counted,
                                site_origin,
                                asset_ref.url@,
                                asset_ref.hash@,
                                old(self).metadata_store.usage(),
                                final(self).metadata_store.usage(),
                            )
                        },
                        Err(e) => {
                            &&& !(e@ is HashMismatch)
                            &&& final(self).metadata_store.assets()
                                == old(self).metadata_store.assets()
                            &&& final(self).metadata_store.usage()
                                == old(self).metadata_store.usage()
                        },
                    }
                },
            },
    {
        let response = fetched?;
        check_status(&response)?;
        let actual = sha256(response.body.as_slice());
        if !text_eq(actual.as_str(), asset_ref.hash.as_str()) {
            return Err(AssetError::HashMismatch { expected: asset_ref.hash.clone(), actual });
        }
        let random_id = match cache_body(
            &response,
            &mut self.metadata_store,
            &mut self.asset_file_store,
        ) {
            Ok((_, random_id)) => random_id,
            Err(e) => {
                return Err(AssetError::Storage(e.message()));
            },
        };
        let counted = self.register_usage(
            site_origin,
            asset_ref.url.as_str(),
            asset_ref.hash.as_str(),
            0,
        );
        let mime = self.mime_type_of(random_id.as_str());
        Ok(KeptReference { reference: resolved_reference(asset_ref, random_id, mime), counted })
    }
}

/// The frame is a reference to an asset by a random id of the due form.
pub open spec fn names_random_id(frame: FrameView) -> bool {
    frame matches FrameView::AssetReference(reference) && is_random_id(reference.hash)
}

/// The frame is a reference to an asset that the cache holds: the index
/// knows an asset by the random id that the reference names, and the store
/// has the bytes of that asset.
pub open spec fn names_cached_asset(
    frame: FrameView,
    assets: Map<Seq<char>, AssetRow>,
    blobs: Map<Seq<char>, Seq<u8>>,
) -> bool {
    &&& frame matches FrameView::AssetReference(reference)
    &&& exists|hash: Seq<char>| #[trigger]
        assets.contains_key(hash) && assets[hash].random_id == reference.hash
            && blobs.contains_key(hash)
}

/// What is to be done with a frame of the stream.
#[derive(Debug, Clone, PartialEq, Eq)]
pub enum FilterStep {
    /// This frame is written to the session file.
    Write(Frame),
    /// Nothing is written.
    Skip,
    /// The server has to fetch the asset at `url` itself; the work on the
    /// frame goes on once it has tried.
    Fetch { url: String, frame: Frame },
}

/// What is to be done with a frame that waited for a fetch.
#[derive(Debug, Clone, PartialEq, Eq)]
pub enum ResumeStep {
    /// This frame is written to the session file.
    Write(Frame),
    /// Nothing is written.
    Skip,
    /// The recording cannot go on: the session file is set aside.
    Fail(AssetError),
}

/// The content that was fetched for a reference does not have the hash that
/// the reference names.
pub open spec fn is_mismatch(
    waiting: FrameView,
    fetched: Result<FetchResponse, AssetError>,
) -> bool {
    &&& waiting matches FrameView::AssetReference(reference)
    &&& fetched matches Ok(response)
    &&& is_success(response.status)
    &&& content_hash(response.body@) != reference.hash
}

impl<M: MetadataStore, S: AssetFileStore> StorageState<M, S> {
    /// What is to be done with a frame of the stream.
    ///
    /// A heartbeat is written nowhere. The bytes of an asset go into the
    /// cache, and a reference to the asset is written in place of the
    /// frame; a reference that names a content hash is written with the
    /// random id in its place. An asset that the cache cannot take, and a
    /// reference that the index cannot look up, is skipped. Every other
    /// frame is written as it is, and touches neither store. In a cache
    /// whose assets all have their bytes, a reference that is written names
    /// an asset that the index knows and whose bytes are stored.
    pub fn filter_frame(&mut self, frame: Frame, site_origin: Option<&str>) -> (r: FilterStep)
        ensures
            final(self).active_recordings == old(self).active_recordings,
            usage_kept(old(self).metadata_store.usage(), final(self).metadata_store.usage()),
            ids_well_formed(old(self).metadata_store.assets()) ==> ids_well_formed(
                final(self).metadata_store.assets(),
            ),
            blobs_hashed(old(self).asset_file_store.blobs()) ==> blobs_hashed(
                final(self).asset_file_store.blobs(),
            ),
            rows_have_bytes(
                old(self).metadata_store.assets(),
                old(self).asset_file_store.blobs(),
            ) ==> rows_have_bytes(
                final(self).metadata_store.assets(),
                final(self).asset_file_store.blobs(),
            ),
            passes_through(frame@) ==> {
                &&& r matches FilterStep::Write(kept)
                &&& kept@ == frame@
                &&& final(self).metadata_store == old(self).metadata_store
                &&& final(self).asset_file_store == old(self).asset_file_store
            },
            frame@ is Heartbeat ==> {
                &&& r is Skip
                &&& final(self).metadata_store == old(self).metadata_store
                &&& final(self).asset_file_store == old(self).asset_file_store
            },
            frame@ matches FrameView::Asset(asset) ==> if asset.buf.len() == 0 {
                &&& final(self).metadata_store == old(self).metadata_store
                &&& final(self).asset_file_store == old(self).asset_file_store
                &&& if may_need_fetch(frame@) {
                    r is Fetch
                } else {
                    r is Skip
                }
            } else {
                !(r is Fetch)
            },
            frame@ is AssetReference ==> {
                &&& final(self).asset_file_store == old(self).asset_file_store
                &&& final(self).metadata_store.assets() == old(self).metadata_store.assets()
            },
            match r {
                FilterStep::Write(kept) => {
                    &&& kept_for(frame@, Some(kept@))
                    &&& !passes_through(frame@) && ids_well_formed(
                        old(self).metadata_store.assets(),
                    ) ==> names_random_id(kept@)
                    &&& !passes_through(frame@) && rows_have_bytes(
                        old(self).metadata_store.assets(),
                        old(self).asset_file_store.blobs(),
                    ) ==> names_cached_asset(
                        kept@,
                        final(self).metadata_store.assets(),
                        final(self).asset_file_store.blobs(),
                    )
                    &&& frame@ matches FrameView::Asset(asset) ==> {
                        &&& asset.buf.len() > 0
                        &&& kept@ matches FrameView::AssetReference(reference)
                        &&& reference == reference_of(asset, reference.hash)
                        &&& row_ensured(
                            old(self).metadata_store.assets(),
                            final(self).metadata_store.assets(),
                            old(self).asset_file_store.blobs(),
                            content_hash(asset.buf),
                            reference.hash,
                            asset.buf,
                            stored_mime(asset.mime),
                        )
                        &&& blob_ensured(
                            old(self).asset_file_store.blobs(),
                            final(self).asset_file_store.blobs(),
                            content_hash(asset.buf),
                            asset.buf,
                        )
                    }
                    &&& frame@ matches FrameView::AssetReference(given) ==> {
                        &&& final(self).metadata_store.assets().contains_key(given.hash)
                        &&& kept@ matches FrameView::AssetReference(reference)
                        &&& reference.hash
                            == final(self).metadata_store.assets()[given.hash].random_id
                    }
                },
                FilterStep::Skip => kept_for(frame@, None),
                FilterStep::Fetch { url, frame: waiting } => {
                    &&& waiting@ == frame@
                    &&& may_need_fetch(frame@)
                    &&& url@ == asset_url_of(frame@)
                    &&& final(self).asset_file_store == old(self).asset_file_store
                    &&& final(self).metadata_store.assets() == old(self).metadata_store.assets()
                    &&& final(self).metadata_store.usage() == old(self).metadata_store.usage()
                },
            },
    {
        match frame {
            Frame::Asset(asset) => {
                match self.process_asset_frame(&asset, site_origin) {
                    Ok(AssetOutcome::Reference(kept)) => {
                        assert(self.metadata_store.assets().contains_key(
                            content_hash(asset.buf@),
                        ));
                        FilterStep::Write(Frame::AssetReference(kept.reference))
                    },
                    Ok(AssetOutcome::Dropped) => FilterStep::Skip,
                    Ok(AssetOutcome::NeedsFetch) => FilterStep::Fetch {
                        url: asset.url.clone(),
                        frame: Frame::Asset(asset),
                    },
                    Err(_) => FilterStep::Skip,
                }
            },
            Frame::AssetReference(given) => {
                match self.process_asset_reference_frame(&given, site_origin) {
                    Ok(ReferenceOutcome::Resolved(kept)) => {
                        assert(self.metadata_store.assets().contains_key(given.hash@));
                        FilterStep::Write(Frame::AssetReference(kept.reference))
                    },
                    Ok(ReferenceOutcome::NeedsFetch) => FilterStep::Fetch {
                        url: given.url.clone(),
                        frame: Frame::AssetReference(given),
                    },
                    Err(_) => FilterStep::Skip,
                }
            },
            Frame::Heartbeat => FilterStep::Skip,
            other => FilterStep::Write(other),
        }
    }

    /// What is to be done with a frame that waited for the server to fetch
    /// its asset, now that the server has tried.
    ///
    /// For a reference, content whose hash is not the one that the reference
    /// names ends the recording, and nothing of it is stored. Any other
    /// failure skips the frame. What was fetched with success goes into the
    /// cache, and a reference to it is written, which names an asset that
    /// the index knows and whose bytes are stored.
    pub fn resume_frame(
        &mut self,
        waiting: Frame,
        site_origin: Option<&str>,
        fetched: Result<FetchResponse, AssetError>,
    ) -> (r: ResumeStep)
        ensures
            final(self).active_recordings == old(self).active_recordings,
            usage_kept(old(self).metadata_store.usage(), final(self).metadata_store.usage()),
            ids_well_formed(old(self).metadata_store.assets()) ==> ids_well_formed(
                final(self).metadata_store.assets(),
            ),
            blobs_hashed(old(self).asset_file_store.blobs()) ==> blobs_hashed(
                final(self).asset_file_store.blobs(),
            ),
            rows_have_bytes(
                old(self).metadata_store.assets(),
                old(self).asset_file_store.blobs(),
            ) ==> rows_have_bytes(
                final(self).metadata_store.assets(),
                final(self).asset_file_store.blobs(),
            ),
            r is Fail <==> is_mismatch(waiting@, fetched),
            match r {
                ResumeStep::Write(kept) => {
                    &&& kept_for(waiting@, Some(kept@))
                    &&& !passes_through(waiting@) && ids_well_formed(
                        old(self).metadata_store.assets(),
                    ) ==> names_random_id(kept@)
                    &&& !passes_through(waiting@) && rows_have_bytes(
                        old(self).metadata_store.assets(),
                        old(self).asset_file_store.blobs(),
                    ) ==> names_cached_asset(
                        kept@,
                        final(self).metadata_store.assets(),
                        final(self).asset_file_store.blobs(),
                    )
                    &&& waiting@ is Asset || waiting@ is AssetReference ==> {
                        &&& fetched matches Ok(response)
                        &&& is_success(response.status)
                        &&& kept@ matches FrameView::AssetReference(reference)
                        &&& row_ensured(
                            old(self).metadata_store.assets(),
                            final(self).metadata_store.assets(),
                            old(self).asset_file_store.blobs(),
                            content_hash(response.body@),
                            reference.hash,
                            response.body@,
                            declared_mime(response.content_type.deep_view()),
                        )
                        &&& blob_ensured(
                            old(self).asset_file_store.blobs(),
                            final(self).asset_file_store.blobs(),
                            content_hash(response.body@),
                            response.body@,
                        )
                    }
                },
                ResumeStep::Skip => kept_for(waiting@, None),
                ResumeStep::Fail(e) => {
                    &&& waiting@ matches FrameView::AssetReference(reference)
                    &&& fetched matches Ok(response)
                    &&& e@ == (AssetErrorView::HashMismatch {
                        expected: reference.hash,
                        actual: content_hash(response.body@),
                    })
                    &&& final(self).metadata_store == old(self).metadata_store
                    &&& final(self).asset_file_store == old(self).asset_file_store
                },
            },
    {
        match waiting {
            Frame::Asset(asset) => {
                let ghost body = fetched->Ok_0.body@;
                match self.complete_asset_frame(&asset, site_origin, fetched) {
                    Some(kept) => {
                        assert(self.metadata_store.assets().contains_key(content_hash(body)));
                        ResumeStep::Write(Frame::AssetReference(kept.reference))
                    },
                    None => ResumeStep::Skip,
                }
            },
            Frame::AssetReference(given) => {
                let answered = fetched.is_ok();
                let ghost body = fetched->Ok_0.body@;
                match self.complete_asset_reference(&given, site_origin, fetched) {
                    Ok(kept) => {
                        assert(self.metadata_store.assets().contains_key(content_hash(body)));
                        ResumeStep::Write(Frame::AssetReference(kept.reference))
                    },
                    Err(AssetError::HashMismatch { expected, actual }) => {
                        if answered {
                            ResumeStep::Fail(AssetError::HashMismatch { expected, actual })
                        } else {
                            ResumeStep::Skip
                        }
                    },
                    Err(_) => ResumeStep::Skip,
                }
            },
            Frame::Heartbeat => ResumeStep::Skip,
            other => ResumeStep::Write(other),
        }
    }
}

} // verus!
