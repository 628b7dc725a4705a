//! What becomes of an asset that the server fetched itself because the
//! recorder could not.

use vstd::prelude::*;
use crate::asset_cache::blob_ensured;
use crate::asset_cache::blob_kept_or_put;
use crate::asset_cache::blobs_hashed;
use crate::asset_cache::ids_well_formed;
use crate::asset_cache::row_ensured;
use crate::asset_cache::rows_have_bytes;
use crate::asset_cache::hash::content_hash;
use crate::asset_cache::hash::sha256;
use crate::asset_cache::origin::decimal;
use crate::asset_cache::origin::decimal_string;
use crate::asset_cache::store_or_get_asset_metadata;
use crate::asset_cache::AssetError;
use crate::asset_cache::AssetErrorView;
use crate::asset_cache::AssetFileStore;
use crate::asset_cache::MetadataStore;
use crate::text::ascii_lower;
use crate::text::join;
use crate::text::push_char;
use crate::text::to_ascii_lower;

verus! {

/// How many seconds a fetch may take in all.
pub const FETCH_TIMEOUT_SECS: u64 = 30;

/// How many redirects a fetch follows.
pub const MAX_REDIRECTS: usize = 5;

/// What a server answered to a fetch.
#[derive(Debug, Clone, PartialEq, Eq)]
pub struct FetchResponse {
    /// The HTTP status.
    pub status: u16,
    /// The value of the `Content-Type` header, where the answer has one that
    /// is text.
    pub content_type: Option<String>,
    /// The body.
    pub body: Vec<u8>,
}

/// The status says that the fetch succeeded: it is one of the 200s.
pub open spec fn is_success(status: u16) -> bool {
    200 <= status && status < 300
}

/// The MIME type of content of which nothing else is known.
pub open spec fn default_mime() -> Seq<char> {
    "application/octet-stream"@
}

/// The part of `text` in front of its first semicolon; all of it where it
/// has none.
pub open spec fn first_token(text: Seq<char>) -> Seq<char>
    decreases text.len(),
{
    if text.len() == 0 || text[0] == ';' {
        Seq::empty()
    } else {
        seq![text[0]] + first_token(text.drop_first())
    }
}

/// The MIME type that a `Content-Type` header declares: what stands in
/// front of the first semicolon, in lower case. Without a header it is
/// `application/octet-stream`.
pub open spec fn declared_mime(content_type: Option<Seq<char>>) -> Seq<char> {
    match content_type {
        Some(text) => first_token(text).map_values(|c: char| ascii_lower(c)),
        None => default_mime(),
    }
}

/// The MIME type that a `Content-Type` header declares.
pub fn mime_of(content_type: &Option<String>) -> (mime: String)
    ensures
        mime@ == declared_mime(content_type.deep_view()),
{
    match content_type {
        Some(text) => {
            let n: usize = text.as_str().unicode_len();
            let mut mime = String::new();
            let mut i: usize = 0;
            proof {
                assert(text@.subrange(0, n as int) =~= text@);
                assert(text@.subrange(0, 0) + first_token(text@) =~= first_token(text@));
            }
            while i < n && text.as_str().get_char(i) != ';'
                invariant
                    i <= n,
                    n == text@.len(),
                    first_token(text@) == text@.subrange(0, i as int) + first_token(
                        text@.subrange(i as int, n as int),
                    ),
                    mime@ == text@.subrange(0, i as int).map_values(|c: char| ascii_lower(c)),
                decreases n - i,
            {
                let c = text.as_str().get_char(i);
                push_char(&mut mime, to_ascii_lower(c));
                proof {
                    let tail = text@.subrange(i as int, n as int);
                    assert(tail.drop_first() =~= text@.subrange(i + 1, n as int));
                    assert(text@.subrange(0, i as int) + (seq![tail[0]] + first_token(
                        tail.drop_first(),
                    )) =~= text@.subrange(0, i + 1) + first_token(tail.drop_first()));
                    assert(mime@ =~= text@.subrange(0, i + 1).map_values(
                        |c: char| ascii_lower(c),
                    ));
                }
                i += 1;
            }
            proof {
                let tail = text@.subrange(i as int, n as int);
                assert(first_token(tail) =~= Seq::empty());
                assert(text@.subrange(0, i as int) + Seq::empty() =~= text@.subrange(0, i as int));
            }
            mime
        },
        None => "application/octet-stream".to_owned(),
    }
}

/// The error that stands for an answer whose status is no success.
pub open spec fn http_error(status: u16) -> AssetErrorView {
    AssetErrorView::Storage("HTTP error: "@ + decimal(status as nat))
}

/// Whether an answer has a status of success; the error that stands for an
/// answer that has none.
pub fn check_status(response: &FetchResponse) -> (r: Result<(), AssetError>)
    ensures
        is_success(response.status) ==> r is Ok,
        !is_success(response.status) ==> (r matches Err(e) && e@ == http_error(response.status)),
{
    if response.status < 200 || response.status >= 300 {
        let status = decimal_string(response.status as u64);
        return Err(AssetError::Storage(join("HTTP error: ", status.as_str())));
    }
    Ok(())
}

/// Stores the body of an answer under its content hash, with the MIME type
/// that the answer declares, and gives the content hash and the random id of
/// the asset.
///
/// An asset that the index has keeps its random id, as far as the index
/// says it. One that it does not have gets a row with a new random id, the
/// size of the body and the declared MIME type. Where the stores fail,
/// the index is as it was.
pub fn cache_body<M: MetadataStore, S: AssetFileStore>(
    response: &FetchResponse,
    metadata_store: &mut M,
    asset_file_store: &mut S,
) -> (r: Result<(String, String), AssetError>)
    ensures
        final(metadata_store).usage() == old(metadata_store).usage(),
        final(metadata_store).recordings() == old(metadata_store).recordings(),
        ids_well_formed(old(metadata_store).assets()) ==> ids_well_formed(
            final(metadata_store).assets(),
        ),
        blobs_hashed(old(asset_file_store).blobs()) ==> blobs_hashed(
            final(asset_file_store).blobs(),
        ),
        rows_have_bytes(
            old(metadata_store).assets(),
            old(asset_file_store).blobs(),
        ) ==> rows_have_bytes(
            final(metadata_store).assets(),
            final(asset_file_store).blobs(),
        ),
        blob_kept_or_put(
            old(asset_file_store).blobs(),
            final(asset_file_store).blobs(),
            content_hash(response.body@),
            response.body@,
        ),
        match r {
            Ok((hash, id)) => {
                &&& hash@ == content_hash(response.body@)
                &&& blob_ensured(
                    old(asset_file_store).blobs(),
                    final(asset_file_store).blobs(),
                    hash@,
                    response.body@,
                )
                &&& row_ensured(
                    old(metadata_store).assets(),
                    final(metadata_store).assets(),
                    old(asset_file_store).blobs(),
                    hash@,
                    id@,
                    response.body@,
                    declared_mime(response.content_type.deep_view()),
                )
            },
            Err(_) => final(metadata_store).assets() == old(metadata_store).assets(),
        },
{
    let mime = mime_of(&response.content_type);
    let hash = sha256(response.body.as_slice());
    let id = store_or_get_asset_metadata(
        hash.as_str(),
        response.body.as_slice(),
        mime.as_str(),
        metadata_store,
        asset_file_store,
    )?;
    Ok((hash, id))
}

/// Takes what a fetch brought into the cache, and gives the content hash and
/// the random id of the asset.
///
/// A fetch that failed fails here with its error. An answer whose status is
/// no success is an error, and nothing is stored. Otherwise the body is
/// stored under its content hash; the row of an asset that is new to the
/// index has the size of the body and the MIME type that the answer
/// declares.
pub fn fetch_and_cache_asset<M: MetadataStore, S: AssetFileStore>(
    fetched: Result<FetchResponse, AssetError>,
    metadata_store: &mut M,
    asset_file_store: &mut S,
) -> (r: Result<(String, String), AssetError>)
    ensures
        final(metadata_store).usage() == old(metadata_store).usage(),
        final(metadata_store).recordings() == old(metadata_store).recordings(),
        ids_well_formed(old(metadata_store).assets()) ==> ids_well_formed(
            final(metadata_store).assets(),
        ),
        blobs_hashed(old(asset_file_store).blobs()) ==> blobs_hashed(
            final(asset_file_store).blobs(),
        ),
        rows_have_bytes(
            old(metadata_store).assets(),
            old(asset_file_store).blobs(),
        ) ==> rows_have_bytes(
            final(metadata_store).assets(),
            final(asset_file_store).blobs(),
        ),
        match fetched {
            Err(e) => {
                &&& r matches Err(x) && x@ == e@
                &&& final(metadata_store).assets() == old(metadata_store).assets()
                &&& final(asset_file_store).blobs() == old(asset_file_store).blobs()
            },
            Ok(response) => if !is_success(response.status) {
                &&& r matches Err(x) && x@ == http_error(response.status)
                &&& final(metadata_store).assets() == old(metadata_store).assets()
                &&& final(asset_file_store).blobs() == old(asset_file_store).blobs()
            } else {
                &&& blob_kept_or_put(
                    old(asset_file_store).blobs(),
                    final(asset_file_store).blobs(),
                    content_hash(response.body@),
                    response.body@,
                )
                &&& match r {
                    Ok((hash, id)) => {
                        &&& hash@ == content_hash(response.body@)
                        &&& blob_ensured(
                            old(asset_file_store).blobs(),
                            final(asset_file_store).blobs(),
                            hash@,
                            response.body@,
                        )
                        &&& row_ensured(
                            old(metadata_store).assets(),
                            final(metadata_store).assets(),
                            old(asset_file_store).blobs(),
                            hash@,
                            id@,
                            response.body@,
                            declared_mime(response.content_type.deep_view()),
                        )
                    },
                    Err(_) => final(metadata_store).assets() == old(metadata_store).assets(),
                }
            },
        },
{
    let response = fetched?;
    check_status(&response)?;
    cache_body(&response, metadata_store, asset_file_store)
}

} // verus!
