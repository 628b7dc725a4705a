//! The manifest of a site: the assets that a recorder need not send again.

use vstd::prelude::*;
use crate::asset_cache::is_manifest;
use crate::asset_cache::AssetError;
use crate::asset_cache::ManifestEntry;
use crate::asset_cache::ManifestEntryView;
use crate::asset_cache::MetadataStore;
use crate::frame::CacheManifestData;
use crate::frame::CacheManifestDataView;
use crate::frame::Frame;
use crate::frame::FrameView;
use crate::frame::ManifestEntryData;
use crate::frame::ManifestEntryDataView;

verus! {

/// The manifest that a recorder is sent when it opens a stream.
#[derive(Debug, Clone, PartialEq, Eq)]
pub struct CacheManifest {
    /// The assets, the highest in rank first.
    pub assets: Vec<ManifestEntry>,
    /// The origin of the site that the manifest is for.
    pub site_origin: String,
}

/// The value that a [`CacheManifest`] stands for.
pub struct CacheManifestView {
    pub assets: Seq<ManifestEntryView>,
    pub site_origin: Seq<char>,
}

impl View for CacheManifest {
    type V = CacheManifestView;

    open spec fn view(&self) -> CacheManifestView {
        CacheManifestView { assets: self.assets.deep_view(), site_origin: self.site_origin@ }
    }
}

/// How many assets a manifest holds where the caller sets no limit.
pub const DEFAULT_MANIFEST_LIMIT: usize = 200;

/// The limit that holds: the given one, or the default.
pub open spec fn limit_or_default(limit: Option<usize>) -> nat {
    match limit {
        Some(n) => n as nat,
        None => DEFAULT_MANIFEST_LIMIT as nat,
    }
}

/// The limit that holds: the given one, or the default.
pub fn limit_of(limit: Option<usize>) -> (n: usize)
    ensures
        n == limit_or_default(limit),
{
    match limit {
        Some(n) => n,
        None => DEFAULT_MANIFEST_LIMIT,
    }
}

/// The manifest of a site that is made of the entries that the index gave.
pub fn manifest_of(assets: Vec<ManifestEntry>, site_origin: &str) -> (manifest: CacheManifest)
    ensures
        manifest@ == (CacheManifestView {
            assets: assets.deep_view(),
            site_origin: site_origin@,
        }),
{
    CacheManifest { assets, site_origin: site_origin.to_owned() }
}

/// The manifest of a site: at most `limit` of its assets, 200 where no limit
/// is given, the highest in rank first. The index is asked for them; where
/// it fails, there is no manifest.
pub fn generate_manifest<M: MetadataStore>(
    metadata_store: &M,
    site_origin: &str,
    limit: Option<usize>,
) -> (r: Result<CacheManifest, AssetError>)
    ensures
        r matches Ok(manifest) ==> manifest@.site_origin == site_origin@ && is_manifest(
            manifest@.assets,
            site_origin@,
            limit_or_default(limit),
            metadata_store.assets(),
            metadata_store.usage(),
        ),
{
    let assets = metadata_store.get_site_manifest(site_origin, limit_of(limit))?;
    Ok(manifest_of(assets, site_origin))
}

/// The entries of a manifest as a frame holds them.
pub open spec fn frame_entries(assets: Seq<ManifestEntryView>) -> Seq<ManifestEntryDataView> {
    Seq::new(
        assets.len(),
        |i: int| ManifestEntryDataView { url: assets[i].url, sha256_hash: assets[i].sha256_hash },
    )
}

/// The frame that tells a recorder the manifest.
pub fn manifest_frame(manifest: &CacheManifest) -> (frame: Frame)
    ensures
        frame@ == FrameView::CacheManifest(
            CacheManifestDataView {
                site_origin: manifest@.site_origin,
                assets: frame_entries(manifest@.assets),
            },
        ),
{
    let mut assets: Vec<ManifestEntryData> = Vec::new();
    let mut i: usize = 0;
    while i < manifest.assets.len()
        invariant
            i <= manifest.assets.len(),
            assets.len() == i,
            forall|k: int|
                0 <= k < i ==> assets@[k].deep_view() == (ManifestEntryDataView {
                    url: manifest.assets@[k].url@,
                    sha256_hash: manifest.assets@[k].sha256_hash@,
                }),
        decreases manifest.assets.len() - i,
    {
        let entry = &manifest.assets[i];
        assets.push(
            ManifestEntryData { url: entry.url.clone(), sha256_hash: entry.sha256_hash.clone() },
        );
        i += 1;
    }
    assert(assets.deep_view() =~= frame_entries(manifest@.assets));
    Frame::CacheManifest(CacheManifestData { site_origin: manifest.site_origin.clone(), assets })
}

} // verus!
