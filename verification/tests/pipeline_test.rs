use domcorder::asset_cache::fetcher::{fetch_and_cache_asset, FetchResponse};
use domcorder::asset_cache::hash::sha256;
use domcorder::asset_cache::manifest::{generate_manifest, manifest_frame, CacheManifest};
use domcorder::asset_cache::origin::extract_origin;
use domcorder::asset_cache::playback::PlaybackFrameTransformer;
use domcorder::asset_cache::{
    carry_out, plan_store, store_or_get_asset_metadata, AssetError, AssetFileStore,
    AssetMetadata, AssetUsageParams, ManifestEntry, MetadataStore, SiteInfo, StorePlan,
};
use domcorder::frame::{
    AssetData, AssetFetchError, AssetReferenceData, CacheManifestData, Frame, ManifestEntryData,
    MouseMovedData, PlaybackConfigData, RecordingMetadataData, TimestampData,
    ViewportResizedData,
};
use domcorder::ingest::{IngestError, IngestSession, IngestState, Next};
use domcorder::listing::FileEntry;
use domcorder::reader::{FrameReader, ReadError};
use domcorder::recording_handler::open_recording;
use domcorder::server::{answer_asset, get_asset, playback_prelude, AssetResponse};
use domcorder::storage::{
    failed_name, AssetOutcome, FilterStep, KeptReference, ReferenceOutcome, ResumeStep,
    StorageState,
};
use domcorder::wire::prim::DecodeError;
use domcorder::wire::record::decode_frame;
use domcorder::writer::{FileHeader, FrameWriter};

struct MemoryIndex {
    assets: Vec<AssetMetadata>,
    usage: Vec<(AssetUsageParams, u64)>,
    recordings: Vec<(String, SiteInfo)>,
    fail_resolve: bool,
    fail_store: bool,
    fail_usage: bool,
}

impl MemoryIndex {
    fn new() -> Self {
        MemoryIndex {
            assets: Vec::new(),
            usage: Vec::new(),
            recordings: Vec::new(),
            fail_resolve: false,
            fail_store: false,
            fail_usage: false,
        }
    }

    fn uses(&self, site_origin: &str, url: &str, hash: &str) -> u64 {
        self.usage
            .iter()
            .find(|(p, _)| p.site_origin == site_origin && p.url == url && p.sha256_hash == hash)
            .map(|(_, count)| *count)
            .unwrap_or(0)
    }
}

impl MetadataStore for MemoryIndex {
    fn register_recording(
        &mut self,
        recording_id: &str,
        initial_url: &str,
    ) -> Result<SiteInfo, AssetError> {
        let origin = extract_origin(initial_url)?;
        let info = SiteInfo { origin, initial_url: initial_url.to_string() };
        self.recordings.retain(|(id, _)| id != recording_id);
        self.recordings.push((recording_id.to_string(), info.clone()));
        Ok(info)
    }

    fn get_site_manifest(
        &self,
        site_origin: &str,
        limit: usize,
    ) -> Result<Vec<ManifestEntry>, AssetError> {
        let mut rows: Vec<(u64, u64, String, String)> = Vec::new();
        for (params, count) in &self.usage {
            if params.site_origin == site_origin {
                if let Some(asset) =
                    self.assets.iter().find(|a| a.sha256_hash == params.sha256_hash)
                {
                    rows.push((*count, asset.size, params.url.clone(), params.sha256_hash.clone()));
                }
            }
        }
        rows.sort_by(|a, b| b.0.cmp(&a.0).then(b.1.cmp(&a.1)).then(a.2.cmp(&b.2)));
        rows.truncate(limit);
        Ok(rows
            .into_iter()
            .map(|(_, _, url, sha256_hash)| ManifestEntry { url, sha256_hash })
            .collect())
    }

    fn resolve_hashes(&self, sha256: &str) -> Result<Option<String>, AssetError> {
        if self.fail_resolve {
            return Err(AssetError::Database("the index is away".to_string()));
        }
        Ok(self.assets.iter().find(|a| a.sha256_hash == sha256).map(|a| a.random_id.clone()))
    }

    fn resolve_random_id(&self, random_id: &str) -> Result<Option<String>, AssetError> {
        Ok(self.assets.iter().find(|a| a.random_id == random_id).map(|a| a.sha256_hash.clone()))
    }

    fn register_asset_usage(&mut self, params: AssetUsageParams) -> Result<(), AssetError> {
        if self.fail_usage {
            return Err(AssetError::Database("the index is busy".to_string()));
        }
        for (known, count) in self.usage.iter_mut() {
            if known.site_origin == params.site_origin
                && known.url == params.url
                && known.sha256_hash == params.sha256_hash
            {
                *count += 1;
                return Ok(());
            }
        }
        self.usage.push((params, 1));
        Ok(())
    }

    fn store_asset_metadata(&mut self, metadata: AssetMetadata) -> Result<(), AssetError> {
        if self.fail_store {
            return Err(AssetError::Database("the index is full".to_string()));
        }
        self.assets
            .retain(|a| a.sha256_hash != metadata.sha256_hash && a.random_id != metadata.random_id);
        self.assets.push(metadata);
        Ok(())
    }

    fn get_asset_metadata(&self, random_id: &str) -> Result<Option<(String, u64)>, AssetError> {
        Ok(self
            .assets
            .iter()
            .find(|a| a.random_id == random_id)
            .map(|a| (a.mime_type.clone(), a.size)))
    }

    fn get_asset_mime_type(&self, random_id: &str) -> Result<Option<String>, AssetError> {
        Ok(self.assets.iter().find(|a| a.random_id == random_id).map(|a| a.mime_type.clone()))
    }
}

struct MemoryBlobs {
    blobs: Vec<(String, Vec<u8>)>,
}

impl MemoryBlobs {
    fn new() -> Self {
        MemoryBlobs { blobs: Vec::new() }
    }
}

impl AssetFileStore for MemoryBlobs {
    fn put(&mut self, hash: &str, data: &[u8], _mime: &str) -> Result<(), AssetError> {
        self.blobs.retain(|(h, _)| h != hash);
        self.blobs.push((hash.to_string(), data.to_vec()));
        Ok(())
    }

    fn blob_exists(&self, hash: &str) -> Result<bool, AssetError> {
        Ok(self.blobs.iter().any(|(h, _)| h == hash))
    }

    fn resolve_url(&self, hash: &str) -> Result<String, AssetError> {
        Ok(format!("/assets/{}", hash))
    }

    fn get(&self, hash: &str) -> Result<Vec<u8>, AssetError> {
        match self.blobs.iter().find(|(h, _)| h == hash) {
            Some((_, data)) => Ok(data.clone()),
            None => Err(AssetError::NotFound(hash.to_string())),
        }
    }

    fn storage_type(&self) -> String {
        "memory".to_string()
    }

    fn config_json(&self) -> Result<String, AssetError> {
        Ok("{\"kind\":\"memory\"}".to_string())
    }
}

fn storage() -> StorageState<MemoryIndex, MemoryBlobs> {
    StorageState::new(MemoryIndex::new(), MemoryBlobs::new())
}

fn is_random_id(id: &str) -> bool {
    id.len() == 43 && id.chars().all(|c| c.is_ascii_alphanumeric() || c == '-' || c == '_')
}

fn records(frames: &[Frame]) -> Vec<u8> {
    let mut writer = FrameWriter::new(Vec::new());
    for frame in frames {
        writer.write_frame(frame).unwrap();
    }
    writer.into_inner()
}

fn frames_of(body: &[u8]) -> Vec<Frame> {
    let mut reader = FrameReader::new(false);
    reader.feed(body);
    reader.finish();
    let mut frames = Vec::new();
    while let Some(frame) = reader.read_frame().unwrap() {
        frames.push(frame);
    }
    frames
}

fn png() -> Vec<u8> {
    vec![0x89, 0x50, 0x4E, 0x47, 0x0D, 0x0A, 0x1A, 0x0A, 1, 2, 3]
}

fn png_asset() -> Frame {
    Frame::Asset(AssetData {
        asset_id: 1,
        url: "https://a.example/img.png".to_string(),
        mime: Some("image/png".to_string()),
        buf: png(),
        fetch_error: AssetFetchError::NoError,
    })
}

#[test]
fn store_or_get_stores_a_new_asset_once() {
    let mut index = MemoryIndex::new();
    let mut blobs = MemoryBlobs::new();
    let data = b"some bytes".to_vec();
    let hash = sha256(&data);
    let first =
        store_or_get_asset_metadata(&hash, &data, "text/plain", &mut index, &mut blobs).unwrap();
    let second =
        store_or_get_asset_metadata(&hash, &data, "text/plain", &mut index, &mut blobs).unwrap();
    assert_eq!(first, second);
    assert!(is_random_id(&first));
    assert_eq!(index.assets.len(), 1);
    assert_eq!(index.assets[0].sha256_hash, hash);
    assert_eq!(index.assets[0].random_id, first);
    assert_eq!(index.assets[0].size, 10);
    assert_eq!(index.assets[0].mime_type, "text/plain");
    assert_eq!(blobs.blobs, vec![(hash, data)]);
    assert!(index.usage.is_empty());
}

#[test]
fn store_or_get_gives_many_callers_one_id() {
    let mut index = MemoryIndex::new();
    let mut blobs = MemoryBlobs::new();
    let data = png();
    let hash = sha256(&data);
    let mut ids = Vec::new();
    for _ in 0..8 {
        ids.push(
            store_or_get_asset_metadata(&hash, &data, "image/png", &mut index, &mut blobs)
                .unwrap(),
        );
    }
    assert!(ids.iter().all(|id| *id == ids[0]));
    assert_eq!(index.assets.len(), 1);
}

#[test]
fn store_or_get_makes_a_row_for_bytes_that_have_none() {
    let mut index = MemoryIndex::new();
    let mut blobs = MemoryBlobs::new();
    let data = b"bytes without a row".to_vec();
    let hash = sha256(&data);
    blobs.put(&hash, &data, "text/plain").unwrap();
    let id =
        store_or_get_asset_metadata(&hash, &data, "text/plain", &mut index, &mut blobs).unwrap();
    assert!(is_random_id(&id));
    assert_eq!(index.assets.len(), 1);
    assert_eq!(index.assets[0].random_id, id);
    assert_eq!(index.assets[0].size, data.len() as u64);
    assert_eq!(blobs.blobs.len(), 1);
}

#[test]
fn store_or_get_restores_bytes_that_are_gone() {
    let mut index = MemoryIndex::new();
    let mut blobs = MemoryBlobs::new();
    let data = b"bytes that went away".to_vec();
    let hash = sha256(&data);
    index
        .store_asset_metadata(AssetMetadata {
            sha256_hash: hash.clone(),
            random_id: "the-old-id".to_string(),
            size: 1,
            mime_type: "text/plain".to_string(),
        })
        .unwrap();
    let id =
        store_or_get_asset_metadata(&hash, &data, "text/plain", &mut index, &mut blobs).unwrap();
    assert_eq!(id, "the-old-id");
    assert_eq!(index.assets.len(), 1);
    assert_eq!(index.assets[0].size, data.len() as u64);
    assert_eq!(blobs.blobs, vec![(hash, data)]);
}

#[test]
fn store_or_get_makes_a_new_row_where_the_index_does_not_answer() {
    let mut index = MemoryIndex::new();
    let mut blobs = MemoryBlobs::new();
    let data = b"bytes".to_vec();
    let hash = sha256(&data);
    let first =
        store_or_get_asset_metadata(&hash, &data, "text/plain", &mut index, &mut blobs).unwrap();
    index.fail_resolve = true;
    let second =
        store_or_get_asset_metadata(&hash, &data, "text/plain", &mut index, &mut blobs).unwrap();
    assert!(is_random_id(&second));
    assert_ne!(first, second);
    assert_eq!(index.assets.len(), 1);
    assert_eq!(index.assets[0].random_id, second);
}

#[test]
fn store_or_get_fails_where_the_index_cannot_store() {
    let mut index = MemoryIndex::new();
    let mut blobs = MemoryBlobs::new();
    index.fail_store = true;
    let data = b"bytes".to_vec();
    let hash = sha256(&data);
    let r = store_or_get_asset_metadata(&hash, &data, "text/plain", &mut index, &mut blobs);
    assert_eq!(r, Err(AssetError::Database("the index is full".to_string())));
    assert!(index.assets.is_empty());
}

#[test]
fn the_plan_follows_what_the_stores_say() {
    let id = "id".to_string();
    assert_eq!(plan_store(true, Ok(Some(id.clone()))), StorePlan::UseExisting(id.clone()));
    assert_eq!(plan_store(false, Ok(Some(id.clone()))), StorePlan::RestoreBlob(id));
    assert_eq!(plan_store(true, Ok(None)), StorePlan::AddMetadata);
    assert_eq!(plan_store(false, Ok(None)), StorePlan::StoreNew);
    assert_eq!(
        plan_store(true, Err(AssetError::Database("x".to_string()))),
        StorePlan::AddMetadata
    );
    assert_eq!(
        plan_store(false, Err(AssetError::Database("x".to_string()))),
        StorePlan::StoreNew
    );
}

#[test]
fn a_plan_is_carried_out() {
    let data = b"planned".to_vec();
    let hash = sha256(&data);

    let mut index = MemoryIndex::new();
    let mut blobs = MemoryBlobs::new();
    let id =
        carry_out(StorePlan::UseExisting("known".into()), &hash, &data, "a/b", &mut index, &mut blobs);
    assert_eq!(id, Ok("known".to_string()));
    assert!(index.assets.is_empty());
    assert!(blobs.blobs.is_empty());

    let id = carry_out(StorePlan::AddMetadata, &hash, &data, "a/b", &mut index, &mut blobs).unwrap();
    assert!(is_random_id(&id));
    assert_eq!(index.assets.len(), 1);
    assert_eq!(index.assets[0].mime_type, "a/b");
    assert!(blobs.blobs.is_empty());

    let id =
        carry_out(StorePlan::RestoreBlob("known".into()), &hash, &data, "c/d", &mut index, &mut blobs);
    assert_eq!(id, Ok("known".to_string()));
    assert_eq!(index.assets.len(), 1);
    assert_eq!(index.assets[0].random_id, "known");
    assert_eq!(index.assets[0].mime_type, "c/d");
    assert_eq!(blobs.blobs, vec![(hash.clone(), data.clone())]);

    let mut index = MemoryIndex::new();
    let mut blobs = MemoryBlobs::new();
    let id = carry_out(StorePlan::StoreNew, &hash, &data, "a/b", &mut index, &mut blobs).unwrap();
    assert!(is_random_id(&id));
    assert_eq!(index.assets[0].random_id, id);
    assert_eq!(index.assets[0].size, 7);
    assert_eq!(blobs.blobs, vec![(hash, data)]);
}

#[test]
fn test_register_recording() {
    let mut store = MemoryIndex::new();
    let site_info = store.register_recording("rec-1", "https://example.com/page").unwrap();
    assert_eq!(site_info.origin, "https://example.com");
    assert_eq!(site_info.initial_url, "https://example.com/page");
}

#[test]
fn test_storage_generate_filename() {
    let storage = storage();

    let filename1 = storage.generate_filename();
    let filename2 = storage.generate_filename();

    // Should be different due to UUID
    assert_ne!(filename1, filename2);

    // Should have correct format
    assert!(filename1.ends_with(".dcrr"));
    assert!(filename1.contains("_"));
    let id = &filename1[filename1.len() - 37..filename1.len() - 5];
    assert!(id.chars().all(|c| c.is_ascii_hexdigit()));
    assert_eq!(&filename1[filename1.len() - 38..filename1.len() - 37], "_");
}

#[test]
fn recordings_are_active_from_mark_to_mark() {
    let mut storage = storage();
    assert!(!storage.is_recording_active("a.dcrr"));
    storage.mark_recording_active("a.dcrr");
    storage.mark_recording_active("b.dcrr");
    storage.mark_recording_active("a.dcrr");
    assert!(storage.is_recording_active("a.dcrr"));
    assert!(storage.is_recording_active("b.dcrr"));
    storage.mark_recording_completed("a.dcrr");
    assert!(!storage.is_recording_active("a.dcrr"));
    assert!(storage.is_recording_active("b.dcrr"));
    storage.mark_recording_completed("never-marked.dcrr");
    assert!(storage.is_recording_active("b.dcrr"));
}

#[test]
fn the_list_of_recordings_has_the_newest_first_and_no_failed_ones() {
    let mut storage = storage();
    storage.mark_recording_active("new.dcrr");
    let entry = |name: &str, size: u64, created: i64| FileEntry {
        filename: name.to_string(),
        size,
        created,
    };
    let infos = storage.list_recordings(vec![
        entry("old.dcrr", 10, 100),
        entry("broken.dcrr.failed", 11, 400),
        entry("new.dcrr", 12, 300),
        entry("notes.txt", 13, 500),
        entry("middle.dcrr", 14, 200),
        entry(".dcrr", 15, 600),
    ]);
    let names: Vec<&str> = infos.iter().map(|i| i.filename.as_str()).collect();
    assert_eq!(names, vec!["new.dcrr", "middle.dcrr", "old.dcrr"]);
    assert_eq!(infos[0].id, "new.dcrr");
    assert_eq!(infos[0].size, 12);
    assert_eq!(infos[0].created, 300);
    assert!(infos[0].is_active);
    assert!(!infos[1].is_active);
}

// A stream of a recorder is taken in, and the session file holds its frames.
#[test]
fn minimal_round_trip() {
    let mut storage = storage();
    let stream = vec![
        Frame::RecordingMetadata(RecordingMetadataData {
            initial_url: "https://example.com/".to_string(),
        }),
        Frame::Timestamp(TimestampData { timestamp: 1722550000000 }),
        Frame::ViewportResized(ViewportResizedData { width: 1920, height: 1080 }),
        Frame::MouseMoved(MouseMovedData { x: 150, y: 200 }),
    ];

    let opening =
        open_recording(&mut storage, "rec.dcrr", "https://example.com/", None).unwrap();
    assert_eq!(opening.origin, "https://example.com");
    assert_eq!(
        frames_of(&opening.manifest_record),
        vec![Frame::CacheManifest(CacheManifestData {
            site_origin: "https://example.com".to_string(),
            assets: vec![],
        })]
    );
    assert_eq!(storage.metadata_store.recordings.len(), 1);
    assert_eq!(storage.metadata_store.recordings[0].0, "rec.dcrr");

    let (mut session, header) = IngestSession::frames_only(Some(opening.origin));
    let mut file = header;
    let step = session.feed(&mut storage, &records(&stream));
    assert_eq!(step.next, Next::Input);
    assert_eq!(step.output, records(&stream));
    file.extend_from_slice(&step.output);
    let step = session.finish(&mut storage);
    assert_eq!(step.next, Next::Committed);
    assert!(step.output.is_empty());
    assert_eq!(session.state(), IngestState::Committed);
    assert!(storage.asset_file_store.blobs.is_empty());
    assert!(storage.metadata_store.assets.is_empty());

    let mut reader = FrameReader::new(true);
    reader.feed(&file);
    reader.finish();
    let read = reader.read_header().unwrap();
    assert_eq!(read.version, 1);
    assert!(read.created_at > 1_600_000_000_000);
    let mut frames = Vec::new();
    while let Some(frame) = reader.read_frame().unwrap() {
        frames.push(frame);
    }
    assert_eq!(frames, stream);

    let listed = storage.list_recordings(vec![FileEntry {
        filename: "rec.dcrr".to_string(),
        size: file.len() as u64,
        created: 1,
    }]);
    assert_eq!(listed.len(), 1);
}

#[test]
fn asset_dedup() {
    let mut storage = storage();
    let origin = "https://a.example".to_string();
    let stream = records(&[png_asset()]);

    let mut kept = Vec::new();
    for _ in 0..2 {
        let (mut session, _header) = IngestSession::frames_only(Some(origin.clone()));
        let step = session.feed(&mut storage, &stream);
        assert_eq!(step.next, Next::Input);
        assert_eq!(session.finish(&mut storage).next, Next::Committed);
        kept.push(frames_of(&step.output));
    }

    let hash = sha256(&png());
    assert_eq!(storage.metadata_store.assets.len(), 1);
    assert_eq!(storage.metadata_store.assets[0].sha256_hash, hash);
    assert_eq!(storage.asset_file_store.blobs, vec![(hash.clone(), png())]);
    assert_eq!(storage.metadata_store.usage.len(), 1);
    assert_eq!(storage.metadata_store.uses(&origin, "https://a.example/img.png", &hash), 2);

    let random_id = storage.metadata_store.assets[0].random_id.clone();
    assert!(is_random_id(&random_id));
    let expected = vec![Frame::AssetReference(AssetReferenceData {
        asset_id: 1,
        url: "https://a.example/img.png".to_string(),
        hash: random_id,
        mime: Some("image/png".to_string()),
    })];
    assert_eq!(kept[0], expected);
    assert_eq!(kept[1], expected);
}

#[test]
fn cors_fallback() {
    let mut storage = storage();
    let origin = "https://site.example".to_string();
    let url = "https://cdn.example/font.woff2".to_string();
    let asset = Frame::Asset(AssetData {
        asset_id: 7,
        url: url.clone(),
        mime: None,
        buf: vec![],
        fetch_error: AssetFetchError::CORS,
    });
    let after = Frame::MouseMoved(MouseMovedData { x: 1, y: 2 });
    let body = b"the bytes of a font".to_vec();

    let (mut session, _header) = IngestSession::frames_only(Some(origin.clone()));
    let step = session.feed(&mut storage, &records(&[asset, after.clone()]));
    assert_eq!(step.next, Next::Fetch(url.clone()));
    assert!(step.output.is_empty());
    assert_eq!(session.state(), IngestState::Waiting);

    let step = session.fetched(
        &mut storage,
        Ok(FetchResponse {
            status: 200,
            content_type: Some("font/woff2; charset=utf-8".to_string()),
            body: body.clone(),
        }),
    );
    assert_eq!(step.next, Next::Input);

    let hash = sha256(&body);
    assert_eq!(storage.asset_file_store.blobs, vec![(hash.clone(), body)]);
    assert_eq!(storage.metadata_store.assets.len(), 1);
    assert_eq!(storage.metadata_store.assets[0].mime_type, "font/woff2");
    assert_eq!(storage.metadata_store.uses(&origin, &url, &hash), 1);
    let random_id = storage.metadata_store.assets[0].random_id.clone();
    assert_eq!(
        frames_of(&step.output),
        vec![
            Frame::AssetReference(AssetReferenceData {
                asset_id: 7,
                url,
                hash: random_id,
                mime: None,
            }),
            after,
        ]
    );
    assert_eq!(session.finish(&mut storage).next, Next::Committed);
}

#[test]
fn http_error_drop() {
    let mut storage = storage();
    let asset = Frame::Asset(AssetData {
        asset_id: 7,
        url: "https://x/404".to_string(),
        mime: None,
        buf: vec![],
        fetch_error: AssetFetchError::Http,
    });
    let before = Frame::Timestamp(TimestampData { timestamp: 1 });
    let after = Frame::Timestamp(TimestampData { timestamp: 2 });

    let (mut session, _header) = IngestSession::frames_only(Some("https://x".to_string()));
    let step = session.feed(&mut storage, &records(&[before.clone(), asset, after.clone()]));
    assert_eq!(step.next, Next::Input);
    assert_eq!(frames_of(&step.output), vec![before, after]);
    assert!(storage.asset_file_store.blobs.is_empty());
    assert!(storage.metadata_store.assets.is_empty());
    assert!(storage.metadata_store.usage.is_empty());
    assert_eq!(session.finish(&mut storage).next, Next::Committed);
}

#[test]
fn a_use_is_counted_once_for_each_asset_that_is_taken_in() {
    let mut storage = storage();
    let asset = match png_asset() {
        Frame::Asset(asset) => asset,
        _ => unreachable!(),
    };
    let hash = sha256(&png());
    storage.process_asset_frame(&asset, None).unwrap();
    assert!(storage.metadata_store.usage.is_empty());
    storage.process_asset_frame(&asset, Some("https://a.example")).unwrap();
    assert_eq!(storage.metadata_store.uses("https://a.example", &asset.url, &hash), 1);
    storage.process_asset_frame(&asset, Some("https://b.example")).unwrap();
    assert_eq!(storage.metadata_store.uses("https://a.example", &asset.url, &hash), 1);
    assert_eq!(storage.metadata_store.uses("https://b.example", &asset.url, &hash), 1);

    // what the server fetched itself is counted too, and stored with the
    // MIME type that the answer declares
    let empty = AssetData { buf: vec![], fetch_error: AssetFetchError::CORS, ..asset.clone() };
    let body = b"fetched".to_vec();
    let kept = storage.complete_asset_frame(
        &empty,
        Some("https://a.example"),
        Ok(FetchResponse {
            status: 200,
            content_type: Some("IMAGE/GIF; q=1".to_string()),
            body: body.clone(),
        }),
    );
    let row = storage
        .metadata_store
        .assets
        .iter()
        .find(|a| a.sha256_hash == sha256(&body))
        .unwrap()
        .clone();
    assert_eq!(row.mime_type, "image/gif");
    assert_eq!(row.size, 7);
    assert_eq!(
        kept,
        Some(KeptReference {
            reference: AssetReferenceData {
                asset_id: asset.asset_id,
                url: asset.url.clone(),
                hash: row.random_id,
                mime: asset.mime.clone(),
            },
            counted: true,
        })
    );
    assert_eq!(storage.metadata_store.uses("https://a.example", &asset.url, &sha256(&body)), 1);

    // a fetch that failed leaves everything as it is
    let before = (storage.metadata_store.assets.len(), storage.asset_file_store.blobs.len());
    let dropped = storage.complete_asset_frame(
        &empty,
        Some("https://a.example"),
        Ok(FetchResponse { status: 503, content_type: None, body: b"later".to_vec() }),
    );
    assert_eq!(dropped, None);
    let dropped = storage.complete_asset_frame(
        &empty,
        Some("https://a.example"),
        Err(AssetError::Storage("timed out".into())),
    );
    assert_eq!(dropped, None);
    assert_eq!(
        before,
        (storage.metadata_store.assets.len(), storage.asset_file_store.blobs.len())
    );
}

#[test]
fn an_asset_without_bytes_and_without_an_error_is_dropped() {
    let mut storage = storage();
    let asset = AssetData {
        asset_id: 7,
        url: "https://x/empty".to_string(),
        mime: None,
        buf: vec![],
        fetch_error: AssetFetchError::NoError,
    };
    assert_eq!(storage.process_asset_frame(&asset, Some("https://x")), Ok(AssetOutcome::Dropped));
    assert_eq!(storage.filter_frame(Frame::Asset(asset), Some("https://x")), FilterStep::Skip);
}

#[test]
fn hash_mismatch_quarantine() {
    let mut storage = storage();
    let reference = Frame::AssetReference(AssetReferenceData {
        asset_id: 3,
        url: "https://x/a".to_string(),
        hash: "a".repeat(64),
        mime: None,
    });
    let before = Frame::Timestamp(TimestampData { timestamp: 1 });

    let (mut session, _header) = IngestSession::frames_only(Some("https://x".to_string()));
    let step = session.feed(&mut storage, &records(&[before.clone(), reference]));
    assert_eq!(step.next, Next::Fetch("https://x/a".to_string()));
    assert_eq!(frames_of(&step.output), vec![before]);

    let body = b"not what was promised".to_vec();
    let step = session.fetched(
        &mut storage,
        Ok(FetchResponse { status: 200, content_type: None, body: body.clone() }),
    );
    assert_eq!(
        step.next,
        Next::Quarantined(IngestError::Asset(AssetError::HashMismatch {
            expected: "a".repeat(64),
            actual: sha256(&body),
        }))
    );
    assert!(step.output.is_empty());
    assert_eq!(session.state(), IngestState::Quarantined);
    assert!(storage.metadata_store.assets.is_empty());
    assert!(storage.asset_file_store.blobs.is_empty());

    // the session file is set aside, and is listed no more
    let name = failed_name("rec.dcrr");
    assert_eq!(name, "rec.dcrr.failed");
    let listed = storage.list_recordings(vec![FileEntry { filename: name, size: 1, created: 1 }]);
    assert!(listed.is_empty());

    // a recording that is over stays over
    let step = session.feed(&mut storage, &records(&[Frame::Heartbeat]));
    assert!(matches!(step.next, Next::Quarantined(_)));
    assert!(step.output.is_empty());
}

#[test]
fn a_reference_to_content_with_the_right_hash_is_kept() {
    let mut storage = storage();
    let body = b"what was promised".to_vec();
    let hash = sha256(&body);
    let reference = AssetReferenceData {
        asset_id: 3,
        url: "https://x/a".to_string(),
        hash: hash.clone(),
        mime: None,
    };
    assert_eq!(
        storage.process_asset_reference_frame(&reference, Some("https://x")),
        Ok(ReferenceOutcome::NeedsFetch)
    );
    let step = storage.resume_frame(
        Frame::AssetReference(reference.clone()),
        Some("https://x"),
        Ok(FetchResponse {
            status: 200,
            content_type: Some("Text/Plain".to_string()),
            body: body.clone(),
        }),
    );
    let random_id = storage.metadata_store.assets[0].random_id.clone();
    assert_eq!(
        step,
        ResumeStep::Write(Frame::AssetReference(AssetReferenceData {
            asset_id: 3,
            url: "https://x/a".to_string(),
            hash: random_id.clone(),
            mime: Some("text/plain".to_string()),
        }))
    );
    assert_eq!(storage.metadata_store.uses("https://x", "https://x/a", &hash), 1);

    // the next reference to it is looked up in the index
    assert_eq!(
        storage.process_asset_reference_frame(&reference, Some("https://x")),
        Ok(ReferenceOutcome::Resolved(KeptReference {
            reference: AssetReferenceData {
                asset_id: 3,
                url: "https://x/a".to_string(),
                hash: random_id,
                mime: Some("text/plain".to_string()),
            },
            counted: true,
        }))
    );
    assert_eq!(storage.metadata_store.uses("https://x", "https://x/a", &hash), 2);
}

#[test]
fn a_fetch_that_fails_drops_the_frame() {
    let mut storage = storage();
    let asset = Frame::Asset(AssetData {
        asset_id: 7,
        url: "https://cdn.example/gone".to_string(),
        mime: None,
        buf: vec![],
        fetch_error: AssetFetchError::Network,
    });
    let reference = Frame::AssetReference(AssetReferenceData {
        asset_id: 3,
        url: "https://x/a".to_string(),
        hash: "a".repeat(64),
        mime: None,
    });
    let not_found = || Ok(FetchResponse { status: 404, content_type: None, body: b"no".to_vec() });
    let timeout = || Err(AssetError::Storage("timed out".to_string()));
    assert_eq!(storage.resume_frame(asset.clone(), None, not_found()), ResumeStep::Skip);
    assert_eq!(storage.resume_frame(asset, None, timeout()), ResumeStep::Skip);
    assert_eq!(storage.resume_frame(reference.clone(), None, not_found()), ResumeStep::Skip);
    assert_eq!(storage.resume_frame(reference.clone(), None, timeout()), ResumeStep::Skip);
    assert_eq!(
        storage.resume_frame(
            reference,
            None,
            Err(AssetError::HashMismatch { expected: "a".to_string(), actual: "b".to_string() })
        ),
        ResumeStep::Skip
    );
    assert!(storage.metadata_store.assets.is_empty());
    assert!(storage.asset_file_store.blobs.is_empty());
}

#[test]
fn what_a_fetch_brought_goes_into_the_cache() {
    let mut index = MemoryIndex::new();
    let mut blobs = MemoryBlobs::new();
    let body = b"body".to_vec();
    let (hash, id) = fetch_and_cache_asset(
        Ok(FetchResponse { status: 204, content_type: None, body: body.clone() }),
        &mut index,
        &mut blobs,
    )
    .unwrap();
    assert_eq!(hash, sha256(&body));
    assert_eq!(index.assets[0].random_id, id);
    assert_eq!(index.assets[0].mime_type, "application/octet-stream");

    let r = fetch_and_cache_asset(
        Ok(FetchResponse { status: 500, content_type: None, body: b"other".to_vec() }),
        &mut index,
        &mut blobs,
    );
    assert_eq!(r, Err(AssetError::Storage("HTTP error: 500".to_string())));
    let r = fetch_and_cache_asset(
        Err(AssetError::Storage("no route".to_string())),
        &mut index,
        &mut blobs,
    );
    assert_eq!(r, Err(AssetError::Storage("no route".to_string())));
    assert_eq!(index.assets.len(), 1);
    assert_eq!(blobs.blobs.len(), 1);
}

#[test]
fn bytes_that_are_no_frame_set_the_recording_aside() {
    let mut storage = storage();
    let good = Frame::Timestamp(TimestampData { timestamp: 1 });
    let mut stream = records(&[good.clone()]);
    stream.extend_from_slice(&[0, 0, 0, 4, 0, 0, 0, 99]);
    stream.extend_from_slice(&records(&[good.clone()]));

    let (mut session, _header) = IngestSession::frames_only(None);
    let step = session.feed(&mut storage, &stream);
    assert_eq!(
        step.next,
        Next::Quarantined(IngestError::Read(ReadError::Decode(DecodeError::UnknownTag)))
    );
    assert_eq!(frames_of(&step.output), vec![good]);
    assert_eq!(session.state(), IngestState::Quarantined);
    assert!(matches!(session.finish(&mut storage).next, Next::Quarantined(_)));
}

#[test]
fn a_stream_that_ends_inside_a_frame_sets_the_recording_aside() {
    let mut storage = storage();
    let stream = records(&[Frame::Timestamp(TimestampData { timestamp: 1 })]);
    let (mut session, _header) = IngestSession::frames_only(None);
    let step = session.feed(&mut storage, &stream[..stream.len() - 1]);
    assert_eq!(step.next, Next::Input);
    assert!(step.output.is_empty());
    let step = session.finish(&mut storage);
    assert_eq!(step.next, Next::Quarantined(IngestError::Read(ReadError::UnexpectedEof)));
}

#[test]
fn a_recording_can_be_given_up() {
    let mut storage = storage();
    let (mut session, _header) = IngestSession::frames_only(None);
    session.feed(&mut storage, &records(&[Frame::Heartbeat]));
    let step = session.abort(IngestError::TooLarge);
    assert_eq!(step.next, Next::Quarantined(IngestError::TooLarge));
    assert_eq!(session.state(), IngestState::Quarantined);
    // a recording that was set aside keeps its reason
    let step = session.abort(IngestError::Source("late".to_string()));
    assert_eq!(step.next, Next::Quarantined(IngestError::TooLarge));
    assert_eq!(session.feed(&mut storage, &[1, 2]).next, Next::Quarantined(IngestError::TooLarge));
    assert_eq!(session.finish(&mut storage).next, Next::Quarantined(IngestError::TooLarge));
}

#[test]
fn a_recording_that_was_set_aside_gives_its_reason_again() {
    let mut storage = storage();
    let (mut session, _header) = IngestSession::frames_only(None);
    let reason = IngestError::Source("the socket broke".to_string());
    assert_eq!(reason.copy(), reason);
    let step = session.abort(reason.copy());
    assert_eq!(step.next, Next::Quarantined(reason.clone()));
    assert!(step.output.is_empty());
    let step = session.feed(&mut storage, &records(&[Frame::Heartbeat]));
    assert_eq!(step.next, Next::Quarantined(reason.clone()));
    assert!(step.output.is_empty());
    assert_eq!(session.abort(IngestError::TooLarge).next, Next::Quarantined(reason));

    let mismatch = AssetError::HashMismatch { expected: "a".into(), actual: "b".into() };
    assert_eq!(mismatch.copy(), mismatch);
    assert_eq!(IngestError::Asset(mismatch.copy()).copy(), IngestError::Asset(mismatch));
}

#[test]
fn a_use_that_the_index_refuses_is_told_of_and_the_reference_is_kept() {
    let mut storage = storage();
    let asset = match png_asset() {
        Frame::Asset(asset) => asset,
        _ => unreachable!(),
    };
    let hash = sha256(&png());

    // without a site nothing is counted, and nothing is asked of the index
    assert!(!storage.register_usage(None, &asset.url, &hash, 4));
    assert!(storage.metadata_store.usage.is_empty());

    assert!(storage.register_usage(Some("https://a.example"), &asset.url, &hash, 4));
    assert_eq!(storage.metadata_store.uses("https://a.example", &asset.url, &hash), 1);
    assert!(storage.register_usage(Some("https://a.example"), &asset.url, &hash, 4));
    assert_eq!(storage.metadata_store.uses("https://a.example", &asset.url, &hash), 2);

    storage.metadata_store.fail_usage = true;
    assert!(!storage.register_usage(Some("https://a.example"), &asset.url, &hash, 4));
    assert_eq!(storage.metadata_store.uses("https://a.example", &asset.url, &hash), 2);

    let kept = match storage.process_asset_frame(&asset, Some("https://a.example")) {
        Ok(AssetOutcome::Reference(kept)) => kept,
        other => panic!("{:?}", other),
    };
    assert!(!kept.counted);
    assert_eq!(kept.reference.asset_id, asset.asset_id);
    assert_eq!(kept.reference.url, asset.url);
    assert!(is_random_id(&kept.reference.hash));
    assert_eq!(storage.metadata_store.uses("https://a.example", &asset.url, &hash), 2);

    storage.metadata_store.fail_usage = false;
    let again = match storage.process_asset_frame(&asset, Some("https://a.example")) {
        Ok(AssetOutcome::Reference(kept)) => kept,
        other => panic!("{:?}", other),
    };
    assert!(again.counted);
    assert_eq!(again.reference, kept.reference);
    assert_eq!(storage.metadata_store.uses("https://a.example", &asset.url, &hash), 3);

    let unsited = match storage.process_asset_frame(&asset, None) {
        Ok(AssetOutcome::Reference(kept)) => kept,
        other => panic!("{:?}", other),
    };
    assert!(!unsited.counted);
    assert_eq!(storage.metadata_store.uses("https://a.example", &asset.url, &hash), 3);
}

#[test]
fn heartbeats_and_assets_leave_the_other_frames_in_their_order() {
    let mut storage = storage();
    let a = Frame::Timestamp(TimestampData { timestamp: 1 });
    let b = Frame::MouseMoved(MouseMovedData { x: 1, y: 2 });
    let c = Frame::ViewportResized(ViewportResizedData { width: 3, height: 4 });
    let stream = vec![
        Frame::Heartbeat,
        a.clone(),
        png_asset(),
        Frame::Heartbeat,
        b.clone(),
        png_asset(),
        c.clone(),
        Frame::Heartbeat,
    ];
    let bytes = records(&stream);

    // in one piece, and byte by byte
    for size in [bytes.len(), 1] {
        let (mut session, _header) = IngestSession::frames_only(Some("https://a.example".into()));
        let mut output = Vec::new();
        for chunk in bytes.chunks(size) {
            let step = session.feed(&mut storage, chunk);
            assert_eq!(step.next, Next::Input);
            output.extend_from_slice(&step.output);
        }
        assert_eq!(session.finish(&mut storage).next, Next::Committed);
        let kept = frames_of(&output);
        assert_eq!(kept.len(), 5);
        assert!(kept.iter().all(|f| !matches!(f, Frame::Asset(_) | Frame::Heartbeat)));
        let others: Vec<Frame> =
            kept.iter().filter(|f| !matches!(f, Frame::AssetReference(_))).cloned().collect();
        assert_eq!(others, vec![a.clone(), b.clone(), c.clone()]);
        let random_id = storage.metadata_store.assets[0].random_id.clone();
        for frame in &kept {
            if let Frame::AssetReference(reference) = frame {
                assert_eq!(reference.hash, random_id);
                assert!(is_random_id(&reference.hash));
                let hash = storage.metadata_store.resolve_random_id(&reference.hash).unwrap();
                assert!(storage.asset_file_store.blob_exists(&hash.unwrap()).unwrap());
            }
        }
    }
}

#[test]
fn a_stream_with_a_header_is_kept_as_it_is() {
    let mut storage = storage();
    let mut writer = FrameWriter::new(Vec::new());
    writer.write_header(&FileHeader::with_timestamp(1691234567890)).unwrap();
    let frames = vec![
        Frame::Timestamp(TimestampData { timestamp: 1 }),
        Frame::MouseMoved(MouseMovedData { x: 1, y: 2 }),
    ];
    for frame in &frames {
        writer.write_frame(frame).unwrap();
    }
    let file = writer.into_inner();

    for size in [file.len(), 5] {
        let mut session = IngestSession::with_header(None);
        assert_eq!(session.state(), IngestState::AwaitingHeader);
        let mut output = Vec::new();
        for chunk in file.chunks(size) {
            let step = session.feed(&mut storage, chunk);
            assert_eq!(step.next, Next::Input);
            output.extend_from_slice(&step.output);
        }
        assert_eq!(session.finish(&mut storage).next, Next::Committed);
        assert_eq!(output, file);
    }
}

#[test]
fn a_stream_whose_header_is_none_is_set_aside() {
    let mut storage = storage();
    let mut session = IngestSession::with_header(None);
    let step = session.feed(&mut storage, &[b'X'; 40]);
    assert_eq!(step.next, Next::Quarantined(IngestError::Read(ReadError::InvalidMagic)));
    assert!(step.output.is_empty());

    let mut session = IngestSession::with_header(None);
    assert_eq!(session.feed(&mut storage, b"DCRR").next, Next::Input);
    let step = session.finish(&mut storage);
    assert_eq!(step.next, Next::Quarantined(IngestError::Read(ReadError::UnexpectedEof)));
}

#[test]
fn the_manifest_has_the_most_used_assets_first() {
    let mut storage = storage();
    let origin = "https://a.example";
    let asset = |url: &str, bytes: &[u8]| AssetData {
        asset_id: 1,
        url: url.to_string(),
        mime: None,
        buf: bytes.to_vec(),
        fetch_error: AssetFetchError::NoError,
    };
    let small = asset("https://a.example/small", b"1");
    let large = asset("https://a.example/large", b"12345");
    let often = asset("https://a.example/often", b"123");
    let other = asset("https://b.example/other", b"1234567");
    storage.process_asset_frame(&small, Some(origin)).unwrap();
    storage.process_asset_frame(&large, Some(origin)).unwrap();
    storage.process_asset_frame(&often, Some(origin)).unwrap();
    storage.process_asset_frame(&often, Some(origin)).unwrap();
    storage.process_asset_frame(&other, Some("https://b.example")).unwrap();

    let manifest = generate_manifest(&storage.metadata_store, origin, None).unwrap();
    assert_eq!(manifest.site_origin, origin);
    let urls: Vec<&str> = manifest.assets.iter().map(|e| e.url.as_str()).collect();
    assert_eq!(
        urls,
        vec!["https://a.example/often", "https://a.example/large", "https://a.example/small"]
    );
    assert_eq!(manifest.assets[0].sha256_hash, sha256(b"123"));

    let top = generate_manifest(&storage.metadata_store, origin, Some(2)).unwrap();
    assert_eq!(top.assets.len(), 2);
    assert_eq!(top.assets[1].url, "https://a.example/large");
}

#[test]
fn the_frame_of_a_manifest_holds_its_entries() {
    let manifest = CacheManifest {
        assets: vec![ManifestEntry { url: "u".to_string(), sha256_hash: "h".to_string() }],
        site_origin: "https://a.example".to_string(),
    };
    assert_eq!(
        manifest_frame(&manifest),
        Frame::CacheManifest(CacheManifestData {
            site_origin: "https://a.example".to_string(),
            assets: vec![ManifestEntryData { url: "u".to_string(), sha256_hash: "h".to_string() }],
        })
    );
}

#[test]
fn a_recording_at_a_text_that_is_no_url_is_refused() {
    let mut storage = storage();
    let r = open_recording(&mut storage, "rec.dcrr", "not a url", None);
    assert_eq!(r, Err(AssetError::InvalidUrl("not a url".to_string())));
    assert!(storage.metadata_store.recordings.is_empty());
}

#[test]
fn the_origin_of_a_recording_can_be_set() {
    let mut storage = storage();
    storage
        .process_asset_frame(
            &AssetData {
                asset_id: 1,
                url: "https://a.example/img.png".to_string(),
                mime: None,
                buf: png(),
                fetch_error: AssetFetchError::NoError,
            },
            Some("tenant-7"),
        )
        .unwrap();
    let opening = open_recording(
        &mut storage,
        "rec.dcrr",
        "https://a.example:8443/page",
        Some("tenant-7".to_string()),
    )
    .unwrap();
    assert_eq!(opening.origin, "tenant-7");
    assert_eq!(opening.manifest.assets.len(), 1);
    assert_eq!(storage.metadata_store.recordings[0].1.origin, "https://a.example:8443");
    assert_eq!(
        frames_of(&opening.manifest_record),
        vec![Frame::CacheManifest(CacheManifestData {
            site_origin: "tenant-7".to_string(),
            assets: vec![ManifestEntryData {
                url: "https://a.example/img.png".to_string(),
                sha256_hash: sha256(&png()),
            }],
        })]
    );
}

#[test]
fn a_player_is_sent_to_the_url_of_an_asset() {
    let mut index = MemoryIndex::new();
    let mut blobs = MemoryBlobs::new();
    let id = store_or_get_asset_metadata(&sha256(&png()), &png(), "image/png", &mut index, &mut blobs)
        .unwrap();
    let transformer =
        PlaybackFrameTransformer::new(index, blobs, "http://127.0.0.1:8723".to_string());

    let reference = Frame::AssetReference(AssetReferenceData {
        asset_id: 5,
        url: "https://a.example/img.png".to_string(),
        hash: id.clone(),
        mime: Some("image/png".to_string()),
    });
    let sent = Frame::Asset(AssetData {
        asset_id: 5,
        url: format!("http://127.0.0.1:8723/assets/{}", id),
        mime: Some("image/png".to_string()),
        buf: vec![],
        fetch_error: AssetFetchError::NoError,
    });
    assert_eq!(transformer.transform_frame(reference), Ok(sent));

    // an asset with bytes that the cache has
    let mut with_bytes = match png_asset() {
        Frame::Asset(asset) => asset,
        _ => unreachable!(),
    };
    with_bytes.asset_id = 6;
    let sent = Frame::Asset(AssetData {
        asset_id: 6,
        url: format!("http://127.0.0.1:8723/assets/{}", id),
        mime: Some("image/png".to_string()),
        buf: vec![],
        fetch_error: AssetFetchError::NoError,
    });
    assert_eq!(transformer.transform_frame(Frame::Asset(with_bytes)), Ok(sent));

    // an asset with bytes that the cache does not have, one without bytes,
    // and a frame of another kind
    for frame in [
        Frame::Asset(AssetData {
            asset_id: 1,
            url: "https://a.example/other".to_string(),
            mime: None,
            buf: vec![1, 2, 3],
            fetch_error: AssetFetchError::NoError,
        }),
        Frame::Asset(AssetData {
            asset_id: 1,
            url: "https://a.example/other".to_string(),
            mime: None,
            buf: vec![],
            fetch_error: AssetFetchError::NoError,
        }),
        Frame::Heartbeat,
        Frame::Timestamp(TimestampData { timestamp: 9 }),
    ] {
        assert_eq!(transformer.transform_frame(frame.clone()), Ok(frame));
    }
}

#[test]
fn an_asset_is_handed_out_under_its_random_id() {
    let mut storage = storage();
    let id = store_or_get_asset_metadata(
        &sha256(&png()),
        &png(),
        "image/png",
        &mut storage.metadata_store,
        &mut storage.asset_file_store,
    )
    .unwrap();
    assert_eq!(
        get_asset(&storage, &id),
        AssetResponse::Found { hash: sha256(&png()), data: png(), mime: "image/png".to_string() }
    );
    assert_eq!(get_asset(&storage, "no-such-id"), AssetResponse::NotFound);
    assert_eq!(get_asset(&storage, &sha256(&png())), AssetResponse::NotFound);
    storage.asset_file_store.blobs.clear();
    assert_eq!(get_asset(&storage, &id), AssetResponse::NotFound);
}

#[test]
fn what_a_player_is_answered_for_an_asset() {
    let gone = || AssetError::Io("gone".to_string());
    assert_eq!(
        answer_asset("h".into(), Ok(vec![1]), Ok(Some(("image/png".into(), 1)))),
        AssetResponse::Found { hash: "h".into(), data: vec![1], mime: "image/png".into() }
    );
    assert_eq!(
        answer_asset("h".into(), Ok(vec![1]), Ok(None)),
        AssetResponse::Found {
            hash: "h".into(),
            data: vec![1],
            mime: "application/octet-stream".into()
        }
    );
    assert_eq!(
        answer_asset("h".into(), Ok(vec![]), Err(gone())),
        AssetResponse::Found {
            hash: "h".into(),
            data: vec![],
            mime: "application/octet-stream".into()
        }
    );
    assert_eq!(answer_asset("h".into(), Err(gone()), Ok(None)), AssetResponse::NotFound);
}

#[test]
fn a_player_is_told_of_the_store_first() {
    let blobs = MemoryBlobs::new();
    let bytes = playback_prelude(&blobs, true, Some(1722550000000)).unwrap();
    assert_eq!(
        frames_of(&bytes),
        vec![Frame::PlaybackConfig(PlaybackConfigData {
            storage_type: "memory".to_string(),
            config_json: "{\"kind\":\"memory\"}".to_string(),
            is_live: true,
            latest_timestamp: Some(1722550000000),
        })]
    );
    let bytes = playback_prelude(&blobs, false, Some(1722550000000)).unwrap();
    match decode_frame(&bytes[4..]) {
        Ok(Frame::PlaybackConfig(config)) => {
            assert!(!config.is_live);
            assert_eq!(config.latest_timestamp, None);
        }
        other => panic!("unexpected {:?}", other),
    }
}
