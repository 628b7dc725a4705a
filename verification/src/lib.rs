//! Recording and playback of browser sessions as streams of typed frames.
//!
//! A recorder sends what happens on a page as a stream of frames. The server
//! keeps the stream as a session file, with the bytes of the assets in a
//! cache of their own, and plays the session file back, also while it is
//! still written to.
//!
//! - [`frame`] and [`vdom`]: the frames and the DOM trees that they hold.
//! - [`wire`]: the bytes that stand for a frame; [`writer`] and [`reader`]:
//!   session files and streams of frames.
//! - [`asset_cache`]: the cache of assets, and what goes in and out of it.
//! - [`ingest`], [`storage`], [`recording_handler`]: taking in a recording.
//! - [`listing`], [`server`]: listing and playing back.

pub mod asset_cache;
pub mod frame;
pub mod ingest;
pub mod listing;
pub mod reader;
pub mod recording_handler;
pub mod server;
pub mod storage;
pub mod text;
pub mod vdom;
pub mod wire;
pub mod writer;

pub use asset_cache::AssetFileStore;
pub use asset_cache::MetadataStore;
pub use frame::Frame;
pub use reader::FrameReader;
pub use recording_handler::RecordingConfig;
pub use storage::StorageState;
pub use writer::FileHeader;
pub use writer::FrameWriter;
