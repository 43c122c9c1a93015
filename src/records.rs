//! Records exchanged with the encoder, the local store and the index.

use vstd::prelude::*;

verus! {

/// A finished MP4 segment.
#[derive(Debug, Clone)]
pub struct FinishedSegment {
    pub mp4_bytes: Vec<u8>,
    pub frame_count: u32,
    pub start_ms: i64,
}

/// Why the encoder failed.
#[derive(Debug, Clone, PartialEq, Eq)]
pub enum EncoderError {
    Spawn(String),
    Write(String),
    Wait(String),
    FfmpegFailed(String),
    ReadOutput(String),
}

/// Why a local store operation failed.
#[derive(Debug, Clone, PartialEq, Eq)]
pub enum StorageError {
    CreateBucket(String),
    PutObject(String),
    GetObject(String),
    DeleteObject(String),
}

/// An object stored by this process, as the session index keeps it.
#[derive(Debug, Clone, PartialEq, Eq)]
pub struct ObjectEntry {
    pub key: String,
    pub size_bytes: u64,
}

/// A named bag of clips of one robot.
#[derive(Debug, Clone, PartialEq, Eq)]
pub struct Collection {
    pub id: i64,
    pub robot_id: String,
    pub name: String,
    pub description: String,
    pub created_at: i64,
    pub updated_at: i64,
}

/// A slice of a collection: an interval and the segments it refers to (as a
/// JSON array), with the key of its manifest.
#[derive(Debug, Clone, PartialEq, Eq)]
pub struct CollectionClip {
    pub id: i64,
    pub collection_id: i64,
    pub robot_id: String,
    pub modality: String,
    pub clip_start_ms: i64,
    pub clip_end_ms: i64,
    pub segment_ids: String,
    pub manifest_s3_key: Option<String>,
    pub created_at: i64,
}

} // verus!
