//! Camera-stream evidence pipeline: frame wire format, stream parsers,
//! scene state machine and the bookkeeping of a bounded object store.

pub mod bytes;
pub mod config;
pub mod eviction;
pub mod frame;
pub mod h264;
pub mod keys;
pub mod mjpeg;
pub mod phash;
pub mod query;
pub mod records;
pub mod scene;
