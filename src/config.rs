//! Configuration sections and their defaults. Loading the document is left to
//! the program; sections with floating-point fields live there too.

use vstd::prelude::*;
use vstd::string::StringExecFns;

verus! {

/// Bus topic.
pub fn default_topic() -> (r: String)
    ensures
        r@ == "camera.frames"@,
{
    proof {
        reveal_strlit("camera.frames");
    }
    String::from_str("camera.frames")
}

/// Bus consumer group.
pub fn default_group_id() -> (r: String)
    ensures
        r@ == "frame-filter-group"@,
{
    proof {
        reveal_strlit("frame-filter-group");
    }
    String::from_str("frame-filter-group")
}

/// Bus compression codec.
pub fn default_compression() -> (r: String)
    ensures
        r@ == "snappy"@,
{
    proof {
        reveal_strlit("snappy");
    }
    String::from_str("snappy")
}

/// Stream mode.
pub fn default_mode() -> (r: String)
    ensures
        r@ == "mjpeg"@,
{
    proof {
        reveal_strlit("mjpeg");
    }
    String::from_str("mjpeg")
}

/// Primary scene detector.
pub fn default_filter_primary() -> (r: String)
    ensures
        r@ == "phash"@,
{
    proof {
        reveal_strlit("phash");
    }
    String::from_str("phash")
}

/// Local store bucket.
pub fn default_rustfs_bucket() -> (r: String)
    ensures
        r@ == "camera-frames"@,
{
    proof {
        reveal_strlit("camera-frames");
    }
    String::from_str("camera-frames")
}

/// Key prefix in the local store.
pub fn default_rustfs_prefix() -> (r: String)
    ensures
        r@ == "frames/"@,
{
    proof {
        reveal_strlit("frames/");
    }
    String::from_str("frames/")
}

/// Key prefix in the archive.
pub fn default_aws_prefix() -> (r: String)
    ensures
        r@ == "archive/"@,
{
    proof {
        reveal_strlit("archive/");
    }
    String::from_str("archive/")
}

/// Robot identifier.
pub fn default_robot_id() -> (r: String)
    ensures
        r@ == "reachy-001"@,
{
    proof {
        reveal_strlit("reachy-001");
    }
    String::from_str("reachy-001")
}

/// Archive region.
pub fn default_region() -> (r: String)
    ensures
        r@ == "us-west-2"@,
{
    proof {
        reveal_strlit("us-west-2");
    }
    String::from_str("us-west-2")
}

/// Log level.
pub fn default_log_level() -> (r: String)
    ensures
        r@ == "info"@,
{
    proof {
        reveal_strlit("info");
    }
    String::from_str("info")
}

/// Segment codec.
pub fn default_codec() -> (r: String)
    ensures
        r@ == "h264"@,
{
    proof {
        reveal_strlit("h264");
    }
    String::from_str("h264")
}

/// Encoder preset.
pub fn default_preset() -> (r: String)
    ensures
        r@ == "fast"@,
{
    proof {
        reveal_strlit("fast");
    }
    String::from_str("fast")
}

/// Directory of the per-robot index files.
pub fn default_db_path() -> (r: String)
    ensures
        r@ == "data/"@,
{
    proof {
        reveal_strlit("data/");
    }
    String::from_str("data/")
}

/// Public URL of the local store.
pub fn default_rustfs_public_url() -> (r: String)
    ensures
        r@ == "http://localhost:9000"@,
{
    proof {
        reveal_strlit("http://localhost:9000");
    }
    String::from_str("http://localhost:9000")
}

/// Bucket of clip manifests.
pub fn default_labelled_data_bucket() -> (r: String)
    ensures
        r@ == "labelled-data"@,
{
    proof {
        reveal_strlit("labelled-data");
    }
    String::from_str("labelled-data")
}

/// JPEG quality asked of the camera.
pub fn default_quality() -> (r: u32)
    ensures
        r == 80,
{
    80
}

/// Largest aHash distance that counts as the same scene.
pub fn default_phash_threshold() -> (r: u32)
    ensures
        r == 26,
{
    26
}

/// aHash side length.
pub fn default_phash_hash_size() -> (r: u32)
    ensures
        r == 16,
{
    16
}

/// Seconds between eviction ticks.
pub fn default_check_interval() -> (r: u64)
    ensures
        r == 30,
{
    30
}

/// Objects per eviction batch.
pub fn default_batch_size() -> (r: usize)
    ensures
        r == 50,
{
    50
}

/// Seconds per active segment.
pub fn default_segment_duration() -> (r: u64)
    ensures
        r == 60,
{
    60
}

/// Encoder constant rate factor.
pub fn default_crf() -> (r: u32)
    ensures
        r == 23,
{
    23
}

/// Quiet frames that end an active period.
pub fn default_active_to_idle() -> (r: u32)
    ensures
        r == 5,
{
    5
}

/// Query API port.
pub fn default_api_port() -> (r: u16)
    ensures
        r == 8080,
{
    8080
}

/// Message bus settings.
#[derive(Debug, Clone)]
pub struct KafkaConfig {
    pub brokers: String,
    pub topic: String,
    pub group_id: String,
    pub compression: String,
}

/// Local object store settings.
#[derive(Debug, Clone)]
pub struct RustfsConfig {
    pub endpoint: String,
    pub access_key: String,
    pub secret_key: String,
    pub bucket: String,
    pub prefix: String,
}

/// Remote archive settings.
#[derive(Debug, Clone)]
pub struct AwsS3Config {
    pub bucket: String,
    pub prefix: String,
    pub robot_id: String,
    pub region: String,
}

/// Logging settings.
#[derive(Debug, Clone)]
pub struct LoggingConfig {
    pub level: String,
}

impl Default for LoggingConfig {
    fn default() -> (r: Self)
        ensures
            r.level@ == "info"@,
    {
        LoggingConfig { level: default_log_level() }
    }
}

/// Index location.
#[derive(Debug, Clone)]
pub struct DatabaseConfig {
    pub path: String,
}

impl Default for DatabaseConfig {
    fn default() -> (r: Self)
        ensures
            r.path@ == "data/"@,
    {
        DatabaseConfig { path: default_db_path() }
    }
}

/// Query API settings.
#[derive(Debug, Clone)]
pub struct ApiConfig {
    pub port: u16,
    pub rustfs_public_url: String,
    pub rustfs_bucket: String,
    pub labelled_data_bucket: String,
}

impl Default for ApiConfig {
    fn default() -> (r: Self)
        ensures
            r.port == 8080,
            r.rustfs_public_url@ == "http://localhost:9000"@,
            r.rustfs_bucket@ == "camera-frames"@,
            r.labelled_data_bucket@ == "labelled-data"@,
    {
        ApiConfig {
            port: default_api_port(),
            rustfs_public_url: default_rustfs_public_url(),
            rustfs_bucket: default_rustfs_bucket(),
            labelled_data_bucket: default_labelled_data_bucket(),
        }
    }
}

/// Why the configuration could not be loaded.
#[derive(Debug, Clone, PartialEq, Eq)]
pub enum ConfigError {
    /// The file could not be read: its path and the reason.
    ReadFile(String, String),
    /// The document is not a valid configuration.
    Parse(String),
}

} // verus!
