use vstd::prelude::*;

verus! {

/// Ingest listener settings.
pub struct ServerConfig {
    pub host: String,
    pub segment_delay: u32,
    pub port: u16,
}

/// Packager and index settings. Durations are milliseconds.
pub struct HlsConfig {
    pub save_dir: String,
    pub segment_duration_ms: u64,
    pub part_duration_ms: u64,
    pub max_segments: u32,
    pub max_parts: u32,
    pub enable_server_push: bool,
    pub enable_preload_hint: bool,
    pub target_latency_ms: u64,
}

/// One rendition of the (reserved) adaptive-bitrate ladder.
pub struct BitrateVariant {
    pub bandwidth: u32,
    pub resolution: String,
    pub name: String,
}

pub struct AdaptiveBitrateConfig {
    pub enabled: bool,
    pub variants: Vec<BitrateVariant>,
}

/// Where the authentication gateway lives.
pub struct ApiConfig {
    pub host: String,
}

/// Object-store bucket and credentials.
pub struct S3Config {
    pub bucket: String,
    pub region: String,
    pub access_key: String,
    pub secret_access_key: String,
    pub endpoint_uri: String,
}

/// The whole service configuration, loaded once and passed by reference.
pub struct Config {
    pub server: ServerConfig,
    pub hls: HlsConfig,
    pub adaptive_bitrate: AdaptiveBitrateConfig,
    pub api: ApiConfig,
    pub s3: S3Config,
}

} // verus!
