//! Process configuration: delivery options for the router and dispatcher,
//! and the container-image coordinates used when building job descriptors.
//!
//! `AppConfig::new` yields the documented defaults; overlaying operator
//! settings (environment variables, flags) onto them is an edge concern
//! and happens outside the library.

use vstd::prelude::*;

verus! {

/// Router and dispatcher settings.
#[derive(Debug, Clone, PartialEq, Eq)]
pub struct AppConfig {
    /// Object-store connection string; empty until the edge supplies one.
    pub storage: String,
    /// This pod's own network address, embedded in relay URLs handed to jobs.
    pub pod_address: String,
    /// Address of the storage-hosting node for the proxy path.
    pub node_address: String,
    /// Port of the storage-hosting node for the proxy path.
    pub storage_port: i32,
    /// Stream segment bytes to the client while the job is still encoding.
    pub stream_while_encoding: bool,
    /// Select the GPU container image and pass the hardware flag to jobs.
    pub use_gpu: bool,
    /// One job per rendition produces all its segments ahead of playback.
    pub encode_ahead: bool,
    /// One job per exact segment, keyed for deduplication.
    pub cache_fragments: bool,
}

/// Container-image coordinates for dispatched jobs.
#[derive(Debug, Clone, PartialEq, Eq)]
pub struct JobConfig {
    pub registry_name: String,
    pub image_name: String,
    pub gpu_image_name: String,
}

impl AppConfig {
    /// The default configuration: cache-fragments caching with live
    /// streaming enabled, CPU encoding, local addresses.
    pub fn new() -> (c: AppConfig)
        ensures
            c.storage@ == Seq::<char>::empty(),
            c.pod_address@ == "127.0.0.1"@,
            c.node_address@ == "127.0.0.1"@,
            c.storage_port == 8080,
            c.stream_while_encoding,
            !c.use_gpu,
            !c.encode_ahead,
            c.cache_fragments,
    {
        AppConfig {
            storage: String::new(),
            pod_address: "127.0.0.1".to_owned(),
            node_address: "127.0.0.1".to_owned(),
            storage_port: 8080,
            stream_while_encoding: true,
            use_gpu: false,
            encode_ahead: false,
            cache_fragments: true,
        }
    }
}

impl JobConfig {
    /// The image coordinates of the transcode worker.
    pub fn new() -> (c: JobConfig)
        ensures
            c.registry_name@ == "livestream.azurecr.io/"@,
            c.image_name@ == "ffmpeg"@,
            c.gpu_image_name@ == "nvidia-ffmpeg"@,
    {
        JobConfig {
            registry_name: "livestream.azurecr.io/".to_owned(),
            image_name: "ffmpeg".to_owned(),
            gpu_image_name: "nvidia-ffmpeg".to_owned(),
        }
    }
}

} // verus!
