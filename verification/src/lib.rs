//! Just-in-time adaptive-bitrate video delivery: segments are transcoded
//! lazily on first request, cached in object storage, and optionally
//! streamed back to the requesting client while the transcode job is still
//! running.
//!
//! The crate holds the verified core of that system: the deterministic
//! job-name and job-argument computation of the dispatcher, the pipe-relay
//! handle table, the request-routing decisions, the worker-side pipeline
//! planning, and an in-memory model of the storage capability. The
//! unverifiable edges (HTTP, cluster and object-store clients, external
//! codec processes) live outside the library and consume these functions.

pub mod config;
pub mod dispatch;
pub mod kvlist;
pub mod location;
pub mod manifest;
pub mod pipeline;
pub mod proxy;
pub mod relay;
pub mod router;
pub mod storage;
pub mod strnum;
pub mod variants;
pub mod worker;
