//! The storage-proxy client: addressing for the remote node that hosts
//! the storage capability over HTTP, and the mapping of transport errors
//! into the storage error kinds.
//!
//! The HTTP calls themselves happen at the edge; what is pinned down
//! here is every URL they use.

use vstd::prelude::*;

use crate::storage::StorageError;
use crate::strnum::{append_str, append_u64, dec_digits};

verus! {

/// Where the storage-hosting node listens.
#[derive(Debug, Clone, PartialEq, Eq)]
pub struct StorageConfig {
    pub storage_port: u32,
    pub node_address: String,
}

/// Addresses one video's blobs and metadata on the storage-hosting node.
#[derive(Debug, Clone, PartialEq, Eq)]
pub struct StorageClient {
    pub config: StorageConfig,
    pub account: String,
    pub video: String,
}

#[verifier::external_type_specification]
#[verifier::external_body]
pub struct ExReqwestError(reqwest::Error);

/// The URL of one path of this client's video:
/// `http://{node}:{port}/{account}/{video}/{path}`, with `/metadata`
/// appended for the metadata resource.
pub open spec fn spec_proxy_url(
    c: StorageClient,
    path: Seq<char>,
    metadata: bool,
) -> Seq<char> {
    "http://"@ + c.config.node_address@ + ":"@ + dec_digits(c.config.storage_port as nat) + "/"@
        + c.account@ + "/"@ + c.video@ + "/"@ + path + if metadata {
        "/metadata"@
    } else {
        Seq::<char>::empty()
    }
}

impl StorageClient {
    /// A client for one video under one account.
    pub fn new(config: StorageConfig, account: &str, video: &str) -> (r: StorageClient)
        ensures
            r.config == config,
            r.account@ == account@,
            r.video@ == video@,
    {
        StorageClient { config, account: account.to_owned(), video: video.to_owned() }
    }

    /// Relies on the `Display` rendering of `reqwest::Error` for the
    /// description; the error kind itself is always the transport kind.
    #[verifier::external_body]
    pub fn from_reqwest_error(error: reqwest::Error) -> (r: StorageError)
        ensures
            r is HttpError,
    {
        StorageError::HttpError(error.to_string())
    }

    /// The URL addressing `path` of this video, or its metadata
    /// resource.
    pub fn get_url(&self, path: &str, metadata: bool) -> (r: String)
        ensures
            r@ == spec_proxy_url(*self, path@, metadata),
    {
        let mut s = "http://".to_owned();
        append_str(&mut s, self.config.node_address.as_str());
        append_str(&mut s, ":");
        append_u64(&mut s, self.config.storage_port as u64);
        append_str(&mut s, "/");
        append_str(&mut s, self.account.as_str());
        append_str(&mut s, "/");
        append_str(&mut s, self.video.as_str());
        append_str(&mut s, "/");
        append_str(&mut s, path);
        if metadata {
            append_str(&mut s, "/metadata");
            proof {
                assert(s@ =~= spec_proxy_url(*self, path@, metadata));
            }
        } else {
            proof {
                assert(s@ =~= spec_proxy_url(*self, path@, metadata));
            }
        }
        s
    }
}

} // verus!
