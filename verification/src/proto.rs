//! Wire-protocol payloads.
//!
//! Field names mirror the camelCase JSON field names of the on-wire
//! protocol, so the structs read exactly like the payloads they stand for.

#![allow(non_snake_case)]

use vstd::prelude::*;

verus! {

/// Client-supplied configuration. A present field replaces the stored one,
/// an absent field preserves it (see [`merge_client_config`]).
#[derive(Debug, Clone)]
pub struct ClientConfig {
    pub enableFileSizeLimit: Option<bool>,
    pub maxFileSize: Option<u64>,
    pub pathRegex: Option<Vec<String>>,
}

impl Default for ClientConfig {
    /// All fields absent.
    fn default() -> (r: Self)
        ensures
            r.enableFileSizeLimit is None,
            r.maxFileSize is None,
            r.pathRegex is None,
    {
        ClientConfig { enableFileSizeLimit: None, maxFileSize: None, pathRegex: None }
    }
}

/// Sent to a second connector before it is disconnected.
#[derive(Debug, Clone)]
pub struct ConnectionRejected {
    pub message: String,
}

/// A whole small file, inbound or outbound, base64-encoded.
#[derive(Debug, Clone)]
pub struct UpdateFile {
    pub path: String,
    pub content: String,
    pub encoding: Option<String>,
}

#[derive(Debug, Clone)]
pub struct CreateDir {
    pub path: String,
}

#[derive(Debug, Clone)]
pub struct DeletePayload {
    pub action: String,
    pub path: String,
    pub content: Option<String>,
    pub isDir: bool,
}

/// Opens a chunked transfer.
#[derive(Debug, Clone)]
pub struct ChunkStart {
    pub path: String,
    pub fileId: String,
    pub totalChunks: u32,
    pub totalSize: Option<u64>,
    pub isDir: Option<bool>,
}

/// One chunk of a transfer, base64-encoded.
#[derive(Debug, Clone)]
pub struct ChunkData {
    pub fileId: String,
    pub chunkIndex: u32,
    pub content: String,
    pub path: Option<String>,
}

#[derive(Debug, Clone)]
pub struct ChunkComplete {
    pub fileId: String,
    pub path: Option<String>,
}

/// Acknowledges one chunk; an absent `success` means success.
#[derive(Debug, Clone)]
pub struct ChunkAck {
    pub fileId: String,
    pub chunkIndex: u32,
    pub success: Option<bool>,
    pub error: Option<String>,
}

/// An out-of-band warning shown to the client.
#[derive(Debug, Clone)]
pub struct ServerLog {
    pub action: String,
    pub path: String,
    pub status: String,
    pub message: Option<String>,
    pub content: Option<String>,
}

/// The payload of `sync_start`, `sync_complete` and `sync_error`.
#[derive(Debug, Clone)]
pub struct SyncControl {
    pub action: String,
    pub path: String,
    pub content: Option<String>,
    pub isDir: bool,
}

/// Receive state of one inbound chunked file, keyed by its `fileId`.
#[derive(Debug, Clone)]
pub struct ChunkReceiveState {
    pub abs_path: String,
    pub rel_path: String,
    pub received_chunks: u32,
    pub total_chunks: u32,
    pub reject_reason: Option<String>,
}

/// Field-wise merge: a present incoming field replaces the stored field,
/// an absent one preserves it.
pub fn merge_client_config(base: &mut ClientConfig, incoming: ClientConfig)
    ensures
        final(base).enableFileSizeLimit == (if incoming.enableFileSizeLimit is Some {
            incoming.enableFileSizeLimit
        } else {
            old(base).enableFileSizeLimit
        }),
        final(base).maxFileSize == (if incoming.maxFileSize is Some {
            incoming.maxFileSize
        } else {
            old(base).maxFileSize
        }),
        final(base).pathRegex == (if incoming.pathRegex is Some {
            incoming.pathRegex
        } else {
            old(base).pathRegex
        }),
{
    if incoming.enableFileSizeLimit.is_some() {
        base.enableFileSizeLimit = incoming.enableFileSizeLimit;
    }
    if incoming.maxFileSize.is_some() {
        base.maxFileSize = incoming.maxFileSize;
    }
    if incoming.pathRegex.is_some() {
        base.pathRegex = incoming.pathRegex;
    }
}

} // verus!
