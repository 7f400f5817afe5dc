//! Builders for every server-to-client payload. Each function pins the
//! payload's fields exactly; the embedding shell only serializes and emits
//! what these return.

use vstd::prelude::*;

use crate::proto::{
    ChunkAck, ChunkComplete, ChunkData, ChunkStart, ConnectionRejected, DeletePayload, ServerLog,
    SyncControl,
};

verus! {

/// The outbound `update` event: one whole small file.
#[derive(Debug, Clone)]
pub struct UpdatePayload {
    pub action: String,
    pub path: String,
    pub content: String,
    pub isDir: bool,
    pub encoding: String,
}

/// The outbound `create_dir` event.
#[derive(Debug, Clone)]
pub struct CreateDirPayload {
    pub action: String,
    pub path: String,
    pub content: Option<String>,
    pub isDir: bool,
}

pub fn update_small_payload(rel: &str, b64: String) -> (r: UpdatePayload)
    ensures
        r.action@ == "update"@,
        r.path@ == rel@,
        r.content == b64,
        !r.isDir,
        r.encoding@ == "base64"@,
{
    UpdatePayload {
        action: ("update").to_owned(),
        path: rel.to_owned(),
        content: b64,
        isDir: false,
        encoding: ("base64").to_owned(),
    }
}

pub fn create_dir_payload(rel: &str) -> (r: CreateDirPayload)
    ensures
        r.action@ == "create_dir"@,
        r.path@ == rel@,
        r.content is None,
        r.isDir,
{
    CreateDirPayload {
        action: ("create_dir").to_owned(),
        path: rel.to_owned(),
        content: None,
        isDir: true,
    }
}

pub fn delete_payload(rel: &str, is_dir: bool) -> (r: DeletePayload)
    ensures
        r.action@ == "delete"@,
        r.path@ == rel@,
        r.content is None,
        r.isDir == is_dir,
{
    DeletePayload {
        action: ("delete").to_owned(),
        path: rel.to_owned(),
        content: None,
        isDir: is_dir,
    }
}

/// The `server_log` warning payload: `path` carries the operation title,
/// `message` the reason.
pub fn server_warning_payload(title: &str, reason: &str) -> (r: ServerLog)
    ensures
        r.action@ == "server_log"@,
        r.path@ == title@,
        r.status@ == "warning"@,
        r.message matches Some(m) && m@ == reason@,
        r.content is None,
{
    ServerLog {
        action: ("server_log").to_owned(),
        path: title.to_owned(),
        status: ("warning").to_owned(),
        message: Some(reason.to_owned()),
        content: None,
    }
}

/// The payload of `sync_start` and `sync_complete`.
pub fn sync_control_payload(action: &str) -> (r: SyncControl)
    ensures
        r.action@ == action@,
        r.path@ == Seq::<char>::empty(),
        r.content is None,
        !r.isDir,
{
    let r = SyncControl {
        action: action.to_owned(),
        path: ("").to_owned(),
        content: None,
        isDir: false,
    };
    proof {
        reveal_strlit("");
        assert(r.path@ =~= Seq::<char>::empty());
    }
    r
}

/// The payload of `sync_error`.
pub fn sync_error_payload(msg: String) -> (r: SyncControl)
    ensures
        r.action@ == "sync_error"@,
        r.path@ == Seq::<char>::empty(),
        r.content matches Some(m) && m == msg,
        !r.isDir,
{
    let r = SyncControl {
        action: ("sync_error").to_owned(),
        path: ("").to_owned(),
        content: Some(msg),
        isDir: false,
    };
    proof {
        reveal_strlit("");
        assert(r.path@ =~= Seq::<char>::empty());
    }
    r
}

/// The refusal sent to a second connector before it is disconnected.
pub fn connection_rejected_payload() -> (r: ConnectionRejected)
    ensures
        r.message@ == "连接失败：已有其他客户端连接，不允许多个客户端同时连接"@,
{
    ConnectionRejected {
        message: ("连接失败：已有其他客户端连接，不允许多个客户端同时连接").to_owned(),
    }
}

/// The `chunk_start` opening an outbound file transfer.
pub fn chunk_start_payload(rel: &str, file_id: &str, total_chunks: u32, total_size: u64) -> (r:
    ChunkStart)
    ensures
        r.path@ == rel@,
        r.fileId@ == file_id@,
        r.totalChunks == total_chunks,
        r.totalSize == Some(total_size),
        r.isDir == Some(false),
{
    ChunkStart {
        path: rel.to_owned(),
        fileId: file_id.to_owned(),
        totalChunks: total_chunks,
        totalSize: Some(total_size),
        isDir: Some(false),
    }
}

/// One outbound chunk.
pub fn chunk_data_payload(file_id: &str, chunk_index: u32, content: String, rel: &str) -> (r:
    ChunkData)
    ensures
        r.fileId@ == file_id@,
        r.chunkIndex == chunk_index,
        r.content == content,
        r.path matches Some(p) && p@ == rel@,
{
    ChunkData {
        fileId: file_id.to_owned(),
        chunkIndex: chunk_index,
        content,
        path: Some(rel.to_owned()),
    }
}

/// The `chunk_complete` closing an outbound file transfer.
pub fn chunk_complete_payload(file_id: String, rel: &str) -> (r: ChunkComplete)
    ensures
        r.fileId == file_id,
        r.path matches Some(p) && p@ == rel@,
{
    ChunkComplete { fileId: file_id, path: Some(rel.to_owned()) }
}

/// A successful acknowledgement of an inbound chunk.
pub fn chunk_ack_success(file_id: String, chunk_index: u32) -> (r: ChunkAck)
    ensures
        r.fileId == file_id,
        r.chunkIndex == chunk_index,
        r.success == Some(true),
        r.error is None,
{
    ChunkAck { fileId: file_id, chunkIndex: chunk_index, success: Some(true), error: None }
}

/// A refusal of an inbound chunk, carrying the reason.
pub fn chunk_ack_failure(file_id: String, chunk_index: u32, error: String) -> (r: ChunkAck)
    ensures
        r.fileId == file_id,
        r.chunkIndex == chunk_index,
        r.success == Some(false),
        r.error matches Some(e) && e == error,
{
    ChunkAck {
        fileId: file_id,
        chunkIndex: chunk_index,
        success: Some(false),
        error: Some(error),
    }
}

} // verus!
