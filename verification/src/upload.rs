//! Inbound client uploads: `update`, `create_dir` and the chunked
//! `chunk_start` / `chunk_data` / `chunk_complete` flow, plus the
//! resolution of outbound `chunk_ack` replies. Every decision and every
//! table change is made here; the shell only writes files and emits.

use vstd::prelude::*;

use crate::b64::{b64_decode, base64_decode};
use crate::broadcast::{spec_size_skip_log, SkipNotice};
use crate::config::ServerConfig;
use crate::limits::{
    spec_client_cap, spec_server_cap, spec_size_accepted, spec_size_reject_message,
    validate_file_size,
};
use crate::messages::{format_chunk_progress, spec_progress_due, spec_progress_line};
use crate::paths::{should_ignore_rel, spec_should_ignore};
use crate::proto::{ChunkAck, ChunkData, ChunkReceiveState, ChunkStart, CreateDir, UpdateFile};
use crate::session::{ack_key, spec_ack_key, SessionState};
use crate::strutil::{str_eq, spec_to_slashes, to_slashes};
use crate::wire::{chunk_ack_failure, chunk_ack_success, server_warning_payload};

verus! {

/// Where the file for `rel` lives under `dir`: an absolute `rel` stands
/// alone, as path joining has it; otherwise the two joined with one
/// separator.
pub open spec fn spec_join_path(dir: Seq<char>, rel: Seq<char>) -> Seq<char> {
    if rel.len() > 0 && rel[0] == '/' {
        rel
    } else if dir.len() > 0 && dir[dir.len() - 1] == '/' {
        dir + rel
    } else {
        dir + "/"@ + rel
    }
}

pub fn join_path(dir: &str, rel: &str) -> (r: String)
    ensures
        r@ == spec_join_path(dir@, rel@),
{
    let rn = rel.unicode_len();
    if rn > 0 && rel.get_char(0) == '/' {
        return rel.to_owned();
    }
    let dn = dir.unicode_len();
    let mut out = dir.to_owned();
    if !(dn > 0 && dir.get_char(dn - 1) == '/') {
        out.append("/");
    }
    out.append(rel);
    proof {
        reveal_strlit("/");
        assert(out@ =~= spec_join_path(dir@, rel@));
    }
    out
}

/// The `update` payload names the one encoding the protocol carries.
pub open spec fn spec_encoding_ok(encoding: Option<String>) -> bool {
    encoding matches Some(e) && e@ == "base64"@
}

/// What an inbound `update` comes to.
#[derive(Debug)]
pub enum UpdateAction {
    /// The payload does not declare base64 content: drop it.
    BadEncoding,
    /// The path is universally ignored: drop it.
    Ignored,
    /// The content is not valid base64: drop it.
    DecodeFailed,
    /// The decoded file exceeds the effective cap: emit the warning.
    SizeRejected(SkipNotice),
    /// Write `bytes` to `abs` (creating parent directories), then mark
    /// `rel` as client-written.
    Write { abs: String, rel: String, bytes: Vec<u8> },
}

/// Decide an inbound `update`: check the declared encoding, the universal
/// ignore rule, the base64 decoding and the effective size cap, in that
/// order.
pub fn plan_update(cfg: &ServerConfig, client: &crate::proto::ClientConfig, data: &UpdateFile) -> (r:
    UpdateAction)
    ensures
        r is BadEncoding <==> !spec_encoding_ok(data.encoding),
        spec_encoding_ok(data.encoding) ==> (r is Ignored <==> spec_should_ignore(
            spec_to_slashes(data.path@),
        )),
        spec_encoding_ok(data.encoding) && !spec_should_ignore(spec_to_slashes(data.path@)) ==> (
        r is DecodeFailed <==> b64_decode(data.content@) is None),
        r matches UpdateAction::SizeRejected(n) ==> (b64_decode(data.content@) matches Some(b)
            && !spec_size_accepted(
            b.len() as u64,
            spec_server_cap(*cfg),
            spec_client_cap(*client),
        ) && n.warning.path@ == spec_to_slashes(data.path@) && (
        n.warning.message matches Some(m) && m@ == spec_size_reject_message(
            b.len() as u64,
            spec_server_cap(*cfg),
            spec_client_cap(*client),
        ))),
        r matches UpdateAction::Write { abs, rel, bytes } ==> (rel@ == spec_to_slashes(data.path@)
            && abs@ == spec_join_path(cfg.dir@, spec_to_slashes(data.path@)) && b64_decode(
            data.content@,
        ) == Some(bytes@) && spec_size_accepted(
            bytes@.len() as u64,
            spec_server_cap(*cfg),
            spec_client_cap(*client),
        )),
        spec_encoding_ok(data.encoding) && !spec_should_ignore(spec_to_slashes(data.path@)) && (
        b64_decode(data.content@) matches Some(b) && spec_size_accepted(
            b.len() as u64,
            spec_server_cap(*cfg),
            spec_client_cap(*client),
        )) ==> r is Write,
{
    let encoding_ok = match &data.encoding {
        Some(e) => str_eq(e.as_str(), "base64"),
        None => false,
    };
    if !encoding_ok {
        return UpdateAction::BadEncoding;
    }
    let rel = to_slashes(data.path.as_str());
    if should_ignore_rel(rel.as_str()) {
        return UpdateAction::Ignored;
    }
    let bytes = match base64_decode(data.content.as_str()) {
        Some(b) => b,
        None => {
            return UpdateAction::DecodeFailed;
        },
    };
    let size = bytes.len() as u64;
    match validate_file_size(size, client, cfg) {
        Some(reason) => {
            let warning = server_warning_payload(rel.as_str(), reason.as_str());
            let log_line = crate::broadcast::size_skip_log_line(rel.as_str(), reason.as_str());
            UpdateAction::SizeRejected(SkipNotice { warning, log_line })
        },
        None => {
            let abs = join_path(cfg.dir.as_str(), rel.as_str());
            UpdateAction::Write { abs, rel, bytes }
        },
    }
}

/// What an inbound `create_dir` comes to.
#[derive(Debug)]
pub enum CreateDirAction {
    /// The path is universally ignored: drop it.
    Ignored,
    /// Create the directory at `abs` recursively, then mark `rel` as
    /// client-written.
    Create { abs: String, rel: String },
}

pub fn plan_create_dir(cfg: &ServerConfig, data: &CreateDir) -> (r: CreateDirAction)
    ensures
        r is Ignored <==> spec_should_ignore(spec_to_slashes(data.path@)),
        r matches CreateDirAction::Create { abs, rel } ==> (rel@ == spec_to_slashes(data.path@)
            && abs@ == spec_join_path(cfg.dir@, spec_to_slashes(data.path@))),
{
    let rel = to_slashes(data.path.as_str());
    if should_ignore_rel(rel.as_str()) {
        return CreateDirAction::Ignored;
    }
    let abs = join_path(cfg.dir.as_str(), rel.as_str());
    CreateDirAction::Create { abs, rel }
}

/// The rejection a `chunk_start` records: the declared size checked
/// against the caps, when one was declared.
pub fn reject_reason_for(
    total_size: &Option<u64>,
    client: &crate::proto::ClientConfig,
    cfg: &ServerConfig,
) -> (r: Option<String>)
    ensures
        total_size is None ==> r is None,
        total_size matches Some(sz) ==> ((r is None <==> spec_size_accepted(
            *sz,
            spec_server_cap(*cfg),
            spec_client_cap(*client),
        )) && (r matches Some(m) ==> m@ == spec_size_reject_message(
            *sz,
            spec_server_cap(*cfg),
            spec_client_cap(*client),
        ))),
{
    match total_size {
        Some(sz) => validate_file_size(*sz, client, cfg),
        None => None,
    }
}

/// An inbound `chunk_start`: record the receive state under its `fileId`.
/// A declared size over the cap is remembered as the rejection reason, so
/// each following `chunk_data` can be refused with it; the state is still
/// created.
pub fn handle_chunk_start<S, W>(
    session: &mut SessionState<S, W>,
    cfg: &ServerConfig,
    data: &ChunkStart,
)
    requires
        old(session).wf(),
    ensures
        final(session).wf(),
        final(session).chunk_receive@ == old(session).chunk_receive@.insert(
            data.fileId@,
            final(session).chunk_receive@[data.fileId@],
        ),
        final(session).chunk_receive@.contains_key(data.fileId@),
        ({
            let st = final(session).chunk_receive@[data.fileId@];
            &&& st.rel_path@ == spec_to_slashes(data.path@)
            &&& st.abs_path@ == spec_join_path(cfg.dir@, spec_to_slashes(data.path@))
            &&& st.received_chunks == 0
            &&& st.total_chunks == data.totalChunks
            &&& (data.totalSize is None ==> st.reject_reason is None)
            &&& (data.totalSize matches Some(sz) ==> ((st.reject_reason is None
                <==> spec_size_accepted(sz, spec_server_cap(*cfg), spec_client_cap(
                old(session).client_config,
            ))) && (st.reject_reason matches Some(m) ==> m@ == spec_size_reject_message(
                sz,
                spec_server_cap(*cfg),
                spec_client_cap(old(session).client_config),
            ))))
        }),
        final(session).socket == old(session).socket,
        final(session).client_config == old(session).client_config,
        final(session).effective_filters@ == old(session).effective_filters@,
        final(session).server_filters@ == old(session).server_filters@,
        final(session).server_written@ == old(session).server_written@,
        final(session).client_written@ == old(session).client_written@,
        final(session).ack_waiters@ == old(session).ack_waiters@,
{
    let rel = to_slashes(data.path.as_str());
    let abs = join_path(cfg.dir.as_str(), rel.as_str());
    let reject_reason = reject_reason_for(&data.totalSize, &session.client_config, cfg);
    let st = ChunkReceiveState {
        abs_path: abs,
        rel_path: rel,
        received_chunks: 0,
        total_chunks: data.totalChunks,
        reject_reason,
    };
    session.chunk_receive.insert(data.fileId.clone(), st);
}

/// What an inbound `chunk_data` comes to before any disk write.
#[derive(Debug)]
pub enum ChunkDataStep {
    /// No receive state for its `fileId`: refuse it.
    NackNoState { ack: ChunkAck },
    /// The transfer was rejected at `chunk_start`: refuse with that
    /// reason; on chunk zero only, also emit the warning.
    NackRejected { ack: ChunkAck, warning: Option<crate::proto::ServerLog> },
    /// The chunk's content is not valid base64: refuse it.
    NackBadContent { ack: ChunkAck },
    /// Write `bytes` to `abs` (truncating on the first chunk, appending
    /// after), then report the outcome to [`finish_chunk_data`].
    Write { abs: String, rel: String, bytes: Vec<u8>, truncate: bool },
}

/// Decide an inbound `chunk_data` against the receive state.
pub fn plan_chunk_data<S, W>(session: &SessionState<S, W>, data: &ChunkData) -> (r: ChunkDataStep)
    requires
        session.wf(),
    ensures
        !session.chunk_receive@.contains_key(data.fileId@) <==> r is NackNoState,
        r matches ChunkDataStep::NackNoState { ack } ==> (ack.fileId@ == data.fileId@
            && ack.chunkIndex == data.chunkIndex && ack.success == Some(false) && (
        ack.error matches Some(e) && e@ == "未找到接收状态"@)),
        session.chunk_receive@.contains_key(data.fileId@) ==> (r is NackRejected <==> session.chunk_receive@[data.fileId@].reject_reason is Some),
        r matches ChunkDataStep::NackRejected { ack, warning } ==> ({
            let st = session.chunk_receive@[data.fileId@];
            &&& ack.fileId@ == data.fileId@
            &&& ack.chunkIndex == data.chunkIndex
            &&& ack.success == Some(false)
            &&& (ack.error matches Some(e) && (st.reject_reason matches Some(m2) && e@ == m2@))
            &&& (warning is Some <==> data.chunkIndex == 0)
            &&& (warning matches Some(w) ==> w.path@ == st.rel_path@ && (
            w.message matches Some(m) && (st.reject_reason matches Some(m3) && m@ == m3@)))
        }),
        session.chunk_receive@.contains_key(data.fileId@)
            && session.chunk_receive@[data.fileId@].reject_reason is None ==> (
        r is NackBadContent <==> b64_decode(data.content@) is None),
        r matches ChunkDataStep::NackBadContent { ack } ==> (ack.fileId@ == data.fileId@
            && ack.chunkIndex == data.chunkIndex && ack.success == Some(false) && (
        ack.error matches Some(e) && e@ == "Base64 解码失败"@)),
        r matches ChunkDataStep::Write { abs, rel, bytes, truncate } ==> ({
            let st = session.chunk_receive@[data.fileId@];
            &&& session.chunk_receive@.contains_key(data.fileId@)
            &&& st.reject_reason is None
            &&& abs@ == st.abs_path@
            &&& rel@ == st.rel_path@
            &&& b64_decode(data.content@) == Some(bytes@)
            &&& truncate == (data.chunkIndex == 0)
        }),
{
    let st = match session.chunk_receive.get(data.fileId.as_str()) {
        Some(st) => st,
        None => {
            let ack = chunk_ack_failure(
                data.fileId.clone(),
                data.chunkIndex,
                ("未找到接收状态").to_owned(),
            );
            return ChunkDataStep::NackNoState { ack };
        },
    };
    match &st.reject_reason {
        Some(reason) => {
            let warning = if data.chunkIndex == 0 {
                Some(server_warning_payload(st.rel_path.as_str(), reason.as_str()))
            } else {
                None
            };
            let ack = chunk_ack_failure(data.fileId.clone(), data.chunkIndex, reason.clone());
            ChunkDataStep::NackRejected { ack, warning }
        },
        None => {
            match base64_decode(data.content.as_str()) {
                Some(bytes) => ChunkDataStep::Write {
                    abs: st.abs_path.clone(),
                    rel: st.rel_path.clone(),
                    bytes,
                    truncate: data.chunkIndex == 0,
                },
                None => {
                    let ack = chunk_ack_failure(
                        data.fileId.clone(),
                        data.chunkIndex,
                        ("Base64 解码失败").to_owned(),
                    );
                    ChunkDataStep::NackBadContent { ack }
                },
            }
        },
    }
}

/// The close of one `chunk_data`: the ack to send, the progress line if
/// one is due, and the generation of the fresh echo mark (for its delayed
/// removal) when the write succeeded.
#[derive(Debug)]
pub struct ChunkDataDone {
    pub ack: ChunkAck,
    pub progress: Option<String>,
    pub mark_generation: Option<u64>,
}

/// Settle an inbound `chunk_data` after its disk write: on failure refuse
/// with the error text; on success count the chunk, report progress at
/// quintile steps, and mark `rel` as client-written.
pub fn finish_chunk_data<S, W>(
    session: &mut SessionState<S, W>,
    file_id: &str,
    chunk_index: u32,
    rel: &str,
    write_error: Option<String>,
) -> (r: ChunkDataDone)
    requires
        old(session).wf(),
    ensures
        final(session).wf(),
        r.ack.fileId@ == file_id@,
        r.ack.chunkIndex == chunk_index,
        write_error matches Some(e) ==> (r.ack.success == Some(false) && (
        r.ack.error matches Some(e2) && e2 == e) && *final(session) == *old(session)
            && r.progress is None && r.mark_generation is None),
        write_error is None ==> (r.ack.success == Some(true) && r.ack.error is None && final(session).client_written@ == crate::echo::spec_mark(
            old(session).client_written@,
            spec_to_slashes(rel@),
        ) && r.mark_generation == Some(
            crate::echo::spec_mark_gen(old(session).client_written@, spec_to_slashes(rel@)),
        )),
        write_error is None && old(session).chunk_receive@.contains_key(file_id@) ==> ({
            let st0 = old(session).chunk_receive@[file_id@];
            let received = if st0.received_chunks == u32::MAX {
                u32::MAX
            } else {
                (st0.received_chunks + 1) as u32
            };
            &&& final(session).chunk_receive@ == old(session).chunk_receive@.insert(
                file_id@,
                final(session).chunk_receive@[file_id@],
            )
            &&& final(session).chunk_receive@[file_id@].received_chunks == received
            &&& final(session).chunk_receive@[file_id@].total_chunks == st0.total_chunks
            &&& final(session).chunk_receive@[file_id@].rel_path == st0.rel_path
            &&& final(session).chunk_receive@[file_id@].abs_path == st0.abs_path
            &&& final(session).chunk_receive@[file_id@].reject_reason == st0.reject_reason
            &&& (r.progress is Some <==> spec_progress_due(received, st0.total_chunks, false))
            &&& (r.progress matches Some(line) ==> line@ == spec_progress_line(
                received,
                st0.total_chunks,
                "接收分片"@,
                false,
            ))
        }),
        write_error is None && !old(session).chunk_receive@.contains_key(file_id@) ==> (final(session).chunk_receive@ == old(session).chunk_receive@ && r.progress is None),
        final(session).socket == old(session).socket,
        final(session).ack_waiters@ == old(session).ack_waiters@,
        final(session).server_written@ == old(session).server_written@,
{
    match write_error {
        Some(err) => {
            let ack = chunk_ack_failure(file_id.to_owned(), chunk_index, err);
            ChunkDataDone { ack, progress: None, mark_generation: None }
        },
        None => {
            let mut progress: Option<String> = None;
            let st = match session.chunk_receive.get(file_id) {
                Some(st0) => {
                    let received: u32 = if st0.received_chunks == u32::MAX {
                        u32::MAX
                    } else {
                        st0.received_chunks + 1
                    };
                    let updated = ChunkReceiveState {
                        abs_path: st0.abs_path.clone(),
                        rel_path: st0.rel_path.clone(),
                        received_chunks: received,
                        total_chunks: st0.total_chunks,
                        reject_reason: st0.reject_reason.clone(),
                    };
                    progress = format_chunk_progress(received, st0.total_chunks, "接收分片", false);
                    Some(updated)
                },
                None => None,
            };
            match st {
                Some(updated) => {
                    session.chunk_receive.insert(file_id.to_owned(), updated);
                },
                None => {},
            }
            let gen = session.client_written.mark(rel);
            let ack = chunk_ack_success(file_id.to_owned(), chunk_index);
            ChunkDataDone { ack, progress, mark_generation: Some(gen) }
        },
    }
}

/// An inbound `chunk_complete`: drop the receive state and hand it back,
/// marking its path as client-written; completion of an unknown transfer
/// changes nothing.
pub fn handle_chunk_complete<S, W>(session: &mut SessionState<S, W>, file_id: &str) -> (r: Option<
    (ChunkReceiveState, u64),
>)
    requires
        old(session).wf(),
    ensures
        final(session).wf(),
        r is Some <==> old(session).chunk_receive@.contains_key(file_id@),
        r matches Some(pair) ==> (pair.0 == old(session).chunk_receive@[file_id@] && final(session).client_written@ == crate::echo::spec_mark(
            old(session).client_written@,
            spec_to_slashes(pair.0.rel_path@),
        ) && pair.1 == crate::echo::spec_mark_gen(
            old(session).client_written@,
            spec_to_slashes(pair.0.rel_path@),
        )),
        final(session).chunk_receive@ == old(session).chunk_receive@.remove(file_id@),
        r is None ==> final(session).client_written@ == old(session).client_written@,
        final(session).socket == old(session).socket,
        final(session).ack_waiters@ == old(session).ack_waiters@,
        final(session).server_written@ == old(session).server_written@,
{
    match session.chunk_receive.remove(file_id) {
        Some(st) => {
            let gen = session.client_written.mark(st.rel_path.as_str());
            Some((st, gen))
        },
        None => None,
    }
}

/// An inbound `chunk_ack`: hand back the waiter filed under
/// `"{fileId}-{chunkIndex}"` with the reported outcome (an absent
/// `success` counts as success); an unknown key is a no-op.
pub fn handle_chunk_ack<S, W>(session: &mut SessionState<S, W>, ack: &ChunkAck) -> (r: Option<
    (W, bool),
>)
    requires
        old(session).wf(),
    ensures
        final(session).wf(),
        final(session).ack_waiters@ == old(session).ack_waiters@.remove(
            spec_ack_key(ack.fileId@, ack.chunkIndex),
        ),
        r is Some <==> old(session).ack_waiters@.contains_key(
            spec_ack_key(ack.fileId@, ack.chunkIndex),
        ),
        r matches Some(pair) ==> (pair.0 == old(session).ack_waiters@[spec_ack_key(
            ack.fileId@,
            ack.chunkIndex,
        )] && pair.1 == (match ack.success {
            Some(s) => s,
            None => true,
        })),
        final(session).socket == old(session).socket,
        final(session).chunk_receive@ == old(session).chunk_receive@,
{
    let key = ack_key(ack.fileId.as_str(), ack.chunkIndex);
    match session.remove_ack_waiter(key.as_str()) {
        Some(tx) => {
            let ok = match ack.success {
                Some(s) => s,
                None => true,
            };
            Some((tx, ok))
        },
        None => None,
    }
}

} // verus!
