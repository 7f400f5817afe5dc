//! Outbound broadcasts: for one path decide filter-skip, size-skip, inline
//! send or chunked send, and drive the chunked send with its two bounded
//! retry loops. The shell performs the emits, sleeps and ack waits; every
//! decision is made here.

use vstd::prelude::*;

use crate::b64::{b64_encode, base64_encode};
use crate::config::ServerConfig;
use crate::filter::{spec_should_filter, FilterSet};
use crate::limits::{
    spec_client_cap, spec_server_cap, spec_size_accepted, spec_size_reject_message,
    validate_file_size,
};
use crate::messages::{format_ts_warning_line, spec_ts_warning_line};
use crate::proto::{ClientConfig, ServerLog};
use crate::strutil::{spec_u64_dec, u64_to_string};
use crate::wire::{server_warning_payload, update_small_payload, UpdatePayload};

verus! {

/// Chunk size: 256 KiB of base64 text per `chunk_data`.
pub const CHUNK_SIZE: usize = 262144;

/// The reason attached to filter-skipped paths.
pub fn filter_skip_reason_text() -> (r: &'static str)
    ensures
        r@ == "匹配过滤规则，已跳过"@,
{
    "匹配过滤规则，已跳过"
}

/// The warning title `"{action} -> {rel}"`.
pub open spec fn spec_action_title(action: Seq<char>, rel: Seq<char>) -> Seq<char> {
    action + " -> "@ + rel
}

pub fn action_title(action: &str, rel: &str) -> (r: String)
    ensures
        r@ == spec_action_title(action@, rel@),
{
    let mut out = action.to_owned();
    out.append(" -> ");
    out.append(rel);
    proof {
        assert(out@ =~= spec_action_title(action@, rel@));
    }
    out
}

/// A skipped operation: the `server_log` warning to emit and the line for
/// the local log.
#[derive(Debug, Clone)]
pub struct SkipNotice {
    pub warning: ServerLog,
    pub log_line: String,
}

/// Build the filter-skip notice for the operation named `action` on `rel`.
pub fn filter_skip_notice(action: &str, rel: &str) -> (r: SkipNotice)
    ensures
        r.warning.action@ == "server_log"@,
        r.warning.path@ == spec_action_title(action@, rel@),
        r.warning.status@ == "warning"@,
        r.warning.message matches Some(m) && m@ == "匹配过滤规则，已跳过"@,
        r.warning.content is None,
        r.log_line@ == spec_ts_warning_line(
            "匹配过滤规则，已跳过"@,
            spec_action_title(action@, rel@),
        ),
{
    let title = action_title(action, rel);
    let reason = filter_skip_reason_text();
    let warning = server_warning_payload(title.as_str(), reason);
    let log_line = format_ts_warning_line(reason, title.as_str());
    SkipNotice { warning, log_line }
}

/// What to do for a `create_dir` or `delete` broadcast of `rel`.
#[derive(Debug)]
pub enum SimpleBroadcast {
    /// A rule matched: emit the warning, skip the event.
    Filtered(SkipNotice),
    /// Emit the event.
    Send,
}

/// Decide a `create_dir` broadcast: filtered paths produce only a warning
/// titled `create_dir -> {rel}`.
pub fn plan_broadcast_create_dir(filters: &FilterSet, rel: &str) -> (r: SimpleBroadcast)
    ensures
        r is Filtered <==> spec_should_filter(filters@, rel@),
        r matches SimpleBroadcast::Filtered(n) ==> n.warning.path@ == spec_action_title(
            "create_dir"@,
            rel@,
        ) && (n.warning.message matches Some(m) && m@ == "匹配过滤规则，已跳过"@),
{
    if crate::filter::should_filter_path(rel, filters) {
        SimpleBroadcast::Filtered(filter_skip_notice("create_dir", rel))
    } else {
        SimpleBroadcast::Send
    }
}

/// Decide a `delete` broadcast: filtered paths produce only a warning
/// titled `delete -> {rel}`.
pub fn plan_broadcast_delete(filters: &FilterSet, rel: &str) -> (r: SimpleBroadcast)
    ensures
        r is Filtered <==> spec_should_filter(filters@, rel@),
        r matches SimpleBroadcast::Filtered(n) ==> n.warning.path@ == spec_action_title(
            "delete"@,
            rel@,
        ) && (n.warning.message matches Some(m) && m@ == "匹配过滤规则，已跳过"@),
{
    if crate::filter::should_filter_path(rel, filters) {
        SimpleBroadcast::Filtered(filter_skip_notice("delete", rel))
    } else {
        SimpleBroadcast::Send
    }
}

/// The pre-read decision for a file broadcast of `rel` whose size is
/// `size` bytes.
#[derive(Debug)]
pub enum FilePrecheck {
    /// A rule matched: emit the warning titled `update -> {rel}`, stop.
    Filtered(SkipNotice),
    /// The file exceeds the effective cap: emit the warning, stop.
    TooLarge(SkipNotice),
    /// Read the file and go on to [`plan_file_send`].
    Read,
}

/// The local log line for an oversized file:
/// `"文件过大，跳过 -> {rel} ({reason})"`.
pub open spec fn spec_size_skip_log(rel: Seq<char>, reason: Seq<char>) -> Seq<char> {
    "文件过大，跳过 -> "@ + rel + " ("@ + reason + ")"@
}

pub fn size_skip_log_line(rel: &str, reason: &str) -> (r: String)
    ensures
        r@ == spec_size_skip_log(rel@, reason@),
{
    let mut out: String = ("文件过大，跳过 -> ").to_owned();
    out.append(rel);
    out.append(" (");
    out.append(reason);
    out.append(")");
    proof {
        assert(out@ =~= spec_size_skip_log(rel@, reason@));
    }
    out
}

/// Decide whether the file at `rel` of `size` bytes is sent at all: the
/// filter is consulted first, then the effective size cap.
pub fn file_precheck(
    filters: &FilterSet,
    client: &ClientConfig,
    cfg: &ServerConfig,
    rel: &str,
    size: u64,
) -> (r: FilePrecheck)
    ensures
        r is Filtered <==> spec_should_filter(filters@, rel@),
        r matches FilePrecheck::Filtered(n) ==> n.warning.path@ == spec_action_title(
            "update"@,
            rel@,
        ) && (n.warning.message matches Some(m) && m@ == "匹配过滤规则，已跳过"@),
        !(spec_should_filter(filters@, rel@)) ==> ((r is TooLarge <==> !spec_size_accepted(
            size,
            spec_server_cap(*cfg),
            spec_client_cap(*client),
        ))),
        r matches FilePrecheck::TooLarge(n) ==> n.warning.path@ == rel@ && (
        n.warning.message matches Some(m) && m@ == spec_size_reject_message(
            size,
            spec_server_cap(*cfg),
            spec_client_cap(*client),
        )),
{
    if crate::filter::should_filter_path(rel, filters) {
        return FilePrecheck::Filtered(filter_skip_notice("update", rel));
    }
    match validate_file_size(size, client, cfg) {
        Some(reason) => {
            let warning = server_warning_payload(rel, reason.as_str());
            let log_line = size_skip_log_line(rel, reason.as_str());
            FilePrecheck::TooLarge(SkipNotice { warning, log_line })
        },
        None => FilePrecheck::Read,
    }
}

/// How an accepted file goes out: one `update` when its base64 form fits a
/// single chunk, else a chunked transfer.
#[derive(Debug)]
pub enum FileSendPlan {
    /// Emit one `update` with the whole file.
    Inline(UpdatePayload),
    /// Run the chunked transfer over the base64 text.
    Chunked { b64: String, total_chunks: u32 },
}

/// The number of chunks a base64 text of `len` characters takes.
pub open spec fn spec_total_chunks(len: int) -> int {
    (len + CHUNK_SIZE - 1) / CHUNK_SIZE as int
}

/// Decide between the inline and the chunked send for the file bytes, and
/// encode them.
pub fn plan_file_send(rel: &str, bytes: &Vec<u8>) -> (r: FileSendPlan)
    requires
        4 * ((bytes@.len() + 2) / 3) <= usize::MAX,
        spec_total_chunks(4 * ((bytes@.len() + 2) / 3) as int) <= u32::MAX,
    ensures
        r is Inline <==> b64_encode(bytes@).len() <= CHUNK_SIZE,
        r matches FileSendPlan::Inline(p) ==> p.action@ == "update"@ && p.path@ == rel@
            && p.content@ == b64_encode(bytes@) && !p.isDir && p.encoding@ == "base64"@,
        r matches FileSendPlan::Chunked { b64, total_chunks } ==> b64@ == b64_encode(bytes@)
            && total_chunks == spec_total_chunks(b64_encode(bytes@).len() as int)
            && total_chunks >= 2,
{
    let b64 = base64_encode(bytes);
    let len = b64.as_str().unicode_len();
    if len <= CHUNK_SIZE {
        FileSendPlan::Inline(update_small_payload(rel, b64))
    } else {
        let total: usize = len / CHUNK_SIZE + (if len % CHUNK_SIZE != 0 {
            1
        } else {
            0
        });
        proof {
            let a = len as int;
            let b = CHUNK_SIZE as int;
            vstd::arithmetic::div_mod::lemma_fundamental_div_mod(a, b);
            if a % b == 0 {
                vstd::arithmetic::div_mod::lemma_fundamental_div_mod_converse(
                    a + b - 1,
                    b,
                    a / b,
                    b - 1,
                );
            } else {
                assert((a / b + 1) * b == (a / b) * b + b) by (nonlinear_arith);
                vstd::arithmetic::div_mod::lemma_fundamental_div_mod_converse(
                    a + b - 1,
                    b,
                    a / b + 1,
                    a % b - 1,
                );
            }
            assert(total as int == spec_total_chunks(a));
            assert(spec_total_chunks(a) >= 2) by {
                vstd::arithmetic::div_mod::lemma_div_is_ordered(2 * b, a + b - 1, b);
                assert((2 * b) / b == 2) by (nonlinear_arith)
                    requires
                        b > 0,
                ;
            }
        }
        FileSendPlan::Chunked { b64, total_chunks: total as u32 }
    }
}

/// The slice of the base64 text that chunk `index` carries.
pub open spec fn spec_chunk_slice(b64: Seq<char>, index: int) -> Seq<char> {
    b64.subrange(
        index * CHUNK_SIZE,
        if (index + 1) * CHUNK_SIZE <= b64.len() {
            (index + 1) * CHUNK_SIZE
        } else {
            b64.len() as int
        },
    )
}

/// Cut chunk `index` out of the base64 text.
pub fn chunk_slice(b64: &str, index: u32, total_chunks: u32) -> (r: String)
    requires
        total_chunks == spec_total_chunks(b64@.len() as int),
        index < total_chunks,
        b64@.len() >= 1,
    ensures
        r@ == spec_chunk_slice(b64@, index as int),
{
    let n = b64.unicode_len();
    proof {
        let b = CHUNK_SIZE as int;
        let i = index as int;
        vstd::arithmetic::div_mod::lemma_fundamental_div_mod(n as int + b - 1, b);
        assert(i * b < n as int) by (nonlinear_arith)
            requires
                b > 0,
                n >= 1,
                0 <= i,
                i < (n + b - 1) / b,
                (n as int + b - 1) == b * ((n as int + b - 1) / b) + (n as int + b - 1) % b,
                0 <= (n as int + b - 1) % b < b,
        ;
    }
    let start: usize = (index as usize) * CHUNK_SIZE;
    let end: usize = if n - start > CHUNK_SIZE {
        start + CHUNK_SIZE
    } else {
        n
    };
    let piece = b64.substring_char(start, end);
    let r = piece.to_owned();
    proof {
        assert(r@ =~= spec_chunk_slice(b64@, index as int));
    }
    r
}

/// A fresh transfer identifier: `"{millis}-{counter:x}"`. The pieces come
/// from the shell's clock and counter; only the shape is fixed here.
pub open spec fn spec_file_id(millis: Seq<char>, counter_hex: Seq<char>) -> Seq<char> {
    millis + "-"@ + counter_hex
}

pub fn file_id_of(millis: u64, counter_hex: &str) -> (r: String)
    ensures
        r@ == spec_file_id(spec_u64_dec(millis as int), counter_hex@),
{
    let mut out = u64_to_string(millis);
    out.append("-");
    out.append(counter_hex);
    proof {
        assert(out@ =~= spec_file_id(spec_u64_dec(millis as int), counter_hex@));
    }
    out
}

/// One outbound chunked transfer, stepped by the shell: up to four
/// attempts per chunk and up to four attempts per file, chunks strictly in
/// order within an attempt.
#[derive(Debug, Clone, PartialEq, Eq, Structural)]
pub struct ChunkSendState {
    /// How many chunks the transfer has.
    pub total_chunks: u32,
    /// Which file-level attempt is running, starting at one.
    pub file_attempt: u8,
    /// The chunk now in flight; every chunk before it is acknowledged.
    pub next_chunk: u32,
    /// How many sends of `next_chunk` this file attempt has made,
    /// starting at one.
    pub chunk_attempt: u8,
}

/// What the shell reports back after one chunk send.
#[derive(Debug, Clone, Copy, PartialEq, Eq, Structural)]
pub enum SendEvent {
    /// The matching `chunk_ack` arrived with success.
    AckOk,
    /// The ack reported failure, or the five-second wait ran out.
    AckFailed,
    /// The socket slot is empty; the client is gone.
    SocketLost,
}

/// What the shell must do next.
#[derive(Debug, Clone, PartialEq, Eq, Structural)]
pub enum SendStep {
    /// Send chunk `index`; `attempt` of four, sleep one second first when
    /// `attempt` is above one.
    SendChunk { index: u32, attempt: u8 },
    /// Start the file over under a fresh transfer identifier: sleep one
    /// second, emit a new `chunk_start`, then send chunk zero.
    RestartFile { attempt: u8 },
    /// Every chunk is acknowledged: emit `chunk_complete`.
    Finished,
    /// Four file attempts failed: log a warning and give up this file.
    Failed,
    /// The client disconnected: stop silently.
    Aborted,
}

impl ChunkSendState {
    /// The bounds every reachable state keeps.
    pub open spec fn wf(&self) -> bool {
        &&& 1 <= self.file_attempt <= 4
        &&& 1 <= self.chunk_attempt <= 4
        &&& self.next_chunk < self.total_chunks
        &&& self.total_chunks >= 1
    }

    /// A transfer about to send its first chunk.
    pub fn begin(total_chunks: u32) -> (r: ChunkSendState)
        requires
            total_chunks >= 1,
        ensures
            r.wf(),
            r.total_chunks == total_chunks,
            r.file_attempt == 1,
            r.next_chunk == 0,
            r.chunk_attempt == 1,
    {
        ChunkSendState { total_chunks, file_attempt: 1, next_chunk: 0, chunk_attempt: 1 }
    }

    /// Advance on the shell's report for the chunk in flight. The
    /// contract pins every transition: an ack moves to the next chunk in
    /// order or finishes; a failure retries the chunk up to four times,
    /// then restarts the file up to four times, then gives up; a lost
    /// socket aborts with nothing changed.
    pub fn step(&mut self, ev: SendEvent) -> (r: SendStep)
        requires
            old(self).wf(),
        ensures
            final(self).wf(),
            final(self).total_chunks == old(self).total_chunks,
            ev == SendEvent::SocketLost ==> r == SendStep::Aborted && *final(self) == *old(self),
            ev == SendEvent::AckOk && old(self).next_chunk + 1 == old(self).total_chunks
                ==> r == SendStep::Finished && *final(self) == *old(self),
            ev == SendEvent::AckOk && old(self).next_chunk + 1 < old(self).total_chunks
                ==> r == (SendStep::SendChunk {
                    index: (old(self).next_chunk + 1) as u32,
                    attempt: 1,
                })
                && final(self).next_chunk == old(self).next_chunk + 1
                && final(self).chunk_attempt == 1
                && final(self).file_attempt == old(self).file_attempt,
            ev == SendEvent::AckFailed && old(self).chunk_attempt < 4
                ==> r == (SendStep::SendChunk {
                    index: old(self).next_chunk,
                    attempt: (old(self).chunk_attempt + 1) as u8,
                })
                && final(self).next_chunk == old(self).next_chunk
                && final(self).chunk_attempt == old(self).chunk_attempt + 1
                && final(self).file_attempt == old(self).file_attempt,
            ev == SendEvent::AckFailed && old(self).chunk_attempt == 4 && old(self).file_attempt < 4
                ==> r == (SendStep::RestartFile { attempt: (old(self).file_attempt + 1) as u8 })
                && final(self).next_chunk == 0
                && final(self).chunk_attempt == 1
                && final(self).file_attempt == old(self).file_attempt + 1,
            ev == SendEvent::AckFailed && old(self).chunk_attempt == 4 && old(self).file_attempt == 4
                ==> r == SendStep::Failed && *final(self) == *old(self),
    {
        match ev {
            SendEvent::SocketLost => SendStep::Aborted,
            SendEvent::AckOk => {
                if self.next_chunk + 1 == self.total_chunks {
                    SendStep::Finished
                } else {
                    self.next_chunk = self.next_chunk + 1;
                    self.chunk_attempt = 1;
                    SendStep::SendChunk { index: self.next_chunk, attempt: 1 }
                }
            },
            SendEvent::AckFailed => {
                if self.chunk_attempt < 4 {
                    self.chunk_attempt = self.chunk_attempt + 1;
                    SendStep::SendChunk { index: self.next_chunk, attempt: self.chunk_attempt }
                } else if self.file_attempt < 4 {
                    self.file_attempt = self.file_attempt + 1;
                    self.next_chunk = 0;
                    self.chunk_attempt = 1;
                    SendStep::RestartFile { attempt: self.file_attempt }
                } else {
                    SendStep::Failed
                }
            },
        }
    }
}

} // verus!
