//! The filesystem-to-wire pump: normalized watcher events are routed into
//! broadcasts, with the universal ignore rule and echo suppression applied
//! first; and the per-entry decision of the tree walks (the full sync and
//! the recursion after a new directory).

use vstd::prelude::*;

use crate::broadcast::{filter_skip_notice, spec_action_title, SkipNotice};
use crate::filter::{spec_should_filter, FilterSet};
use crate::paths::{normalize_rel_path, should_ignore_rel, spec_normalize_rel, spec_should_ignore};
use crate::session::SessionState;

verus! {

/// A normalized filesystem notification.
#[derive(Debug, Clone, Copy, PartialEq, Eq, Structural)]
pub enum FsEventKind {
    AddFile,
    ChangeFile,
    AddDir,
    RemoveFile,
    RemoveDir,
}

/// One watcher observation: what happened and to which absolute path.
#[derive(Debug, Clone)]
pub struct FsEvent {
    pub kind: FsEventKind,
    pub abs_path: String,
}

/// Why an event dies before any broadcast: no client is attached, the path
/// lies outside the root, it is universally ignored, or one of the echo
/// maps marks it as the server's own recent write.
pub open spec fn spec_pump_drops<S, W>(
    session: SessionState<S, W>,
    dir: Seq<char>,
    abs: Seq<char>,
) -> bool {
    ||| session.socket is None
    ||| spec_normalize_rel(dir, abs) is None
    ||| spec_should_ignore(spec_normalize_rel(dir, abs)->0)
    ||| session.server_written@.contains_key(spec_normalize_rel(dir, abs)->0)
    ||| session.client_written@.contains_key(spec_normalize_rel(dir, abs)->0)
}

/// Where a surviving event goes.
#[derive(Debug)]
pub enum PumpRoute {
    /// Nothing to do.
    Drop,
    /// A file was added or changed: stat it, then broadcast it as a
    /// directory if the watcher misclassified it, else as a file.
    StatThenSend { rel: String },
    /// A directory appeared: broadcast it, then walk its contents.
    DirTree { rel: String },
    /// Something was removed: broadcast the deletion.
    Delete { rel: String, is_dir: bool },
}

/// Route one watcher event: drop it on any of the suppression grounds,
/// otherwise dispatch on its kind.
pub fn route_fs_event<S, W>(session: &SessionState<S, W>, dir: &str, ev: &FsEvent) -> (r: PumpRoute)
    requires
        session.wf(),
    ensures
        r is Drop <==> spec_pump_drops(*session, dir@, ev.abs_path@),
        !spec_pump_drops(*session, dir@, ev.abs_path@) ==> ({
            let rel = spec_normalize_rel(dir@, ev.abs_path@)->0;
            &&& (ev.kind == FsEventKind::AddFile || ev.kind == FsEventKind::ChangeFile) ==> (
            r matches PumpRoute::StatThenSend { rel: r2 } && r2@ == rel)
            &&& ev.kind == FsEventKind::AddDir ==> (r matches PumpRoute::DirTree { rel: r2 }
                && r2@ == rel)
            &&& ev.kind == FsEventKind::RemoveFile ==> (r matches PumpRoute::Delete {
                rel: r2,
                is_dir,
            } && r2@ == rel && !is_dir)
            &&& ev.kind == FsEventKind::RemoveDir ==> (r matches PumpRoute::Delete {
                rel: r2,
                is_dir,
            } && r2@ == rel && is_dir)
        }),
{
    if session.socket.is_none() {
        return PumpRoute::Drop;
    }
    let rel = match normalize_rel_path(dir, ev.abs_path.as_str()) {
        Some(rel) => rel,
        None => {
            return PumpRoute::Drop;
        },
    };
    if should_ignore_rel(rel.as_str()) {
        return PumpRoute::Drop;
    }
    if session.server_written.contains(rel.as_str()) {
        return PumpRoute::Drop;
    }
    if session.client_written.contains(rel.as_str()) {
        return PumpRoute::Drop;
    }
    match ev.kind {
        FsEventKind::AddFile => PumpRoute::StatThenSend { rel },
        FsEventKind::ChangeFile => PumpRoute::StatThenSend { rel },
        FsEventKind::AddDir => PumpRoute::DirTree { rel },
        FsEventKind::RemoveFile => PumpRoute::Delete { rel, is_dir: false },
        FsEventKind::RemoveDir => PumpRoute::Delete { rel, is_dir: true },
    }
}

/// The per-entry decision of a tree walk.
#[derive(Debug)]
pub enum WalkStep {
    /// The entry is universally ignored: pass it by silently.
    SkipIgnored,
    /// A rule matched: emit the warning; for a directory, skip its whole
    /// subtree.
    FilterSkip { notice: SkipNotice, skip_subtree: bool },
    /// Broadcast the directory.
    SendDir,
    /// Broadcast the file.
    SendFile,
}

/// Decide one walked entry: the ignore rule first, then the filter (whose
/// warning is titled with the operation that would have run), then the
/// broadcast fitting its kind.
pub fn walk_entry_action(filters: &FilterSet, rel: &str, is_dir: bool) -> (r: WalkStep)
    ensures
        r is SkipIgnored <==> spec_should_ignore(rel@),
        !spec_should_ignore(rel@) ==> (r is FilterSkip <==> spec_should_filter(filters@, rel@)),
        r matches WalkStep::FilterSkip { notice, skip_subtree } ==> (skip_subtree == is_dir
            && notice.warning.path@ == spec_action_title(
            if is_dir {
                "create_dir"@
            } else {
                "update"@
            },
            rel@,
        ) && (notice.warning.message matches Some(m) && m@ == "匹配过滤规则，已跳过"@)),
        !spec_should_ignore(rel@) && !spec_should_filter(filters@, rel@) ==> ((r is SendDir
            <==> is_dir) && (r is SendFile <==> !is_dir)),
{
    if should_ignore_rel(rel) {
        return WalkStep::SkipIgnored;
    }
    if crate::filter::should_filter_path(rel, filters) {
        let action: &str = if is_dir {
            "create_dir"
        } else {
            "update"
        };
        return WalkStep::FilterSkip {
            notice: filter_skip_notice(action, rel),
            skip_subtree: is_dir,
        };
    }
    if is_dir {
        WalkStep::SendDir
    } else {
        WalkStep::SendFile
    }
}

} // verus!
