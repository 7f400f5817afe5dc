//! Log-line helpers for the embedding shell: severity classification,
//! length capping, and display cleanup of Windows extended-length path
//! prefixes.

use vstd::prelude::*;

use crate::strutil::{replace_all, spec_replace_all, spec_starts_with, starts_with_str};

verus! {

#[derive(Debug, Clone, Copy, PartialEq, Eq, Structural)]
pub enum LogLevel {
    Error,
    Warn,
    Info,
    Debug,
    Other,
}

/// Unicode whitespace, the set honored by `str::trim`.
pub open spec fn spec_is_space(c: char) -> bool {
    ('\u{9}' <= c && c <= '\u{d}') || c == ' ' || c == '\u{85}' || c == '\u{a0}' || c == '\u{1680}'
        || ('\u{2000}' <= c && c <= '\u{200a}') || c == '\u{2028}' || c == '\u{2029}' || c
        == '\u{202f}' || c == '\u{205f}' || c == '\u{3000}'
}

fn is_space(c: char) -> (r: bool)
    ensures
        r == spec_is_space(c),
{
    ('\u{9}' <= c && c <= '\u{d}') || c == ' ' || c == '\u{85}' || c == '\u{a0}' || c == '\u{1680}'
        || ('\u{2000}' <= c && c <= '\u{200a}') || c == '\u{2028}' || c == '\u{2029}' || c
        == '\u{202f}' || c == '\u{205f}' || c == '\u{3000}'
}

/// The sequence with leading whitespace removed.
pub open spec fn spec_trim_start(s: Seq<char>) -> Seq<char>
    decreases s.len(),
{
    if s.len() > 0 && spec_is_space(s[0]) {
        spec_trim_start(s.skip(1))
    } else {
        s
    }
}

/// Index of the first non-whitespace character (the length if none).
#[verifier::loop_isolation(false)]
fn trim_start_index(s: &str) -> (r: usize)
    ensures
        r <= s@.len(),
        spec_trim_start(s@) == s@.skip(r as int),
        r < s@.len() ==> !spec_is_space(s@[r as int]),
        forall|j: int| 0 <= j < r ==> spec_is_space(s@[j]),
{
    let n = s.unicode_len();
    let mut k: usize = 0;
    proof {
        assert(s@.skip(0) =~= s@);
    }
    while k < n && is_space(s.get_char(k))
        invariant
            k <= n,
            spec_trim_start(s@) == spec_trim_start(s@.skip(k as int)),
            forall|j: int| 0 <= j < k ==> spec_is_space(s@[j]),
        decreases n - k,
    {
        proof {
            assert(s@.skip(k as int).skip(1) =~= s@.skip(k + 1 as int));
        }
        k = k + 1;
    }
    proof {
        if k == n {
            assert(s@.skip(k as int).len() == 0);
        }
        assert(spec_trim_start(s@.skip(k as int)) == s@.skip(k as int));
    }
    k
}

/// Severity of a log line, read from its bracketed level tag.
pub open spec fn spec_classify_log_line(line: Seq<char>) -> LogLevel {
    let t = spec_trim_start(line);
    if spec_starts_with(t, "[error]"@) || spec_starts_with(t, "[fatal]"@) {
        LogLevel::Error
    } else if spec_starts_with(t, "[warn]"@) || spec_starts_with(t, "[warning]"@) {
        LogLevel::Warn
    } else if spec_starts_with(t, "[info]"@) {
        LogLevel::Info
    } else if spec_starts_with(t, "[debug]"@) || spec_starts_with(t, "[trace]"@) {
        LogLevel::Debug
    } else {
        LogLevel::Other
    }
}

pub fn classify_log_line(line: &str) -> (r: LogLevel)
    ensures
        r == spec_classify_log_line(line@),
{
    let k = trim_start_index(line);
    let n = line.unicode_len();
    let t = line.substring_char(k, n);
    proof {
        assert(t@ =~= line@.skip(k as int));
    }
    if starts_with_str(t, "[error]") || starts_with_str(t, "[fatal]") {
        LogLevel::Error
    } else if starts_with_str(t, "[warn]") || starts_with_str(t, "[warning]") {
        LogLevel::Warn
    } else if starts_with_str(t, "[info]") {
        LogLevel::Info
    } else if starts_with_str(t, "[debug]") || starts_with_str(t, "[trace]") {
        LogLevel::Debug
    } else {
        LogLevel::Other
    }
}

/// Windows extended-length prefixes rewritten for display: every
/// `\\?\UNC\` becomes `\\`, and every remaining `\\?\` is removed.
pub open spec fn spec_normalize_win_prefixes(s: Seq<char>) -> Seq<char> {
    spec_replace_all(spec_replace_all(s, "\\\\?\\UNC\\"@, "\\\\"@), "\\\\?\\"@, ""@)
}

pub fn normalize_windows_path_prefixes_in_text(s: &str) -> (r: String)
    ensures
        r@ == spec_normalize_win_prefixes(s@),
{
    proof {
        reveal_strlit("\\\\?\\UNC\\");
        reveal_strlit("\\\\?\\");
    }
    let pass1 = replace_all(s, "\\\\?\\UNC\\", "\\\\");
    replace_all(pass1.as_str(), "\\\\?\\", "")
}

/// A path cleaned of its extended-length prefix: `\\?\UNC\` at the start
/// becomes `\\`, otherwise a leading `\\?\` is dropped.
pub open spec fn spec_display_path(p: Seq<char>) -> Seq<char> {
    if spec_starts_with(p, "\\\\?\\UNC\\"@) {
        "\\\\"@ + p.skip(8)
    } else if spec_starts_with(p, "\\\\?\\"@) {
        p.skip(4)
    } else {
        p
    }
}

pub fn display_path(path: &str) -> (r: String)
    ensures
        r@ == spec_display_path(path@),
{
    proof {
        reveal_strlit("\\\\?\\UNC\\");
        reveal_strlit("\\\\?\\");
    }
    let n = path.unicode_len();
    if starts_with_str(path, "\\\\?\\UNC\\") {
        let mut out: String = ("\\\\").to_owned();
        let rest = path.substring_char(8, n);
        out.append(rest);
        proof {
            assert(rest@ =~= path@.skip(8));
        }
        out
    } else if starts_with_str(path, "\\\\?\\") {
        let rest = path.substring_char(4, n);
        proof {
            assert(rest@ =~= path@.skip(4));
        }
        rest.to_owned()
    } else {
        path.to_owned()
    }
}

/// Cap for a displayed log line, in characters.
pub const MAX_LOG_LINE_CHARS: usize = 2000;

/// A log line made displayable: `None` when it is all whitespace,
/// otherwise capped at [`MAX_LOG_LINE_CHARS`] characters (an ellipsis marks
/// the cut) with Windows path prefixes normalized.
pub open spec fn spec_normalize_log_line(line: Seq<char>) -> Option<Seq<char>> {
    if spec_trim_start(line).len() == 0 {
        None
    } else if line.len() > MAX_LOG_LINE_CHARS {
        Some(spec_normalize_win_prefixes(line.take(MAX_LOG_LINE_CHARS as int).push('\u{2026}')))
    } else {
        Some(spec_normalize_win_prefixes(line))
    }
}

pub fn normalize_log_line(line: &str) -> (r: Option<String>)
    ensures
        r is Some <==> spec_normalize_log_line(line@) is Some,
        r is Some ==> r->0@ == spec_normalize_log_line(line@)->0,
{
    let k = trim_start_index(line);
    let n = line.unicode_len();
    if k == n {
        assert(spec_trim_start(line@).len() == 0);
        return None;
    }
    assert(spec_trim_start(line@).len() > 0);
    if n > MAX_LOG_LINE_CHARS {
        let head = line.substring_char(0, MAX_LOG_LINE_CHARS);
        let mut capped = head.to_owned();
        capped.append("\u{2026}");
        proof {
            reveal_strlit("\u{2026}");
            assert(head@ =~= line@.take(MAX_LOG_LINE_CHARS as int));
            assert(capped@ =~= line@.take(MAX_LOG_LINE_CHARS as int).push('\u{2026}'));
        }
        Some(normalize_windows_path_prefixes_in_text(capped.as_str()))
    } else {
        Some(normalize_windows_path_prefixes_in_text(line))
    }
}

} // verus!
