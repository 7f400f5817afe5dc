//! User-visible log lines: the warning line and the chunk-progress line
//! emitted at twenty-percent steps.

use vstd::prelude::*;

use crate::strutil::{spec_u64_dec, u64_to_string};

verus! {

/// `"{reason}: {title}"`.
pub open spec fn spec_ts_warning_line(reason: Seq<char>, title: Seq<char>) -> Seq<char> {
    reason + ": "@ + title
}

pub fn format_ts_warning_line(reason: &str, title: &str) -> (r: String)
    ensures
        r@ == spec_ts_warning_line(reason@, title@),
{
    let mut out = reason.to_owned();
    out.append(": ");
    out.append(title);
    proof {
        assert(out@ =~= spec_ts_warning_line(reason@, title@));
    }
    out
}

/// Chunks completed after handling chunk `current`: zero-indexed senders
/// report the chunk just finished, receivers report the count so far.
pub open spec fn spec_completed(current: u32, zero_indexed: bool) -> int {
    if zero_indexed {
        if current == u32::MAX {
            u32::MAX as int
        } else {
            current + 1
        }
    } else {
        current as int
    }
}

/// Chunks completed before this one.
pub open spec fn spec_prev(current: u32, zero_indexed: bool) -> int {
    if zero_indexed {
        current as int
    } else {
        if current == 0 {
            0
        } else {
            current - 1
        }
    }
}

/// The progress quintile: how many fifths of the transfer are done,
/// rounded up.
pub open spec fn spec_quintile(completed: int, total: u32) -> int {
    let scaled = if completed * 5 > u32::MAX {
        u32::MAX as int
    } else {
        completed * 5
    };
    (scaled + total - 1) / (total as int)
}

/// The percentage shown on a progress line, rounded to the nearest point.
pub open spec fn spec_progress_pct(completed: int, total: u32) -> int {
    (200 * completed + total) / (2 * total as int)
}

/// A line is due when the quintile advances or the transfer ends.
pub open spec fn spec_progress_due(current: u32, total: u32, zero_indexed: bool) -> bool {
    let completed = spec_completed(current, zero_indexed);
    total > 0 && (spec_quintile(completed, total) > spec_quintile(
        spec_prev(current, zero_indexed),
        total,
    ) || completed >= total)
}

/// `"{action}: {completed}/{total} ({pct}%)"`.
pub open spec fn spec_progress_line(current: u32, total: u32, action: Seq<char>, zero_indexed: bool) -> Seq<char> {
    let completed = spec_completed(current, zero_indexed);
    action + ": "@ + spec_u64_dec(completed) + "/"@ + spec_u64_dec(total as int) + " ("@
        + spec_u64_dec(spec_progress_pct(completed, total)) + "%)"@
}

/// The progress line for chunk `current` of `total`, emitted only at a
/// quintile boundary or on the last chunk.
pub fn format_chunk_progress(current: u32, total: u32, action: &str, is_zero_indexed: bool) -> (r:
    Option<String>)
    ensures
        r is Some <==> spec_progress_due(current, total, is_zero_indexed),
        r is Some ==> r->0@ == spec_progress_line(current, total, action@, is_zero_indexed),
{
    if total == 0 {
        return None;
    }
    let completed: u32 = if is_zero_indexed {
        if current == u32::MAX {
            u32::MAX
        } else {
            current + 1
        }
    } else {
        current
    };
    let prev: u32 = if is_zero_indexed {
        current
    } else {
        if current == 0 {
            0
        } else {
            current - 1
        }
    };
    let progress: u64 = quintile(completed, total);
    let prev_progress: u64 = quintile(prev, total);
    let is_last = completed >= total;
    if progress > prev_progress || is_last {
        let pct: u64 = (200 * (completed as u64) + (total as u64)) / (2 * (total as u64));
        let mut out = action.to_owned();
        out.append(": ");
        let c_str = u64_to_string(completed as u64);
        out.append(c_str.as_str());
        out.append("/");
        let t_str = u64_to_string(total as u64);
        out.append(t_str.as_str());
        out.append(" (");
        let p_str = u64_to_string(pct);
        out.append(p_str.as_str());
        out.append("%)");
        proof {
            assert(out@ =~= spec_progress_line(current, total, action@, is_zero_indexed));
        }
        Some(out)
    } else {
        None
    }
}

/// How many progress lines a zero-indexed sender emits over the chunks
/// `0 .. n` of a transfer of `total`.
pub open spec fn spec_emit_count(total: u32, n: u32) -> int
    decreases n,
{
    if n == 0 {
        0
    } else {
        spec_emit_count(total, (n - 1) as u32) + (if spec_progress_due((n - 1) as u32, total, true) {
            1int
        } else {
            0int
        })
    }
}

/// With five or fewer chunks, every chunk crosses a quintile boundary, so
/// every chunk emits a line.
pub proof fn law_progress_every_step_emits(current: u32, total: u32)
    requires
        1 <= total <= 5,
        current < total,
    ensures
        spec_progress_due(current, total, true),
{
    let c = current as int;
    let t = total as int;
    let m = 5 * c + t - 1;
    vstd::arithmetic::div_mod::lemma_fundamental_div_mod(m, t);
    let q0 = m / t;
    let r0 = m % t;
    assert((q0 + 1) * t == q0 * t + t) by (nonlinear_arith);
    vstd::arithmetic::div_mod::lemma_fundamental_div_mod_converse(m + t, t, q0 + 1, r0);
    vstd::arithmetic::div_mod::lemma_div_is_ordered(m + t, 5 * c + 5 + t - 1, t);
    assert(spec_quintile(c + 1, total) > spec_quintile(c, total));
}

/// The quintile law: a transfer of one to five chunks emits exactly one
/// line per chunk, that is `min(5, total)` lines in all.
pub proof fn law_progress_quintile_count(total: u32, n: u32)
    requires
        1 <= total <= 5,
        n <= total,
    ensures
        spec_emit_count(total, n) == n,
    decreases n,
{
    if n > 0 {
        law_progress_quintile_count(total, (n - 1) as u32);
        law_progress_every_step_emits((n - 1) as u32, total);
    }
}

/// The last chunk of any transfer emits, and its line reports
/// `total/total (100%)`.
pub proof fn law_progress_last_line(total: u32, action: Seq<char>)
    requires
        total >= 1,
    ensures
        spec_progress_due((total - 1) as u32, total, true),
        spec_progress_line((total - 1) as u32, total, action, true) == action + ": "@
            + spec_u64_dec(total as int) + "/"@ + spec_u64_dec(total as int) + " (100%)"@,
{
    let t = total as int;
    assert(spec_completed((total - 1) as u32, true) == t);
    assert(100 * (2 * t) + t == 200 * t + t);
    vstd::arithmetic::div_mod::lemma_fundamental_div_mod_converse(200 * t + t, 2 * t, 100, t);
    assert(spec_progress_pct(t, total) == 100);
    reveal_with_fuel(spec_u64_dec, 4);
    reveal_strlit("100");
    assert(spec_u64_dec(100) =~= "100"@);
    reveal_strlit(" (");
    reveal_strlit("100");
    reveal_strlit("%)");
    reveal_strlit(" (100%)");
    assert(" ("@ + spec_u64_dec(100) + "%)"@ =~= " (100%)"@);
    assert(spec_progress_line((total - 1) as u32, total, action, true) =~= action + ": "@
        + spec_u64_dec(t) + "/"@ + spec_u64_dec(t) + " (100%)"@);
}

/// The quintile reached after `completed` of `total` chunks, the
/// multiplication saturating as the formatter's callers expect.
fn quintile(completed: u32, total: u32) -> (r: u64)
    requires
        total > 0,
    ensures
        r as int == spec_quintile(completed as int, total),
{
    let scaled: u32 = if completed > u32::MAX / 5 {
        u32::MAX
    } else {
        completed * 5
    };
    assert(scaled as int == (if completed as int * 5 > u32::MAX {
        u32::MAX as int
    } else {
        completed as int * 5
    }));
    let q: u64 = (scaled as u64) / (total as u64);
    let rem: u64 = (scaled as u64) % (total as u64);
    let r: u64 = q + (if rem != 0 {
        1
    } else {
        0
    });
    proof {
        let a = scaled as int;
        let b = total as int;
        vstd::arithmetic::div_mod::lemma_fundamental_div_mod(a, b);
        if rem == 0 {
            vstd::arithmetic::div_mod::lemma_fundamental_div_mod_converse(
                a + b - 1,
                b,
                q as int,
                b - 1,
            );
        } else {
            assert((q as int + 1) * b == q as int * b + b) by (nonlinear_arith);
            vstd::arithmetic::div_mod::lemma_fundamental_div_mod_converse(
                a + b - 1,
                b,
                q as int + 1,
                rem as int - 1,
            );
        }
    }
    r
}

} // verus!
