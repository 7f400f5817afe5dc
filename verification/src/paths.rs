//! Relative-path normalization and the universal ignore rule.

use vstd::prelude::*;

use crate::strutil::{
    ends_with_str, spec_ends_with, spec_starts_with, spec_to_slashes, starts_with_str, to_slashes,
};

verus! {

/// The universal ignore rule: any path equal to or ending with `.DS_Store`
/// is hidden from the protocol.
pub open spec fn spec_should_ignore(rel: Seq<char>) -> bool {
    spec_ends_with(rel, ".DS_Store"@)
}

pub fn should_ignore_rel(rel: &str) -> (r: bool)
    ensures
        r == spec_should_ignore(rel@),
{
    ends_with_str(rel, ".DS_Store")
}

pub open spec fn spec_is_sep(c: char) -> bool {
    c == '/' || c == '\\'
}

fn is_sep(c: char) -> (r: bool)
    ensures
        r == spec_is_sep(c),
{
    c == '/' || c == '\\'
}

fn sep_at(s: &str, i: usize) -> (r: bool)
    requires
        i < s@.len(),
    ensures
        r == spec_is_sep(s@[i as int]),
{
    is_sep(s.get_char(i))
}

/// The sequence with its leading path separators removed.
pub open spec fn spec_drop_leading_seps(s: Seq<char>) -> Seq<char>
    decreases s.len(),
{
    if s.len() > 0 && spec_is_sep(s[0]) {
        spec_drop_leading_seps(s.skip(1))
    } else {
        s
    }
}

/// The relative form of `abs` under `root`: `None` when `abs` does not lie
/// strictly below `root`, otherwise the remainder with separators
/// normalized to forward slashes.
pub open spec fn spec_normalize_rel(root: Seq<char>, abs: Seq<char>) -> Option<Seq<char>> {
    if !spec_starts_with(abs, root) {
        None
    } else {
        let rest = abs.skip(root.len() as int);
        if rest.len() == 0 {
            None
        } else if !spec_is_sep(rest[0]) && root.len() > 0 && !spec_is_sep(root[root.len() - 1]) {
            // `abs` merely shares a name prefix with `root`; it is not a
            // path below it.
            None
        } else {
            let trimmed = spec_drop_leading_seps(rest);
            if trimmed.len() == 0 {
                None
            } else {
                Some(spec_to_slashes(trimmed))
            }
        }
    }
}

/// Strip the `root` prefix from `abs` and return the forward-slash form of
/// what remains; `None` when `abs` equals `root` or lies outside it.
#[verifier::loop_isolation(false)]
pub fn normalize_rel_path(root: &str, abs: &str) -> (r: Option<String>)
    ensures
        r is Some <==> spec_normalize_rel(root@, abs@) is Some,
        r is Some ==> r->0@ == spec_normalize_rel(root@, abs@)->0,
{
    if !starts_with_str(abs, root) {
        return None;
    }
    let n = abs.unicode_len();
    let rl = root.unicode_len();
    if rl == n {
        assert(abs@.skip(rl as int).len() == 0);
        return None;
    }
    let ghost rest = abs@.skip(rl as int);
    if !is_sep(abs.get_char(rl)) && rl > 0 && !is_sep(root.get_char(rl - 1)) {
        assert(rest[0] == abs@[rl as int]);
        assert(root@[rl - 1 as int] == abs@[rl - 1 as int]) by {
            assert(abs@.subrange(0, rl as int)[rl - 1 as int] == root@[rl - 1 as int]);
        }
        return None;
    }
    let mut k: usize = rl;
    while k < n && sep_at(abs, k)
        invariant
            rl <= k <= n,
            spec_drop_leading_seps(rest) == spec_drop_leading_seps(abs@.skip(k as int)),
        decreases n - k,
    {
        proof {
            assert(abs@.skip(k as int).skip(1) =~= abs@.skip(k + 1 as int));
        }
        k = k + 1;
    }
    proof {
        if k < n {
            assert(spec_drop_leading_seps(abs@.skip(k as int)) == abs@.skip(k as int));
        } else {
            assert(abs@.skip(k as int).len() == 0);
            assert(spec_drop_leading_seps(abs@.skip(k as int)) == abs@.skip(k as int));
        }
    }
    if k == n {
        return None;
    }
    let tail = abs.substring_char(k, n);
    proof {
        assert(tail@ =~= abs@.skip(k as int));
    }
    Some(to_slashes(tail))
}

} // verus!
