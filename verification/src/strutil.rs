//! Verified string helpers: comparison, prefix/suffix tests, separator
//! normalization, and decimal formatting/parsing over `Seq<char>` views.

use vstd::prelude::*;

verus! {

/// Character-wise equality of two string slices.
pub fn str_eq(a: &str, b: &str) -> (r: bool)
    ensures
        r == (a@ == b@),
{
    let n = a.unicode_len();
    let m = b.unicode_len();
    if n != m {
        assert(a@.len() != b@.len());
        return false;
    }
    let mut i: usize = 0;
    while i < n
        invariant
            i <= n,
            n == a@.len(),
            n == b@.len(),
            forall|j: int| 0 <= j < i ==> a@[j] == b@[j],
        decreases n - i,
    {
        if a.get_char(i) != b.get_char(i) {
            return false;
        }
        i = i + 1;
    }
    assert(a@ =~= b@);
    true
}

/// `prefix` is an initial segment of `s`.
pub open spec fn spec_starts_with(s: Seq<char>, prefix: Seq<char>) -> bool {
    s.len() >= prefix.len() && s.subrange(0, prefix.len() as int) == prefix
}

pub fn starts_with_str(s: &str, prefix: &str) -> (r: bool)
    ensures
        r == spec_starts_with(s@, prefix@),
{
    let n = s.unicode_len();
    let m = prefix.unicode_len();
    if m > n {
        return false;
    }
    let mut i: usize = 0;
    while i < m
        invariant
            i <= m,
            m <= n,
            n == s@.len(),
            m == prefix@.len(),
            forall|j: int| 0 <= j < i ==> s@[j] == prefix@[j],
        decreases m - i,
    {
        if s.get_char(i) != prefix.get_char(i) {
            assert(s@.subrange(0, m as int)[i as int] != prefix@[i as int]);
            return false;
        }
        i = i + 1;
    }
    assert(s@.subrange(0, m as int) =~= prefix@);
    true
}

/// `suffix` is a final segment of `s`.
pub open spec fn spec_ends_with(s: Seq<char>, suffix: Seq<char>) -> bool {
    s.len() >= suffix.len() && s.subrange(s.len() - suffix.len(), s.len() as int) == suffix
}

pub fn ends_with_str(s: &str, suffix: &str) -> (r: bool)
    ensures
        r == spec_ends_with(s@, suffix@),
{
    let n = s.unicode_len();
    let m = suffix.unicode_len();
    if m > n {
        return false;
    }
    let off = n - m;
    let mut i: usize = 0;
    while i < m
        invariant
            i <= m,
            m <= n,
            off == n - m,
            n == s@.len(),
            m == suffix@.len(),
            forall|j: int| 0 <= j < i ==> s@[off + j] == suffix@[j],
        decreases m - i,
    {
        if s.get_char(off + i) != suffix.get_char(i) {
            assert(s@.subrange(n - m, n as int)[i as int] != suffix@[i as int]);
            return false;
        }
        i = i + 1;
    }
    assert(s@.subrange(n - m, n as int) =~= suffix@);
    true
}

/// Every backslash replaced by a forward slash.
pub open spec fn spec_to_slashes(s: Seq<char>) -> Seq<char> {
    s.map_values(|c: char| if c == '\\' { '/' } else { c })
}

/// Replacing twice changes nothing more: the replacement never produces a
/// backslash.
pub proof fn lemma_to_slashes_idempotent(s: Seq<char>)
    ensures
        spec_to_slashes(spec_to_slashes(s)) == spec_to_slashes(s),
{
    assert(spec_to_slashes(spec_to_slashes(s)) =~= spec_to_slashes(s));
}

pub fn to_slashes(s: &str) -> (r: String)
    ensures
        r@ == spec_to_slashes(s@),
{
    let n = s.unicode_len();
    let mut out = String::new();
    let mut i: usize = 0;
    while i < n
        invariant
            i <= n,
            n == s@.len(),
            out@ == spec_to_slashes(s@.take(i as int)),
        decreases n - i,
    {
        if s.get_char(i) == '\\' {
            out.append("/");
            proof {
                reveal_strlit("/");
            }
        } else {
            let piece = s.substring_char(i, i + 1);
            out.append(piece);
        }
        assert(out@ =~= spec_to_slashes(s@.take(i + 1 as int)));
        i = i + 1;
    }
    proof {
        assert(s@.take(n as int) =~= s@);
    }
    out
}

/// The decimal digit character for a value below ten.
pub open spec fn spec_digit_char(d: int) -> char {
    if d == 0 {
        '0'
    } else if d == 1 {
        '1'
    } else if d == 2 {
        '2'
    } else if d == 3 {
        '3'
    } else if d == 4 {
        '4'
    } else if d == 5 {
        '5'
    } else if d == 6 {
        '6'
    } else if d == 7 {
        '7'
    } else if d == 8 {
        '8'
    } else {
        '9'
    }
}

/// Decimal rendering of a nonnegative integer, no sign, no leading zeros
/// (a single zero for zero itself).
pub open spec fn spec_u64_dec(n: int) -> Seq<char>
    decreases n,
{
    if n < 10 {
        seq![spec_digit_char(n)]
    } else {
        spec_u64_dec(n / 10).push(spec_digit_char(n % 10))
    }
}

fn digit_str(d: u64) -> (r: &'static str)
    requires
        d < 10,
    ensures
        r@ == seq![spec_digit_char(d as int)],
{
    let digits: &str = "0123456789";
    proof {
        reveal_strlit("0123456789");
    }
    let r = digits.substring_char(d as usize, d as usize + 1);
    assert(r@ =~= seq![spec_digit_char(d as int)]);
    r
}

/// Decimal formatting of a `u64`.
pub fn u64_to_string(n: u64) -> (r: String)
    ensures
        r@ == spec_u64_dec(n as int),
    decreases n,
{
    let d = n % 10;
    let ds = digit_str(d);
    if n < 10 {
        ds.to_owned()
    } else {
        let mut prefix = u64_to_string(n / 10);
        prefix.append(ds);
        assert(prefix@ =~= spec_u64_dec(n as int));
        prefix
    }
}

pub open spec fn spec_is_digit(c: char) -> bool {
    '0' <= c && c <= '9'
}

pub open spec fn spec_digit_val(c: char) -> int {
    c as int - '0' as int
}

/// Value of a digit string, most significant digit first.
pub open spec fn spec_digits_val(s: Seq<char>) -> int
    decreases s.len(),
{
    if s.len() == 0 {
        0
    } else {
        spec_digits_val(s.drop_last()) * 10 + spec_digit_val(s.last())
    }
}

pub open spec fn spec_all_digits(s: Seq<char>) -> bool {
    forall|i: int| 0 <= i < s.len() ==> spec_is_digit(#[trigger] s[i])
}

proof fn lemma_not_all_digits(s: Seq<char>, k: int)
    requires
        0 <= k < s.len(),
        !spec_is_digit(s[k]),
    ensures
        !spec_all_digits(s),
{
}

/// What `str::parse::<u64>` accepts: an optional leading `+`, then at least
/// one digit, and a value that fits in the type.
pub open spec fn spec_parse_u64(s: Seq<char>) -> Option<u64> {
    let body = if s.len() >= 1 && s[0] == '+' {
        s.skip(1)
    } else {
        s
    };
    if body.len() >= 1 && spec_all_digits(body) && spec_digits_val(body) <= u64::MAX {
        Some(spec_digits_val(body) as u64)
    } else {
        None
    }
}

proof fn lemma_digits_val_grows(s: Seq<char>, i: int)
    requires
        spec_all_digits(s),
        0 <= i <= s.len(),
    ensures
        spec_digits_val(s) >= spec_digits_val(s.take(i)),
        spec_digits_val(s) >= 0,
    decreases s.len() - i,
{
    if i == s.len() {
        assert(s.take(i) =~= s);
        lemma_digits_val_nonneg(s);
    } else {
        lemma_digits_val_grows(s, i + 1);
        lemma_digits_val_nonneg(s.take(i));
        assert(s.take(i + 1).drop_last() =~= s.take(i));
        assert(spec_digits_val(s.take(i + 1)) == spec_digits_val(s.take(i)) * 10 + spec_digit_val(
            s[i],
        ));
    }
}

proof fn lemma_digits_val_nonneg(s: Seq<char>)
    requires
        spec_all_digits(s),
    ensures
        spec_digits_val(s) >= 0,
    decreases s.len(),
{
    if s.len() > 0 {
        assert(spec_all_digits(s.drop_last()));
        lemma_digits_val_nonneg(s.drop_last());
    }
}

/// Decimal parse, the same inputs accepted as `str::parse::<u64>`.
pub fn parse_u64(s: &str) -> (r: Option<u64>)
    ensures
        r == spec_parse_u64(s@),
{
    let n = s.unicode_len();
    let start: usize = if n >= 1 && s.get_char(0) == '+' {
        1
    } else {
        0
    };
    let ghost body = if s@.len() >= 1 && s@[0] == '+' {
        s@.skip(1)
    } else {
        s@
    };
    assert(body.len() == n - start);
    assert(forall|j: int| 0 <= j < body.len() ==> body[j] == s@[start + j]);
    if start >= n {
        return None;
    }
    let mut i: usize = start;
    let mut acc: u64 = 0;
    while i < n
        invariant
            start <= i <= n,
            n == s@.len(),
            start < n,
            body == (if s@.len() >= 1 && s@[0] == '+' {
                s@.skip(1)
            } else {
                s@
            }),
            body.len() == n - start,
            forall|j: int| 0 <= j < body.len() ==> body[j] == s@[start + j],
            spec_all_digits(body.take(i - start)),
            acc == spec_digits_val(body.take(i - start)),
        decreases n - i,
    {
        let c = s.get_char(i);
        if c < '0' || c > '9' {
            proof {
                lemma_not_all_digits(body, i - start);
            }
            return None;
        }
        let d: u64 = (c as u32 as u64) - 48;
        assert(d == spec_digit_val(body[i - start])) by {
            assert(c as int - '0' as int == c as u32 as int - 48);
        }
        if acc > (u64::MAX - d) / 10 {
            // The value no longer fits; it can only grow with more digits,
            // so the whole string fails to parse exactly when every later
            // character is also a digit. Scan them.
            assert(acc * 10 + d > u64::MAX) by (nonlinear_arith)
                requires
                    acc > (u64::MAX - d) / 10,
                    d < 10,
            ;
            let mut j: usize = i;
            while j < n
                invariant
                    i <= j <= n,
                    n == s@.len(),
                    body == (if s@.len() >= 1 && s@[0] == '+' {
                        s@.skip(1)
                    } else {
                        s@
                    }),
                    body.len() == n - start,
                    start <= i,
                    acc * 10 + (s@[i as int] as int - '0' as int) > u64::MAX,
                    spec_is_digit(s@[i as int]),
                    spec_all_digits(body.take(i - start)),
                    acc == spec_digits_val(body.take(i - start)),
                    forall|k: int| 0 <= k < body.len() ==> body[k] == s@[start + k],
                    spec_all_digits(body.take(j - start)),
                decreases n - j,
            {
                let c2 = s.get_char(j);
                if c2 < '0' || c2 > '9' {
                    proof {
                        lemma_not_all_digits(body, j - start);
                    }
                    return None;
                }
                assert(body.take(j + 1 - start) =~= body.take(j - start).push(body[j - start]));
                j = j + 1;
            }
            assert(body.take(n - start as int) =~= body);
            proof {
                assert(body.take(i + 1 - start).drop_last() =~= body.take(i - start));
                assert(spec_digits_val(body.take(i + 1 - start)) == acc * 10 + d);
                lemma_digits_val_grows(body, i + 1 - start);
            }
            return None;
        }
        assert(acc * 10 + d <= u64::MAX) by (nonlinear_arith)
            requires
                acc <= (u64::MAX - d) / 10,
                d < 10,
        ;
        assert(body.take(i + 1 - start).drop_last() =~= body.take(i - start));
        acc = acc * 10 + d;
        i = i + 1;
    }
    proof {
        assert(body.take(n - start as int) =~= body);
    }
    Some(acc)
}

/// `pat` occurs in `s` at position `at`.
pub open spec fn spec_match_at(s: Seq<char>, pat: Seq<char>, at: int) -> bool {
    0 <= at && at + pat.len() <= s.len() && s.subrange(at, at + pat.len()) == pat
}

fn match_at(s: &str, pat: &str, at: usize) -> (r: bool)
    requires
        at <= s@.len(),
    ensures
        r == spec_match_at(s@, pat@, at as int),
{
    let n = s.unicode_len();
    let m = pat.unicode_len();
    if m > n - at {
        return false;
    }
    let mut i: usize = 0;
    while i < m
        invariant
            i <= m,
            at + m <= n,
            n == s@.len(),
            m == pat@.len(),
            forall|j: int| 0 <= j < i ==> s@[at + j] == pat@[j],
        decreases m - i,
    {
        if s.get_char(at + i) != pat.get_char(i) {
            assert(s@.subrange(at as int, at + m)[i as int] != pat@[i as int]);
            return false;
        }
        i = i + 1;
    }
    assert(s@.subrange(at as int, at + m) =~= pat@);
    true
}

/// Every occurrence of `pat` replaced by `rep`, scanning left to right and
/// never rescanning replaced text.
pub open spec fn spec_replace_all(s: Seq<char>, pat: Seq<char>, rep: Seq<char>) -> Seq<char>
    decreases s.len(),
{
    if pat.len() == 0 || s.len() < pat.len() {
        s
    } else if s.subrange(0, pat.len() as int) == pat {
        rep + spec_replace_all(s.skip(pat.len() as int), pat, rep)
    } else {
        seq![s[0]] + spec_replace_all(s.skip(1), pat, rep)
    }
}

#[verifier::loop_isolation(false)]
pub fn replace_all(s: &str, pat: &str, rep: &str) -> (r: String)
    requires
        pat@.len() >= 1,
    ensures
        r@ == spec_replace_all(s@, pat@, rep@),
{
    let n = s.unicode_len();
    let m = pat.unicode_len();
    let mut out = String::new();
    let mut i: usize = 0;
    proof {
        assert(s@.skip(0) =~= s@);
        assert(out@ + s@ =~= s@);
    }
    while i < n
        invariant
            i <= n,
            spec_replace_all(s@, pat@, rep@) == out@ + spec_replace_all(
                s@.skip(i as int),
                pat@,
                rep@,
            ),
        decreases n - i,
    {
        if match_at(s, pat, i) {
            out.append(rep);
            proof {
                let rest = s@.skip(i as int);
                assert(rest.subrange(0, m as int) =~= s@.subrange(i as int, i + m));
                assert(rest.skip(m as int) =~= s@.skip(i + m));
            }
            i = i + m;
        } else {
            let piece = s.substring_char(i, i + 1);
            out.append(piece);
            proof {
                let rest = s@.skip(i as int);
                if rest.len() >= m {
                    assert(rest.subrange(0, m as int) =~= s@.subrange(i as int, i + m));
                }
                assert(rest.skip(1) =~= s@.skip(i + 1));
                assert(piece@ =~= seq![rest[0]]);
            }
            i = i + 1;
        }
    }
    proof {
        assert(s@.skip(n as int) =~= Seq::<char>::empty());
        assert(out@ + Seq::<char>::empty() =~= out@);
    }
    out
}

} // verus!
