//! Path filtering: an ordered list of regular-expression rules. The server
//! carries its own list; the client may add rules, and the list in force is
//! always the server's list followed by the client's.

use vstd::prelude::*;

use crate::strutil::{spec_to_slashes, to_slashes};

verus! {

/// Whether `pattern` is a regular expression that compiles; a function of
/// the pattern alone.
pub uninterp spec fn regex_valid(pattern: Seq<char>) -> bool;

/// Whether the regular expression `pattern` matches anywhere in `text`;
/// a function of the two strings alone.
pub uninterp spec fn regex_matches(pattern: Seq<char>, text: Seq<char>) -> bool;

/// Relies on regex::Regex::new: whether a pattern compiles depends on the
/// pattern alone.
#[verifier::external_body]
fn regex_is_valid(pattern: &str) -> (r: bool)
    ensures
        r == regex_valid(pattern@),
{
    regex::Regex::new(pattern).is_ok()
}

/// Relies on regex::Regex::is_match: true if and only if the regex matches
/// anywhere in the haystack; the result depends on the pattern and the
/// haystack alone.
#[verifier::external_body]
fn regex_is_match(pattern: &str, text: &str) -> (r: bool)
    requires
        regex_valid(pattern@),
    ensures
        r == regex_matches(pattern@, text@),
{
    match regex::Regex::new(pattern) {
        Ok(re) => re.is_match(text),
        Err(_) => false,
    }
}

/// Some rule in `patterns` matches `text`.
pub open spec fn spec_any_match(patterns: Seq<Seq<char>>, text: Seq<char>) -> bool {
    exists|i: int| 0 <= i < patterns.len() && regex_matches(#[trigger] patterns[i], text)
}

/// What the filter decides for a relative path: backslashes are normalized
/// to forward slashes, then any rule may match.
pub open spec fn spec_should_filter(patterns: Seq<Seq<char>>, rel: Seq<char>) -> bool {
    spec_any_match(patterns, spec_to_slashes(rel))
}

/// The subsequence of `patterns` that compile, in order.
pub open spec fn spec_valid_patterns(patterns: Seq<Seq<char>>) -> Seq<Seq<char>>
    decreases patterns.len(),
{
    if patterns.len() == 0 {
        Seq::empty()
    } else if regex_valid(patterns.last()) {
        spec_valid_patterns(patterns.drop_last()).push(patterns.last())
    } else {
        spec_valid_patterns(patterns.drop_last())
    }
}

proof fn lemma_valid_patterns_all_valid(patterns: Seq<Seq<char>>)
    ensures
        forall|i: int|
            0 <= i < spec_valid_patterns(patterns).len() ==> regex_valid(
                #[trigger] spec_valid_patterns(patterns)[i],
            ),
    decreases patterns.len(),
{
    if patterns.len() > 0 {
        lemma_valid_patterns_all_valid(patterns.drop_last());
        let prev = spec_valid_patterns(patterns.drop_last());
        assert forall|i: int|
            0 <= i < spec_valid_patterns(patterns).len() implies regex_valid(
            spec_valid_patterns(patterns)[i],
        ) by {
            if i < prev.len() {
                assert(spec_valid_patterns(patterns)[i] == prev[i]);
            }
        }
    }
}

/// An ordered list of filter rules, each one a pattern that compiles.
/// Patterns that do not compile are dropped on construction, as the
/// protocol asks.
#[derive(Debug)]
pub struct FilterSet {
    patterns: Vec<String>,
}

impl FilterSet {
    /// The rules, in the order they are tried.
    pub closed spec fn view(&self) -> Seq<Seq<char>> {
        self.patterns@.map_values(|p: String| p@)
    }

    #[verifier::type_invariant]
    spec fn wf(&self) -> bool {
        forall|i: int| 0 <= i < self@.len() ==> regex_valid(#[trigger] self@[i])
    }

    /// The empty rule list.
    pub fn empty() -> (r: FilterSet)
        ensures
            r@ == Seq::<Seq<char>>::empty(),
    {
        let r = FilterSet { patterns: Vec::new() };
        proof {
            assert(r@ =~= Seq::<Seq<char>>::empty());
        }
        r
    }

    /// Build a rule list from raw patterns; the ones that do not compile
    /// are dropped.
    #[verifier::loop_isolation(false)]
    pub fn from_patterns(raw: &Vec<String>) -> (r: FilterSet)
        ensures
            r@ == spec_valid_patterns(raw@.map_values(|p: String| p@)),
    {
        let ghost all = raw@.map_values(|p: String| p@);
        let mut kept: Vec<String> = Vec::new();
        let mut i: usize = 0;
        proof {
            assert(all.take(0) =~= Seq::<Seq<char>>::empty());
        }
        while i < raw.len()
            invariant
                i <= raw.len(),
                kept@.map_values(|p: String| p@) == spec_valid_patterns(all.take(i as int)),
            decreases raw.len() - i,
        {
            let ghost prefix = all.take(i as int);
            if regex_is_valid(raw[i].as_str()) {
                kept.push(raw[i].clone());
            }
            proof {
                assert(all.take(i + 1 as int).drop_last() =~= prefix);
                assert(all.take(i + 1 as int).last() == raw@[i as int]@);
                if regex_valid(raw@[i as int]@) {
                    assert(kept@.map_values(|p: String| p@) =~= spec_valid_patterns(
                        prefix,
                    ).push(raw@[i as int]@));
                }
            }
            i = i + 1;
        }
        proof {
            assert(all.take(raw.len() as int) =~= all);
            lemma_valid_patterns_all_valid(all);
        }
        FilterSet { patterns: kept }
    }

    /// A copy with the same rules.
    #[verifier::loop_isolation(false)]
    pub fn duplicate(&self) -> (r: FilterSet)
        ensures
            r@ == self@,
    {
        proof {
            use_type_invariant(self);
        }
        let mut copied: Vec<String> = Vec::new();
        let mut i: usize = 0;
        while i < self.patterns.len()
            invariant
                i <= self.patterns.len(),
                copied@.map_values(|p: String| p@) == self@.take(i as int),
            decreases self.patterns.len() - i,
        {
            copied.push(self.patterns[i].clone());
            proof {
                assert(copied@.map_values(|p: String| p@) =~= self@.take(i + 1 as int));
            }
            i = i + 1;
        }
        proof {
            assert(self@.take(self.patterns.len() as int) =~= self@);
        }
        FilterSet { patterns: copied }
    }

    /// This list followed by the compiling rules of `extra`: the list in
    /// force after the client supplies `extra`.
    #[verifier::loop_isolation(false)]
    pub fn with_extra_patterns(&self, extra: &Vec<String>) -> (r: FilterSet)
        ensures
            r@ == self@ + spec_valid_patterns(extra@.map_values(|p: String| p@)),
    {
        let tail = FilterSet::from_patterns(extra);
        let base = self.duplicate();
        proof {
            use_type_invariant(&base);
            use_type_invariant(&tail);
        }
        let mut merged: Vec<String> = base.patterns;
        proof {
            assert(self@ + tail@.take(0) =~= self@);
        }
        let mut i: usize = 0;
        while i < tail.patterns.len()
            invariant
                i <= tail.patterns.len(),
                merged@.map_values(|p: String| p@) == self@ + tail@.take(i as int),
            decreases tail.patterns.len() - i,
        {
            let ghost m0 = merged@;
            merged.push(tail.patterns[i].clone());
            proof {
                assert(merged@.map_values(|p: String| p@) =~= m0.map_values(|p: String| p@).push(
                    merged@.last()@,
                ));
                assert(merged@.last()@ == tail@[i as int]);
                assert(merged@.map_values(|p: String| p@) =~= self@ + tail@.take(i + 1 as int));
            }
            i = i + 1;
        }
        proof {
            assert(tail@.take(tail.patterns.len() as int) =~= tail@);
        }
        FilterSet { patterns: merged }
    }

    /// How many rules are in force.
    pub fn rule_count(&self) -> (r: usize)
        ensures
            r == self@.len(),
    {
        self.patterns.len()
    }

    /// Some rule matches `text` as given (no separator normalization).
    #[verifier::loop_isolation(false)]
    pub fn matches(&self, text: &str) -> (r: bool)
        ensures
            r == spec_any_match(self@, text@),
    {
        proof {
            use_type_invariant(self);
        }
        let mut i: usize = 0;
        while i < self.patterns.len()
            invariant
                i <= self.patterns.len(),
                forall|j: int| 0 <= j < i ==> !regex_matches(#[trigger] self@[j], text@),
            decreases self.patterns.len() - i,
        {
            assert(self@[i as int] == self.patterns@[i as int]@);
            if regex_is_match(self.patterns[i].as_str(), text) {
                assert(regex_matches(self@[i as int], text@));
                return true;
            }
            i = i + 1;
        }
        false
    }
}

/// Whether the path `rel`, normalized to forward slashes, matches any rule.
pub fn should_filter_path(rel: &str, filters: &FilterSet) -> (r: bool)
    ensures
        r == spec_should_filter(filters@, rel@),
{
    let normalized = to_slashes(rel);
    filters.matches(normalized.as_str())
}

/// The filter law: the decision does not change when backslashes in the
/// path are replaced by forward slashes beforehand.
pub proof fn law_filter_slash_invariant(patterns: Seq<Seq<char>>, rel: Seq<char>)
    ensures
        spec_should_filter(patterns, spec_to_slashes(rel)) == spec_should_filter(patterns, rel),
{
    crate::strutil::lemma_to_slashes_idempotent(rel);
}

/// Every rule of the base list stays in force when client rules are added:
/// the merged list begins with the server's list.
pub proof fn law_effective_extends_server(server: Seq<Seq<char>>, extra: Seq<Seq<char>>, rel: Seq<
    char,
>)
    ensures
        spec_should_filter(server, rel) ==> spec_should_filter(server + spec_valid_patterns(extra), rel),
{
    if spec_should_filter(server, rel) {
        let i = choose|i: int|
            0 <= i < server.len() && regex_matches(#[trigger] server[i], spec_to_slashes(rel));
        assert((server + spec_valid_patterns(extra))[i] == server[i]);
    }
}

} // verus!
