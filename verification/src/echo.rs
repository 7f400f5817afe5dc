//! Echo suppression: paths the server has just written carry a generation
//! mark, and the filesystem pump drops events for marked paths. A mark's
//! delayed removal fires only if the generation is unchanged, so re-marking
//! a path extends its suppression window.

use vstd::prelude::*;

use crate::strmap::StrMap;
use crate::strutil::{spec_to_slashes, to_slashes};

verus! {

/// The generation after `g`, wrapping.
pub open spec fn spec_wrap_inc(g: u64) -> u64 {
    if g == u64::MAX {
        0
    } else {
        (g + 1) as u64
    }
}

/// The generation a fresh mark on `key` gets.
pub open spec fn spec_mark_gen(m: Map<Seq<char>, u64>, key: Seq<char>) -> u64 {
    spec_wrap_inc(
        if m.contains_key(key) {
            m[key]
        } else {
            0
        },
    )
}

/// The map after marking `key`.
pub open spec fn spec_mark(m: Map<Seq<char>, u64>, key: Seq<char>) -> Map<Seq<char>, u64> {
    m.insert(key, spec_mark_gen(m, key))
}

/// The map after a delayed removal of `key` fires with generation `gen`:
/// the entry goes only if its generation still equals `gen`.
pub open spec fn spec_expire(m: Map<Seq<char>, u64>, key: Seq<char>, gen: u64) -> Map<
    Seq<char>,
    u64,
> {
    if m.contains_key(key) && m[key] == gen {
        m.remove(key)
    } else {
        m
    }
}

/// Paths recently written by one side, each with the generation of its
/// latest mark.
#[derive(Debug)]
pub struct EchoMap {
    marks: StrMap<u64>,
}

impl EchoMap {
    pub closed spec fn view(&self) -> Map<Seq<char>, u64> {
        self.marks@
    }

    pub closed spec fn wf(&self) -> bool {
        self.marks.wf()
    }

    pub fn new() -> (r: EchoMap)
        ensures
            r.wf(),
            r@ == Map::<Seq<char>, u64>::empty(),
    {
        EchoMap { marks: StrMap::new() }
    }

    /// Whether `rel` (already in forward-slash form) is suppressed.
    pub fn contains(&self, rel: &str) -> (r: bool)
        requires
            self.wf(),
        ensures
            r == self@.contains_key(rel@),
    {
        self.marks.contains(rel)
    }

    /// Mark `rel` as just written: normalize its separators, bump its
    /// generation, and return the generation for the delayed removal.
    pub fn mark(&mut self, rel: &str) -> (gen: u64)
        requires
            old(self).wf(),
        ensures
            final(self).wf(),
            gen == spec_mark_gen(old(self)@, spec_to_slashes(rel@)),
            final(self)@ == spec_mark(old(self)@, spec_to_slashes(rel@)),
    {
        let key = to_slashes(rel);
        let prev: u64 = match self.marks.get(key.as_str()) {
            Some(g) => *g,
            None => 0,
        };
        let gen: u64 = if prev == u64::MAX {
            0
        } else {
            prev + 1
        };
        self.marks.insert(key, gen);
        gen
    }

    /// A delayed removal fires: drop the entry for `key` only if its
    /// generation still equals `gen`.
    pub fn expire(&mut self, key: &str, gen: u64)
        requires
            old(self).wf(),
        ensures
            final(self).wf(),
            final(self)@ == spec_expire(old(self)@, key@, gen),
    {
        let matches_gen = match self.marks.get(key) {
            Some(g) => *g == gen,
            None => false,
        };
        if matches_gen {
            self.marks.remove(key);
        }
    }

    /// Drop every mark.
    pub fn clear(&mut self)
        ensures
            final(self).wf(),
            final(self)@ == Map::<Seq<char>, u64>::empty(),
    {
        self.marks.clear();
    }
}

/// The suppression law: a fresh mark is visible at once; the mark's own
/// delayed removal clears it; and once the path is re-marked, the older
/// removal no longer fires, because the generation has moved on.
pub proof fn law_echo_suppression(m: Map<Seq<char>, u64>, key: Seq<char>)
    ensures
        spec_mark(m, key).contains_key(key),
        spec_expire(spec_mark(m, key), key, spec_mark_gen(m, key)) == spec_mark(m, key).remove(key),
        spec_expire(
            spec_mark(spec_mark(m, key), key),
            key,
            spec_mark_gen(m, key),
        ) == spec_mark(spec_mark(m, key), key),
{
    let g1 = spec_mark_gen(m, key);
    let m1 = spec_mark(m, key);
    let g2 = spec_mark_gen(m1, key);
    assert(m1[key] == g1);
    assert(g2 != g1);
}

} // verus!
