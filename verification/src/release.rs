//! Release versioning: dotted version comparison and the release asset
//! name for a platform. The network side of update checking stays outside;
//! these are the decisions it rests on.

use vstd::prelude::*;

use crate::strutil::{parse_u64, spec_parse_u64};

verus! {

/// The index of the first dot, or the length if there is none.
pub open spec fn spec_first_dot(s: Seq<char>) -> nat
    decreases s.len(),
{
    if s.len() == 0 {
        0
    } else if s[0] == '.' {
        0
    } else {
        1 + spec_first_dot(s.skip(1))
    }
}

proof fn lemma_first_dot_at(t: Seq<char>, j: int)
    requires
        0 <= j <= t.len(),
        forall|k: int| 0 <= k < j ==> t[k] != '.',
        j < t.len() ==> t[j] == '.',
    ensures
        spec_first_dot(t) == j,
    decreases j,
{
    if j == 0 {
    } else {
        assert(t[0] != '.');
        lemma_first_dot_at(t.skip(1), j - 1);
    }
}

/// The segments of `s` between its dots, dots excluded; an empty string
/// is one empty segment.
pub open spec fn spec_split_dots(s: Seq<char>) -> Seq<Seq<char>>
    decreases s.len(),
{
    let i = spec_first_dot(s);
    if i >= s.len() {
        seq![s]
    } else {
        seq![s.take(i as int)] + spec_split_dots(s.skip(i as int + 1))
    }
}

#[verifier::loop_isolation(false)]
fn split_dots_from(s: &str, pos: usize) -> (r: Vec<String>)
    requires
        pos <= s@.len(),
    ensures
        r@.map_values(|p: String| p@) == spec_split_dots(s@.skip(pos as int)),
    decreases s@.len() - pos,
{
    let n = s.unicode_len();
    let mut j = pos;
    while j < n && s.get_char(j) != '.'
        invariant
            pos <= j <= n,
            forall|k: int| pos <= k < j ==> s@[k] != '.',
        decreases n - j,
    {
        j = j + 1;
    }
    let ghost rest = s@.skip(pos as int);
    proof {
        assert(forall|k: int| 0 <= k < j - pos ==> rest[k] != '.');
        lemma_first_dot_at(rest, j - pos);
    }
    let piece = s.substring_char(pos, j).to_owned();
    proof {
        assert(piece@ =~= rest.take(j - pos));
    }
    if j < n {
        let mut out = split_dots_from(s, j + 1);
        out.insert(0, piece);
        proof {
            assert(rest.skip(j - pos + 1) =~= s@.skip(j + 1 as int));
            assert(out@.map_values(|p: String| p@) =~= spec_split_dots(rest));
        }
        out
    } else {
        let mut out: Vec<String> = Vec::new();
        proof {
            assert(rest.take(j - pos) =~= rest);
        }
        out.push(piece);
        proof {
            assert(out@.map_values(|p: String| p@) =~= spec_split_dots(rest));
        }
        out
    }
}

/// What `str::parse::<u32>` accepts.
pub open spec fn spec_parse_u32(s: Seq<char>) -> Option<u32> {
    match spec_parse_u64(s) {
        Some(v) => if v <= u32::MAX {
            Some(v as u32)
        } else {
            None
        },
        None => None,
    }
}

/// The numeric fields of a dotted version, segments that are not numbers
/// dropped.
pub open spec fn spec_version_nums(parts: Seq<Seq<char>>) -> Seq<u32>
    decreases parts.len(),
{
    if parts.len() == 0 {
        Seq::empty()
    } else {
        let rest = spec_version_nums(parts.drop_first());
        match spec_parse_u32(parts.first()) {
            Some(v) => seq![v] + rest,
            None => rest,
        }
    }
}

/// Field-wise comparison, missing fields read as zero: negative, zero or
/// positive as the first version is older, the same, or newer.
pub open spec fn spec_cmp_nums(a: Seq<u32>, b: Seq<u32>) -> int
    decreases a.len() + b.len(),
{
    if a.len() == 0 && b.len() == 0 {
        0
    } else {
        let ah: u32 = if a.len() > 0 {
            a[0]
        } else {
            0
        };
        let bh: u32 = if b.len() > 0 {
            b[0]
        } else {
            0
        };
        if ah > bh {
            1
        } else if ah < bh {
            -1
        } else {
            spec_cmp_nums(
                if a.len() > 0 {
                    a.skip(1)
                } else {
                    a
                },
                if b.len() > 0 {
                    b.skip(1)
                } else {
                    b
                },
            )
        }
    }
}

pub open spec fn spec_compare_versions(a: Seq<char>, b: Seq<char>) -> int {
    spec_cmp_nums(
        spec_version_nums(spec_split_dots(a)),
        spec_version_nums(spec_split_dots(b)),
    )
}

#[verifier::loop_isolation(false)]
fn version_nums(parts: &Vec<String>) -> (r: Vec<u32>)
    ensures
        r@ == spec_version_nums(parts@.map_values(|p: String| p@)),
{
    let ghost all = parts@.map_values(|p: String| p@);
    let mut nums: Vec<u32> = Vec::new();
    let mut i: usize = 0;
    proof {
        assert(all.skip(0) =~= all);
        assert(nums@ + spec_version_nums(all) =~= spec_version_nums(all));
    }
    while i < parts.len()
        invariant
            i <= parts.len(),
            spec_version_nums(all) == nums@ + spec_version_nums(all.skip(i as int)),
        decreases parts.len() - i,
    {
        let ghost before = nums@;
        match parse_u64(parts[i].as_str()) {
            Some(v) => {
                if v <= u32::MAX as u64 {
                    nums.push(v as u32);
                }
            },
            None => {},
        }
        proof {
            let tail = all.skip(i as int);
            assert(tail.first() == all[i as int]);
            assert(tail.drop_first() =~= all.skip(i + 1 as int));
            match spec_parse_u32(all[i as int]) {
                Some(v) => {
                    assert(nums@ =~= before.push(v));
                    assert(before + (seq![v] + spec_version_nums(all.skip(i + 1 as int)))
                        =~= nums@ + spec_version_nums(all.skip(i + 1 as int)));
                },
                None => {},
            }
        }
        i = i + 1;
    }
    proof {
        assert(all.skip(parts.len() as int).len() == 0);
        assert(nums@ + Seq::<u32>::empty() =~= nums@);
    }
    nums
}

#[verifier::loop_isolation(false)]
fn cmp_nums(a: &Vec<u32>, b: &Vec<u32>) -> (r: i32)
    ensures
        r as int == spec_cmp_nums(a@, b@),
{
    let an = a.len();
    let bn = b.len();
    let max = if an > bn {
        an
    } else {
        bn
    };
    let mut i: usize = 0;
    proof {
        assert(a@.skip(0) =~= a@);
        assert(b@.skip(0) =~= b@);
    }
    while i < max
        invariant
            i <= max,
            spec_cmp_nums(a@, b@) == spec_cmp_nums(
                a@.skip(if i < an {
                    i as int
                } else {
                    an as int
                }),
                b@.skip(if i < bn {
                    i as int
                } else {
                    bn as int
                }),
            ),
        decreases max - i,
    {
        let ah: u32 = if i < an {
            a[i]
        } else {
            0
        };
        let bh: u32 = if i < bn {
            b[i]
        } else {
            0
        };
        let ghost ai = if i < an {
            i as int
        } else {
            an as int
        };
        let ghost bi = if i < bn {
            i as int
        } else {
            bn as int
        };
        if ah > bh {
            assert(spec_cmp_nums(a@.skip(ai), b@.skip(bi)) == 1);
            return 1;
        }
        if ah < bh {
            assert(spec_cmp_nums(a@.skip(ai), b@.skip(bi)) == -1);
            return -1;
        }
        proof {
            assert(a@.skip(ai).len() > 0 ==> a@.skip(ai).skip(1) =~= a@.skip(ai + 1));
            assert(b@.skip(bi).len() > 0 ==> b@.skip(bi).skip(1) =~= b@.skip(bi + 1));
        }
        i = i + 1;
    }
    assert(spec_cmp_nums(a@.skip(an as int), b@.skip(bn as int)) == 0);
    0
}

/// Compare two dotted version strings field by field; fields that are not
/// numbers are skipped and missing fields read as zero.
pub fn compare_versions(a: &str, b: &str) -> (r: i32)
    ensures
        r as int == spec_compare_versions(a@, b@),
{
    proof {
        assert(a@.skip(0) =~= a@);
        assert(b@.skip(0) =~= b@);
    }
    let a_parts = split_dots_from(a, 0);
    let b_parts = split_dots_from(b, 0);
    let a_nums = version_nums(&a_parts);
    let b_nums = version_nums(&b_parts);
    cmp_nums(&a_nums, &b_nums)
}

/// The platform a build runs on, as far as release assets go.
#[derive(Debug, Clone, Copy, PartialEq, Eq, Structural)]
pub enum Os {
    Windows,
    MacOs,
    Linux,
    Other,
}

#[derive(Debug, Clone, Copy, PartialEq, Eq, Structural)]
pub enum Arch {
    X64,
    Arm64,
    Other,
}

/// The release archive for a platform, or `None` where no build is
/// published. Windows and Linux command-line builds carry a distinct
/// name; the GUI builds carry the plain one.
pub fn platform_zip_name(os: Os, arch: Arch, gui: bool) -> (r: Option<&'static str>)
    ensures
        (os == Os::Windows && arch == Arch::X64 && !gui) ==> (r matches Some(n) && n@
            == "f11esync-rust-windows-x64.zip"@),
        (os == Os::Windows && arch == Arch::X64 && gui) ==> (r matches Some(n) && n@
            == "f11esync-gui-windows-x64.zip"@),
        (os == Os::MacOs && arch == Arch::X64 && gui) ==> (r matches Some(n) && n@
            == "f11esync-gui-darwin-x64.zip"@),
        (os == Os::MacOs && arch == Arch::X64 && !gui) ==> (r matches Some(n) && n@
            == "f11esync-darwin-x64.zip"@),
        (os == Os::MacOs && arch == Arch::Arm64 && gui) ==> (r matches Some(n) && n@
            == "f11esync-gui-darwin-arm64.zip"@),
        (os == Os::MacOs && arch == Arch::Arm64 && !gui) ==> (r matches Some(n) && n@
            == "f11esync-darwin-arm64.zip"@),
        (os == Os::Linux && arch == Arch::X64 && !gui) ==> (r matches Some(n) && n@
            == "f11esync-rust-linux-x64.zip"@),
        (os == Os::Linux && arch == Arch::X64 && gui) ==> (r matches Some(n) && n@
            == "f11esync-linux-x64.zip"@),
        (os == Os::Linux && arch == Arch::Arm64 && !gui) ==> (r matches Some(n) && n@
            == "f11esync-rust-linux-arm64.zip"@),
        (os == Os::Linux && arch == Arch::Arm64 && gui) ==> (r matches Some(n) && n@
            == "f11esync-linux-arm64.zip"@),
        r is None <==> (os == Os::Other || arch == Arch::Other || (os == Os::Windows && arch
            == Arch::Arm64)),
{
    match (os, arch) {
        (Os::Windows, Arch::X64) => {
            if !gui {
                Some("f11esync-rust-windows-x64.zip")
            } else {
                Some("f11esync-gui-windows-x64.zip")
            }
        },
        (Os::MacOs, Arch::X64) => {
            if gui {
                Some("f11esync-gui-darwin-x64.zip")
            } else {
                Some("f11esync-darwin-x64.zip")
            }
        },
        (Os::MacOs, Arch::Arm64) => {
            if gui {
                Some("f11esync-gui-darwin-arm64.zip")
            } else {
                Some("f11esync-darwin-arm64.zip")
            }
        },
        (Os::Linux, Arch::X64) => {
            if !gui {
                Some("f11esync-rust-linux-x64.zip")
            } else {
                Some("f11esync-linux-x64.zip")
            }
        },
        (Os::Linux, Arch::Arm64) => {
            if !gui {
                Some("f11esync-rust-linux-arm64.zip")
            } else {
                Some("f11esync-linux-arm64.zip")
            }
        },
        _ => None,
    }
}

/// What a release download came to: nothing to do, or a fetched archive.
#[derive(Debug, Clone)]
pub enum DownloadUpdateResult {
    Skipped { local: String, remote: String },
    Downloaded { remote: String, path: String },
}

} // verus!
