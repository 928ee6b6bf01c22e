//! Dotted version strings and their order.

use vstd::prelude::*;
use crate::decimal::{parse_decimal, parse_decimal_in};
use crate::text::{chars_of, split, split_bounds};

verus! {

/// Major, minor and patch number of a release.
#[derive(Clone, Copy, Debug, PartialEq, Eq, Structural)]
pub struct VersionTuple {
    pub major: u32,
    pub minor: u32,
    pub patch: u32,
}

/// The number in place `k` of the dotted string `version`: the piece between
/// the dots read as a decimal numeral, and zero where the piece is missing
/// or is not a numeral that fits 32 bits.
pub open spec fn version_component(version: Seq<char>, k: int) -> nat {
    let parts = split(version, '.');
    if 0 <= k < parts.len() {
        match parse_decimal(parts[k], u32::MAX as nat) {
            Some(n) => n,
            None => 0,
        }
    } else {
        0
    }
}

/// The three leading numbers of the dotted string `version`.
pub open spec fn version_tuple(version: Seq<char>) -> VersionTuple {
    VersionTuple {
        major: version_component(version, 0) as u32,
        minor: version_component(version, 1) as u32,
        patch: version_component(version, 2) as u32,
    }
}

/// The order of two versions: major first, then minor, then patch.
/// 1 where `a` is the later one, -1 where `b` is, 0 where they are equal.
pub open spec fn compare_tuples(a: VersionTuple, b: VersionTuple) -> int {
    if a.major != b.major {
        if a.major > b.major {
            1
        } else {
            -1
        }
    } else if a.minor != b.minor {
        if a.minor > b.minor {
            1
        } else {
            -1
        }
    } else if a.patch != b.patch {
        if a.patch > b.patch {
            1
        } else {
            -1
        }
    } else {
        0
    }
}

/// The order of two dotted version strings.
pub open spec fn compare_versions_spec(a: Seq<char>, b: Seq<char>) -> int {
    compare_tuples(version_tuple(a), version_tuple(b))
}

/// The triple as one number, for which the usual order of numbers is the
/// order of versions.
pub open spec fn version_rank(v: VersionTuple) -> int {
    (v.major as int * 0x1_0000_0000 + v.minor as int) * 0x1_0000_0000 + v.patch as int
}

impl VersionTuple {
    /// Reads the three leading numbers of a dotted version string.
    pub fn parse(version: &str) -> (r: VersionTuple)
        ensures
            r == version_tuple(version@),
    {
        let v = chars_of(version);
        let bounds = split_bounds(&v, '.');
        let mut parts: [u32; 3] = [0, 0, 0];
        let mut k: usize = 0;
        while k < 3
            invariant
                k <= 3,
                v@ == version@,
                bounds@.len() == split(v@, '.').len(),
                forall|j: int|
                    0 <= j < bounds@.len() ==> (#[trigger] bounds@[j]).0 <= bounds@[j].1 <= v@.len(),
                forall|j: int|
                    0 <= j < bounds@.len() ==> v@.subrange(
                        bounds@[j].0 as int,
                        bounds@[j].1 as int,
                    ) == #[trigger] split(v@, '.')[j],
                forall|j: int| 0 <= j < k ==> parts@[j] == version_component(version@, j),
                forall|j: int| k <= j < 3 ==> parts@[j] == 0,
            decreases 3 - k,
        {
            if k < bounds.len() {
                let b = bounds[k];
                assert(v@.subrange(b.0 as int, b.1 as int) == split(v@, '.')[k as int]);
                match parse_decimal_in(&v, b.0, b.1, u32::MAX as u64) {
                    Some(n) => {
                        parts[k] = n as u32;
                    },
                    None => {},
                }
            }
            k += 1;
        }
        VersionTuple { major: parts[0], minor: parts[1], patch: parts[2] }
    }

    /// Orders two versions: 1 where `self` is the later one, -1 where
    /// `other` is, 0 where they are equal.
    pub fn compare(&self, other: &VersionTuple) -> (r: i32)
        ensures
            r == compare_tuples(*self, *other),
    {
        if self.major != other.major {
            if self.major > other.major {
                1
            } else {
                -1
            }
        } else if self.minor != other.minor {
            if self.minor > other.minor {
                1
            } else {
                -1
            }
        } else if self.patch != other.patch {
            if self.patch > other.patch {
                1
            } else {
                -1
            }
        } else {
            0
        }
    }
}

/// Swapping the two versions negates the result.
pub proof fn lemma_compare_antisymmetric(a: Seq<char>, b: Seq<char>)
    ensures
        compare_versions_spec(a, b) == -compare_versions_spec(b, a),
{
}

/// A version string compares equal to itself, and two strings compare equal
/// exactly when their three leading numbers agree.
pub proof fn lemma_compare_equal(a: Seq<char>, b: Seq<char>)
    ensures
        compare_versions_spec(a, a) == 0,
        compare_versions_spec(a, b) == 0 <==> version_tuple(a) == version_tuple(b),
{
}

/// The result is the sign of the difference of the two versions read as
/// numbers: the order is the numeric one, never that of the strings.
pub proof fn lemma_compare_numeric(a: Seq<char>, b: Seq<char>)
    ensures
        compare_versions_spec(a, b) == 1 <==> version_rank(version_tuple(a)) > version_rank(
            version_tuple(b),
        ),
        compare_versions_spec(a, b) == 0 <==> version_rank(version_tuple(a)) == version_rank(
            version_tuple(b),
        ),
        compare_versions_spec(a, b) == -1 <==> version_rank(version_tuple(a)) < version_rank(
            version_tuple(b),
        ),
{
}

/// Where `a` is later than `b` and `b` is later than `c`, `a` is later
/// than `c`.
pub proof fn lemma_compare_transitive(a: Seq<char>, b: Seq<char>, c: Seq<char>)
    requires
        compare_versions_spec(a, b) >= 0,
        compare_versions_spec(b, c) >= 0,
    ensures
        compare_versions_spec(a, c) >= 0,
        compare_versions_spec(a, b) == 1 || compare_versions_spec(b, c) == 1
            ==> compare_versions_spec(a, c) == 1,
{
}

} // verus!
