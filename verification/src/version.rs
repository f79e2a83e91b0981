use vstd::prelude::*;
use vstd::string::StrSliceExecFns;

use crate::scan::{
    check_build_segment, check_pre_segment, find, find_char, lemma_find, num_val, parse_number,
    valid_build_segment, valid_number, valid_pre_segment,
};

verus! {

/// A semantic version: `MAJOR.MINOR.PATCH`, optional pre-release identifiers,
/// optional build metadata. An empty `pre` or `build` means the suffix is absent.
#[derive(Debug, Clone, PartialEq, Eq)]
pub struct Version {
    pub major: u64,
    pub minor: u64,
    pub patch: u64,
    pub pre: String,
    pub build: String,
}

/// Rejection of a token that is not a well-formed semantic version. Kept
/// distinct from "no token found", which extraction reports as an ordinary
/// `None`.
#[derive(Debug, Clone, PartialEq, Eq)]
pub struct ParseError;

/// Where build metadata starts: the index of the first `+`, or the length.
pub open spec fn plus_idx(s: Seq<char>) -> int {
    find(s, 0, s.len() as int, '+')
}

/// Where the pre-release starts: the first `-` before any build metadata,
/// or `plus_idx(s)` when there is none. It is also where the numeric core ends.
pub open spec fn dash_idx(s: Seq<char>) -> int {
    find(s, 0, plus_idx(s), '-')
}

/// The dot between major and minor.
pub open spec fn dot1(s: Seq<char>) -> int {
    find(s, 0, dash_idx(s), '.')
}

/// The dot between minor and patch.
pub open spec fn dot2(s: Seq<char>) -> int {
    find(s, dot1(s) + 1, dash_idx(s), '.')
}

/// The major number a well-formed token denotes.
pub open spec fn spec_major(s: Seq<char>) -> nat {
    num_val(s, 0, dot1(s))
}

/// The minor number a well-formed token denotes.
pub open spec fn spec_minor(s: Seq<char>) -> nat {
    num_val(s, dot1(s) + 1, dot2(s))
}

/// The patch number a well-formed token denotes.
pub open spec fn spec_patch(s: Seq<char>) -> nat {
    num_val(s, dot2(s) + 1, dash_idx(s))
}

/// The pre-release identifiers of a token; empty when it has none.
pub open spec fn spec_pre(s: Seq<char>) -> Seq<char> {
    if dash_idx(s) < plus_idx(s) {
        s.subrange(dash_idx(s) + 1, plus_idx(s))
    } else {
        Seq::<char>::empty()
    }
}

/// The build metadata of a token; empty when it has none.
pub open spec fn spec_build(s: Seq<char>) -> Seq<char> {
    if plus_idx(s) < s.len() {
        s.subrange(plus_idx(s) + 1, s.len() as int)
    } else {
        Seq::<char>::empty()
    }
}

/// The token is a well-formed semantic version:
/// three numeric components, then an optional valid pre-release segment after
/// a `-`, then optional valid build metadata after a `+`.
pub open spec fn valid_semver(s: Seq<char>) -> bool {
    &&& dot1(s) < dash_idx(s)
    &&& dot2(s) < dash_idx(s)
    &&& find(s, dot2(s) + 1, dash_idx(s), '.') == dash_idx(s)
    &&& valid_number(s, 0, dot1(s))
    &&& valid_number(s, dot1(s) + 1, dot2(s))
    &&& valid_number(s, dot2(s) + 1, dash_idx(s))
    &&& (dash_idx(s) < plus_idx(s) ==> valid_pre_segment(s, dash_idx(s) + 1, plus_idx(s)))
    &&& (plus_idx(s) < s.len() ==> valid_build_segment(s, plus_idx(s) + 1, s.len() as int))
}

/// `v` is the structured form of the token `t`.
pub open spec fn version_matches(v: Version, t: Seq<char>) -> bool {
    &&& v.major == spec_major(t)
    &&& v.minor == spec_minor(t)
    &&& v.patch == spec_patch(t)
    &&& v.pre@ == spec_pre(t)
    &&& v.build@ == spec_build(t)
}

/// Semantic-version equality: the numeric core and the pre-release
/// identifiers agree; build metadata is ignored.
pub open spec fn sem_eq(a: Version, b: Version) -> bool {
    a.major == b.major && a.minor == b.minor && a.patch == b.patch && a.pre@ == b.pre@
}

impl Version {
    /// Parses `MAJOR.MINOR.PATCH[-pre][+build]`; rejects anything else.
    pub fn parse(s: &str) -> (r: Result<Version, ParseError>)
        ensures
            r matches Ok(v) ==> valid_semver(s@) && version_matches(v, s@),
            r is Err ==> !valid_semver(s@),
    {
        let n = s.unicode_len();
        proof {
            lemma_find(s@, 0, n as int, '+');
        }
        let plus = find_char(s, 0, n, '+');
        proof {
            lemma_find(s@, 0, plus as int, '-');
        }
        let dash = find_char(s, 0, plus, '-');
        proof {
            lemma_find(s@, 0, dash as int, '.');
        }
        let d1 = find_char(s, 0, dash, '.');
        if d1 >= dash {
            return Err(ParseError);
        }
        proof {
            lemma_find(s@, d1 as int + 1, dash as int, '.');
        }
        let d2 = find_char(s, d1 + 1, dash, '.');
        if d2 >= dash {
            return Err(ParseError);
        }
        proof {
            lemma_find(s@, d2 as int + 1, dash as int, '.');
        }
        let d3 = find_char(s, d2 + 1, dash, '.');
        if d3 < dash {
            return Err(ParseError);
        }
        let major = match parse_number(s, 0, d1) {
            Some(x) => x,
            None => return Err(ParseError),
        };
        let minor = match parse_number(s, d1 + 1, d2) {
            Some(x) => x,
            None => return Err(ParseError),
        };
        let patch = match parse_number(s, d2 + 1, dash) {
            Some(x) => x,
            None => return Err(ParseError),
        };
        if dash < plus && !check_pre_segment(s, dash + 1, plus) {
            return Err(ParseError);
        }
        if plus < n && !check_build_segment(s, plus + 1, n) {
            return Err(ParseError);
        }
        let pre = if dash < plus {
            s.substring_char(dash + 1, plus).to_owned()
        } else {
            String::new()
        };
        let build = if plus < n {
            s.substring_char(plus + 1, n).to_owned()
        } else {
            String::new()
        };
        Ok(Version { major, minor, patch, pre, build })
    }

    /// Compares two versions by semantic-version equality: build metadata is
    /// ignored, pre-release identifiers are not.
    pub fn eq_semantic(&self, other: &Version) -> (r: bool)
        ensures
            r == sem_eq(*self, *other),
    {
        self.major == other.major && self.minor == other.minor && self.patch == other.patch
            && self.pre == other.pre
    }
}

/// Build metadata never influences semantic-version equality: two versions
/// whose numeric core and pre-release agree are equal whatever they carry there.
pub proof fn lemma_eq_ignores_build(a: Version, b: Version)
    requires
        a.major == b.major,
        a.minor == b.minor,
        a.patch == b.patch,
        a.pre@ == b.pre@,
    ensures
        sem_eq(a, b),
{
}

/// Pre-release identifiers do influence semantic-version equality: versions
/// that differ there are unequal, whatever else agrees.
pub proof fn lemma_eq_respects_prerelease(a: Version, b: Version)
    requires
        a.pre@ != b.pre@,
    ensures
        !sem_eq(a, b),
{
}

} // verus!
