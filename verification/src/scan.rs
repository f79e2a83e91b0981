use vstd::prelude::*;
use vstd::string::StrSliceExecFns;

verus! {

/// First index in `[from, until)` at which `s` holds `c`; `until` when there is none.
pub open spec fn find(s: Seq<char>, from: int, until: int, c: char) -> int
    decreases until - from,
{
    if from < 0 || from >= until || until > s.len() {
        until
    } else if s[from] == c {
        from
    } else {
        find(s, from + 1, until, c)
    }
}

/// `find` lands in `[from, until]`, skips nothing matching, and stops on a match.
pub proof fn lemma_find(s: Seq<char>, from: int, until: int, c: char)
    requires
        0 <= from <= until <= s.len(),
    ensures
        from <= find(s, from, until, c) <= until,
        forall|j: int| from <= j < find(s, from, until, c) ==> s[j] != c,
        find(s, from, until, c) < until ==> s[find(s, from, until, c)] == c,
    decreases until - from,
{
    if from < until && s[from] != c {
        lemma_find(s, from + 1, until, c);
    }
}

/// Finds the first occurrence of `c` in `s[from..until]`, or `until` when absent.
pub fn find_char(s: &str, from: usize, until: usize, c: char) -> (r: usize)
    requires
        from <= until <= s@.len(),
    ensures
        r == find(s@, from as int, until as int, c),
{
    let mut j = from;
    while j < until
        invariant
            from <= j <= until <= s@.len(),
            find(s@, from as int, until as int, c) == find(s@, j as int, until as int, c),
        decreases until - j,
    {
        if s.get_char(j) == c {
            return j;
        }
        j = j + 1;
    }
    j
}

/// A decimal digit.
pub open spec fn is_digit(c: char) -> bool {
    48 <= c as u32 <= 57
}

/// The value of a decimal digit; zero on anything else.
pub open spec fn digit_val(c: char) -> nat {
    if is_digit(c) {
        (c as u32 - 48) as nat
    } else {
        0
    }
}

/// An identifier character of a pre-release or build segment:
/// ASCII alphanumeric or a hyphen.
pub open spec fn is_ident_char(c: char) -> bool {
    ||| is_digit(c)
    ||| 65 <= c as u32 <= 90
    ||| 97 <= c as u32 <= 122
    ||| c as u32 == 45
}

/// Decides `is_digit`.
pub fn digit(c: char) -> (r: bool)
    ensures
        r == is_digit(c),
{
    let u = c as u32;
    48 <= u && u <= 57
}

/// Decides `is_ident_char`.
pub fn ident_char(c: char) -> (r: bool)
    ensures
        r == is_ident_char(c),
{
    let u = c as u32;
    (48 <= u && u <= 57) || (65 <= u && u <= 90) || (97 <= u && u <= 122) || u == 45
}

/// Every character of `s[from..until]` is a decimal digit.
pub open spec fn all_digits(s: Seq<char>, from: int, until: int) -> bool {
    forall|j: int| from <= j < until ==> is_digit(#[trigger] s[j])
}

/// Value of the decimal digits `s[from..until]`, most significant first.
pub open spec fn num_val(s: Seq<char>, from: int, until: int) -> nat
    decreases until - from,
{
    if from < 0 || from >= until || until > s.len() {
        0
    } else {
        10 * num_val(s, from, until - 1) + digit_val(s[until - 1])
    }
}

/// Extending a digit run to the right never shrinks its value.
pub proof fn lemma_num_val_grows(s: Seq<char>, from: int, mid: int, until: int)
    requires
        0 <= from <= mid <= until <= s.len(),
    ensures
        num_val(s, from, until) >= num_val(s, from, mid),
    decreases until - mid,
{
    if mid < until {
        lemma_num_val_grows(s, from, mid, until - 1);
    }
}

/// A numeric version component: nonempty digits, no leading zero, value held by a u64.
pub open spec fn valid_number(s: Seq<char>, from: int, until: int) -> bool {
    &&& from < until
    &&& all_digits(s, from, until)
    &&& (until - from > 1 ==> s[from] != '0')
    &&& num_val(s, from, until) <= u64::MAX
}

/// Parses `s[from..until]` as a numeric component; `None` on anything malformed
/// or too large for a u64.
pub fn parse_number(s: &str, from: usize, until: usize) -> (r: Option<u64>)
    requires
        from <= until <= s@.len(),
    ensures
        r matches Some(n) ==> valid_number(s@, from as int, until as int)
            && n == num_val(s@, from as int, until as int),
        r is None ==> !valid_number(s@, from as int, until as int),
{
    if from == until {
        return None;
    }
    if until - from > 1 && s.get_char(from) == '0' {
        return None;
    }
    let mut acc: u64 = 0;
    let mut j = from;
    while j < until
        invariant
            from <= j <= until <= s@.len(),
            from < until,
            acc == num_val(s@, from as int, j as int),
            all_digits(s@, from as int, j as int),
            until - from > 1 ==> s@[from as int] != '0',
        decreases until - j,
    {
        let c = s.get_char(j);
        if !digit(c) {
            assert(!is_digit(s@[j as int]));
            return None;
        }
        let d: u64 = (c as u32 - 48) as u64;
        assert(num_val(s@, from as int, j as int + 1)
            == 10 * num_val(s@, from as int, j as int) + digit_val(s@[j as int]));
        let step = match acc.checked_mul(10) {
            Some(x) => x.checked_add(d),
            None => None,
        };
        match step {
            Some(x) => {
                acc = x;
            },
            None => {
                proof {
                    lemma_num_val_grows(s@, from as int, j as int + 1, until as int);
                }
                return None;
            },
        }
        j = j + 1;
    }
    Some(acc)
}

/// A pre-release identifier: nonempty, alphanumeric or hyphens; a purely
/// numeric one must not carry a leading zero.
pub open spec fn valid_pre_ident(s: Seq<char>, from: int, until: int) -> bool {
    &&& from < until
    &&& forall|j: int| from <= j < until ==> is_ident_char(#[trigger] s[j])
    &&& (all_digits(s, from, until) && until - from > 1 ==> s[from] != '0')
}

/// A build-metadata identifier: nonempty, alphanumeric or hyphens.
pub open spec fn valid_build_ident(s: Seq<char>, from: int, until: int) -> bool {
    &&& from < until
    &&& forall|j: int| from <= j < until ==> is_ident_char(#[trigger] s[j])
}

/// Dot-separated pre-release identifiers filling `s[from..until]`.
pub open spec fn valid_pre_segment(s: Seq<char>, from: int, until: int) -> bool
    decreases until - from via valid_pre_segment_decreases
{
    let dot = find(s, from, until, '.');
    if dot < until {
        valid_pre_ident(s, from, dot) && valid_pre_segment(s, dot + 1, until)
    } else {
        valid_pre_ident(s, from, until)
    }
}

#[via_fn]
proof fn valid_pre_segment_decreases(s: Seq<char>, from: int, until: int) {
    if 0 <= from && from <= until && until <= s.len() {
        lemma_find(s, from, until, '.');
    }
}

/// Dot-separated build identifiers filling `s[from..until]`.
pub open spec fn valid_build_segment(s: Seq<char>, from: int, until: int) -> bool
    decreases until - from via valid_build_segment_decreases
{
    let dot = find(s, from, until, '.');
    if dot < until {
        valid_build_ident(s, from, dot) && valid_build_segment(s, dot + 1, until)
    } else {
        valid_build_ident(s, from, until)
    }
}

#[via_fn]
proof fn valid_build_segment_decreases(s: Seq<char>, from: int, until: int) {
    if 0 <= from && from <= until && until <= s.len() {
        lemma_find(s, from, until, '.');
    }
}

/// Checks `s[from..until]` as one pre-release identifier.
fn check_pre_ident(s: &str, from: usize, until: usize) -> (r: bool)
    requires
        from <= until <= s@.len(),
    ensures
        r == valid_pre_ident(s@, from as int, until as int),
{
    if from == until {
        return false;
    }
    let mut digits_only = true;
    let mut j = from;
    while j < until
        invariant
            from <= j <= until <= s@.len(),
            forall|k: int| from <= k < j ==> is_ident_char(#[trigger] s@[k]),
            digits_only == all_digits(s@, from as int, j as int),
        decreases until - j,
    {
        let c = s.get_char(j);
        if !ident_char(c) {
            assert(!is_ident_char(s@[j as int]));
            return false;
        }
        if !digit(c) {
            digits_only = false;
            assert(!all_digits(s@, from as int, j as int + 1));
        }
        j = j + 1;
    }
    if digits_only && until - from > 1 && s.get_char(from) == '0' {
        false
    } else {
        true
    }
}

/// Checks `s[from..until]` as one build identifier.
fn check_build_ident(s: &str, from: usize, until: usize) -> (r: bool)
    requires
        from <= until <= s@.len(),
    ensures
        r == valid_build_ident(s@, from as int, until as int),
{
    if from == until {
        return false;
    }
    let mut j = from;
    while j < until
        invariant
            from <= j <= until <= s@.len(),
            forall|k: int| from <= k < j ==> is_ident_char(#[trigger] s@[k]),
        decreases until - j,
    {
        let c = s.get_char(j);
        if !ident_char(c) {
            assert(!is_ident_char(s@[j as int]));
            return false;
        }
        j = j + 1;
    }
    true
}

/// Checks `s[from..until]` as a dot-separated pre-release segment.
pub fn check_pre_segment(s: &str, from: usize, until: usize) -> (r: bool)
    requires
        from <= until <= s@.len(),
    ensures
        r == valid_pre_segment(s@, from as int, until as int),
    decreases until - from,
{
    proof {
        lemma_find(s@, from as int, until as int, '.');
    }
    let dot = find_char(s, from, until, '.');
    let head_ok = check_pre_ident(s, from, dot);
    if dot < until {
        head_ok && check_pre_segment(s, dot + 1, until)
    } else {
        head_ok
    }
}

/// Checks `s[from..until]` as a dot-separated build segment.
pub fn check_build_segment(s: &str, from: usize, until: usize) -> (r: bool)
    requires
        from <= until <= s@.len(),
    ensures
        r == valid_build_segment(s@, from as int, until as int),
    decreases until - from,
{
    proof {
        lemma_find(s@, from as int, until as int, '.');
    }
    let dot = find_char(s, from, until, '.');
    let head_ok = check_build_ident(s, from, dot);
    if dot < until {
        head_ok && check_build_segment(s, dot + 1, until)
    } else {
        head_ok
    }
}

} // verus!
