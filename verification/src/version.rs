use vstd::prelude::*;

use crate::text::chars_of;

verus! {

/// An ASCII decimal digit.
pub open spec fn is_digit(c: char) -> bool {
    '0' <= c && c <= '9'
}

/// The value of the decimal digit `c`.
pub open spec fn digit_value(c: char) -> nat {
    (c as int - '0' as int) as nat
}

/// Every character of `s` is a decimal digit.
pub open spec fn all_digits(s: Seq<char>) -> bool {
    forall|i: int| 0 <= i < s.len() ==> is_digit(#[trigger] s[i])
}

/// The number that the decimal digits `s` spell, most significant first.
pub open spec fn digits_value(s: Seq<char>) -> nat
    decreases s.len(),
{
    if s.len() == 0 {
        0
    } else {
        digits_value(s.drop_last()) * 10 + digit_value(s.last())
    }
}

/// `s` read as an unsigned 64-bit number, the way `u64::from_str` reads it:
/// an optional leading `+`, then one or more decimal digits whose value fits
/// in 64 bits; anything else is no number.
pub open spec fn spec_parse_u64(s: Seq<char>) -> Option<u64> {
    let d = if s.len() > 0 && s[0] == '+' { s.drop_first() } else { s };
    if d.len() > 0 && all_digits(d) && digits_value(d) <= u64::MAX {
        Some(digits_value(d) as u64)
    } else {
        None
    }
}

/// The position of the first `.` in `s`.
pub open spec fn first_dot(s: Seq<char>) -> Option<int>
    decreases s.len(),
{
    if s.len() == 0 {
        None
    } else if s[0] == '.' {
        Some(0)
    } else {
        match first_dot(s.drop_first()) {
            Some(i) => Some(i + 1),
            None => None,
        }
    }
}

/// `s` without one leading `v`, if it has one.
pub open spec fn strip_v(s: Seq<char>) -> Seq<char> {
    if s.len() > 0 && s[0] == 'v' {
        s.drop_first()
    } else {
        s
    }
}

/// A release tag read as `major.minor.patch`: an optional leading `v`, then
/// exactly three dot-separated parts, each a number as `spec_parse_u64`
/// reads it.
pub open spec fn spec_parse_version(s: Seq<char>) -> Option<(u64, u64, u64)> {
    let t = strip_v(s);
    match first_dot(t) {
        None => None,
        Some(i) => {
            let rest = t.subrange(i + 1, t.len() as int);
            match first_dot(rest) {
                None => None,
                Some(j) => {
                    match (
                        spec_parse_u64(t.subrange(0, i)),
                        spec_parse_u64(rest.subrange(0, j)),
                        spec_parse_u64(rest.subrange(j + 1, rest.len() as int)),
                    ) {
                        (Some(a), Some(b), Some(c)) => Some((a, b, c)),
                        _ => None,
                    }
                },
            }
        },
    }
}

/// `a` comes after `b` in the order of (major, minor, patch).
pub open spec fn version_gt(a: (u64, u64, u64), b: (u64, u64, u64)) -> bool {
    ||| a.0 > b.0
    ||| a.0 == b.0 && a.1 > b.1
    ||| a.0 == b.0 && a.1 == b.1 && a.2 > b.2
}

/// Both tags are versions and the first is the later one.
pub open spec fn version_is_newer(release: Seq<char>, current: Seq<char>) -> bool {
    match (spec_parse_version(release), spec_parse_version(current)) {
        (Some(r), Some(c)) => version_gt(r, c),
        _ => false,
    }
}

proof fn lemma_digits_value_prefix(s: Seq<char>, k: int)
    requires
        0 <= k <= s.len(),
    ensures
        digits_value(s.subrange(0, k)) <= digits_value(s),
    decreases s.len(),
{
    if k < s.len() {
        lemma_digits_value_prefix(s.drop_last(), k);
        assert(s.drop_last().subrange(0, k) == s.subrange(0, k));
    } else {
        assert(s.subrange(0, k) == s);
    }
}

proof fn lemma_first_dot_bounds(s: Seq<char>)
    ensures
        first_dot(s) matches Some(i) ==> {
            &&& 0 <= i < s.len()
            &&& s[i] == '.'
            &&& forall|k: int| 0 <= k < i ==> s[k] != '.'
        },
        first_dot(s) is None ==> forall|k: int| 0 <= k < s.len() ==> s[k] != '.',
    decreases s.len(),
{
    if s.len() > 0 {
        lemma_first_dot_bounds(s.drop_first());
        assert forall|k: int| 1 <= k < s.len() implies s[k] == s.drop_first()[k - 1] by {}
    }
}

proof fn lemma_first_dot_unique(s: Seq<char>, i: int)
    requires
        0 <= i <= s.len(),
        i < s.len() ==> s[i] == '.',
        forall|k: int| 0 <= k < i ==> s[k] != '.',
    ensures
        i < s.len() ==> first_dot(s) == Some(i),
        i == s.len() ==> first_dot(s) is None,
{
    lemma_first_dot_bounds(s);
}

/// Reads the characters `v[start..end]` as `u64::from_str` reads them.
fn parse_u64_chars(v: &Vec<char>, start: usize, end: usize) -> (res: Option<u64>)
    requires
        start <= end <= v@.len(),
    ensures
        res == spec_parse_u64(v@.subrange(start as int, end as int)),
{
    let ghost s = v@.subrange(start as int, end as int);
    let mut ds = start;
    if start < end && v[start] == '+' {
        ds = start + 1;
    }
    let ghost d = v@.subrange(ds as int, end as int);
    assert(d == (if s.len() > 0 && s[0] == '+' { s.drop_first() } else { s }));
    if ds == end {
        return None;
    }
    let mut val: u64 = 0;
    let mut i: usize = ds;
    while i < end
        invariant
            start <= ds < end <= v@.len(),
            ds <= i <= end,
            s == v@.subrange(start as int, end as int),
            d == v@.subrange(ds as int, end as int),
            d == (if s.len() > 0 && s[0] == '+' { s.drop_first() } else { s }),
            all_digits(d.subrange(0, i - ds)),
            val == digits_value(d.subrange(0, i - ds)),
        decreases end - i,
    {
        let c = v[i];
        if !('0' <= c && c <= '9') {
            assert(d[i - ds] == c);
            return None;
        }
        let dv = (c as u32 - '0' as u32) as u64;
        let ghost pre = d.subrange(0, i - ds);
        let ghost next = d.subrange(0, i + 1 - ds);
        assert(next.drop_last() == pre);
        assert(next.last() == c);
        assert(forall|k: int| 0 <= k < next.len() ==> #[trigger] next[k] == if k < pre.len() { pre[k] } else { c });
        match val.checked_mul(10) {
            None => {
                proof {
                    if all_digits(d) {
                        lemma_digits_value_prefix(d, i + 1 - ds);
                    }
                }
                return None;
            },
            Some(m) => match m.checked_add(dv) {
                None => {
                    proof {
                        if all_digits(d) {
                            lemma_digits_value_prefix(d, i + 1 - ds);
                        }
                    }
                    return None;
                },
                Some(a) => {
                    val = a;
                },
            },
        }
        i = i + 1;
    }
    assert(d.subrange(0, end - ds) == d);
    Some(val)
}

/// The position of the first `.` in `v[start..]`, counted from `start`.
fn find_dot(v: &Vec<char>, start: usize) -> (res: Option<usize>)
    requires
        start <= v@.len(),
    ensures
        match first_dot(v@.subrange(start as int, v@.len() as int)) {
            Some(i) => res matches Some(k) && k == start + i,
            None => res is None,
        },
        res matches Some(k) ==> start <= k < v@.len() && v@[k as int] == '.',
{
    let ghost s = v@.subrange(start as int, v@.len() as int);
    let mut i = start;
    while i < v.len()
        invariant
            start <= i <= v@.len(),
            s == v@.subrange(start as int, v@.len() as int),
            forall|k: int| 0 <= k < i - start ==> s[k] != '.',
        decreases v@.len() - i,
    {
        if v[i] == '.' {
            proof {
                lemma_first_dot_unique(s, i - start);
            }
            return Some(i);
        }
        i = i + 1;
    }
    proof {
        lemma_first_dot_unique(s, s.len() as int);
    }
    None
}

/// Reads a release tag as `(major, minor, patch)`: an optional leading `v`,
/// then three dot-separated decimal numbers and nothing more.
pub fn parse_version(tag: &str) -> (res: Option<(u64, u64, u64)>)
    ensures
        res == spec_parse_version(tag@),
{
    let v = chars_of(tag);
    let n = v.len();
    let mut b: usize = 0;
    if n > 0 && v[0] == 'v' {
        b = 1;
    }
    let ghost t = v@.subrange(b as int, n as int);
    assert(t == strip_v(tag@));
    let i = match find_dot(&v, b) {
        None => return None,
        Some(i) => i,
    };
    assert(first_dot(t) == Some((i - b) as int));
    let ghost rest = t.subrange(i - b + 1, t.len() as int);
    assert(rest == v@.subrange(i + 1, n as int));
    let j = match find_dot(&v, i + 1) {
        None => {
            assert(first_dot(rest) is None);
            return None;
        },
        Some(j) => j,
    };
    assert(first_dot(rest) == Some((j - (i + 1)) as int));
    assert(t.subrange(0, i - b) == v@.subrange(b as int, i as int));
    assert(rest.subrange(0, j - (i + 1)) == v@.subrange(i + 1, j as int));
    assert(rest.subrange(j - (i + 1) + 1, rest.len() as int) == v@.subrange(j + 1, n as int));
    let major = parse_u64_chars(&v, b, i);
    let minor = parse_u64_chars(&v, i + 1, j);
    let patch = parse_u64_chars(&v, j + 1, n);
    match (major, minor, patch) {
        (Some(a), Some(m), Some(p)) => Some((a, m, p)),
        _ => None,
    }
}

/// Whether the release tag names a later version than the running one.
/// Both must read as `major.minor.patch` (each optionally led by `v`);
/// a tag that does not is never newer, and never older.
pub fn release_version_is_newer(release: &str, current: &str) -> (res: bool)
    ensures
        res == version_is_newer(release@, current@),
{
    match (parse_version(release), parse_version(current)) {
        (Some(r), Some(c)) => {
            r.0 > c.0 || (r.0 == c.0 && (r.1 > c.1 || (r.1 == c.1 && r.2 > c.2)))
        },
        _ => false,
    }
}

/// No tag is newer than itself.
pub proof fn version_newer_is_irreflexive(tag: Seq<char>)
    ensures
        !version_is_newer(tag, tag),
{
}

/// When one tag is newer than another, the other is not newer than the first.
pub proof fn version_newer_is_asymmetric(a: Seq<char>, b: Seq<char>)
    ensures
        version_is_newer(a, b) ==> !version_is_newer(b, a),
{
}

/// Newer than a tag that is newer than a third is newer than the third.
pub proof fn version_newer_is_transitive(a: Seq<char>, b: Seq<char>, c: Seq<char>)
    ensures
        version_is_newer(a, b) && version_is_newer(b, c) ==> version_is_newer(a, c),
{
}

/// Two tags that read as different versions are ordered one way or the other.
pub proof fn version_newer_is_total_on_versions(a: Seq<char>, b: Seq<char>)
    requires
        spec_parse_version(a) is Some,
        spec_parse_version(b) is Some,
        spec_parse_version(a) != spec_parse_version(b),
    ensures
        version_is_newer(a, b) || version_is_newer(b, a),
{
}

/// A tag that does not read as `major.minor.patch` is neither newer nor older
/// than any other tag.
pub proof fn unreadable_tag_is_never_compared(bad: Seq<char>, other: Seq<char>)
    requires
        spec_parse_version(bad) is None,
    ensures
        !version_is_newer(bad, other),
        !version_is_newer(other, bad),
{
}

/// A leading `v` does not change the version that a tag reads as.
pub proof fn leading_v_is_ignored(tag: Seq<char>)
    requires
        !(tag.len() > 0 && tag[0] == 'v'),
    ensures
        spec_parse_version(seq!['v'] + tag) == spec_parse_version(tag),
{
    assert((seq!['v'] + tag).drop_first() == tag);
}

} // verus!
