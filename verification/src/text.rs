//! Character and string primitives shared by the filesystem and registry
//! logic: substring search, case-insensitive comparison, lexicographic
//! ordering and decimal formatting.

use vstd::prelude::*;

verus! {

/// What `str::to_lowercase` returns for a given character sequence.
/// Left uninterpreted: full case folding depends on the Unicode tables.
pub uninterp spec fn lower_of(s: Seq<char>) -> Seq<char>;

/// Whether a character counts as whitespace when a query is split into
/// terms. Left uninterpreted: the set is the Unicode `White_Space` class.
pub uninterp spec fn is_space_char(c: char) -> bool;

/// Relies on `str::to_lowercase`: the result depends on the characters of
/// the input alone.
#[verifier::external_body]
pub fn to_lower(s: &str) -> (r: String)
    ensures
        r@ == lower_of(s@),
{
    s.to_lowercase()
}

/// Relies on `char::is_whitespace`: true exactly for characters with the
/// Unicode `White_Space` property, a function of the character alone.
#[verifier::external_body]
pub fn is_space(c: char) -> (r: bool)
    ensures
        r == is_space_char(c),
{
    c.is_whitespace()
}

/// Relies on `String::push`: appends the given character at the end.
#[verifier::external_body]
pub fn push_char(s: &mut String, c: char)
    ensures
        final(s)@ == old(s)@.push(c),
{
    s.push(c)
}

/// True when `needle` occurs in `haystack` as a contiguous run.
pub open spec fn spec_contains(haystack: Seq<char>, needle: Seq<char>) -> bool {
    exists|i: int|
        0 <= i <= haystack.len() - needle.len() && #[trigger] haystack.subrange(
            i,
            i + needle.len(),
        ) == needle
}

/// Whether `needle` matches `haystack` starting at position `i`.
fn match_at(haystack: &str, needle: &str, i: usize) -> (r: bool)
    requires
        i + needle@.len() <= haystack@.len(),
    ensures
        r == (haystack@.subrange(i as int, i as int + needle@.len()) == needle@),
{
    let h_len = haystack.unicode_len();
    let n_len = needle.unicode_len();
    let ghost piece = haystack@.subrange(i as int, i as int + needle@.len());
    let mut j: usize = 0;
    while j < n_len
        invariant
            h_len == haystack@.len(),
            i + n_len <= h_len,
            n_len == needle@.len(),
            j <= n_len,
            piece == haystack@.subrange(i as int, i as int + needle@.len()),
            forall|m: int| 0 <= m < j ==> piece[m] == needle@[m],
        decreases n_len - j,
    {
        let hc = haystack.get_char(i + j);
        let nc = needle.get_char(j);
        if hc != nc {
            proof {
                assert(piece[j as int] != needle@[j as int]);
            }
            return false;
        }
        j += 1;
    }
    proof {
        assert(piece =~= needle@);
    }
    true
}

/// Substring test: true exactly when the characters of `needle` occur
/// contiguously in `haystack`.
pub fn contains_substring(haystack: &str, needle: &str) -> (r: bool)
    ensures
        r == spec_contains(haystack@, needle@),
{
    let h_len = haystack.unicode_len();
    let n_len = needle.unicode_len();
    if n_len > h_len {
        return false;
    }
    let bound = h_len - n_len;
    let mut i: usize = 0;
    loop
        invariant
            n_len <= h_len,
            h_len == haystack@.len(),
            n_len == needle@.len(),
            bound == h_len - n_len,
            i <= bound,
            forall|i2: int|
                0 <= i2 < i ==> #[trigger] haystack@.subrange(i2, i2 + needle@.len()) != needle@,
        decreases bound - i,
    {
        if match_at(haystack, needle, i) {
            return true;
        }
        if i == bound {
            return false;
        }
        i += 1;
    }
}

/// Character-sequence equality of two string slices.
pub fn str_eq(a: &str, b: &str) -> (r: bool)
    ensures
        r == (a@ == b@),
{
    let a_len = a.unicode_len();
    let b_len = b.unicode_len();
    if a_len != b_len {
        return false;
    }
    let r = match_at(a, b, 0);
    proof {
        assert(a@.subrange(0, a@.len() as int) =~= a@);
    }
    r
}

/// Index of the first whitespace character of `s`, or `s.len()` when `s`
/// holds none.
pub open spec fn first_space(s: Seq<char>) -> int
    decreases s.len(),
{
    if s.len() == 0 {
        0
    } else if is_space_char(s[0]) {
        0
    } else {
        1 + first_space(s.subrange(1, s.len() as int))
    }
}

pub proof fn lemma_first_space_bounds(s: Seq<char>)
    ensures
        0 <= first_space(s) <= s.len(),
    decreases s.len(),
{
    if s.len() != 0 && !is_space_char(s[0]) {
        lemma_first_space_bounds(s.subrange(1, s.len() as int));
    }
}

/// `first_space` is pinned by its two defining facts: no whitespace before
/// position `k`, and whitespace (or the end) at `k`.
pub proof fn lemma_first_space_at(s: Seq<char>, k: int)
    requires
        0 <= k <= s.len(),
        forall|m: int| 0 <= m < k ==> !is_space_char(#[trigger] s[m]),
        k < s.len() ==> is_space_char(s[k]),
    ensures
        first_space(s) == k,
    decreases s.len(),
{
    if k == 0 {
    } else {
        assert(!is_space_char(s[0]));
        let rest = s.subrange(1, s.len() as int);
        assert forall|m: int| 0 <= m < k - 1 implies !is_space_char(#[trigger] rest[m]) by {
            assert(rest[m] == s[m + 1]);
        }
        lemma_first_space_at(rest, k - 1);
    }
}

/// The words of `s`: maximal runs of non-whitespace characters, in order.
pub open spec fn split_ws(s: Seq<char>) -> Seq<Seq<char>>
    decreases s.len(),
    via split_ws_decreases
{
    if s.len() == 0 {
        Seq::empty()
    } else if is_space_char(s[0]) {
        split_ws(s.subrange(1, s.len() as int))
    } else {
        seq![s.subrange(0, first_space(s))] + split_ws(s.subrange(first_space(s), s.len() as int))
    }
}

#[via_fn]
proof fn split_ws_decreases(s: Seq<char>) {
    if s.len() != 0 && !is_space_char(s[0]) {
        lemma_first_space_bounds(s);
        lemma_first_space_bounds(s.subrange(1, s.len() as int));
    }
}

/// A sequence of whitespace alone splits into no words at all.
pub proof fn lemma_all_space_split_empty(s: Seq<char>)
    requires
        forall|i: int| 0 <= i < s.len() ==> is_space_char(#[trigger] s[i]),
    ensures
        split_ws(s).len() == 0,
    decreases s.len(),
{
    if s.len() != 0 {
        let rest = s.subrange(1, s.len() as int);
        assert forall|i: int| 0 <= i < rest.len() implies is_space_char(#[trigger] rest[i]) by {
            assert(rest[i] == s[i + 1]);
        }
        lemma_all_space_split_empty(rest);
    }
}

/// Splits `q` into its whitespace-separated words.
pub fn split_terms(q: &str) -> (r: Vec<String>)
    ensures
        r@.map_values(|t: String| t@) == split_ws(q@),
{
    let len = q.unicode_len();
    let mut r: Vec<String> = Vec::new();
    let mut i: usize = 0;
    proof {
        assert(q@.subrange(0, len as int) =~= q@);
    }
    while i < len
        invariant
            len == q@.len(),
            i <= len,
            r@.map_values(|t: String| t@) + split_ws(q@.subrange(i as int, len as int)) == split_ws(
                q@,
            ),
        decreases len - i,
    {
        if is_space(q.get_char(i)) {
            proof {
                let cur = q@.subrange(i as int, len as int);
                assert(cur.subrange(1, cur.len() as int) =~= q@.subrange(i + 1, len as int));
            }
            i += 1;
        } else {
            let start = i;
            let mut j: usize = i + 1;
            while j < len
                invariant
                    len == q@.len(),
                    start < j <= len,
                    forall|m: int| start <= m < j ==> !is_space_char(#[trigger] q@[m]),
                    !is_space_char(q@[start as int]),
                ensures
                    start < j <= len,
                    forall|m: int| start <= m < j ==> !is_space_char(#[trigger] q@[m]),
                    j < len ==> is_space_char(q@[j as int]),
                decreases len - j,
            {
                if is_space(q.get_char(j)) {
                    break ;
                }
                j += 1;
            }
            let word = q.substring_char(start, j).to_owned();
            proof {
                let cur = q@.subrange(start as int, len as int);
                assert forall|m: int| 0 <= m < j - start implies !is_space_char(
                    #[trigger] cur[m],
                ) by {
                    assert(cur[m] == q@[start + m]);
                }
                if j < len {
                    assert(cur[j - start] == q@[j as int]);
                }
                lemma_first_space_at(cur, j - start);
                assert(cur.subrange(0, j - start) =~= q@.subrange(start as int, j as int));
                assert(cur.subrange(j - start, cur.len() as int) =~= q@.subrange(
                    j as int,
                    len as int,
                ));
                assert(split_ws(cur) == seq![word@] + split_ws(q@.subrange(j as int, len as int)));
            }
            let ghost old_views = r@.map_values(|t: String| t@);
            r.push(word);
            proof {
                assert(r@.map_values(|t: String| t@) =~= old_views.push(word@));
                assert(old_views.push(word@) + split_ws(q@.subrange(j as int, len as int))
                    =~= old_views + (seq![word@] + split_ws(q@.subrange(j as int, len as int))));
            }
            i = j;
        }
    }
    proof {
        assert(split_ws(q@.subrange(len as int, len as int)) =~= Seq::<Seq<char>>::empty());
        assert(r@.map_values(|t: String| t@) =~= r@.map_values(|t: String| t@) + Seq::<
            Seq<char>,
        >::empty());
    }
    r
}

/// The digit character for a value below ten.
pub open spec fn spec_digit(d: int) -> char {
    if d == 0 {
        '0'
    } else if d == 1 {
        '1'
    } else if d == 2 {
        '2'
    } else if d == 3 {
        '3'
    } else if d == 4 {
        '4'
    } else if d == 5 {
        '5'
    } else if d == 6 {
        '6'
    } else if d == 7 {
        '7'
    } else if d == 8 {
        '8'
    } else {
        '9'
    }
}

/// The decimal digits of a non-negative number, most significant first,
/// without leading zeros (a lone zero for zero itself).
pub open spec fn spec_decimal(n: int) -> Seq<char>
    decreases n,
{
    if n < 10 {
        seq![spec_digit(n)]
    } else {
        spec_decimal(n / 10).push(spec_digit(n % 10))
    }
}

/// The digit character for `d`.
pub(crate) fn digit_char(d: u64) -> (c: char)
    requires
        d < 10,
    ensures
        c == spec_digit(d as int),
{
    match d {
        0 => '0',
        1 => '1',
        2 => '2',
        3 => '3',
        4 => '4',
        5 => '5',
        6 => '6',
        7 => '7',
        8 => '8',
        _ => '9',
    }
}

/// Appends the decimal digits of `n` to `out`.
fn push_decimal(out: &mut String, n: u64)
    ensures
        final(out)@ == old(out)@ + spec_decimal(n as int),
    decreases n,
{
    let ghost start = out@;
    if n < 10 {
        push_char(out, digit_char(n));
        proof {
            assert(out@ =~= start + spec_decimal(n as int));
        }
    } else {
        push_decimal(out, n / 10);
        push_char(out, digit_char(n % 10));
        proof {
            assert(out@ =~= start + spec_decimal(n as int));
        }
    }
}

/// Renders a non-negative number in decimal.
pub fn u64_to_string(n: u64) -> (r: String)
    ensures
        r@ == spec_decimal(n as int),
{
    let mut out = String::new();
    push_decimal(&mut out, n);
    proof {
        assert(Seq::<char>::empty() + spec_decimal(n as int) =~= spec_decimal(n as int));
    }
    out
}

/// Lexicographic comparison of `a` and `b` by code point, starting at
/// position `i`: true when `a` is not after `b`.
pub open spec fn lex_le_from(a: Seq<char>, b: Seq<char>, i: int) -> bool
    decreases a.len() - i,
{
    if i >= a.len() {
        true
    } else if i >= b.len() {
        false
    } else if (a[i] as u32) < (b[i] as u32) {
        true
    } else if (a[i] as u32) > (b[i] as u32) {
        false
    } else {
        lex_le_from(a, b, i + 1)
    }
}

/// Lexicographic order on character sequences, by code point; a proper
/// prefix sorts first.
pub open spec fn lex_le(a: Seq<char>, b: Seq<char>) -> bool {
    lex_le_from(a, b, 0)
}

/// Lexicographic string comparison: true when `a` sorts at or before `b`.
pub fn str_le(a: &str, b: &str) -> (r: bool)
    ensures
        r == lex_le(a@, b@),
{
    let a_len = a.unicode_len();
    let b_len = b.unicode_len();
    let mut i: usize = 0;
    loop
        invariant
            a_len == a@.len(),
            b_len == b@.len(),
            i <= a_len,
            i <= b_len,
            lex_le(a@, b@) == lex_le_from(a@, b@, i as int),
        decreases a_len - i,
    {
        if i == a_len {
            return true;
        }
        if i == b_len {
            return false;
        }
        let ca = a.get_char(i) as u32;
        let cb = b.get_char(i) as u32;
        if ca < cb {
            return true;
        }
        if ca > cb {
            return false;
        }
        i += 1;
    }
}

/// Two characters are equal up to ASCII case: either identical, or the
/// same Latin letter in opposite cases.
pub open spec fn char_eq_ic(a: char, b: char) -> bool {
    a == b || (('A' as u32) <= (a as u32) <= ('Z' as u32) && (b as u32) == (a as u32) + 32) || ((
    'A' as u32) <= (b as u32) <= ('Z' as u32) && (a as u32) == (b as u32) + 32)
}

/// ASCII case-insensitive equality of two character sequences: same
/// length, and characters pairwise equal up to ASCII case.
pub open spec fn spec_eq_ignore_case(a: Seq<char>, b: Seq<char>) -> bool {
    a.len() == b.len() && (forall|i: int| 0 <= i < a.len() ==> char_eq_ic(a[i], b[i]))
}

/// One character pair of the ASCII case-insensitive comparison.
fn char_matches_ic(a: char, b: char) -> (r: bool)
    ensures
        r == char_eq_ic(a, b),
{
    if a == b {
        return true;
    }
    let au = a as u32;
    let bu = b as u32;
    if 65 <= au && au <= 90 && bu == au + 32 {
        return true;
    }
    if 65 <= bu && bu <= 90 && au == bu + 32 {
        return true;
    }
    false
}

/// ASCII case-insensitive string equality, as `str::eq_ignore_ascii_case`
/// defines it: both strings lowered ASCII-wise compare equal.
pub fn eq_ignore_case(a: &str, b: &str) -> (r: bool)
    ensures
        r == spec_eq_ignore_case(a@, b@),
{
    let a_len = a.unicode_len();
    let b_len = b.unicode_len();
    if a_len != b_len {
        return false;
    }
    let mut i: usize = 0;
    while i < a_len
        invariant
            a_len == a@.len(),
            a_len == b@.len(),
            i <= a_len,
            forall|m: int| 0 <= m < i ==> char_eq_ic(a@[m], b@[m]),
        decreases a_len - i,
    {
        if !char_matches_ic(a.get_char(i), b.get_char(i)) {
            return false;
        }
        i += 1;
    }
    true
}

} // verus!
