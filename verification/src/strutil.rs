//! Verified string building blocks: substring search, trimming, line
//! splitting and joining, all specified over `Seq<char>` views.

use vstd::prelude::*;
use vstd::string::StrSliceExecFns;
use vstd::string::StringSliceAdditionalSpecFns;
use vstd::string::StringExecFns;

verus! {

/// `p` occurs in `s` at position `i`.
pub open spec fn occurs_at(s: Seq<char>, p: Seq<char>, i: int) -> bool {
    0 <= i && i + p.len() <= s.len() && s.subrange(i, i + p.len()) == p
}

/// `p` occurs somewhere in `s`.
pub open spec fn contains_seq(s: Seq<char>, p: Seq<char>) -> bool {
    exists|i: int| occurs_at(s, p, i)
}

/// `p` is a prefix of `s`.
pub open spec fn starts_with_seq(s: Seq<char>, p: Seq<char>) -> bool {
    occurs_at(s, p, 0)
}

/// `p` is a suffix of `s`.
pub open spec fn ends_with_seq(s: Seq<char>, p: Seq<char>) -> bool {
    p.len() <= s.len() && occurs_at(s, p, s.len() - p.len())
}

/// Character-by-character check that `p` occurs in `s` at position `i`.
pub fn match_at(s: &str, p: &str, i: usize) -> (r: bool)
    requires
        i + p@.len() <= s@.len(),
        s@.len() <= usize::MAX,
    ensures
        r == occurs_at(s@, p@, i as int),
{
    let p_len: usize = p.unicode_len();
    let mut j: usize = 0;
    #[verifier::loop_isolation(false)]while j < p_len
        invariant
            j <= p_len,
            forall|k: int| 0 <= k < j ==> s@[i + k] == p@[k],
        decreases p_len - j,
    {
        if s.get_char(i + j) != p.get_char(j) {
            proof {
                if occurs_at(s@, p@, i as int) {
                    assert(s@.subrange(i as int, i + p@.len())[j as int] == p@[j as int]);
                }
            }
            return false;
        }
        j += 1;
    }
    proof {
        assert(s@.subrange(i as int, i + p@.len()) =~= p@);
    }
    true
}

/// Position of the first occurrence of `p` in `s`, if any.
pub fn find_sub(s: &str, p: &str) -> (r: Option<usize>)
    ensures
        match r {
            Some(i) => occurs_at(s@, p@, i as int) && (forall|j: int|
                0 <= j < i ==> !occurs_at(s@, p@, j)),
            None => !contains_seq(s@, p@),
        },
{
    let s_len: usize = s.unicode_len();
    let p_len: usize = p.unicode_len();
    if p_len > s_len {
        proof {
            if contains_seq(s@, p@) {
                let i = choose|i: int| occurs_at(s@, p@, i);
                assert(false);
            }
        }
        return None;
    }
    if p_len == 0 {
        proof {
            assert(s@.subrange(0, 0) =~= p@);
        }
        return Some(0);
    }
    let mut i: usize = 0;
    #[verifier::loop_isolation(false)]while i <= s_len - p_len
        invariant
            i <= s_len - p_len + 1,
            forall|j: int| 0 <= j < i ==> !occurs_at(s@, p@, j),
        decreases s_len - p_len + 1 - i,
    {
        if match_at(s, p, i) {
            return Some(i);
        }
        i += 1;
    }
    proof {
        if contains_seq(s@, p@) {
            let i0 = choose|j: int| occurs_at(s@, p@, j);
            assert(!occurs_at(s@, p@, i0));
            assert(false);
        }
    }
    None
}

/// Position of the last occurrence of `p` in `s`, if any.
pub fn rfind_sub(s: &str, p: &str) -> (r: Option<usize>)
    ensures
        match r {
            Some(i) => occurs_at(s@, p@, i as int) && (forall|j: int|
                i < j ==> !occurs_at(s@, p@, j)),
            None => !contains_seq(s@, p@),
        },
{
    let s_len: usize = s.unicode_len();
    let p_len: usize = p.unicode_len();
    if p_len > s_len {
        proof {
            if contains_seq(s@, p@) {
                let i = choose|i: int| occurs_at(s@, p@, i);
                assert(false);
            }
        }
        return None;
    }
    if p_len == 0 {
        proof {
            assert(s@.subrange(s@.len() as int, s@.len() as int) =~= p@);
        }
        return Some(s_len);
    }
    let mut i: usize = s_len - p_len + 1;
    #[verifier::loop_isolation(false)]while i > 0
        invariant
            i <= s_len - p_len + 1,
            forall|j: int| i <= j ==> !occurs_at(s@, p@, j),
        decreases i,
    {
        i -= 1;
        if match_at(s, p, i) {
            return Some(i);
        }
    }
    proof {
        if contains_seq(s@, p@) {
            let i0 = choose|j: int| occurs_at(s@, p@, j);
            assert(!occurs_at(s@, p@, i0));
            assert(false);
        }
    }
    None
}

/// Whether `p` occurs somewhere in `s`.
pub fn contains_sub(s: &str, p: &str) -> (r: bool)
    ensures
        r == contains_seq(s@, p@),
{
    match find_sub(s, p) {
        Some(_) => true,
        None => false,
    }
}

/// Whether `p` is a prefix of `s`.
pub fn starts_with_str(s: &str, p: &str) -> (r: bool)
    ensures
        r == starts_with_seq(s@, p@),
{
    let s_len: usize = s.unicode_len();
    let p_len: usize = p.unicode_len();
    if p_len > s_len {
        false
    } else {
        match_at(s, p, 0)
    }
}

/// Whether `p` is a suffix of `s`.
pub fn ends_with_str(s: &str, p: &str) -> (r: bool)
    ensures
        r == ends_with_seq(s@, p@),
{
    let s_len: usize = s.unicode_len();
    let p_len: usize = p.unicode_len();
    if p_len > s_len {
        false
    } else {
        match_at(s, p, s_len - p_len)
    }
}

/// Character-wise equality of two string slices.
pub fn str_eq(a: &str, b: &str) -> (r: bool)
    ensures
        r == (a@ == b@),
{
    let a_len: usize = a.unicode_len();
    let b_len: usize = b.unicode_len();
    if a_len != b_len {
        proof {
            if a@ == b@ {
                assert(false);
            }
        }
        false
    } else {
        let m = match_at(a, b, 0);
        proof {
            if m {
                assert(a@ =~= b@);
            } else if a@ == b@ {
                assert(a@.subrange(0, b@.len() as int) =~= b@);
            }
        }
        m
    }
}

/// The whitespace characters that trimming and token splitting remove: the
/// Unicode white-space set, as `char::is_whitespace` draws it.
pub open spec fn is_space_char(c: char) -> bool {
    c == ' ' || c == '\t' || c == '\n' || c == '\r' || c == '\u{b}' || c == '\u{c}'
        || c == '\u{85}' || c == '\u{a0}' || c == '\u{1680}' || c == '\u{2000}'
        || c == '\u{2001}' || c == '\u{2002}' || c == '\u{2003}' || c == '\u{2004}'
        || c == '\u{2005}' || c == '\u{2006}' || c == '\u{2007}' || c == '\u{2008}'
        || c == '\u{2009}' || c == '\u{200a}' || c == '\u{2028}' || c == '\u{2029}'
        || c == '\u{202f}' || c == '\u{205f}' || c == '\u{3000}'
}

/// Executable test for [`is_space_char`].
pub fn is_space(c: char) -> (r: bool)
    ensures
        r == is_space_char(c),
{
    c == ' ' || c == '\t' || c == '\n' || c == '\r' || c == '\u{b}' || c == '\u{c}'
        || c == '\u{85}' || c == '\u{a0}' || c == '\u{1680}' || c == '\u{2000}'
        || c == '\u{2001}' || c == '\u{2002}' || c == '\u{2003}' || c == '\u{2004}'
        || c == '\u{2005}' || c == '\u{2006}' || c == '\u{2007}' || c == '\u{2008}'
        || c == '\u{2009}' || c == '\u{200a}' || c == '\u{2028}' || c == '\u{2029}'
        || c == '\u{202f}' || c == '\u{205f}' || c == '\u{3000}'
}

/// `s` without its leading whitespace.
pub open spec fn ltrim(s: Seq<char>) -> Seq<char>
    decreases s.len(),
{
    if s.len() > 0 && is_space_char(s[0]) {
        ltrim(s.subrange(1, s.len() as int))
    } else {
        s
    }
}

/// `s` without its trailing whitespace.
pub open spec fn rtrim(s: Seq<char>) -> Seq<char>
    decreases s.len(),
{
    if s.len() > 0 && is_space_char(s[s.len() - 1]) {
        rtrim(s.subrange(0, s.len() - 1))
    } else {
        s
    }
}

/// `s` without leading and trailing whitespace.
pub open spec fn trim_seq(s: Seq<char>) -> Seq<char> {
    rtrim(ltrim(s))
}

pub proof fn lemma_ltrim_at(s: Seq<char>, a: int)
    requires
        0 <= a <= s.len(),
        forall|j: int| 0 <= j < a ==> is_space_char(s[j]),
        a == s.len() || !is_space_char(s[a]),
    ensures
        ltrim(s) == s.subrange(a, s.len() as int),
    decreases a,
{
    if a == 0 {
        assert(s.subrange(0, s.len() as int) =~= s);
    } else {
        let t = s.subrange(1, s.len() as int);
        lemma_ltrim_at(t, a - 1);
        assert(t.subrange(a - 1, t.len() as int) =~= s.subrange(a, s.len() as int));
    }
}

pub proof fn lemma_rtrim_at(s: Seq<char>, b: int)
    requires
        0 <= b <= s.len(),
        forall|j: int| b <= j < s.len() ==> is_space_char(s[j]),
        b == 0 || !is_space_char(s[b - 1]),
    ensures
        rtrim(s) == s.subrange(0, b),
    decreases s.len() - b,
{
    if b == s.len() {
        if s.len() > 0 && is_space_char(s[s.len() - 1]) {
            assert(!is_space_char(s[b - 1]));
        }
        assert(s.subrange(0, s.len() as int) =~= s);
    } else {
        let t = s.subrange(0, s.len() - 1);
        lemma_rtrim_at(t, b);
        assert(t.subrange(0, b) =~= s.subrange(0, b));
    }
}

/// `s` without leading and trailing whitespace, by character scan.
pub fn trim_str<'a>(s: &'a str) -> (r: &'a str)
    ensures
        r@ == trim_seq(s@),
{
    let s_len: usize = s.unicode_len();
    let mut a: usize = 0;
    #[verifier::loop_isolation(false)]while a < s_len && is_space(s.get_char(a))
        invariant
            a <= s_len,
            forall|j: int| 0 <= j < a ==> is_space_char(s@[j]),
        decreases s_len - a,
    {
        a += 1;
    }
    if a == s_len {
        proof {
            lemma_ltrim_at(s@, a as int);
            assert(ltrim(s@) =~= Seq::<char>::empty());
        }
        return s.substring_char(s_len, s_len);
    }
    let mut b: usize = s_len;
    #[verifier::loop_isolation(false)]while is_space(s.get_char(b - 1))
        invariant
            a < b <= s_len,
            !is_space_char(s@[a as int]),
            forall|j: int| b <= j < s_len ==> is_space_char(s@[j]),
        decreases b,
    {
        b -= 1;
    }
    proof {
        lemma_ltrim_at(s@, a as int);
        let t = s@.subrange(a as int, s_len as int);
        lemma_rtrim_at(t, b - a);
        assert(t.subrange(0, b - a) =~= s@.subrange(a as int, b as int));
    }
    s.substring_char(a, b)
}

/// `s` without trailing copies of the character `c`.
pub open spec fn rtrim_char(s: Seq<char>, c: char) -> Seq<char>
    decreases s.len(),
{
    if s.len() > 0 && s[s.len() - 1] == c {
        rtrim_char(s.subrange(0, s.len() - 1), c)
    } else {
        s
    }
}

pub proof fn lemma_rtrim_char_at(s: Seq<char>, c: char, b: int)
    requires
        0 <= b <= s.len(),
        forall|j: int| b <= j < s.len() ==> s[j] == c,
        b == 0 || s[b - 1] != c,
    ensures
        rtrim_char(s, c) == s.subrange(0, b),
    decreases s.len() - b,
{
    if b == s.len() {
        assert(s.subrange(0, s.len() as int) =~= s);
    } else {
        let t = s.subrange(0, s.len() - 1);
        lemma_rtrim_char_at(t, c, b);
        assert(t.subrange(0, b) =~= s.subrange(0, b));
    }
}

/// `s` without trailing copies of `c`, by character scan.
pub fn trim_end_char<'a>(s: &'a str, c: char) -> (r: &'a str)
    ensures
        r@ == rtrim_char(s@, c),
{
    let s_len: usize = s.unicode_len();
    let mut b: usize = s_len;
    #[verifier::loop_isolation(false)]while b > 0 && s.get_char(b - 1) == c
        invariant
            b <= s_len,
            forall|j: int| b <= j < s_len ==> s@[j] == c,
        decreases b,
    {
        b -= 1;
    }
    proof {
        lemma_rtrim_char_at(s@, c, b as int);
    }
    s.substring_char(0, b)
}

/// Position of the first occurrence of `p` in `s` (meaningful only when
/// `contains_seq(s, p)` holds).
pub open spec fn first_occ(s: Seq<char>, p: Seq<char>) -> int {
    choose|i: int|
        occurs_at(s, p, i) && (forall|j: int| 0 <= j < i ==> !occurs_at(s, p, j))
}

/// Position of the last occurrence of `p` in `s` (meaningful only when
/// `contains_seq(s, p)` holds).
pub open spec fn last_occ(s: Seq<char>, p: Seq<char>) -> int {
    choose|i: int| occurs_at(s, p, i) && (forall|j: int| j > i ==> !occurs_at(s, p, j))
}

pub proof fn lemma_first_occ_is(s: Seq<char>, p: Seq<char>, i: int)
    requires
        occurs_at(s, p, i),
        forall|j: int| 0 <= j < i ==> !occurs_at(s, p, j),
    ensures
        first_occ(s, p) == i,
{
    let i2 = first_occ(s, p);
    assert(occurs_at(s, p, i2) && (forall|j: int| 0 <= j < i2 ==> !occurs_at(s, p, j)));
}

pub proof fn lemma_last_occ_is(s: Seq<char>, p: Seq<char>, i: int)
    requires
        occurs_at(s, p, i),
        forall|j: int| j > i ==> !occurs_at(s, p, j),
    ensures
        last_occ(s, p) == i,
{
    let i2 = last_occ(s, p);
    assert(occurs_at(s, p, i2) && (forall|j: int| j > i2 ==> !occurs_at(s, p, j)));
}

pub proof fn lemma_ltrim_first(s: Seq<char>)
    ensures
        ltrim(s).len() == 0 || !is_space_char(ltrim(s)[0]),
    decreases s.len(),
{
    if s.len() > 0 && is_space_char(s[0]) {
        lemma_ltrim_first(s.subrange(1, s.len() as int));
    }
}

pub proof fn lemma_rtrim_last(s: Seq<char>)
    ensures
        rtrim(s).len() == 0 || !is_space_char(rtrim(s)[rtrim(s).len() - 1]),
    decreases s.len(),
{
    if s.len() > 0 && is_space_char(s[s.len() - 1]) {
        lemma_rtrim_last(s.subrange(0, s.len() - 1));
    }
}

pub proof fn lemma_rtrim_first(s: Seq<char>)
    ensures
        rtrim(s).len() > 0 ==> rtrim(s)[0] == s[0],
    decreases s.len(),
{
    if s.len() > 0 && is_space_char(s[s.len() - 1]) {
        lemma_rtrim_first(s.subrange(0, s.len() - 1));
    }
}

/// Trimming leaves no whitespace at either end.
pub proof fn lemma_trim_seq_trimmed(s: Seq<char>)
    ensures
        trim_seq(s).len() == 0 || (!is_space_char(trim_seq(s)[0]) && !is_space_char(
            trim_seq(s)[trim_seq(s).len() - 1],
        )),
{
    lemma_ltrim_first(s);
    lemma_rtrim_first(ltrim(s));
    lemma_rtrim_last(ltrim(s));
}

/// Trimming a string with no whitespace at either end changes nothing.
pub proof fn lemma_trim_of_trimmed(s: Seq<char>)
    requires
        s.len() == 0 || (!is_space_char(s[0]) && !is_space_char(s[s.len() - 1])),
    ensures
        trim_seq(s) == s,
{
    assert(ltrim(s) == s);
    assert(rtrim(s) == s);
}

/// `s` with every trailing copy of the pattern `p` removed.
pub open spec fn rtrim_pat(s: Seq<char>, p: Seq<char>) -> Seq<char>
    decreases s.len(),
{
    if p.len() > 0 && ends_with_seq(s, p) {
        rtrim_pat(s.subrange(0, s.len() - p.len()), p)
    } else {
        s
    }
}

/// `s` with every trailing copy of `p` removed, by repeated suffix checks.
pub fn trim_end_matches_str<'a>(s: &'a str, p: &str) -> (r: &'a str)
    ensures
        r@ == rtrim_pat(s@, p@),
{
    let p_len: usize = p.unicode_len();
    if p_len == 0 {
        return s;
    }
    let s_len: usize = s.unicode_len();
    let mut end: usize = s_len;
    proof {
        assert(s@.subrange(0, s_len as int) =~= s@);
    }
    #[verifier::loop_isolation(false)]
    while end >= p_len && match_at(s, p, end - p_len)
        invariant
            end <= s_len,
            rtrim_pat(s@.subrange(0, end as int), p@) == rtrim_pat(s@, p@),
        decreases end,
    {
        let ghost cur = s@.subrange(0, end as int);
        proof {
            assert(cur.subrange(cur.len() - p@.len(), cur.len() as int) =~= s@.subrange(
                end - p_len,
                end as int,
            ));
            assert(s@.subrange(end - p_len, end as int) =~= s@.subrange(
                (end - p_len) as int,
                end - p_len + p@.len(),
            ));
            assert(ends_with_seq(cur, p@));
            assert(cur.subrange(0, cur.len() - p@.len()) =~= s@.subrange(
                0,
                (end - p_len) as int,
            ));
        }
        end -= p_len;
    }
    proof {
        let cur = s@.subrange(0, end as int);
        if ends_with_seq(cur, p@) {
            assert(s@.subrange((end - p_len) as int, end - p_len + p@.len()) =~= cur.subrange(
                cur.len() - p@.len(),
                cur.len() as int,
            ));
            assert(occurs_at(s@, p@, end - p_len));
            assert(false);
        }
    }
    s.substring_char(0, end)
}

/// `s` with every leading copy of the pattern `p` removed.
pub open spec fn ltrim_pat(s: Seq<char>, p: Seq<char>) -> Seq<char>
    decreases s.len(),
{
    if p.len() > 0 && starts_with_seq(s, p) {
        ltrim_pat(s.subrange(p.len() as int, s.len() as int), p)
    } else {
        s
    }
}

/// `s` with every leading copy of `p` removed, by repeated prefix checks.
pub fn trim_start_matches_str<'a>(s: &'a str, p: &str) -> (r: &'a str)
    ensures
        r@ == ltrim_pat(s@, p@),
{
    let p_len: usize = p.unicode_len();
    if p_len == 0 {
        return s;
    }
    let s_len: usize = s.unicode_len();
    let mut start: usize = 0;
    proof {
        assert(s@.subrange(0, s_len as int) =~= s@);
    }
    #[verifier::loop_isolation(false)]
    while p_len <= s_len - start && match_at(s, p, start)
        invariant
            start <= s_len,
            ltrim_pat(s@.subrange(start as int, s_len as int), p@) == ltrim_pat(s@, p@),
        decreases s_len - start,
    {
        let ghost cur = s@.subrange(start as int, s_len as int);
        proof {
            assert(cur.subrange(0, p@.len() as int) =~= s@.subrange(
                start as int,
                start + p_len,
            ));
            assert(starts_with_seq(cur, p@));
            assert(cur.subrange(p@.len() as int, cur.len() as int) =~= s@.subrange(
                start + p_len,
                s_len as int,
            ));
        }
        start += p_len;
    }
    proof {
        let cur = s@.subrange(start as int, s_len as int);
        if starts_with_seq(cur, p@) {
            assert(s@.subrange(start as int, start + p@.len()) =~= cur.subrange(
                0,
                p@.len() as int,
            ));
            assert(occurs_at(s@, p@, start as int));
            assert(false);
        }
    }
    s.substring_char(start, s_len)
}

/// The byte index at which `s` is cut to at most `max` bytes: the greatest
/// character boundary at or before `max`.
pub open spec fn trunc_boundary(b: Seq<u8>, max: int) -> int
    decreases max,
{
    if max <= 0 {
        0
    } else if vstd::utf8::is_char_boundary(b, max) {
        max
    } else {
        trunc_boundary(b, max - 1)
    }
}

/// The characters that remain when `s` is cut to at most `max` bytes without
/// splitting a multi-byte character.
pub open spec fn truncated_chars(s: &str, max: int) -> Seq<char> {
    if s.spec_bytes().len() <= max {
        s@
    } else {
        vstd::utf8::decode_utf8(s.spec_bytes().subrange(0, trunc_boundary(s.spec_bytes(), max)))
    }
}

/// Cut `s` to at most `max_len` bytes, backing up to a character boundary.
pub fn safe_truncate<'a>(s: &'a str, max_len: usize) -> (r: &'a str)
    ensures
        r@ == truncated_chars(s, max_len as int),
{
    proof {
        vstd::utf8::encode_utf8_valid_utf8(s@);
    }
    let bytes_view: &[u8] = s.as_bytes();
    proof {
        vstd::slice::axiom_spec_len(bytes_view);
        assert(s.spec_bytes().len() <= usize::MAX);
    }
    if s.len() <= max_len {
        return s;
    }
    let mut end: usize = max_len;
    #[verifier::loop_isolation(false)]
    while end > 0 && !s.is_char_boundary(end)
        invariant
            end <= max_len,
            trunc_boundary(s.spec_bytes(), end as int) == trunc_boundary(
                s.spec_bytes(),
                max_len as int,
            ),
        decreases end,
    {
        end -= 1;
    }
    proof {
        assert(vstd::utf8::is_char_boundary(s.spec_bytes(), 0 as int));
        assert(vstd::utf8::is_char_boundary(s.spec_bytes(), end as int));
        assert(trunc_boundary(s.spec_bytes(), end as int) == end as int);
    }
    let (pre, _) = s.split_at(end);
    proof {
        assert(pre.spec_bytes() == s.spec_bytes().subrange(
            0,
            trunc_boundary(s.spec_bytes(), max_len as int),
        ));
        vstd::utf8::encode_utf8_decode_utf8(pre@);
    }
    pre
}

/// Index of the first `c` in `s`, or `s.len()` if there is none.
pub open spec fn idx_of_char(s: Seq<char>, c: char) -> int
    decreases s.len(),
{
    if s.len() == 0 {
        0
    } else if s[0] == c {
        0
    } else {
        1 + idx_of_char(s.subrange(1, s.len() as int), c)
    }
}

pub proof fn lemma_idx_of_char_unique(s: Seq<char>, c: char, i: int)
    requires
        0 <= i <= s.len(),
        i == s.len() || s[i] == c,
        forall|j: int| 0 <= j < i ==> s[j] != c,
    ensures
        idx_of_char(s, c) == i,
    decreases s.len(),
{
    if s.len() == 0 {
    } else if s[0] == c {
        if i > 0 {
            assert(s[0] != c);
        }
    } else {
        let t = s.subrange(1, s.len() as int);
        assert(i > 0);
        assert forall|j: int| 0 <= j < i - 1 implies t[j] != c by {
            assert(s[j + 1] != c);
        }
        lemma_idx_of_char_unique(t, c, i - 1);
    }
}

/// Index of the first `c` in `s` at or after `from`, or `s.len()`.
pub fn find_char_from(s: &str, c: char, from: usize) -> (r: usize)
    requires
        from <= s@.len(),
        s@.len() <= usize::MAX,
    ensures
        from <= r <= s@.len(),
        r - from == idx_of_char(s@.subrange(from as int, s@.len() as int), c),
        r < s@.len() ==> s@[r as int] == c,
        forall|j: int| from <= j < r ==> s@[j] != c,
{
    let s_len: usize = s.unicode_len();
    let mut i: usize = from;
    #[verifier::loop_isolation(false)]while i < s_len && s.get_char(i) != c
        invariant
            from <= i <= s_len,
            forall|j: int| from <= j < i ==> s@[j] != c,
        decreases s_len - i,
    {
        i += 1;
    }
    proof {
        let t = s@.subrange(from as int, s_len as int);
        assert forall|j: int| 0 <= j < i - from implies t[j] != c by {
            assert(s@[from + j] != c);
        }
        lemma_idx_of_char_unique(t, c, i - from);
    }
    i
}

/// A line with one trailing carriage return removed.
pub open spec fn strip_cr(l: Seq<char>) -> Seq<char> {
    if l.len() > 0 && l[l.len() - 1] == '\r' {
        l.subrange(0, l.len() - 1)
    } else {
        l
    }
}

/// The lines of `s`: split at `'\n'`, a carriage return directly before the
/// newline dropped, and no empty final line after a trailing newline.
pub open spec fn lines_acc(s: Seq<char>, cur: Seq<char>) -> Seq<Seq<char>>
    decreases s.len(),
{
    if s.len() == 0 {
        if cur.len() == 0 {
            Seq::empty()
        } else {
            seq![cur]
        }
    } else if s[0] == '\n' {
        seq![strip_cr(cur)] + lines_acc(s.subrange(1, s.len() as int), Seq::empty())
    } else {
        lines_acc(s.subrange(1, s.len() as int), cur.push(s[0]))
    }
}

/// The lines of `s`, as `str::lines` yields them.
pub open spec fn lines_of(s: Seq<char>) -> Seq<Seq<char>> {
    lines_acc(s, Seq::empty())
}

/// The views of a sequence of strings.
pub open spec fn views_of(v: Seq<String>) -> Seq<Seq<char>> {
    v.map_values(|x: String| x@)
}

/// A copy of `cur` with one trailing carriage return removed.
fn strip_cr_string(cur: &String) -> (r: String)
    ensures
        r@ == strip_cr(cur@),
{
    let l: usize = cur.as_str().unicode_len();
    if l > 0 && cur.as_str().get_char(l - 1) == '\r' {
        String::from_str(cur.as_str().substring_char(0, l - 1))
    } else {
        cur.clone()
    }
}

/// Split `s` into its lines.
pub fn split_lines(s: &str) -> (r: Vec<String>)
    ensures
        views_of(r@) == lines_of(s@),
{
    let s_len: usize = s.unicode_len();
    let mut res: Vec<String> = Vec::new();
    let mut cur: String = String::new();
    let mut pos: usize = 0;
    proof {
        assert(views_of(res@) =~= Seq::<Seq<char>>::empty());
        assert(s@.subrange(0, s_len as int) =~= s@);
    }
    #[verifier::loop_isolation(false)]while pos < s_len
        invariant
            pos <= s_len,
            lines_of(s@) == views_of(res@) + lines_acc(
                s@.subrange(pos as int, s_len as int),
                cur@,
            ),
        decreases s_len - pos,
    {
        let ghost rest = s@.subrange(pos as int, s_len as int);
        let c = s.get_char(pos);
        proof {
            assert(rest[0] == c);
            assert(rest.subrange(1, rest.len() as int) =~= s@.subrange(
                pos + 1,
                s_len as int,
            ));
        }
        if c == '\n' {
            let ghost prev_res = res@;
            let ghost prev_cur = cur@;
            let line = strip_cr_string(&cur);
            res.push(line);
            cur = String::new();
            proof {
                assert(views_of(res@) =~= views_of(prev_res).push(strip_cr(prev_cur)));
                assert(lines_acc(rest, prev_cur) == seq![strip_cr(prev_cur)] + lines_acc(
                    s@.subrange(pos + 1, s_len as int),
                    Seq::empty(),
                ));
                assert(views_of(prev_res) + lines_acc(rest, prev_cur) =~= views_of(res@)
                    + lines_acc(s@.subrange(pos + 1, s_len as int), cur@));
            }
        } else {
            let ghost prev_cur = cur@;
            let one = s.substring_char(pos, pos + 1);
            cur.append(one);
            proof {
                assert(cur@ =~= prev_cur.push(rest[0]));
                assert(lines_acc(rest, prev_cur) == lines_acc(
                    s@.subrange(pos + 1, s_len as int),
                    cur@,
                ));
            }
        }
        pos += 1;
    }
    proof {
        assert(s@.subrange(s_len as int, s_len as int) =~= Seq::<char>::empty());
        if cur@.len() == 0 {
            assert(lines_of(s@) =~= views_of(res@));
        }
    }
    if cur.as_str().unicode_len() > 0 {
        res.push(cur);
        proof {
            assert(views_of(res@) =~= lines_of(s@));
        }
    }
    res
}

/// The whitespace-separated tokens of `s`: maximal runs of non-whitespace.
pub open spec fn tokens_acc(s: Seq<char>, cur: Seq<char>) -> Seq<Seq<char>>
    decreases s.len(),
{
    if s.len() == 0 {
        if cur.len() == 0 {
            Seq::empty()
        } else {
            seq![cur]
        }
    } else if is_space_char(s[0]) {
        if cur.len() == 0 {
            tokens_acc(s.subrange(1, s.len() as int), Seq::empty())
        } else {
            seq![cur] + tokens_acc(s.subrange(1, s.len() as int), Seq::empty())
        }
    } else {
        tokens_acc(s.subrange(1, s.len() as int), cur.push(s[0]))
    }
}

/// The whitespace-separated tokens of `s`.
pub open spec fn tokens_of(s: Seq<char>) -> Seq<Seq<char>> {
    tokens_acc(s, Seq::empty())
}

/// Split `s` into its whitespace-separated tokens.
pub fn split_tokens(s: &str) -> (r: Vec<String>)
    ensures
        views_of(r@) == tokens_of(s@),
{
    let s_len: usize = s.unicode_len();
    let mut res: Vec<String> = Vec::new();
    let mut cur: String = String::new();
    let mut pos: usize = 0;
    proof {
        assert(views_of(res@) =~= Seq::<Seq<char>>::empty());
        assert(s@.subrange(0, s_len as int) =~= s@);
    }
    #[verifier::loop_isolation(false)]
    while pos < s_len
        invariant
            pos <= s_len,
            tokens_of(s@) == views_of(res@) + tokens_acc(
                s@.subrange(pos as int, s_len as int),
                cur@,
            ),
        decreases s_len - pos,
    {
        let ghost rest = s@.subrange(pos as int, s_len as int);
        let c = s.get_char(pos);
        proof {
            assert(rest[0] == c);
            assert(rest.subrange(1, rest.len() as int) =~= s@.subrange(
                pos + 1,
                s_len as int,
            ));
        }
        if is_space(c) {
            let ghost prev_res = res@;
            let ghost prev_cur = cur@;
            if cur.as_str().unicode_len() > 0 {
                res.push(cur);
                cur = String::new();
                proof {
                    assert(tokens_acc(rest, prev_cur) == seq![prev_cur] + tokens_acc(
                        s@.subrange(pos + 1, s_len as int),
                        Seq::empty(),
                    ));
                    assert(views_of(res@) =~= views_of(prev_res).push(prev_cur));
                    assert(views_of(prev_res) + (seq![prev_cur] + tokens_acc(
                        s@.subrange(pos + 1, s_len as int),
                        Seq::empty(),
                    )) =~= views_of(res@) + tokens_acc(
                        s@.subrange(pos + 1, s_len as int),
                        cur@,
                    ));
                }
            } else {
                proof {
                    assert(cur@ =~= Seq::<char>::empty());
                    assert(tokens_acc(rest, cur@) == tokens_acc(
                        s@.subrange(pos + 1, s_len as int),
                        Seq::empty(),
                    ));
                }
            }
        } else {
            let ghost prev_cur = cur@;
            let one = s.substring_char(pos, pos + 1);
            cur.append(one);
            proof {
                assert(cur@ =~= prev_cur.push(rest[0]));
            }
        }
        pos += 1;
    }
    proof {
        assert(s@.subrange(s_len as int, s_len as int) =~= Seq::<char>::empty());
        if cur@.len() == 0 {
            assert(tokens_of(s@) =~= views_of(res@));
        }
    }
    if cur.as_str().unicode_len() > 0 {
        res.push(cur);
        proof {
            assert(views_of(res@) =~= tokens_of(s@));
        }
    }
    res
}

/// `ls` joined with `sep` between consecutive elements.
pub open spec fn join_with(ls: Seq<Seq<char>>, sep: Seq<char>) -> Seq<char>
    decreases ls.len(),
{
    if ls.len() == 0 {
        Seq::empty()
    } else if ls.len() == 1 {
        ls[0]
    } else {
        ls[0] + sep + join_with(ls.subrange(1, ls.len() as int), sep)
    }
}

pub proof fn lemma_join_push(ls: Seq<Seq<char>>, sep: Seq<char>, x: Seq<char>)
    ensures
        join_with(ls.push(x), sep) == if ls.len() == 0 {
            x
        } else {
            join_with(ls, sep) + sep + x
        },
    decreases ls.len(),
{
    if ls.len() == 0 {
        assert(ls.push(x).len() == 1);
        assert(ls.push(x)[0] == x);
    } else {
        let e = ls.push(x);
        assert(e.subrange(1, e.len() as int) =~= ls.subrange(1, ls.len() as int).push(x));
        lemma_join_push(ls.subrange(1, ls.len() as int), sep, x);
        if ls.len() == 1 {
            assert(join_with(e, sep) == e[0] + sep + join_with(
                e.subrange(1, e.len() as int),
                sep,
            ));
            assert(e[0] == ls[0]);
            assert(ls.subrange(1, ls.len() as int).len() == 0);
            assert(join_with(ls, sep) == ls[0]);
        } else {
            assert(join_with(ls, sep) == ls[0] + sep + join_with(
                ls.subrange(1, ls.len() as int),
                sep,
            ));
            assert(ls[0] + sep + (join_with(ls.subrange(1, ls.len() as int), sep) + sep + x)
                =~= (ls[0] + sep + join_with(ls.subrange(1, ls.len() as int), sep)) + sep + x);
        }
    }
}

/// The strings of `v` joined with `sep`.
pub fn join_strings(v: &Vec<String>, sep: &str) -> (r: String)
    ensures
        r@ == join_with(views_of(v@), sep@),
{
    let n: usize = v.len();
    if n == 0 {
        proof {
            assert(views_of(v@).len() == 0);
        }
        return String::new();
    }
    let mut acc: String = v[0].clone();
    let mut i: usize = 1;
    proof {
        assert(views_of(v@.subrange(0, 1))[0] == v@[0]@);
        assert(views_of(v@.subrange(0, 1)).len() == 1);
    }
    #[verifier::loop_isolation(false)]while i < n
        invariant
            1 <= i <= n,
            n == v@.len(),
            acc@ == join_with(views_of(v@.subrange(0, i as int)), sep@),
        decreases n - i,
    {
        acc.append(sep);
        acc.append(v[i].as_str());
        proof {
            let pre = views_of(v@.subrange(0, i as int));
            assert(views_of(v@.subrange(0, i + 1)) =~= pre.push(v@[i as int]@));
            lemma_join_push(pre, sep@, v@[i as int]@);
        }
        i += 1;
    }
    proof {
        assert(v@.subrange(0, n as int) =~= v@);
    }
    acc
}

} // verus!
