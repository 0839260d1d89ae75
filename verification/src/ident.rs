//! Canonical identifier extraction: the DOI grammar, prefix cleaning, and the
//! rules that derive a DOI or an arXiv identifier from a hit's URL.

use vstd::prelude::*;
use vstd::string::StrSliceExecFns;
use vstd::string::StringExecFns;
use crate::strutil::contains_seq;
use crate::strutil::starts_with_seq;
use crate::strutil::first_occ;
use crate::strutil::last_occ;
use crate::strutil::lemma_first_occ_is;
use crate::strutil::lemma_last_occ_is;
use crate::strutil::trim_seq;
use crate::strutil::trim_str;
use crate::strutil::lemma_trim_seq_trimmed;
use crate::strutil::lemma_trim_of_trimmed;
use crate::strutil::rtrim;
use crate::strutil::rtrim_pat;
use crate::strutil::trim_end_matches_str;
use crate::strutil::idx_of_char;
use crate::strutil::find_char_from;
use crate::strutil::find_sub;
use crate::strutil::rfind_sub;
use crate::strutil::contains_sub;
use crate::strutil::starts_with_str;

verus! {

/// A decimal digit.
pub open spec fn is_ascii_digit(c: char) -> bool {
    '0' <= c && c <= '9'
}

/// A character allowed in the suffix of a DOI.
pub open spec fn is_doi_body_char(c: char) -> bool {
    is_ascii_digit(c) || ('a' <= c && c <= 'z') || ('A' <= c && c <= 'Z') || c == '-' || c == '.'
        || c == '_' || c == ';' || c == '(' || c == ')' || c == '/' || c == ':'
}

fn digit_check(c: char) -> (r: bool)
    ensures
        r == is_ascii_digit(c),
{
    '0' <= c && c <= '9'
}

fn body_char_check(c: char) -> (r: bool)
    ensures
        r == is_doi_body_char(c),
{
    ('0' <= c && c <= '9') || ('a' <= c && c <= 'z') || ('A' <= c && c <= 'Z') || c == '-'
        || c == '.' || c == '_' || c == ';' || c == '(' || c == ')' || c == '/' || c == ':'
}

/// Length of the run of decimal digits in `s` starting at `i`.
pub open spec fn digit_run_from(s: Seq<char>, i: int) -> int
    decreases s.len() - i,
    when i <= s.len()
{
    if 0 <= i && i < s.len() && is_ascii_digit(s[i]) {
        1 + digit_run_from(s, i + 1)
    } else {
        0
    }
}

/// Length of the run of DOI body characters in `s` starting at `i`.
pub open spec fn body_run_from(s: Seq<char>, i: int) -> int
    decreases s.len() - i,
    when i <= s.len()
{
    if 0 <= i && i < s.len() && is_doi_body_char(s[i]) {
        1 + body_run_from(s, i + 1)
    } else {
        0
    }
}

pub proof fn lemma_digit_run(s: Seq<char>, i: int, d: int)
    requires
        0 <= i,
        0 <= d,
        i + d <= s.len(),
        forall|j: int| i <= j < i + d ==> is_ascii_digit(s[j]),
        i + d == s.len() || !is_ascii_digit(s[i + d]),
    ensures
        digit_run_from(s, i) == d,
    decreases d,
{
    if d > 0 {
        lemma_digit_run(s, i + 1, d - 1);
    }
}

pub proof fn lemma_body_run(s: Seq<char>, i: int, d: int)
    requires
        0 <= i,
        0 <= d,
        i + d <= s.len(),
        forall|j: int| i <= j < i + d ==> is_doi_body_char(s[j]),
        i + d == s.len() || !is_doi_body_char(s[i + d]),
    ensures
        body_run_from(s, i) == d,
    decreases d,
{
    if d > 0 {
        lemma_body_run(s, i + 1, d - 1);
    }
}

/// The DOI grammar matches `s` at position `i`: the characters `10.`, then
/// four to nine digits, then `/`, then at least one body character.
pub open spec fn doi_match_at(s: Seq<char>, i: int) -> bool {
    let d = digit_run_from(s, i + 3);
    &&& 0 <= i
    &&& i + 3 <= s.len()
    &&& s[i] == '1'
    &&& s[i + 1] == '0'
    &&& s[i + 2] == '.'
    &&& 4 <= d <= 9
    &&& i + 3 + d < s.len()
    &&& s[i + 3 + d] == '/'
    &&& i + 4 + d < s.len()
    &&& is_doi_body_char(s[i + 4 + d])
}

/// One past the final character of the DOI match starting at `i`.
pub open spec fn doi_match_end(s: Seq<char>, i: int) -> int {
    let d = digit_run_from(s, i + 3);
    i + 4 + d + body_run_from(s, i + 4 + d)
}

/// Some position of `s` starts a DOI match.
pub open spec fn has_doi(s: Seq<char>) -> bool {
    exists|i: int| doi_match_at(s, i)
}

/// The first position of `s` that starts a DOI match (meaningful only when
/// `has_doi(s)` holds).
pub open spec fn first_doi(s: Seq<char>) -> int {
    choose|i: int| doi_match_at(s, i) && (forall|j: int| 0 <= j < i ==> !doi_match_at(s, j))
}

pub proof fn lemma_first_doi_is(s: Seq<char>, i: int)
    requires
        doi_match_at(s, i),
        forall|j: int| 0 <= j < i ==> !doi_match_at(s, j),
    ensures
        first_doi(s) == i,
        has_doi(s),
{
    let i2 = first_doi(s);
    assert(doi_match_at(s, i2) && (forall|j: int| 0 <= j < i2 ==> !doi_match_at(s, j)));
}

/// Identifier normalization: trim, strip a leading `https://doi.org/` or
/// `http://doi.org/`, then a leading `doi:`, then trim again.
pub open spec fn clean_doi_seq(s: Seq<char>) -> Seq<char> {
    let t = trim_seq(s);
    let u = if starts_with_seq(t, "https://doi.org/"@) {
        t.subrange(16, t.len() as int)
    } else if starts_with_seq(t, "http://doi.org/"@) {
        t.subrange(15, t.len() as int)
    } else {
        t
    };
    let v = if starts_with_seq(u, "doi:"@) {
        u.subrange(4, u.len() as int)
    } else {
        u
    };
    trim_seq(v)
}

/// Normalize a raw DOI string per [`clean_doi_seq`].
pub fn clean_doi(s: &str) -> (r: String)
    ensures
        r@ == clean_doi_seq(s@),
{
    proof {
        reveal_strlit("https://doi.org/");
        reveal_strlit("http://doi.org/");
        reveal_strlit("doi:");
    }
    let t = trim_str(s);
    let t_len: usize = t.unicode_len();
    let u: &str = if starts_with_str(t, "https://doi.org/") {
        t.substring_char(16, t_len)
    } else if starts_with_str(t, "http://doi.org/") {
        t.substring_char(15, t_len)
    } else {
        t
    };
    let u_len: usize = u.unicode_len();
    let v: &str = if starts_with_str(u, "doi:") {
        u.substring_char(4, u_len)
    } else {
        u
    };
    String::from_str(trim_str(v))
}

/// Law: normalizing an identifier twice equals normalizing it once, for every
/// input whose single normalization does not itself begin with one of the
/// stripped prefixes (`https://doi.org/`, `http://doi.org/`, `doi:`).
pub proof fn lemma_clean_doi_idempotent(s: Seq<char>)
    requires
        !starts_with_seq(clean_doi_seq(s), "https://doi.org/"@),
        !starts_with_seq(clean_doi_seq(s), "http://doi.org/"@),
        !starts_with_seq(clean_doi_seq(s), "doi:"@),
    ensures
        clean_doi_seq(clean_doi_seq(s)) == clean_doi_seq(s),
{
    let t = trim_seq(s);
    let u = if starts_with_seq(t, "https://doi.org/"@) {
        t.subrange(16, t.len() as int)
    } else if starts_with_seq(t, "http://doi.org/"@) {
        t.subrange(15, t.len() as int)
    } else {
        t
    };
    let v = if starts_with_seq(u, "doi:"@) {
        u.subrange(4, u.len() as int)
    } else {
        u
    };
    let y = clean_doi_seq(s);
    assert(y == trim_seq(v));
    lemma_trim_seq_trimmed(v);
    lemma_trim_of_trimmed(y);
}

/// Scan `s` for a DOI match starting exactly at `i`; on success return the
/// end of the match.
fn doi_at(s: &str, i: usize) -> (r: Option<usize>)
    requires
        i <= s@.len(),
        s@.len() <= usize::MAX,
    ensures
        match r {
            Some(e) => doi_match_at(s@, i as int) && e == doi_match_end(s@, i as int) && i < e
                <= s@.len(),
            None => !doi_match_at(s@, i as int),
        },
{
    let s_len: usize = s.unicode_len();
    if s_len < 3 || i > s_len - 3 {
        return None;
    }
    if !(s.get_char(i) == '1' && s.get_char(i + 1) == '0' && s.get_char(i + 2) == '.') {
        return None;
    }
    let mut d: usize = 0;
    #[verifier::loop_isolation(false)]
    while i + 3 + d < s_len && digit_check(s.get_char(i + 3 + d))
        invariant
            i + 3 + d <= s_len,
            forall|j: int| i + 3 <= j < i + 3 + d ==> is_ascii_digit(s@[j]),
        decreases s_len - d,
    {
        d += 1;
    }
    proof {
        lemma_digit_run(s@, i + 3, d as int);
    }
    if !(4 <= d && d <= 9) {
        return None;
    }
    if i + 3 + d >= s_len || s.get_char(i + 3 + d) != '/' {
        return None;
    }
    if i + 4 + d >= s_len || !body_char_check(s.get_char(i + 4 + d)) {
        return None;
    }
    let start: usize = i + 4 + d;
    let mut b: usize = 0;
    #[verifier::loop_isolation(false)]
    while start + b < s_len && body_char_check(s.get_char(start + b))
        invariant
            start + b <= s_len,
            forall|j: int| start <= j < start + b ==> is_doi_body_char(s@[j]),
        decreases s_len - b,
    {
        b += 1;
    }
    proof {
        lemma_body_run(s@, start as int, b as int);
    }
    Some(start + b)
}

/// Scan free text for the first DOI match and return it, normalized.
pub fn extract_doi_from_text(s: &str) -> (r: Option<String>)
    ensures
        match r {
            Some(id) => has_doi(s@) && id@ == clean_doi_seq(
                s@.subrange(first_doi(s@), doi_match_end(s@, first_doi(s@))),
            ),
            None => !has_doi(s@),
        },
{
    let s_len: usize = s.unicode_len();
    let mut i: usize = 0;
    #[verifier::loop_isolation(false)]
    while i < s_len
        invariant
            i <= s_len,
            forall|j: int| 0 <= j < i ==> !doi_match_at(s@, j),
        decreases s_len - i,
    {
        if let Some(e) = doi_at(s, i) {
            proof {
                lemma_first_doi_is(s@, i as int);
            }
            return Some(clean_doi(s.substring_char(i, e)));
        }
        i += 1;
    }
    proof {
        if has_doi(s@) {
            let w = choose|j: int| doi_match_at(s@, j);
            assert(!doi_match_at(s@, w));
            assert(false);
        }
    }
    None
}

/// The part of `url` after its last `doi.org/` marker (meaningful only when
/// the marker occurs).
pub open spec fn marker_suffix(url: Seq<char>) -> Seq<char> {
    url.subrange(last_occ(url, "doi.org/"@) + "doi.org/"@.len(), url.len() as int)
}

/// The first URL rule: a `doi.org/` link yields its normalized suffix when
/// that suffix contains a DOI match.
pub open spec fn doi_url_step(url: Seq<char>) -> Option<Seq<char>> {
    if contains_seq(url, "doi.org/"@) && has_doi(clean_doi_seq(marker_suffix(url))) {
        Some(clean_doi_seq(marker_suffix(url)))
    } else {
        None
    }
}

/// The segment of `s` between the first occurrence of `p` and the next one
/// (or the end), as iterating `p`-separated fields yields it.
pub open spec fn segment_after(s: Seq<char>, p: Seq<char>) -> Seq<char> {
    let rest = s.subrange(first_occ(s, p) + p.len(), s.len() as int);
    if contains_seq(rest, p) {
        rest.subrange(0, first_occ(rest, p))
    } else {
        rest
    }
}

/// The arXiv identifier read out of a URL segment: the part before any query
/// string, with trailing `.pdf` extensions removed.
pub open spec fn arxiv_id_of(seg: Seq<char>) -> Seq<char> {
    rtrim_pat(seg.subrange(0, idx_of_char(seg, '?')), ".pdf"@)
}

/// The second URL rule: an `arxiv.org` link yields `arXiv:` followed by the
/// identifier taken from the segment after `/abs/` (or, failing that,
/// `/pdf/`); no shape check is applied to that identifier.
pub open spec fn arxiv_url_step(url: Seq<char>) -> Option<Seq<char>> {
    if contains_seq(url, "arxiv.org"@) {
        if contains_seq(url, "/abs/"@) {
            Some("arXiv:"@ + arxiv_id_of(segment_after(url, "/abs/"@)))
        } else if contains_seq(url, "/pdf/"@) {
            Some("arXiv:"@ + arxiv_id_of(segment_after(url, "/pdf/"@)))
        } else {
            None
        }
    } else {
        None
    }
}

/// The identifier a URL yields: the `doi.org/` rule, else the `arxiv.org`
/// rule, else a DOI scan of the raw URL text.
pub open spec fn url_identifier(url: Seq<char>) -> Option<Seq<char>> {
    if doi_url_step(url) is Some {
        doi_url_step(url)
    } else if arxiv_url_step(url) is Some {
        arxiv_url_step(url)
    } else if has_doi(url) {
        Some(clean_doi_seq(url.subrange(first_doi(url), doi_match_end(url, first_doi(url)))))
    } else {
        None
    }
}

/// Extract the canonical identifier from a hit's URL, if any rule applies.
pub fn extract_doi_from_url(url: &str) -> (r: Option<String>)
    ensures
        match r {
            Some(id) => url_identifier(url@) == Some(id@),
            None => url_identifier(url@) is None,
        },
{
    proof {
        reveal_strlit("doi.org/");
        reveal_strlit("arxiv.org");
        reveal_strlit("/abs/");
        reveal_strlit("/pdf/");
        reveal_strlit("arXiv:");
    }
    let s_len: usize = url.unicode_len();
    if let Some(m) = rfind_sub(url, "doi.org/") {
        proof {
            lemma_last_occ_is(url@, "doi.org/"@, m as int);
        }
        let suffix = url.substring_char(m + 8, s_len);
        let cleaned = clean_doi(suffix);
        if extract_doi_from_text(cleaned.as_str()).is_some() {
            return Some(cleaned);
        }
    }
    if contains_sub(url, "arxiv.org") {
        let seg: Option<&str> = if let Some(a) = find_sub(url, "/abs/") {
            proof {
                lemma_first_occ_is(url@, "/abs/"@, a as int);
            }
            let rest = url.substring_char(a + 5, s_len);
            if let Some(b) = find_sub(rest, "/abs/") {
                proof {
                    lemma_first_occ_is(rest@, "/abs/"@, b as int);
                }
                Some(rest.substring_char(0, b))
            } else {
                Some(rest)
            }
        } else if let Some(a) = find_sub(url, "/pdf/") {
            proof {
                lemma_first_occ_is(url@, "/pdf/"@, a as int);
            }
            let rest = url.substring_char(a + 5, s_len);
            if let Some(b) = find_sub(rest, "/pdf/") {
                proof {
                    lemma_first_occ_is(rest@, "/pdf/"@, b as int);
                }
                Some(rest.substring_char(0, b))
            } else {
                Some(rest)
            }
        } else {
            None
        };
        if let Some(seg) = seg {
            let seg_len: usize = seg.unicode_len();
            let q = find_char_from(seg, '?', 0);
            proof {
                assert(seg@.subrange(0, seg@.len() as int) =~= seg@);
            }
            let head = seg.substring_char(0, q);
            let id = trim_end_matches_str(head, ".pdf");
            let mut out = String::from_str("arXiv:");
            out.append(id);
            return Some(out);
        }
    }
    extract_doi_from_text(url)
}

/// Law: a URL whose last `doi.org/` marker is followed by text that
/// normalizes to a well-formed DOI yields exactly that normalized suffix.
pub proof fn lemma_url_doi_extraction(url: Seq<char>)
    requires
        contains_seq(url, "doi.org/"@),
        has_doi(clean_doi_seq(marker_suffix(url))),
    ensures
        url_identifier(url) == Some(clean_doi_seq(marker_suffix(url))),
{
}

} // verus!
