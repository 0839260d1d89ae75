//! Relevance verdicts: strict parsing of the model's two-line reply with its
//! fallback rules, the exact acceptance boundary, and the fixed fail-open
//! policies.

use vstd::prelude::*;
use vstd::string::StrSliceExecFns;
use vstd::string::StringExecFns;
use crate::strutil::contains_seq;
use crate::strutil::contains_sub;
use crate::strutil::trim_seq;
use crate::strutil::trim_str;
use crate::strutil::lines_of;
use crate::strutil::split_lines;
use crate::strutil::tokens_of;
use crate::strutil::split_tokens;
use crate::strutil::views_of;
use crate::strutil::join_with;
use crate::strutil::join_strings;
use crate::strutil::idx_of_char;
use crate::strutil::find_char_from;
use crate::numtext::is_score_token;
use crate::numtext::score_token_fits;
use crate::numtext::score_token_val;
use crate::numtext::parse_score_token;

verus! {

/// Sentinel score (in hundredths: 1.10) meaning validation was not performed.
pub const DISABLED_SCORE: i64 = 110;

/// Default score (0.70) when the model call fails: the pipeline fails open.
pub const ERROR_SCORE: i64 = 70;

/// Default score (0.50) when no number can be read out of the model's reply.
pub const FALLBACK_SCORE: i64 = 50;

/// The outcome of relevance validation; the score is in hundredths.
pub struct Verdict {
    pub accepted: bool,
    pub score: i64,
    pub reason: String,
}

/// The uppercased form of a text, as `str::to_uppercase` yields it.
pub uninterp spec fn upper_of(s: Seq<char>) -> Seq<char>;

/// Relies on str::to_uppercase: the uppercased text is a function of the
/// characters alone.
#[verifier::external_body]
fn to_upper(s: &str) -> (r: String)
    ensures
        r@ == upper_of(s@),
{
    s.to_uppercase()
}

/// The line carries the marker `m` once uppercased.
pub open spec fn has_marker(l: Seq<char>, m: Seq<char>) -> bool {
    contains_seq(upper_of(l), m)
}

/// Some line of `ls` carries the marker.
pub open spec fn some_marker_line(ls: Seq<Seq<char>>, m: Seq<char>) -> bool {
    exists|i: int| 0 <= i < ls.len() && has_marker(ls[i], m)
}

/// The first line of `ls` that carries the marker (meaningful only when
/// `some_marker_line` holds).
pub open spec fn marker_line_idx(ls: Seq<Seq<char>>, m: Seq<char>) -> int {
    choose|i: int|
        0 <= i < ls.len() && has_marker(ls[i], m) && (forall|j: int|
            0 <= j < i ==> !has_marker(ls[j], m))
}

pub proof fn lemma_marker_line_is(ls: Seq<Seq<char>>, m: Seq<char>, i: int)
    requires
        0 <= i < ls.len(),
        has_marker(ls[i], m),
        forall|j: int| 0 <= j < i ==> !has_marker(ls[j], m),
    ensures
        some_marker_line(ls, m),
        marker_line_idx(ls, m) == i,
{
    let i2 = marker_line_idx(ls, m);
    assert(0 <= i2 < ls.len() && has_marker(ls[i2], m) && (forall|j: int|
        0 <= j < i2 ==> !has_marker(ls[j], m)));
}

/// Everything after the first colon of `l`, trimmed; empty without a colon.
pub open spec fn after_colon(l: Seq<char>) -> Seq<char> {
    if idx_of_char(l, ':') < l.len() {
        trim_seq(l.subrange(idx_of_char(l, ':') + 1, l.len() as int))
    } else {
        Seq::empty()
    }
}

/// The token parses as a score in hundredths.
pub open spec fn parseable_score(t: Seq<char>) -> bool {
    is_score_token(t) && score_token_fits(t)
}

/// Some token of `ts` parses as a score.
pub open spec fn some_parseable_token(ts: Seq<Seq<char>>) -> bool {
    exists|i: int| 0 <= i < ts.len() && parseable_score(ts[i])
}

/// The first token of `ts` that parses as a score (meaningful only when
/// `some_parseable_token` holds).
pub open spec fn first_parseable_idx(ts: Seq<Seq<char>>) -> int {
    choose|i: int|
        0 <= i < ts.len() && parseable_score(ts[i]) && (forall|j: int|
            0 <= j < i ==> !parseable_score(ts[j]))
}

pub proof fn lemma_first_parseable_is(ts: Seq<Seq<char>>, i: int)
    requires
        0 <= i < ts.len(),
        parseable_score(ts[i]),
        forall|j: int| 0 <= j < i ==> !parseable_score(ts[j]),
    ensures
        some_parseable_token(ts),
        first_parseable_idx(ts) == i,
{
    let i2 = first_parseable_idx(ts);
    assert(0 <= i2 < ts.len() && parseable_score(ts[i2]) && (forall|j: int|
        0 <= j < i2 ==> !parseable_score(ts[j])));
}

/// The score read by scanning all whitespace-separated tokens of the trimmed
/// reply for the first one that parses; [`FALLBACK_SCORE`] when none does.
pub open spec fn token_fallback_score(t: Seq<char>) -> int {
    let ts = tokens_of(t);
    if some_parseable_token(ts) {
        score_token_val(ts[first_parseable_idx(ts)])
    } else {
        FALLBACK_SCORE as int
    }
}

/// The score of a raw model reply: the text after the colon of the first
/// line whose uppercased form carries `SCORE:`, if it parses; else the token
/// scan of the whole trimmed reply; else [`FALLBACK_SCORE`].
pub open spec fn response_score(resp: Seq<char>) -> int {
    let t = trim_seq(resp);
    let ls = lines_of(t);
    if some_marker_line(ls, "SCORE:"@) {
        let l = ls[marker_line_idx(ls, "SCORE:"@)];
        if parseable_score(after_colon(l)) {
            score_token_val(after_colon(l))
        } else {
            token_fallback_score(t)
        }
    } else {
        token_fallback_score(t)
    }
}

/// The reason of a raw model reply: everything after the first colon of the
/// first line whose uppercased form carries `REASON:` (colons inside the
/// reason kept); else all lines after the first, joined with spaces, trimmed.
pub open spec fn response_reason(resp: Seq<char>) -> Seq<char> {
    let t = trim_seq(resp);
    let ls = lines_of(t);
    if some_marker_line(ls, "REASON:"@) {
        after_colon(ls[marker_line_idx(ls, "REASON:"@)])
    } else if ls.len() <= 1 {
        Seq::empty()
    } else {
        trim_seq(join_with(ls.subrange(1, ls.len() as int), " "@))
    }
}

/// Find the first line whose uppercased form carries the marker.
fn find_marker_line(lines: &Vec<String>, marker: &str) -> (r: Option<usize>)
    ensures
        match r {
            Some(i) => i < lines@.len() && some_marker_line(views_of(lines@), marker@)
                && marker_line_idx(views_of(lines@), marker@) == i as int,
            None => !some_marker_line(views_of(lines@), marker@),
        },
{
    let n: usize = lines.len();
    let mut i: usize = 0;
    #[verifier::loop_isolation(false)]
    while i < n
        invariant
            i <= n,
            forall|j: int| 0 <= j < i ==> !has_marker(views_of(lines@)[j], marker@),
        decreases n - i,
    {
        let up = to_upper(lines[i].as_str());
        if contains_sub(up.as_str(), marker) {
            proof {
                lemma_marker_line_is(views_of(lines@), marker@, i as int);
            }
            return Some(i);
        }
        i += 1;
    }
    proof {
        if some_marker_line(views_of(lines@), marker@) {
            let w = choose|j: int|
                0 <= j < views_of(lines@).len() && has_marker(views_of(lines@)[j], marker@);
            assert(!has_marker(views_of(lines@)[w], marker@));
            assert(false);
        }
    }
    None
}

/// Everything after the first colon of `l`, trimmed.
fn after_colon_str(l: &str) -> (r: String)
    ensures
        r@ == after_colon(l@),
{
    let l_len: usize = l.unicode_len();
    let c = find_char_from(l, ':', 0);
    proof {
        assert(l@.subrange(0, l@.len() as int) =~= l@);
    }
    if c < l_len {
        String::from_str(trim_str(l.substring_char(c + 1, l_len)))
    } else {
        String::new()
    }
}

/// The token-scan fallback: the first whitespace-separated token of `t` that
/// parses as a score, else [`FALLBACK_SCORE`].
fn scan_tokens_for_score(t: &str) -> (r: i64)
    ensures
        r == token_fallback_score(t@),
{
    let toks = split_tokens(t);
    let n: usize = toks.len();
    let mut i: usize = 0;
    #[verifier::loop_isolation(false)]
    while i < n
        invariant
            i <= n,
            forall|j: int| 0 <= j < i ==> !parseable_score(views_of(toks@)[j]),
        decreases n - i,
    {
        if let Some(v) = parse_score_token(toks[i].as_str()) {
            proof {
                lemma_first_parseable_is(views_of(toks@), i as int);
            }
            return v;
        }
        i += 1;
    }
    proof {
        if some_parseable_token(views_of(toks@)) {
            let w = choose|j: int|
                0 <= j < views_of(toks@).len() && parseable_score(views_of(toks@)[j]);
            assert(!parseable_score(views_of(toks@)[w]));
            assert(false);
        }
    }
    FALLBACK_SCORE
}

/// All lines after the first, joined with spaces and trimmed.
fn join_rest_of_lines(lines: &Vec<String>) -> (r: String)
    ensures
        r@ == if views_of(lines@).len() <= 1 {
            Seq::<char>::empty()
        } else {
            trim_seq(join_with(views_of(lines@).subrange(1, views_of(lines@).len() as int), " "@))
        },
{
    let n: usize = lines.len();
    if n <= 1 {
        return String::new();
    }
    let mut rest: Vec<String> = Vec::new();
    let mut k: usize = 1;
    #[verifier::loop_isolation(false)]
    while k < n
        invariant
            1 <= k <= n,
            rest@.len() == k - 1,
            forall|j: int| 0 <= j < k - 1 ==> rest@[j] == lines@[j + 1],
        decreases n - k,
    {
        rest.push(lines[k].clone());
        k += 1;
    }
    proof {
        assert(views_of(rest@) =~= views_of(lines@).subrange(1, lines@.len() as int));
    }
    String::from_str(trim_str(join_strings(&rest, " ").as_str()))
}

/// Parse a raw model reply into its score (in hundredths) and reason, and
/// accept exactly when the score reaches `min_score`: the boundary itself is
/// accepted, anything below is rejected.
#[verifier::rlimit(80)]
pub fn parse_verdict(resp: &str, min_score: i64) -> (v: Verdict)
    ensures
        v.score == response_score(resp@),
        v.reason@ == response_reason(resp@),
        v.accepted == (v.score >= min_score),
{
    let t = trim_str(resp);
    let lines = split_lines(t);
    let score: i64 = match find_marker_line(&lines, "SCORE:") {
        Some(i) => {
            let tok = after_colon_str(lines[i].as_str());
            match parse_score_token(tok.as_str()) {
                Some(v) => v,
                None => scan_tokens_for_score(t),
            }
        },
        None => scan_tokens_for_score(t),
    };
    let reason: String = match find_marker_line(&lines, "REASON:") {
        Some(i) => after_colon_str(lines[i].as_str()),
        None => join_rest_of_lines(&lines),
    };
    Verdict { accepted: score >= min_score, score, reason }
}

/// The verdict when validation is administratively disabled: accepted, with
/// the out-of-range sentinel score 1.10 and a fixed reason.
pub fn disabled_verdict() -> (v: Verdict)
    ensures
        v.accepted,
        v.score == DISABLED_SCORE,
        v.reason@ == "AI disabled -_-"@,
{
    Verdict { accepted: true, score: DISABLED_SCORE, reason: String::from_str("AI disabled -_-") }
}

/// The verdict when the model call fails, whatever the inputs were: the
/// candidate is accepted with score 0.70 and a fixed reason (fail open).
pub fn model_failure_verdict() -> (v: Verdict)
    ensures
        v.accepted,
        v.score == ERROR_SCORE,
        v.reason@ == "AI error, accepted by default"@,
{
    Verdict {
        accepted: true,
        score: ERROR_SCORE,
        reason: String::from_str("AI error, accepted by default"),
    }
}

} // verus!
