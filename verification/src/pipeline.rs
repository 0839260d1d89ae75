//! The pipeline's decisions: per-candidate enrichment steps with the
//! monotonic-abstract rule, the deduplication check, the validator glue with
//! its fail-open defaults, the metadata-source order, search parameters with
//! the time-range fallback, and run statistics.
//!
//! These functions decide; the surrounding program performs the network and
//! file work between them and hands the outcomes back as plain values.

use vstd::prelude::*;
use vstd::string::StrSliceExecFns;
use vstd::string::StringExecFns;
use crate::strutil::contains_seq;
use crate::strutil::rtrim_char;
use crate::strutil::trim_end_char;
use crate::strutil::ends_with_seq;
use crate::strutil::ends_with_str;
use crate::strutil::last_occ;
use crate::strutil::lemma_last_occ_is;
use crate::strutil::rfind_sub;
use crate::strutil::truncated_chars;
use crate::strutil::safe_truncate;
use crate::ident::url_identifier;
use crate::ident::extract_doi_from_url;
use crate::ident::clean_doi_seq;
use crate::ident::clean_doi;
use crate::ident::is_ascii_digit;
use crate::numtext::all_digits;
use crate::numtext::dec_val;
use crate::numtext::score_int_bound;
use crate::numtext::parse_digit_run;
use crate::verdict::Verdict;
use crate::verdict::parse_verdict;
use crate::verdict::disabled_verdict;
use crate::verdict::model_failure_verdict;
use crate::verdict::response_score;
use crate::verdict::response_reason;
use crate::verdict::DISABLED_SCORE;
use crate::verdict::ERROR_SCORE;
use crate::dedup::DedupStore;

verus! {

/// One raw web-search hit, as the search client hands it over.
pub struct RawCandidate {
    pub title: String,
    pub url: String,
    pub snippet: String,
}

/// A candidate's record as resolution stages improve it.
pub struct EnrichedRecord {
    pub title: String,
    pub url: String,
    pub identifier: Option<String>,
    pub abstract_text: String,
}

/// The options the pipeline's decisions consume.
pub struct PipelineConfig {
    pub subject: String,
    pub model: String,
    pub min_score: i64,
    pub use_ai: bool,
    pub max_results: usize,
    pub output: String,
}

/// Start a candidate: extract the identifier from the URL, seed the abstract
/// with the snippet, and decide whether the page must be scraped (identifier
/// missing, or the abstract still under 100 characters).
pub fn begin_candidate(c: &RawCandidate) -> (r: (EnrichedRecord, bool))
    ensures
        r.0.title@ == c.title@,
        r.0.url@ == c.url@,
        r.0.abstract_text@ == c.snippet@,
        match r.0.identifier {
            Some(id) => url_identifier(c.url@) == Some(id@),
            None => url_identifier(c.url@) is None,
        },
        r.1 == (r.0.identifier is None || c.snippet@.len() < 100),
{
    let identifier = extract_doi_from_url(c.url.as_str());
    let need_page = identifier.is_none() || c.snippet.as_str().unicode_len() < 100;
    (
        EnrichedRecord {
            title: c.title.clone(),
            url: c.url.clone(),
            identifier,
            abstract_text: c.snippet.clone(),
        },
        need_page,
    )
}

/// Merge what the page scrape returned: a missing identifier is filled in,
/// and the abstract is replaced only by a non-empty, strictly longer one.
pub fn apply_page_data(rec: &mut EnrichedRecord, page_abstract: &str, page_doi: Option<String>)
    ensures
        final(rec).title == old(rec).title,
        final(rec).url == old(rec).url,
        final(rec).identifier == if old(rec).identifier is Some {
            old(rec).identifier
        } else {
            page_doi
        },
        final(rec).abstract_text@ == if page_abstract@.len() > 0 && page_abstract@.len() > old(
            rec,
        ).abstract_text@.len() {
            page_abstract@
        } else {
            old(rec).abstract_text@
        },
        final(rec).abstract_text@.len() >= old(rec).abstract_text@.len(),
{
    if rec.identifier.is_none() {
        rec.identifier = page_doi;
    }
    let pa_len: usize = page_abstract.unicode_len();
    if pa_len > 0 && pa_len > rec.abstract_text.as_str().unicode_len() {
        rec.abstract_text = String::from_str(page_abstract);
    }
}

/// A candidate is skipped exactly when it carries an identifier that the
/// store has already processed.
pub fn should_skip(store: &DedupStore, rec: &EnrichedRecord) -> (r: bool)
    ensures
        r == match rec.identifier {
            Some(id) => store.has_id(id@),
            None => false,
        },
{
    match &rec.identifier {
        Some(id) => store.contains(id.as_str()),
        None => false,
    }
}

/// The identifier-lookup chain runs exactly when an identifier is known but
/// the abstract is still under 100 characters.
pub fn needs_api_metadata(rec: &EnrichedRecord) -> (r: bool)
    ensures
        r == (rec.identifier is Some && rec.abstract_text@.len() < 100),
{
    rec.identifier.is_some() && rec.abstract_text.as_str().unicode_len() < 100
}

/// Merge what an identifier-lookup source returned: a non-empty title
/// replaces the current one; the abstract is replaced only by a non-empty,
/// strictly longer one.
pub fn apply_api_metadata(rec: &mut EnrichedRecord, api_title: &str, api_abstract: &str)
    ensures
        final(rec).url == old(rec).url,
        final(rec).identifier == old(rec).identifier,
        final(rec).title@ == if api_title@.len() > 0 {
            api_title@
        } else {
            old(rec).title@
        },
        final(rec).abstract_text@ == if api_abstract@.len() > 0 && api_abstract@.len() > old(
            rec,
        ).abstract_text@.len() {
            api_abstract@
        } else {
            old(rec).abstract_text@
        },
        final(rec).abstract_text@.len() >= old(rec).abstract_text@.len(),
{
    if api_title.unicode_len() > 0 {
        rec.title = String::from_str(api_title);
    }
    let aa_len: usize = api_abstract.unicode_len();
    if aa_len > 0 && aa_len > rec.abstract_text.as_str().unicode_len() {
        rec.abstract_text = String::from_str(api_abstract);
    }
}

/// The final fallback before scoring: an abstract of at most 50 characters
/// is replaced by the title, so scoring always has input.
pub fn finalize_abstract(rec: &mut EnrichedRecord)
    ensures
        final(rec).title == old(rec).title,
        final(rec).url == old(rec).url,
        final(rec).identifier == old(rec).identifier,
        final(rec).abstract_text@ == if old(rec).abstract_text@.len() > 50 {
            old(rec).abstract_text@
        } else {
            old(rec).title@
        },
{
    if rec.abstract_text.as_str().unicode_len() <= 50 {
        rec.abstract_text = rec.title.clone();
    }
}

/// The ordered identifier-lookup sources: the direct resolution endpoint,
/// then the secondary registry, then the tertiary registry.
#[derive(Clone, Copy, PartialEq, Eq, Structural, Debug)]
pub enum ApiSource {
    DoiOrg,
    CrossRef,
    DataCite,
}

/// The chain starts at the direct resolution endpoint.
pub fn first_api_source() -> (r: ApiSource)
    ensures
        r == ApiSource::DoiOrg,
{
    ApiSource::DoiOrg
}

/// The source tried after `s`, if any.
pub fn next_api_source(s: &ApiSource) -> (r: Option<ApiSource>)
    ensures
        match s {
            ApiSource::DoiOrg => r == Some(ApiSource::CrossRef),
            ApiSource::CrossRef => r == Some(ApiSource::DataCite),
            ApiSource::DataCite => r is None,
        },
{
    match s {
        ApiSource::DoiOrg => Some(ApiSource::CrossRef),
        ApiSource::CrossRef => Some(ApiSource::DataCite),
        ApiSource::DataCite => None,
    }
}

/// The lookup URL for `s`, built from the normalized identifier.
pub fn api_url(s: &ApiSource, doi: &str) -> (r: String)
    ensures
        r@ == match s {
            ApiSource::DoiOrg => "https://doi.org/"@ + clean_doi_seq(doi@),
            ApiSource::CrossRef => "https://api.crossref.org/works/"@ + clean_doi_seq(doi@),
            ApiSource::DataCite => "https://api.datacite.org/dois/"@ + clean_doi_seq(doi@),
        },
{
    let cleaned = clean_doi(doi);
    let mut out = match s {
        ApiSource::DoiOrg => String::from_str("https://doi.org/"),
        ApiSource::CrossRef => String::from_str("https://api.crossref.org/works/"),
        ApiSource::DataCite => String::from_str("https://api.datacite.org/dois/"),
    };
    out.append(cleaned.as_str());
    out
}

/// The scoring prompt: the fixed template around the subject, the title, and
/// the abstract cut to at most 400 bytes at a character boundary.
pub fn scoring_prompt(subject: &str, title: &str, abstract_text: &str) -> (r: String)
    ensures
        r@ == "You are evaluating if a scientific paper is relevant to a research topic.\n\nResearch Topic: \""@
            + subject@
            + "\"\n\nPaper Title: \""@
            + title@
            + "\"\n\nAbstract: \""@
            + truncated_chars(abstract_text, 400)
            + "\"\n\nRate the relevance from 0.0 to 1.0 and give a ONE to TWO sentence explanation.\n\nFormat your response EXACTLY like this:\nSCORE: 0.85\nREASON: This paper directly addresses machine learning algorithms for classification tasks.\n\nBe very strict only give high scores (0.85+) if the paper is directly about the topic."@,
{
    let preview = safe_truncate(abstract_text, 400);
    let mut out = String::from_str(
        "You are evaluating if a scientific paper is relevant to a research topic.\n\nResearch Topic: \"",
    );
    out.append(subject);
    out.append("\"\n\nPaper Title: \"");
    out.append(title);
    out.append("\"\n\nAbstract: \"");
    out.append(preview);
    out.append(
        "\"\n\nRate the relevance from 0.0 to 1.0 and give a ONE to TWO sentence explanation.\n\nFormat your response EXACTLY like this:\nSCORE: 0.85\nREASON: This paper directly addresses machine learning algorithms for classification tasks.\n\nBe very strict only give high scores (0.85+) if the paper is directly about the topic.",
    );
    out
}

/// The verdict for a candidate: the disabled sentinel when validation is
/// off; the parsed model reply when a reply came back; the fixed fail-open
/// default when the model call failed.
pub fn relevance_verdict(use_ai: bool, outcome: Option<&str>, min_score: i64) -> (v: Verdict)
    ensures
        !use_ai ==> v.accepted && v.score == DISABLED_SCORE && v.reason@ == "AI disabled -_-"@,
        use_ai ==> match outcome {
            Some(resp) => v.score == response_score(resp@) && v.reason@ == response_reason(resp@)
                && v.accepted == (v.score >= min_score),
            None => v.accepted && v.score == ERROR_SCORE && v.reason@
                == "AI error, accepted by default"@,
        },
{
    if !use_ai {
        disabled_verdict()
    } else {
        match outcome {
            Some(resp) => parse_verdict(resp, min_score),
            None => model_failure_verdict(),
        }
    }
}

/// Record an accepted candidate's identifier in the store, once its record
/// was durably appended; a record without an identifier changes nothing.
pub fn record_accepted(store: &mut DedupStore, identifier: &Option<String>)
    ensures
        forall|x: Seq<char>|
            final(store).has_id(x) == (old(store).has_id(x) || (identifier is Some
                && identifier->0@ == x)),
{
    match identifier {
        Some(id) => store.insert(id.clone()),
        None => {
        },
    }
}

/// Totals for one run.
pub struct RunStats {
    pub processed: usize,
    pub validated: usize,
    pub saved: usize,
    pub skipped: usize,
}

impl RunStats {
    /// A fresh, zeroed summary.
    pub fn new() -> (s: RunStats)
        ensures
            s.processed == 0 && s.validated == 0 && s.saved == 0 && s.skipped == 0,
    {
        RunStats { processed: 0, validated: 0, saved: 0, skipped: 0 }
    }

    /// Note how many candidates the run took on.
    pub fn set_processed(&mut self, n: usize)
        ensures
            final(self).processed == n,
            final(self).validated == old(self).validated,
            final(self).saved == old(self).saved,
            final(self).skipped == old(self).skipped,
    {
        self.processed = n;
    }

    /// One more candidate validated as relevant.
    pub fn note_validated(&mut self)
        requires
            old(self).validated < usize::MAX,
        ensures
            final(self).validated == old(self).validated + 1,
            final(self).processed == old(self).processed,
            final(self).saved == old(self).saved,
            final(self).skipped == old(self).skipped,
    {
        self.validated = self.validated + 1;
    }

    /// One more record durably saved.
    pub fn note_saved(&mut self)
        requires
            old(self).saved < usize::MAX,
        ensures
            final(self).saved == old(self).saved + 1,
            final(self).processed == old(self).processed,
            final(self).validated == old(self).validated,
            final(self).skipped == old(self).skipped,
    {
        self.saved = self.saved + 1;
    }

    /// One more candidate skipped (already processed, or rejected).
    pub fn note_skipped(&mut self)
        requires
            old(self).skipped < usize::MAX,
        ensures
            final(self).skipped == old(self).skipped + 1,
            final(self).processed == old(self).processed,
            final(self).validated == old(self).validated,
            final(self).saved == old(self).saved,
    {
        self.skipped = self.skipped + 1;
    }
}

/// `t` is an optional `+` and then digits whose value is at most `bound`.
pub open spec fn plus_stripped(t: Seq<char>) -> Seq<char> {
    if t.len() > 0 && t[0] == '+' {
        t.subrange(1, t.len() as int)
    } else {
        t
    }
}

/// `t` reads as an unsigned decimal of value at most `bound`.
pub open spec fn uint_text_upto(t: Seq<char>, bound: int) -> bool {
    &&& plus_stripped(t).len() > 0
    &&& all_digits(plus_stripped(t))
    &&& dec_val(plus_stripped(t)) <= bound
}

/// Parse an unsigned decimal of value at most `bound`.
fn parse_uint_upto(s: &str, bound: u64) -> (r: Option<u64>)
    requires
        bound <= score_int_bound(),
    ensures
        match r {
            Some(v) => uint_text_upto(s@, bound as int) && v == dec_val(plus_stripped(s@)),
            None => !uint_text_upto(s@, bound as int),
        },
{
    let s_len: usize = s.unicode_len();
    let from: usize = if s_len > 0 && s.get_char(0) == '+' {
        1
    } else {
        0
    };
    let ghost u = plus_stripped(s@);
    proof {
        assert(u =~= s@.subrange(from as int, s_len as int));
    }
    if from == s_len {
        return None;
    }
    let mut i: usize = from;
    #[verifier::loop_isolation(false)]
    while i < s_len
        invariant
            from <= i <= s_len,
            forall|j: int| from <= j < i ==> is_ascii_digit(s@[j]),
        decreases s_len - i,
    {
        let c = s.get_char(i);
        if !('0' <= c && c <= '9') {
            proof {
                assert(u[i - from] == s@[i as int]);
            }
            return None;
        }
        i += 1;
    }
    proof {
        assert forall|j: int| 0 <= j < u.len() implies is_ascii_digit(u[j]) by {
            assert(u[j] == s@[from + j]);
        }
    }
    match parse_digit_run(s, from, s_len) {
        Some(v) => {
            if v <= bound as i64 {
                Some(v as u64)
            } else {
                None
            }
        },
        None => None,
    }
}

/// The host and port read out of the configured generative-service address:
/// trailing slashes dropped, then split at the last colon when what follows
/// it is a valid port; port 11434 otherwise.
pub open spec fn host_of(url: Seq<char>) -> Seq<char> {
    let u = rtrim_char(url, '/');
    if contains_seq(u, ":"@) && uint_text_upto(
        u.subrange(last_occ(u, ":"@) + 1, u.len() as int),
        65535,
    ) {
        u.subrange(0, last_occ(u, ":"@))
    } else {
        u
    }
}

/// The port read out of the configured generative-service address.
pub open spec fn port_of(url: Seq<char>) -> int {
    let u = rtrim_char(url, '/');
    if contains_seq(u, ":"@) && uint_text_upto(
        u.subrange(last_occ(u, ":"@) + 1, u.len() as int),
        65535,
    ) {
        dec_val(plus_stripped(u.subrange(last_occ(u, ":"@) + 1, u.len() as int)))
    } else {
        11434
    }
}

/// Split the generative-service address into host and port.
pub fn split_host_port(url: &str) -> (r: (String, u16))
    ensures
        r.0@ == host_of(url@),
        r.1 as int == port_of(url@),
{
    proof {
        reveal_strlit(":");
    }
    let u = trim_end_char(url, '/');
    let u_len: usize = u.unicode_len();
    if let Some(i) = rfind_sub(u, ":") {
        proof {
            lemma_last_occ_is(u@, ":"@, i as int);
        }
        let port_str = u.substring_char(i + 1, u_len);
        if let Some(p) = parse_uint_upto(port_str, 65535) {
            return (String::from_str(u.substring_char(0, i)), p as u16);
        }
    }
    (String::from_str(u), 11434)
}

/// The four standard time ranges that search aggregators accept.
pub open spec fn is_standard_range(tr: Seq<char>) -> bool {
    tr == "day"@ || tr == "week"@ || tr == "month"@ || tr == "year"@
}

/// A multi-year range such as `5year`: a number before the `year` suffix.
pub open spec fn is_multiyear_range(tr: Seq<char>) -> bool {
    &&& ends_with_seq(tr, "year"@)
    &&& tr.len() > 4
    &&& uint_text_upto(tr.subrange(0, tr.len() - 4), u32::MAX as int)
}

/// How a configured time range is handled.
#[derive(Clone, Copy, PartialEq, Eq, Structural, Debug)]
pub enum TimeRange {
    /// No filter was configured.
    AllTime,
    /// One of the standard ranges, passed through.
    Standard,
    /// A multi-year range, unsupported downstream: fall back to `year` and
    /// surface a warning.
    MultiYearFallback,
    /// Unrecognized: continue without a filter, with a warning.
    Invalid,
}

/// Classify a configured time range.
pub fn classify_time_range(tr: &str) -> (r: TimeRange)
    ensures
        r == if tr@.len() == 0 {
            TimeRange::AllTime
        } else if is_multiyear_range(tr@) {
            TimeRange::MultiYearFallback
        } else if is_standard_range(tr@) {
            TimeRange::Standard
        } else {
            TimeRange::Invalid
        },
{
    let tr_len: usize = tr.unicode_len();
    if tr_len == 0 {
        return TimeRange::AllTime;
    }
    let multi = if ends_with_str(tr, "year") && tr_len > 4 {
        proof {
            reveal_strlit("year");
        }
        let prefix = tr.substring_char(0, tr_len - 4);
        parse_uint_upto(prefix, 0xffff_ffff).is_some()
    } else {
        proof {
            reveal_strlit("year");
        }
        false
    };
    if multi {
        return TimeRange::MultiYearFallback;
    }
    if crate::strutil::str_eq(tr, "day") || crate::strutil::str_eq(tr, "week")
        || crate::strutil::str_eq(tr, "month") || crate::strutil::str_eq(tr, "year") {
        TimeRange::Standard
    } else {
        TimeRange::Invalid
    }
}

/// The query parameters of one search call: subject, JSON format, category
/// and engines, plus the effective time filter.
pub fn search_params(subject: &str, category: &str, engines: &str, time_range: &str) -> (ps: Vec<
    (String, String),
>)
    ensures
        ps@.len() == 4 || ps@.len() == 5,
        ps@[0].0@ == "q"@ && ps@[0].1@ == subject@,
        ps@[1].0@ == "format"@ && ps@[1].1@ == "json"@,
        ps@[2].0@ == "categories"@ && ps@[2].1@ == category@,
        ps@[3].0@ == "engines"@ && ps@[3].1@ == engines@,
        ps@.len() == 5 <==> (time_range@.len() > 0 && (is_multiyear_range(time_range@)
            || is_standard_range(time_range@))),
        ps@.len() == 5 ==> ps@[4].0@ == "time_range"@,
        ps@.len() == 5 ==> ps@[4].1@ == if is_multiyear_range(time_range@) {
            "year"@
        } else {
            time_range@
        },
{
    let mut ps: Vec<(String, String)> = Vec::new();
    ps.push((String::from_str("q"), String::from_str(subject)));
    ps.push((String::from_str("format"), String::from_str("json")));
    ps.push((String::from_str("categories"), String::from_str(category)));
    ps.push((String::from_str("engines"), String::from_str(engines)));
    match classify_time_range(time_range) {
        TimeRange::MultiYearFallback => {
            ps.push((String::from_str("time_range"), String::from_str("year")));
        },
        TimeRange::Standard => {
            ps.push((String::from_str("time_range"), String::from_str(time_range)));
        },
        TimeRange::AllTime => {
        },
        TimeRange::Invalid => {
        },
    }
    ps
}

/// The search endpoint of a configured aggregator instance.
pub fn search_url(instance: &str) -> (r: String)
    ensures
        r@ == rtrim_char(instance@, '/') + "/search"@,
{
    let mut out = String::from_str(trim_end_char(instance, '/'));
    out.append("/search");
    out
}

/// The probe URL that tests a search aggregator instance.
pub fn searxng_probe_url(base: &str) -> (r: String)
    ensures
        r@ == rtrim_char(base@, '/') + "/search?q=test&format=json"@,
{
    let mut out = String::from_str(trim_end_char(base, '/'));
    out.append("/search?q=test&format=json");
    out
}

/// The model-list URL that tests a generative-service instance.
pub fn ollama_tags_url(base: &str) -> (r: String)
    ensures
        r@ == rtrim_char(base@, '/') + "/api/tags"@,
{
    let mut out = String::from_str(trim_end_char(base, '/'));
    out.append("/api/tags");
    out
}

} // verus!
