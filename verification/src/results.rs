//! Reading the persisted store back for the results view: the block format
//! parsed line by line, the defensive score filter, and case-insensitive
//! search over the parsed records.

use vstd::prelude::*;
use vstd::string::StrSliceExecFns;
use vstd::string::StringExecFns;
use crate::strutil::contains_seq;
use crate::strutil::contains_sub;
use crate::strutil::starts_with_seq;
use crate::strutil::starts_with_str;
use crate::strutil::ltrim_pat;
use crate::strutil::trim_start_matches_str;
use crate::strutil::trim_seq;
use crate::strutil::trim_str;
use crate::strutil::lines_of;
use crate::strutil::split_lines;
use crate::strutil::views_of;
use crate::strutil::join_with;
use crate::strutil::join_strings;
use crate::numtext::parse_score_token;
use crate::verdict::parseable_score;
use crate::numtext::score_token_val;

verus! {

/// One record parsed back out of the persisted store.
pub struct PaperRecord {
    pub doi: String,
    pub title: String,
    pub url: String,
    pub score: i64,
    pub abstract_text: String,
    pub saved_at: String,
}

/// The mathematical image of one parsed record.
pub ghost struct RecordV {
    pub doi: Seq<char>,
    pub title: Seq<char>,
    pub url: Seq<char>,
    pub score: int,
    pub abstract_text: Seq<char>,
    pub saved_at: Seq<char>,
}

/// The image of an executable record.
pub open spec fn paper_view(p: PaperRecord) -> RecordV {
    RecordV {
        doi: p.doi@,
        title: p.title@,
        url: p.url@,
        score: p.score as int,
        abstract_text: p.abstract_text@,
        saved_at: p.saved_at@,
    }
}

/// The images of a sequence of executable records.
pub open spec fn papers_view(v: Seq<PaperRecord>) -> Seq<RecordV> {
    v.map_values(|p: PaperRecord| paper_view(p))
}

/// A record whose fields are still unset.
pub open spec fn empty_record() -> RecordV {
    RecordV {
        doi: Seq::empty(),
        title: Seq::empty(),
        url: Seq::empty(),
        score: 0,
        abstract_text: Seq::empty(),
        saved_at: Seq::empty(),
    }
}

/// The parser's state after some lines: finished records, the record being
/// read, the abstract lines gathered so far, and whether the cursor stands
/// inside an abstract.
pub ghost struct ParseState {
    pub out: Seq<RecordV>,
    pub cur: Option<RecordV>,
    pub abs_lines: Seq<Seq<char>>,
    pub in_abstract: bool,
}

/// The parser's starting state.
pub open spec fn init_state() -> ParseState {
    ParseState { out: Seq::empty(), cur: None, abs_lines: Seq::empty(), in_abstract: false }
}

/// Finish the record being read: gathered abstract lines joined with spaces
/// and trimmed replace its abstract, and only a record whose score exceeds
/// zero is kept (a defensive filter against malformed lines).
pub open spec fn close_current(st: ParseState) -> Seq<RecordV> {
    match st.cur {
        None => st.out,
        Some(p) => {
            let p2 = if st.abs_lines.len() > 0 {
                RecordV { abstract_text: trim_seq(join_with(st.abs_lines, " "@)), ..p }
            } else {
                p
            };
            if p2.score > 0 {
                st.out.push(p2)
            } else {
                st.out
            }
        },
    }
}

/// One line of the store applied to the parser's state.
pub open spec fn step_line(st: ParseState, l: Seq<char>) -> ParseState {
    if starts_with_seq(l, "===="@) {
        ParseState {
            out: close_current(st),
            cur: Some(empty_record()),
            abs_lines: Seq::empty(),
            in_abstract: false,
        }
    } else if starts_with_seq(l, "DOI: "@) {
        ParseState {
            cur: match st.cur {
                Some(p) => Some(RecordV { doi: ltrim_pat(l, "DOI: "@), ..p }),
                None => None,
            },
            in_abstract: false,
            ..st
        }
    } else if starts_with_seq(l, "Title: "@) {
        ParseState {
            cur: match st.cur {
                Some(p) => Some(RecordV { title: ltrim_pat(l, "Title: "@), ..p }),
                None => None,
            },
            in_abstract: false,
            ..st
        }
    } else if starts_with_seq(l, "URL: "@) {
        ParseState {
            cur: match st.cur {
                Some(p) => Some(RecordV { url: ltrim_pat(l, "URL: "@), ..p }),
                None => None,
            },
            in_abstract: false,
            ..st
        }
    } else if starts_with_seq(l, "Score: "@) {
        ParseState {
            cur: match st.cur {
                Some(p) => Some(
                    RecordV {
                        score: if parseable_score(ltrim_pat(l, "Score: "@)) {
                            score_token_val(ltrim_pat(l, "Score: "@))
                        } else {
                            p.score
                        },
                        ..p
                    },
                ),
                None => None,
            },
            in_abstract: false,
            ..st
        }
    } else if starts_with_seq(l, "Saved: "@) {
        ParseState {
            cur: match st.cur {
                Some(p) => Some(RecordV { saved_at: ltrim_pat(l, "Saved: "@), ..p }),
                None => None,
            },
            in_abstract: false,
            ..st
        }
    } else if starts_with_seq(l, "Abstract:"@) {
        ParseState { abs_lines: Seq::empty(), in_abstract: true, ..st }
    } else if st.in_abstract && trim_seq(l).len() > 0 {
        ParseState { abs_lines: st.abs_lines.push(trim_seq(l)), ..st }
    } else {
        st
    }
}

/// The parser's state after all of `ls`.
pub open spec fn run_lines(st: ParseState, ls: Seq<Seq<char>>) -> ParseState
    decreases ls.len(),
{
    if ls.len() == 0 {
        st
    } else {
        run_lines(step_line(st, ls[0]), ls.subrange(1, ls.len() as int))
    }
}

pub proof fn lemma_run_lines_push(st: ParseState, ls: Seq<Seq<char>>, x: Seq<char>)
    ensures
        run_lines(st, ls.push(x)) == step_line(run_lines(st, ls), x),
    decreases ls.len(),
{
    let e = ls.push(x);
    if ls.len() == 0 {
        assert(e[0] == x);
        assert(e.subrange(1, e.len() as int) =~= Seq::<Seq<char>>::empty());
        assert(run_lines(st, e) == run_lines(step_line(st, x), Seq::empty()));
        assert(run_lines(st, ls) == st);
    } else {
        assert(e[0] == ls[0]);
        assert(e.subrange(1, e.len() as int) =~= ls.subrange(1, ls.len() as int).push(x));
        lemma_run_lines_push(step_line(st, ls[0]), ls.subrange(1, ls.len() as int), x);
        assert(run_lines(st, e) == run_lines(
            step_line(st, ls[0]),
            ls.subrange(1, ls.len() as int).push(x),
        ));
        assert(run_lines(st, ls) == run_lines(
            step_line(st, ls[0]),
            ls.subrange(1, ls.len() as int),
        ));
    }
}

/// The records of the persisted text, in store order.
pub open spec fn parsed_records(text: Seq<char>) -> Seq<RecordV> {
    close_current(run_lines(init_state(), lines_of(text)))
}

/// Finish the record being read, executably.
fn close_current_exec(
    out: &mut Vec<PaperRecord>,
    cur: Option<PaperRecord>,
    abs_lines: &Vec<String>,
    Ghost(in_abstract): Ghost<bool>,
)
    ensures
        papers_view(final(out)@) == close_current(
            ParseState {
                out: papers_view(old(out)@),
                cur: match &cur {
                    Some(p) => Some(paper_view(*p)),
                    None => None,
                },
                abs_lines: views_of(abs_lines@),
                in_abstract: in_abstract,
            },
        ),
{
    let ghost prev = out@;
    match cur {
        None => {
        },
        Some(mut p) => {
            if abs_lines.len() > 0 {
                p.abstract_text = String::from_str(
                    trim_str(join_strings(abs_lines, " ").as_str()),
                );
            }
            if p.score > 0 {
                let ghost pv = paper_view(p);
                out.push(p);
                proof {
                    assert(papers_view(out@) =~= papers_view(prev).push(pv));
                }
            }
        },
    }
}

/// Parse the persisted store back into records: blocks separated by lines of
/// equals signs, labeled fields, a multi-line abstract, and only records
/// whose score exceeds zero.
#[verifier::rlimit(100)]
pub fn parse_results_text(text: &str) -> (r: Vec<PaperRecord>)
    ensures
        papers_view(r@) == parsed_records(text@),
{
    proof {
        reveal_strlit("====");
        reveal_strlit("DOI: ");
        reveal_strlit("Title: ");
        reveal_strlit("URL: ");
        reveal_strlit("Score: ");
        reveal_strlit("Saved: ");
        reveal_strlit("Abstract:");
    }
    let lines = split_lines(text);
    let n: usize = lines.len();
    let mut out: Vec<PaperRecord> = Vec::new();
    let mut cur: Option<PaperRecord> = None;
    let mut abs_lines: Vec<String> = Vec::new();
    let mut in_abstract: bool = false;
    let ghost ls = views_of(lines@);
    proof {
        assert(ls.subrange(0, 0) =~= Seq::<Seq<char>>::empty());
        assert(papers_view(out@) =~= Seq::<RecordV>::empty());
        assert(views_of(abs_lines@) =~= Seq::<Seq<char>>::empty());
    }
    let mut k: usize = 0;
    #[verifier::loop_isolation(false)]
    while k < n
        invariant
            k <= n,
            run_lines(init_state(), ls.subrange(0, k as int)) == (ParseState {
                out: papers_view(out@),
                cur: match &cur {
                    Some(p) => Some(paper_view(*p)),
                    None => None,
                },
                abs_lines: views_of(abs_lines@),
                in_abstract: in_abstract,
            }),
        decreases n - k,
    {
        let ghost st = ParseState {
            out: papers_view(out@),
            cur: match &cur {
                Some(p) => Some(paper_view(*p)),
                None => None,
            },
            abs_lines: views_of(abs_lines@),
            in_abstract: in_abstract,
        };
        let l = lines[k].as_str();
        proof {
            assert(ls.subrange(0, k + 1) =~= ls.subrange(0, k as int).push(l@));
            lemma_run_lines_push(init_state(), ls.subrange(0, k as int), l@);
        }
        if starts_with_str(l, "====") {
            let taken = cur;
            close_current_exec(&mut out, taken, &abs_lines, Ghost(in_abstract));
            cur = Some(
                PaperRecord {
                    doi: String::new(),
                    title: String::new(),
                    url: String::new(),
                    score: 0,
                    abstract_text: String::new(),
                    saved_at: String::new(),
                },
            );
            abs_lines = Vec::new();
            in_abstract = false;
            proof {
                assert(views_of(abs_lines@) =~= Seq::<Seq<char>>::empty());
            }
        } else if starts_with_str(l, "DOI: ") {
            cur = match cur {
                Some(mut p) => {
                    p.doi = String::from_str(trim_start_matches_str(l, "DOI: "));
                    Some(p)
                },
                None => None,
            };
            in_abstract = false;
        } else if starts_with_str(l, "Title: ") {
            cur = match cur {
                Some(mut p) => {
                    p.title = String::from_str(trim_start_matches_str(l, "Title: "));
                    Some(p)
                },
                None => None,
            };
            in_abstract = false;
        } else if starts_with_str(l, "URL: ") {
            cur = match cur {
                Some(mut p) => {
                    p.url = String::from_str(trim_start_matches_str(l, "URL: "));
                    Some(p)
                },
                None => None,
            };
            in_abstract = false;
        } else if starts_with_str(l, "Score: ") {
            cur = match cur {
                Some(mut p) => {
                    match parse_score_token(trim_start_matches_str(l, "Score: ")) {
                        Some(v) => {
                            p.score = v;
                        },
                        None => {
                        },
                    }
                    Some(p)
                },
                None => None,
            };
            in_abstract = false;
        } else if starts_with_str(l, "Saved: ") {
            cur = match cur {
                Some(mut p) => {
                    p.saved_at = String::from_str(trim_start_matches_str(l, "Saved: "));
                    Some(p)
                },
                None => None,
            };
            in_abstract = false;
        } else if starts_with_str(l, "Abstract:") {
            abs_lines = Vec::new();
            in_abstract = true;
            proof {
                assert(views_of(abs_lines@) =~= Seq::<Seq<char>>::empty());
            }
        } else {
            let trimmed = trim_str(l);
            if in_abstract && trimmed.unicode_len() > 0 {
                let ghost prev_abs = abs_lines@;
                abs_lines.push(String::from_str(trimmed));
                proof {
                    assert(views_of(abs_lines@) =~= views_of(prev_abs).push(trim_seq(l@)));
                }
            }
        }
        k += 1;
    }
    proof {
        assert(ls.subrange(0, n as int) =~= ls);
    }
    let taken = cur;
    close_current_exec(&mut out, taken, &abs_lines, Ghost(in_abstract));
    out
}

/// The lowercased form of a text, as `str::to_lowercase` yields it.
pub uninterp spec fn lower_of(s: Seq<char>) -> Seq<char>;

/// Relies on str::to_lowercase: the lowercased text is a function of the
/// characters alone.
#[verifier::external_body]
fn to_lower(s: &str) -> (r: String)
    ensures
        r@ == lower_of(s@),
{
    s.to_lowercase()
}

/// The record matches a search term: its lowercased title, abstract or
/// identifier contains the lowercased term.
pub open spec fn record_matches(p: RecordV, q: Seq<char>) -> bool {
    contains_seq(lower_of(p.title), lower_of(q)) || contains_seq(
        lower_of(p.abstract_text),
        lower_of(q),
    ) || contains_seq(lower_of(p.doi), lower_of(q))
}

/// A fresh copy of one record.
fn clone_paper(p: &PaperRecord) -> (r: PaperRecord)
    ensures
        paper_view(r) == paper_view(*p),
{
    PaperRecord {
        doi: p.doi.clone(),
        title: p.title.clone(),
        url: p.url.clone(),
        score: p.score,
        abstract_text: p.abstract_text.clone(),
        saved_at: p.saved_at.clone(),
    }
}

/// The records that match the search term (all of them without one), newest
/// first: the store is append-only, so reversal puts the latest on top.
pub fn filter_records(records: &Vec<PaperRecord>, query: Option<&str>) -> (r: Vec<PaperRecord>)
    ensures
        papers_view(r@) == (match query {
            Some(q) => papers_view(records@).filter(|p: RecordV| record_matches(p, q@)),
            None => papers_view(records@),
        }).reverse(),
{
    let n: usize = records.len();
    let mut kept: Vec<PaperRecord> = Vec::new();
    match query {
        Some(q) => {
            let lq = to_lower(q);
            let ghost pred = |p: RecordV| record_matches(p, q@);
            proof {
                reveal(Seq::filter);
                assert(papers_view(records@).subrange(0, 0) =~= Seq::<RecordV>::empty());
                assert(papers_view(kept@) =~= Seq::<RecordV>::empty());
            }
            let mut i: usize = 0;
            #[verifier::loop_isolation(false)]
            while i < n
                invariant
                    i <= n,
                    papers_view(kept@) == papers_view(records@).subrange(0, i as int).filter(
                        |p: RecordV| record_matches(p, q@),
                    ),
                decreases n - i,
            {
                let p = &records[i];
                let lt = to_lower(p.title.as_str());
                let la = to_lower(p.abstract_text.as_str());
                let ld = to_lower(p.doi.as_str());
                let hit = contains_sub(lt.as_str(), lq.as_str()) || contains_sub(
                    la.as_str(),
                    lq.as_str(),
                ) || contains_sub(ld.as_str(), lq.as_str());
                let ghost prev_kept = kept@;
                if hit {
                    kept.push(clone_paper(p));
                }
                proof {
                    reveal(Seq::filter);
                    let pre = papers_view(records@).subrange(0, i as int);
                    let ext = papers_view(records@).subrange(0, i + 1);
                    assert(ext.drop_last() =~= pre);
                    assert(ext.last() == paper_view(records@[i as int]));
                    if hit {
                        assert(papers_view(kept@) =~= papers_view(prev_kept).push(
                            paper_view(records@[i as int]),
                        ));
                    }
                }
                i += 1;
            }
            proof {
                assert(papers_view(records@).subrange(0, n as int) =~= papers_view(records@));
            }
        },
        None => {
            let mut i: usize = 0;
            proof {
                assert(papers_view(kept@) =~= Seq::<RecordV>::empty());
            }
            #[verifier::loop_isolation(false)]
            while i < n
                invariant
                    i <= n,
                    papers_view(kept@) == papers_view(records@).subrange(0, i as int),
                decreases n - i,
            {
                let ghost prev_kept = kept@;
                kept.push(clone_paper(&records[i]));
                proof {
                    assert(papers_view(kept@) =~= papers_view(records@).subrange(0, i + 1));
                }
                i += 1;
            }
            proof {
                assert(papers_view(records@).subrange(0, n as int) =~= papers_view(records@));
            }
        },
    }
    // newest first
    let m: usize = kept.len();
    let mut rev: Vec<PaperRecord> = Vec::new();
    let mut j: usize = m;
    #[verifier::loop_isolation(false)]
    while j > 0
        invariant
            j <= m,
            m == kept@.len(),
            rev@.len() == m - j,
            forall|k: int|
                0 <= k < m - j ==> paper_view(rev@[k]) == paper_view(kept@[m - 1 - k]),
        decreases j,
    {
        j -= 1;
        rev.push(clone_paper(&kept[j]));
    }
    proof {
        assert(papers_view(rev@) =~= papers_view(kept@).reverse());
    }
    rev
}

} // verus!
