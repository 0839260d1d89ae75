//! The deduplication store: the set of identifiers already processed, loaded
//! from the persisted text store, and the exact append-only block format in
//! which accepted records are persisted.

use vstd::prelude::*;
use vstd::string::StrSliceExecFns;
use vstd::string::StringExecFns;
use crate::strutil::trim_seq;
use crate::strutil::trim_str;
use crate::strutil::idx_of_char;
use crate::strutil::find_char_from;
use crate::strutil::lines_of;
use crate::strutil::split_lines;
use crate::strutil::views_of;
use crate::strutil::str_eq;
use crate::numtext::centi_str;
use crate::numtext::format_centi;

verus! {

/// The identifiers already processed; an identifier it holds is never scored
/// or persisted again within the store's lifetime.
pub struct DedupStore {
    ids: Vec<String>,
}

impl DedupStore {
    /// The store holds `id`.
    pub closed spec fn has_id(&self, id: Seq<char>) -> bool {
        exists|i: int| 0 <= i < self.ids@.len() && self.ids@[i]@ == id
    }

    /// An empty store.
    pub fn new() -> (s: DedupStore)
        ensures
            forall|x: Seq<char>| !s.has_id(x),
    {
        DedupStore { ids: Vec::new() }
    }

    /// Whether `id` was already processed.
    pub fn contains(&self, id: &str) -> (r: bool)
        ensures
            r == self.has_id(id@),
    {
        let n: usize = self.ids.len();
        let mut i: usize = 0;
        #[verifier::loop_isolation(false)]
        while i < n
            invariant
                i <= n,
                forall|j: int| 0 <= j < i ==> self.ids@[j]@ != id@,
            decreases n - i,
        {
            if str_eq(self.ids[i].as_str(), id) {
                return true;
            }
            i += 1;
        }
        false
    }

    /// Record `id` as processed; an identifier already held is not stored
    /// twice.
    pub fn insert(&mut self, id: String)
        ensures
            forall|x: Seq<char>|
                final(self).has_id(x) == (old(self).has_id(x) || x == id@),
            final(self).count() == if old(self).has_id(id@) {
                old(self).count()
            } else {
                old(self).count() + 1
            },
    {
        if self.contains(id.as_str()) {
            return ;
        }
        let ghost prev = self.ids@;
        self.ids.push(id);
        proof {
            assert forall|x: Seq<char>|
                self.has_id(x) == (old(self).has_id(x) || x == id@) by {
                if old(self).has_id(x) {
                    let w = choose|i: int| 0 <= i < prev.len() && prev[i]@ == x;
                    assert(self.ids@[w]@ == x);
                }
                if x == id@ {
                    assert(self.ids@[prev.len() as int]@ == x);
                }
                if self.has_id(x) {
                    let w = choose|i: int|
                        0 <= i < self.ids@.len() && self.ids@[i]@ == x;
                    if w < prev.len() {
                        assert(prev[w]@ == x);
                    }
                }
            }
        }
    }

    /// How many distinct identifiers the store holds.
    pub closed spec fn count(&self) -> nat {
        self.ids@.len()
    }

    /// How many distinct identifiers the store holds.
    pub fn len(&self) -> (n: usize)
        ensures
            n == self.count(),
    {
        self.ids.len()
    }
}

/// The identifier field of one store line: the text before the first `|`,
/// trimmed.
pub open spec fn line_id(l: Seq<char>) -> Seq<char> {
    trim_seq(l.subrange(0, idx_of_char(l, '|')))
}

/// Some line of the persisted text carries `id` as its identifier field.
pub open spec fn store_text_has_id(text: Seq<char>, id: Seq<char>) -> bool {
    exists|i: int| 0 <= i < lines_of(text).len() && line_id(lines_of(text)[i]) == id
}

/// Rebuild the store from the persisted text: the first `|`-separated field
/// of every line, trimmed.
pub fn load_dedup_store(text: &str) -> (s: DedupStore)
    ensures
        forall|x: Seq<char>| s.has_id(x) == store_text_has_id(text@, x),
{
    let ghost ls = lines_of(text@);
    let lines = split_lines(text);
    let n: usize = lines.len();
    let mut s = DedupStore::new();
    let mut k: usize = 0;
    #[verifier::loop_isolation(false)]
    while k < n
        invariant
            k <= n,
            forall|x: Seq<char>|
                s.has_id(x) == (exists|i: int| 0 <= i < k && line_id(ls[i]) == x),
        decreases n - k,
    {
        let ghost before = s;
        let l = lines[k].as_str();
        let l_len: usize = l.unicode_len();
        let p = find_char_from(l, '|', 0);
        proof {
            assert(l@.subrange(0, l@.len() as int) =~= l@);
        }
        let field = l.substring_char(0, p);
        let entry = String::from_str(trim_str(field));
        proof {
            assert(entry@ == line_id(ls[k as int]));
        }
        s.insert(entry);
        proof {
            assert forall|x: Seq<char>|
                s.has_id(x) == (exists|i: int| 0 <= i < k + 1 && line_id(ls[i]) == x) by {
                if s.has_id(x) {
                    if before.has_id(x) {
                        let w = choose|i: int| 0 <= i < k && line_id(ls[i]) == x;
                        assert(0 <= w < k + 1 && line_id(ls[w]) == x);
                    } else {
                        assert(line_id(ls[k as int]) == x);
                    }
                }
                if exists|i: int| 0 <= i < k + 1 && line_id(ls[i]) == x {
                    let w = choose|i: int| 0 <= i < k + 1 && line_id(ls[i]) == x;
                    if w < k {
                        assert(before.has_id(x));
                    }
                }
            }
        }
        k += 1;
    }
    s
}

/// The separator line of the persisted block format: seventy equals signs.
pub open spec fn sep_line() -> Seq<char> {
    Seq::new(70, |i: int| '=')
}

/// Build the separator line.
fn make_sep() -> (r: String)
    ensures
        r@ == sep_line(),
{
    let mut out = String::new();
    let mut i: usize = 0;
    #[verifier::loop_isolation(false)]
    while i < 70
        invariant
            i <= 70,
            out@ =~= Seq::new(i as nat, |k: int| '='),
        decreases 70 - i,
    {
        out.append("=");
        proof {
            reveal_strlit("=");
        }
        i += 1;
    }
    out
}

/// One persisted record, exactly as it is appended to the store: separator,
/// the labeled identifier (or `NA`), title, URL, score with two decimals,
/// timestamp, abstract, separator.
pub open spec fn record_block_text(
    doi: Option<Seq<char>>,
    title: Seq<char>,
    url: Seq<char>,
    score: int,
    saved_at: Seq<char>,
    abstract_text: Seq<char>,
) -> Seq<char> {
    seq!['\n'] + sep_line() + seq!['\n'] + "DOI: "@ + (match doi {
        Some(d) => d,
        None => "NA"@,
    }) + seq!['\n'] + "Title: "@ + title + seq!['\n'] + "URL: "@ + url + seq!['\n'] + "Score: "@
        + centi_str(score) + seq!['\n'] + "Saved: "@ + saved_at + seq!['\n'] + "Abstract:\n"@
        + abstract_text + seq!['\n'] + sep_line() + seq!['\n'] + seq!['\n']
}

/// Format one accepted record for the append-only store.
pub fn record_block(
    doi: Option<&String>,
    title: &str,
    url: &str,
    score: i64,
    saved_at: &str,
    abstract_text: &str,
) -> (r: String)
    requires
        score > i64::MIN,
    ensures
        r@ == record_block_text(
            match doi {
                Some(d) => Some(d@),
                None => None,
            },
            title@,
            url@,
            score as int,
            saved_at@,
            abstract_text@,
        ),
{
    let sep = make_sep();
    let mut out = String::from_str("\n");
    proof {
        reveal_strlit("\n");
        reveal_strlit("Abstract:\n");
    }
    out.append(sep.as_str());
    out.append("\n");
    out.append("DOI: ");
    match doi {
        Some(d) => out.append(d.as_str()),
        None => out.append("NA"),
    }
    out.append("\n");
    out.append("Title: ");
    out.append(title);
    out.append("\n");
    out.append("URL: ");
    out.append(url);
    out.append("\n");
    out.append("Score: ");
    let sc = format_centi(score);
    out.append(sc.as_str());
    out.append("\n");
    out.append("Saved: ");
    out.append(saved_at);
    out.append("\n");
    out.append("Abstract:\n");
    out.append(abstract_text);
    out.append("\n");
    out.append(sep.as_str());
    out.append("\n");
    out.append("\n");
    proof {
        assert(out@ =~= record_block_text(
            match doi {
                Some(d) => Some(d@),
                None => None,
            },
            title@,
            url@,
            score as int,
            saved_at@,
            abstract_text@,
        ));
    }
    out
}

} // verus!
