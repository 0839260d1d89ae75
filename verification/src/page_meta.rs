//! Reading identifier and abstract out of a fetched page. The HTML parsing
//! and CSS selection are done by scraper behind trusted wrappers whose
//! results carry names ([`dom_of`], [`selector_of`], [`attr_contents_of`],
//! [`first_text_of`]: parsing and selection are functions of the document and
//! selector alone); the priority order of the tag lists and the length rules
//! are verified exactly over those names.

use vstd::prelude::*;
use vstd::string::StrSliceExecFns;
use vstd::string::StringExecFns;
use crate::strutil::trim_seq;
use crate::strutil::trim_str;
use crate::strutil::views_of;
use crate::ident::has_doi;
use crate::ident::first_doi;
use crate::ident::doi_match_end;
use crate::ident::clean_doi_seq;
use crate::ident::extract_doi_from_text;

verus! {

#[verifier::external_type_specification]
#[verifier::external_body]
pub struct ExHtml(scraper::Html);

#[verifier::external_type_specification]
#[verifier::external_body]
pub struct ExSelector(scraper::Selector);

/// What scraper::Html::parse_document yields for an HTML text.
pub uninterp spec fn dom_of(html: Seq<char>) -> scraper::Html;

/// What scraper::Selector::parse yields for a selector text; `None` when the
/// text is not a valid selector group.
pub uninterp spec fn selector_of(sel: Seq<char>) -> Option<scraper::Selector>;

/// The `content` attributes of the elements of `doc` matching `sel`, in
/// document order, as scraper's selection yields them.
pub uninterp spec fn attr_contents_of(doc: scraper::Html, sel: scraper::Selector) -> Seq<
    Seq<char>,
>;

/// The text fragments of the first element of `doc` matching `sel`, joined
/// with spaces; `None` when nothing matches.
pub uninterp spec fn first_text_of(doc: scraper::Html, sel: scraper::Selector) -> Option<
    Seq<char>,
>;

/// Relies on scraper::Html::parse_document: builds a DOM from HTML text;
/// parsing does not fail hard.
#[verifier::external_body]
fn parse_document(html: &str) -> (r: scraper::Html)
    ensures
        r == dom_of(html@),
{
    scraper::Html::parse_document(html)
}

/// Relies on scraper::Selector::parse: compiles a CSS selector group, `None`
/// when the selector text is invalid.
#[verifier::external_body]
fn parse_selector(sel: &str) -> (r: Option<scraper::Selector>)
    ensures
        r == selector_of(sel@),
{
    scraper::Selector::parse(sel).ok()
}

/// Relies on scraper::Html::select and Element::attr: the `content`
/// attribute of every element matching the selector, in document order.
#[verifier::external_body]
fn select_attr_contents(doc: &scraper::Html, sel: &scraper::Selector) -> (r: Vec<String>)
    ensures
        views_of(r@) == attr_contents_of(*doc, *sel),
{
    doc.select(sel).filter_map(|e| e.value().attr("content")).map(|s| s.to_string()).collect()
}

/// Relies on scraper::Html::select and ElementRef::text: the text fragments
/// of the first element matching the selector, joined with spaces.
#[verifier::external_body]
fn select_first_text(doc: &scraper::Html, sel: &scraper::Selector) -> (r: Option<String>)
    ensures
        match r {
            Some(t) => first_text_of(*doc, *sel) == Some(t@),
            None => first_text_of(*doc, *sel) is None,
        },
{
    doc.select(sel).next().map(|e| e.text().collect::<Vec<&str>>().join(" "))
}

/// The normalized first DOI match of a text.
pub open spec fn scanned_doi(c: Seq<char>) -> Seq<char> {
    clean_doi_seq(c.subrange(first_doi(c), doi_match_end(c, first_doi(c))))
}

/// The first DOI scanned out of the contents `cs`, in order.
pub open spec fn doi_in_contents(cs: Seq<Seq<char>>) -> Option<Seq<char>>
    decreases cs.len(),
{
    if cs.len() == 0 {
        None
    } else if has_doi(cs[0]) {
        Some(scanned_doi(cs[0]))
    } else {
        doi_in_contents(cs.subrange(1, cs.len() as int))
    }
}

/// The DOI one selector yields: the first matching tag content carrying a
/// DOI match; `None` when the selector does not compile or nothing carries
/// one.
pub open spec fn doi_via(doc: scraper::Html, sel_text: Seq<char>) -> Option<Seq<char>> {
    match selector_of(sel_text) {
        Some(sel) => doi_in_contents(attr_contents_of(doc, sel)),
        None => None,
    }
}

/// The DOI a page's citation meta tags yield: the four selectors in priority
/// order, the first that yields deciding.
pub open spec fn page_doi_of(doc: scraper::Html) -> Option<Seq<char>> {
    if doi_via(doc, "meta[name='citation_doi']"@) is Some {
        doi_via(doc, "meta[name='citation_doi']"@)
    } else if doi_via(doc, "meta[name='DC.Identifier']"@) is Some {
        doi_via(doc, "meta[name='DC.Identifier']"@)
    } else if doi_via(doc, "meta[property='citation_doi']"@) is Some {
        doi_via(doc, "meta[property='citation_doi']"@)
    } else {
        doi_via(doc, "meta[name='DOI']"@)
    }
}

/// The abstract one meta selector yields: the first attributed tag content,
/// when it exceeds 50 characters.
pub open spec fn meta_abstract_via(doc: scraper::Html, sel_text: Seq<char>) -> Option<Seq<char>> {
    match selector_of(sel_text) {
        Some(sel) => {
            let cs = attr_contents_of(doc, sel);
            if cs.len() > 0 && cs[0].len() > 50 {
                Some(cs[0])
            } else {
                None
            }
        },
        None => None,
    }
}

/// The abstract a page's abstract meta tags yield: the four selectors in
/// priority order, the first that yields deciding.
pub open spec fn page_meta_abstract_of(doc: scraper::Html) -> Option<Seq<char>> {
    if meta_abstract_via(doc, "meta[name='citation_abstract']"@) is Some {
        meta_abstract_via(doc, "meta[name='citation_abstract']"@)
    } else if meta_abstract_via(doc, "meta[name='description']"@) is Some {
        meta_abstract_via(doc, "meta[name='description']"@)
    } else if meta_abstract_via(doc, "meta[property='og:description']"@) is Some {
        meta_abstract_via(doc, "meta[property='og:description']"@)
    } else {
        meta_abstract_via(doc, "meta[name='DC.Description']"@)
    }
}

/// The abstract one content selector yields: the first matching element's
/// text, trimmed, when it exceeds 50 characters before trimming.
pub open spec fn content_abstract_via(doc: scraper::Html, sel_text: Seq<char>) -> Option<
    Seq<char>,
> {
    match selector_of(sel_text) {
        Some(sel) => match first_text_of(doc, sel) {
            Some(t) => if t.len() > 50 {
                Some(trim_seq(t))
            } else {
                None
            },
            None => None,
        },
        None => None,
    }
}

/// The abstract a page's abstract-like content elements yield: the seven
/// selectors in priority order, the first that yields deciding.
pub open spec fn page_content_abstract_of(doc: scraper::Html) -> Option<Seq<char>> {
    if content_abstract_via(doc, "abstract"@) is Some {
        content_abstract_via(doc, "abstract"@)
    } else if content_abstract_via(doc, ".abstract"@) is Some {
        content_abstract_via(doc, ".abstract"@)
    } else if content_abstract_via(doc, "#abstract"@) is Some {
        content_abstract_via(doc, "#abstract"@)
    } else if content_abstract_via(doc, "div.abstract"@) is Some {
        content_abstract_via(doc, "div.abstract"@)
    } else if content_abstract_via(doc, "section.abstract"@) is Some {
        content_abstract_via(doc, "section.abstract"@)
    } else if content_abstract_via(doc, "div[class*='abstract']"@) is Some {
        content_abstract_via(doc, "div[class*='abstract']"@)
    } else {
        content_abstract_via(doc, "p[class*='abstract']"@)
    }
}

/// The abstract a page yields: the meta tags decide first, then the content
/// elements; empty when neither yields.
pub open spec fn page_abstract_of(doc: scraper::Html) -> Seq<char> {
    match page_meta_abstract_of(doc) {
        Some(a) => a,
        None => match page_content_abstract_of(doc) {
            Some(a) => a,
            None => Seq::empty(),
        },
    }
}

/// The first DOI scanned from the contents one selector yields.
fn doi_via_selector(doc: &scraper::Html, sel_text: &str) -> (r: Option<String>)
    ensures
        match r {
            Some(id) => doi_via(*doc, sel_text@) == Some(id@),
            None => doi_via(*doc, sel_text@) is None,
        },
{
    if let Some(sel) = parse_selector(sel_text) {
        let contents = select_attr_contents(doc, &sel);
        let ghost cs = attr_contents_of(*doc, sel);
        let n: usize = contents.len();
        let mut ci: usize = 0;
        proof {
            assert(cs.subrange(0, cs.len() as int) =~= cs);
        }
        #[verifier::loop_isolation(false)]
        while ci < n
            invariant
                ci <= n,
                n == cs.len(),
                doi_in_contents(cs.subrange(ci as int, cs.len() as int)) == doi_in_contents(cs),
            decreases n - ci,
        {
            let ghost rest = cs.subrange(ci as int, cs.len() as int);
            proof {
                assert(rest[0] == cs[ci as int]);
                assert(rest.subrange(1, rest.len() as int) =~= cs.subrange(
                    ci + 1,
                    cs.len() as int,
                ));
            }
            if let Some(id) = extract_doi_from_text(contents[ci].as_str()) {
                return Some(id);
            }
            ci += 1;
        }
        proof {
            assert(cs.subrange(n as int, cs.len() as int) =~= Seq::<Seq<char>>::empty());
        }
        None
    } else {
        None
    }
}

/// The abstract one meta selector yields, per [`meta_abstract_via`].
fn meta_abstract_via_selector(doc: &scraper::Html, sel_text: &str) -> (r: Option<String>)
    ensures
        match r {
            Some(a) => meta_abstract_via(*doc, sel_text@) == Some(a@),
            None => meta_abstract_via(*doc, sel_text@) is None,
        },
{
    if let Some(sel) = parse_selector(sel_text) {
        let contents = select_attr_contents(doc, &sel);
        if contents.len() > 0 && contents[0].as_str().unicode_len() > 50 {
            return Some(contents[0].clone());
        }
        None
    } else {
        None
    }
}

/// The abstract one content selector yields, per [`content_abstract_via`].
fn content_abstract_via_selector(doc: &scraper::Html, sel_text: &str) -> (r: Option<String>)
    ensures
        match r {
            Some(a) => content_abstract_via(*doc, sel_text@) == Some(a@),
            None => content_abstract_via(*doc, sel_text@) is None,
        },
{
    if let Some(sel) = parse_selector(sel_text) {
        if let Some(text) = select_first_text(doc, &sel) {
            if text.as_str().unicode_len() > 50 {
                return Some(String::from_str(trim_str(text.as_str())));
            }
        }
        None
    } else {
        None
    }
}

/// The DOI carried by the page's citation meta tags, per [`page_doi_of`].
fn meta_doi(doc: &scraper::Html) -> (r: Option<String>)
    ensures
        match r {
            Some(id) => page_doi_of(*doc) == Some(id@),
            None => page_doi_of(*doc) is None,
        },
{
    if let Some(id) = doi_via_selector(doc, "meta[name='citation_doi']") {
        return Some(id);
    }
    if let Some(id) = doi_via_selector(doc, "meta[name='DC.Identifier']") {
        return Some(id);
    }
    if let Some(id) = doi_via_selector(doc, "meta[property='citation_doi']") {
        return Some(id);
    }
    doi_via_selector(doc, "meta[name='DOI']")
}

/// The abstract carried by the page's abstract meta tags, per
/// [`page_meta_abstract_of`].
fn meta_abstract(doc: &scraper::Html) -> (r: Option<String>)
    ensures
        match r {
            Some(a) => page_meta_abstract_of(*doc) == Some(a@),
            None => page_meta_abstract_of(*doc) is None,
        },
{
    if let Some(a) = meta_abstract_via_selector(doc, "meta[name='citation_abstract']") {
        return Some(a);
    }
    if let Some(a) = meta_abstract_via_selector(doc, "meta[name='description']") {
        return Some(a);
    }
    if let Some(a) = meta_abstract_via_selector(doc, "meta[property='og:description']") {
        return Some(a);
    }
    meta_abstract_via_selector(doc, "meta[name='DC.Description']")
}

/// The abstract carried by abstract-like page content, per
/// [`page_content_abstract_of`].
fn content_abstract(doc: &scraper::Html) -> (r: Option<String>)
    ensures
        match r {
            Some(a) => page_content_abstract_of(*doc) == Some(a@),
            None => page_content_abstract_of(*doc) is None,
        },
{
    if let Some(a) = content_abstract_via_selector(doc, "abstract") {
        return Some(a);
    }
    if let Some(a) = content_abstract_via_selector(doc, ".abstract") {
        return Some(a);
    }
    if let Some(a) = content_abstract_via_selector(doc, "#abstract") {
        return Some(a);
    }
    if let Some(a) = content_abstract_via_selector(doc, "div.abstract") {
        return Some(a);
    }
    if let Some(a) = content_abstract_via_selector(doc, "section.abstract") {
        return Some(a);
    }
    if let Some(a) = content_abstract_via_selector(doc, "div[class*='abstract']") {
        return Some(a);
    }
    content_abstract_via_selector(doc, "p[class*='abstract']")
}

/// Read abstract text and identifier out of a fetched page: the citation
/// meta tags decide the identifier ([`page_doi_of`]); the abstract comes
/// from the abstract meta tags, else from abstract-like content elements
/// ([`page_abstract_of`]); both abstract rules demand more than 50
/// characters.
pub fn extract_page_metadata(html: &str) -> (r: (String, Option<String>))
    ensures
        match r.1 {
            Some(id) => page_doi_of(dom_of(html@)) == Some(id@),
            None => page_doi_of(dom_of(html@)) is None,
        },
        r.0@ == page_abstract_of(dom_of(html@)),
{
    let doc = parse_document(html);
    let doi = meta_doi(&doc);
    let abstract_text: String = match meta_abstract(&doc) {
        Some(a) => a,
        None => match content_abstract(&doc) {
            Some(a) => a,
            None => String::new(),
        },
    };
    (abstract_text, doi)
}

} // verus!
