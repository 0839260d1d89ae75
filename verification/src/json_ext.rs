//! Reading the bodies that the metadata registries, the search aggregator
//! and the generative service return. The JSON work itself is done by
//! serde_json behind trusted wrappers whose results carry names ([`json_of`],
//! [`field_of`], [`str_of`], [`array_of`]: parsing and reading a JSON value
//! are functions of their arguments alone); the field selection rules are
//! verified exactly over those names.

use vstd::prelude::*;
use vstd::string::StrSliceExecFns;
use vstd::string::StringExecFns;
use crate::pipeline::RawCandidate;
use crate::strutil::views_of;

verus! {

#[verifier::external_type_specification]
#[verifier::external_body]
pub struct ExJsonValue(serde_json::Value);

/// What serde_json::from_str yields for a document; `None` on a parse error.
pub uninterp spec fn json_of(s: Seq<char>) -> Option<serde_json::Value>;

/// What serde_json::Value::get yields for a key: the value under it when
/// this is an object holding the key.
pub uninterp spec fn field_of(v: serde_json::Value, key: Seq<char>) -> Option<serde_json::Value>;

/// What serde_json::Value::as_str yields: the text of a JSON string.
pub uninterp spec fn str_of(v: serde_json::Value) -> Option<Seq<char>>;

/// What serde_json::Value::as_array yields: the elements of a JSON array.
pub uninterp spec fn array_of(v: serde_json::Value) -> Option<Seq<serde_json::Value>>;

/// Relies on serde_json::from_str: parses a JSON document; `None` when the
/// body is not valid JSON.
#[verifier::external_body]
fn json_parse(s: &str) -> (r: Option<serde_json::Value>)
    ensures
        r == json_of(s@),
{
    serde_json::from_str::<serde_json::Value>(s).ok()
}

/// Relies on serde_json::Value::get: the value under `key` when this is an
/// object that holds it, `None` otherwise.
#[verifier::external_body]
fn json_get<'a>(v: &'a serde_json::Value, key: &str) -> (r: Option<&'a serde_json::Value>)
    ensures
        match r {
            Some(f) => field_of(*v, key@) == Some(*f),
            None => field_of(*v, key@) is None,
        },
{
    v.get(key)
}

/// Relies on serde_json::Value::as_str: the text of a JSON string, `None`
/// for any other kind of value.
#[verifier::external_body]
fn json_str(v: &serde_json::Value) -> (r: Option<String>)
    ensures
        match r {
            Some(s) => str_of(*v) == Some(s@),
            None => str_of(*v) is None,
        },
{
    v.as_str().map(|s| s.to_string())
}

/// Relies on serde_json::Value::as_array: the elements of a JSON array,
/// `None` for any other kind of value.
#[verifier::external_body]
fn json_array<'a>(v: &'a serde_json::Value) -> (r: Option<&'a Vec<serde_json::Value>>)
    ensures
        match r {
            Some(arr) => array_of(*v) == Some(arr@),
            None => array_of(*v) is None,
        },
{
    v.as_array()
}

/// The value under `key` read as a string, when both steps succeed.
pub open spec fn str_field_of(v: serde_json::Value, key: Seq<char>) -> Option<Seq<char>> {
    match field_of(v, key) {
        Some(f) => str_of(f),
        None => None,
    }
}

/// The text under `key`, or empty when the key is absent or the value not a
/// string.
pub open spec fn str_field_or_empty(v: serde_json::Value, key: Seq<char>) -> Seq<char> {
    match str_field_of(v, key) {
        Some(s) => s,
        None => Seq::empty(),
    }
}

/// The first element of an array value read as a string, else empty.
pub open spec fn first_string_or_empty(v: serde_json::Value) -> Seq<char> {
    match array_of(v) {
        Some(arr) => if arr.len() > 0 {
            match str_of(arr[0]) {
                Some(s) => s,
                None => Seq::empty(),
            }
        } else {
            Seq::empty()
        },
        None => Seq::empty(),
    }
}

/// The text under `key`, or empty when absent or not a string.
fn str_field(v: &serde_json::Value, key: &str) -> (r: String)
    ensures
        r@ == str_field_or_empty(*v, key@),
{
    match json_get(v, key) {
        Some(f) => match json_str(f) {
            Some(s) => s,
            None => String::new(),
        },
        None => String::new(),
    }
}

/// The title a structured-citation body carries: its `title` field read as a
/// string, or as the first element of an array; empty otherwise.
pub open spec fn csl_title(data: serde_json::Value) -> Seq<char> {
    match field_of(data, "title"@) {
        Some(tv) => match str_of(tv) {
            Some(s) => s,
            None => first_string_or_empty(tv),
        },
        None => Seq::empty(),
    }
}

/// What the direct resolution endpoint's body yields: defined exactly when
/// the body parses, carries a `DOI` field, and [`csl_title`] is non-empty;
/// the abstract is the optional `abstract` string.
pub open spec fn csl_metadata(body: Seq<char>) -> Option<(Seq<char>, Seq<char>)> {
    match json_of(body) {
        Some(data) => if field_of(data, "DOI"@) is Some && csl_title(data).len() > 0 {
            Some((csl_title(data), str_field_or_empty(data, "abstract"@)))
        } else {
            None
        },
        None => None,
    }
}

/// Title and abstract from a structured-citation body of the direct
/// resolution endpoint; `Some` exactly when [`csl_metadata`] is.
pub fn extract_csl_metadata(body: &str) -> (r: Option<(String, String)>)
    ensures
        match r {
            Some(ta) => csl_metadata(body@) == Some((ta.0@, ta.1@)) && ta.0@.len() > 0,
            None => csl_metadata(body@) is None,
        },
{
    let data = match json_parse(body) {
        Some(d) => d,
        None => {
            return None;
        },
    };
    if json_get(&data, "DOI").is_none() {
        return None;
    }
    let title: String = match json_get(&data, "title") {
        Some(tv) => match json_str(tv) {
            Some(s) => s,
            None => match json_array(tv) {
                Some(arr) => {
                    if arr.len() > 0 {
                        match json_str(&arr[0]) {
                            Some(s) => s,
                            None => String::new(),
                        }
                    } else {
                        String::new()
                    }
                },
                None => String::new(),
            },
        },
        None => String::new(),
    };
    if title.as_str().unicode_len() == 0 {
        return None;
    }
    let abstract_text = str_field(&data, "abstract");
    Some((title, abstract_text))
}

/// What the secondary registry's body yields: defined exactly when the body
/// parses, carries a `message` object, and the first element of
/// `message.title` reads as a non-empty string; the abstract is the optional
/// `abstract` string.
pub open spec fn crossref_metadata(body: Seq<char>) -> Option<(Seq<char>, Seq<char>)> {
    match json_of(body) {
        Some(data) => match field_of(data, "message"@) {
            Some(msg) => {
                let t = match field_of(msg, "title"@) {
                    Some(tv) => first_string_or_empty(tv),
                    None => Seq::empty(),
                };
                if t.len() > 0 {
                    Some((t, str_field_or_empty(msg, "abstract"@)))
                } else {
                    None
                }
            },
            None => None,
        },
        None => None,
    }
}

/// Title and abstract from the secondary registry's body; `Some` exactly
/// when [`crossref_metadata`] is.
pub fn extract_crossref_metadata(body: &str) -> (r: Option<(String, String)>)
    ensures
        match r {
            Some(ta) => crossref_metadata(body@) == Some((ta.0@, ta.1@)) && ta.0@.len() > 0,
            None => crossref_metadata(body@) is None,
        },
{
    let data = match json_parse(body) {
        Some(d) => d,
        None => {
            return None;
        },
    };
    let message = match json_get(&data, "message") {
        Some(m) => m,
        None => {
            return None;
        },
    };
    let title: String = match json_get(message, "title") {
        Some(tv) => match json_array(tv) {
            Some(arr) => {
                if arr.len() > 0 {
                    match json_str(&arr[0]) {
                        Some(s) => s,
                        None => String::new(),
                    }
                } else {
                    String::new()
                }
            },
            None => String::new(),
        },
        None => String::new(),
    };
    if title.as_str().unicode_len() == 0 {
        return None;
    }
    let abstract_text = str_field(message, "abstract");
    Some((title, abstract_text))
}

/// The `key` field of the first element of an array value, else empty.
pub open spec fn first_element_field(v: serde_json::Value, key: Seq<char>) -> Seq<char> {
    match array_of(v) {
        Some(arr) => if arr.len() > 0 {
            str_field_or_empty(arr[0], key)
        } else {
            Seq::empty()
        },
        None => Seq::empty(),
    }
}

/// What the tertiary registry's body yields: defined exactly when the body
/// parses, carries `data.attributes`, and the first of its `titles` has a
/// non-empty `title`; the abstract is the first of its `descriptions`.
pub open spec fn datacite_metadata(body: Seq<char>) -> Option<(Seq<char>, Seq<char>)> {
    match json_of(body) {
        Some(data) => match field_of(data, "data"@) {
            Some(inner) => match field_of(inner, "attributes"@) {
                Some(attrs) => {
                    let t = match field_of(attrs, "titles"@) {
                        Some(tv) => first_element_field(tv, "title"@),
                        None => Seq::empty(),
                    };
                    if t.len() > 0 {
                        let a = match field_of(attrs, "descriptions"@) {
                            Some(dv) => first_element_field(dv, "description"@),
                            None => Seq::empty(),
                        };
                        Some((t, a))
                    } else {
                        None
                    }
                },
                None => None,
            },
            None => None,
        },
        None => None,
    }
}

/// Title and abstract from the tertiary registry's body; `Some` exactly when
/// [`datacite_metadata`] is.
pub fn extract_datacite_metadata(body: &str) -> (r: Option<(String, String)>)
    ensures
        match r {
            Some(ta) => datacite_metadata(body@) == Some((ta.0@, ta.1@)) && ta.0@.len() > 0,
            None => datacite_metadata(body@) is None,
        },
{
    let data = match json_parse(body) {
        Some(d) => d,
        None => {
            return None;
        },
    };
    let inner = match json_get(&data, "data") {
        Some(m) => m,
        None => {
            return None;
        },
    };
    let attributes = match json_get(inner, "attributes") {
        Some(m) => m,
        None => {
            return None;
        },
    };
    let title: String = match json_get(attributes, "titles") {
        Some(tv) => match json_array(tv) {
            Some(arr) => {
                if arr.len() > 0 {
                    str_field(&arr[0], "title")
                } else {
                    String::new()
                }
            },
            None => String::new(),
        },
        None => String::new(),
    };
    if title.as_str().unicode_len() == 0 {
        return None;
    }
    let abstract_text: String = match json_get(attributes, "descriptions") {
        Some(dv) => match json_array(dv) {
            Some(arr) => {
                if arr.len() > 0 {
                    str_field(&arr[0], "description")
                } else {
                    String::new()
                }
            },
            None => String::new(),
        },
        None => String::new(),
    };
    Some((title, abstract_text))
}

/// The `results` array of a search reply, when the body parses and carries
/// one.
pub open spec fn search_results_of(body: Seq<char>) -> Option<Seq<serde_json::Value>> {
    match json_of(body) {
        Some(data) => match field_of(data, "results"@) {
            Some(rv) => array_of(rv),
            None => None,
        },
        None => None,
    }
}

/// A result element is well-formed: its `title` and `url` read as strings.
pub open spec fn candidate_ok(v: serde_json::Value) -> bool {
    str_field_of(v, "title"@) is Some && str_field_of(v, "url"@) is Some
}

/// The candidate fields of a well-formed result element; the snippet is the
/// optional `content` string.
pub open spec fn candidate_of(v: serde_json::Value) -> (Seq<char>, Seq<char>, Seq<char>) {
    (
        str_field_of(v, "title"@)->0,
        str_field_of(v, "url"@)->0,
        str_field_or_empty(v, "content"@),
    )
}

/// What a search reply yields: defined exactly when the body parses with a
/// `results` array whose every element is well-formed; element `i` of the
/// outcome carries element `i`'s title, url and snippet.
pub open spec fn search_candidates(body: Seq<char>) -> Option<
    Seq<(Seq<char>, Seq<char>, Seq<char>)>,
> {
    match search_results_of(body) {
        Some(arr) => if forall|i: int| 0 <= i < arr.len() ==> candidate_ok(#[trigger] arr[i]) {
            Some(Seq::new(arr.len(), |i: int| candidate_of(arr[i])))
        } else {
            None
        },
        None => None,
    }
}

/// The fields of one raw candidate.
pub open spec fn raw_candidate_view(c: RawCandidate) -> (Seq<char>, Seq<char>, Seq<char>) {
    (c.title@, c.url@, c.snippet@)
}

/// The raw candidates of a search reply, in reply order; `Some` exactly when
/// [`search_candidates`] is.
pub fn extract_search_results(body: &str) -> (r: Option<Vec<RawCandidate>>)
    ensures
        match r {
            Some(v) => {
                &&& search_candidates(body@) is Some
                &&& v@.len() == search_candidates(body@)->0.len()
                &&& forall|i: int|
                    0 <= i < v@.len() ==> raw_candidate_view(#[trigger] v@[i])
                        == search_candidates(body@)->0[i]
            },
            None => search_candidates(body@) is None,
        },
{
    let data = match json_parse(body) {
        Some(d) => d,
        None => {
            return None;
        },
    };
    let results = match json_get(&data, "results") {
        Some(rv) => match json_array(rv) {
            Some(arr) => arr,
            None => {
                return None;
            },
        },
        None => {
            return None;
        },
    };
    let ghost arr = results@;
    let mut out: Vec<RawCandidate> = Vec::new();
    let n: usize = results.len();
    let mut i: usize = 0;
    #[verifier::loop_isolation(false)]
    while i < n
        invariant
            i <= n,
            out@.len() == i,
            forall|j: int| 0 <= j < i ==> candidate_ok(#[trigger] arr[j]),
            forall|j: int|
                0 <= j < i ==> raw_candidate_view(#[trigger] out@[j]) == candidate_of(arr[j]),
        decreases n - i,
    {
        let title = match json_get(&results[i], "title") {
            Some(tv) => match json_str(tv) {
                Some(s) => s,
                None => {
                    return None;
                },
            },
            None => {
                return None;
            },
        };
        let url = match json_get(&results[i], "url") {
            Some(uv) => match json_str(uv) {
                Some(s) => s,
                None => {
                    return None;
                },
            },
            None => {
                return None;
            },
        };
        let snippet = str_field(&results[i], "content");
        out.push(RawCandidate { title, url, snippet });
        i += 1;
    }
    Some(out)
}

/// The `models` array of a tag listing, when the body parses and carries one.
pub open spec fn models_array_of(body: Seq<char>) -> Option<Seq<serde_json::Value>> {
    match json_of(body) {
        Some(data) => match field_of(data, "models"@) {
            Some(mv) => array_of(mv),
            None => None,
        },
        None => None,
    }
}

/// The `name` strings of the model elements, in order; an element without
/// one is passed over.
pub open spec fn names_of_models(arr: Seq<serde_json::Value>) -> Seq<Seq<char>>
    decreases arr.len(),
{
    if arr.len() == 0 {
        Seq::empty()
    } else {
        let rest = names_of_models(arr.drop_last());
        match str_field_of(arr.last(), "name"@) {
            Some(n) => rest.push(n),
            None => rest,
        }
    }
}

/// What a tag listing yields: defined exactly when the body parses and
/// carries a `models` array; then the names of its elements.
pub open spec fn model_names_of(body: Seq<char>) -> Option<Seq<Seq<char>>> {
    match models_array_of(body) {
        Some(arr) => Some(names_of_models(arr)),
        None => None,
    }
}

/// The model names of a generative-service tag listing; `Some` exactly when
/// [`model_names_of`] is.
pub fn extract_model_names(body: &str) -> (r: Option<Vec<String>>)
    ensures
        match r {
            Some(names) => model_names_of(body@) == Some(views_of(names@)),
            None => model_names_of(body@) is None,
        },
{
    let data = match json_parse(body) {
        Some(d) => d,
        None => {
            return None;
        },
    };
    let models = match json_get(&data, "models") {
        Some(mv) => match json_array(mv) {
            Some(arr) => arr,
            None => {
                return None;
            },
        },
        None => {
            return None;
        },
    };
    let ghost arr = models@;
    let mut out: Vec<String> = Vec::new();
    let n: usize = models.len();
    let mut i: usize = 0;
    proof {
        assert(arr.subrange(0, 0) =~= Seq::<serde_json::Value>::empty());
        assert(views_of(out@) =~= Seq::<Seq<char>>::empty());
    }
    #[verifier::loop_isolation(false)]
    while i < n
        invariant
            i <= n,
            views_of(out@) == names_of_models(arr.subrange(0, i as int)),
        decreases n - i,
    {
        let ghost prev = out@;
        proof {
            let cur = arr.subrange(0, i + 1);
            assert(cur.drop_last() =~= arr.subrange(0, i as int));
            assert(cur.last() == arr[i as int]);
        }
        match json_get(&models[i], "name") {
            Some(nv) => match json_str(nv) {
                Some(s) => {
                    let ghost sv = s@;
                    out.push(s);
                    proof {
                        assert(views_of(out@) =~= views_of(prev).push(sv));
                    }
                },
                None => {
                },
            },
            None => {
            },
        }
        i += 1;
    }
    proof {
        assert(arr.subrange(0, n as int) =~= arr);
    }
    Some(out)
}

} // verus!
