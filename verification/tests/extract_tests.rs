use doi_pipeline::json_ext::extract_csl_metadata;
use doi_pipeline::json_ext::extract_crossref_metadata;
use doi_pipeline::json_ext::extract_datacite_metadata;
use doi_pipeline::json_ext::extract_model_names;
use doi_pipeline::json_ext::extract_search_results;
use doi_pipeline::page_meta::extract_page_metadata;
use doi_pipeline::webpage::index_html;

#[test]
fn csl_body_yields_title_and_abstract() {
    let body = r#"{"DOI":"10.1/abc","title":"A Title","abstract":"An abstract."}"#;
    let (t, a) = extract_csl_metadata(body).unwrap();
    assert_eq!(t, "A Title");
    assert_eq!(a, "An abstract.");
}

#[test]
fn csl_title_may_be_an_array() {
    let body = r#"{"DOI":"10.1/abc","title":["Array Title"]}"#;
    let (t, a) = extract_csl_metadata(body).unwrap();
    assert_eq!(t, "Array Title");
    assert_eq!(a, "");
}

#[test]
fn csl_body_without_doi_field_is_rejected() {
    let body = r#"{"title":"A Title"}"#;
    assert!(extract_csl_metadata(body).is_none());
}

#[test]
fn csl_body_with_empty_title_is_rejected() {
    let body = r#"{"DOI":"10.1/abc","title":""}"#;
    assert!(extract_csl_metadata(body).is_none());
    assert!(extract_csl_metadata("not json").is_none());
}

#[test]
fn crossref_body_reads_the_message() {
    let body = r#"{"message":{"DOI":"10.1/abc","title":["CrossRef Title"],"abstract":"From the registry."}}"#;
    let (t, a) = extract_crossref_metadata(body).unwrap();
    assert_eq!(t, "CrossRef Title");
    assert_eq!(a, "From the registry.");
    assert!(extract_crossref_metadata(r#"{"message":{"title":[]}}"#).is_none());
}

#[test]
fn datacite_body_reads_nested_attributes() {
    let body = r#"{"data":{"attributes":{"titles":[{"title":"DataCite Title"}],"descriptions":[{"description":"Desc."}]}}}"#;
    let (t, a) = extract_datacite_metadata(body).unwrap();
    assert_eq!(t, "DataCite Title");
    assert_eq!(a, "Desc.");
    assert!(extract_datacite_metadata(r#"{"data":{"attributes":{"titles":[]}}}"#).is_none());
}

#[test]
fn search_reply_yields_candidates() {
    let body = r#"{"results":[{"title":"T1","url":"u1","content":"c1","engine":"arxiv"},{"title":"T2","url":"u2"}]}"#;
    let cands = extract_search_results(body).unwrap();
    assert_eq!(cands.len(), 2);
    assert_eq!(cands[0].title, "T1");
    assert_eq!(cands[0].url, "u1");
    assert_eq!(cands[0].snippet, "c1");
    assert_eq!(cands[1].snippet, "");
}

#[test]
fn malformed_search_replies_are_rejected() {
    assert!(extract_search_results(r#"{"results":[{"title":"T1"}]}"#).is_none());
    assert!(extract_search_results(r#"{"other":[]}"#).is_none());
    assert!(extract_search_results("not json").is_none());
}

#[test]
fn model_listing_yields_names() {
    let body = r#"{"models":[{"name":"llama3.2:latest"},{"size":3},{"name":"phi3"}]}"#;
    let names = extract_model_names(body).unwrap();
    assert_eq!(names, vec![String::from("llama3.2:latest"), String::from("phi3")]);
    assert!(extract_model_names(r#"{"tags":[]}"#).is_none());
}

#[test]
fn page_meta_tags_yield_doi_and_abstract() {
    let html = r#"<html><head>
        <meta name="citation_doi" content="doi:10.1234/meta.1">
        <meta name="description" content="This description is certainly longer than fifty characters in total.">
        </head><body></body></html>"#;
    let (abstract_text, doi) = extract_page_metadata(html);
    assert_eq!(doi.as_deref(), Some("10.1234/meta.1"));
    assert_eq!(
        abstract_text,
        "This description is certainly longer than fifty characters in total."
    );
}

#[test]
fn short_meta_descriptions_fall_back_to_abstract_elements() {
    let html = r#"<html><head>
        <meta name="description" content="too short">
        </head><body>
        <div class="abstract">  The abstract element body also exceeds fifty characters easily.  </div>
        </body></html>"#;
    let (abstract_text, doi) = extract_page_metadata(html);
    assert_eq!(doi, None);
    assert_eq!(
        abstract_text,
        "The abstract element body also exceeds fifty characters easily."
    );
}

#[test]
fn pages_without_metadata_yield_nothing() {
    let (abstract_text, doi) = extract_page_metadata("<html><body><p>hi</p></body></html>");
    assert_eq!(doi, None);
    assert_eq!(abstract_text, "");
}

#[test]
fn control_page_is_served_whole() {
    let page = index_html();
    assert!(page.starts_with("<!DOCTYPE html>"));
    assert!(page.contains("<title>Researcher</title>"));
    assert!(page.ends_with("</html>"));
}
