use doi_pipeline::pipeline::ApiSource;
use doi_pipeline::pipeline::RawCandidate;
use doi_pipeline::pipeline::RunStats;
use doi_pipeline::pipeline::TimeRange;
use doi_pipeline::pipeline::api_url;
use doi_pipeline::pipeline::apply_api_metadata;
use doi_pipeline::pipeline::apply_page_data;
use doi_pipeline::pipeline::begin_candidate;
use doi_pipeline::pipeline::classify_time_range;
use doi_pipeline::pipeline::finalize_abstract;
use doi_pipeline::pipeline::first_api_source;
use doi_pipeline::pipeline::needs_api_metadata;
use doi_pipeline::pipeline::next_api_source;
use doi_pipeline::pipeline::ollama_tags_url;
use doi_pipeline::pipeline::record_accepted;
use doi_pipeline::pipeline::relevance_verdict;
use doi_pipeline::pipeline::scoring_prompt;
use doi_pipeline::pipeline::search_params;
use doi_pipeline::pipeline::search_url;
use doi_pipeline::pipeline::searxng_probe_url;
use doi_pipeline::pipeline::should_skip;
use doi_pipeline::pipeline::split_host_port;
use doi_pipeline::dedup::DedupStore;
use doi_pipeline::clock::stamped_record_block;

fn candidate(title: &str, url: &str, snippet: &str) -> RawCandidate {
    RawCandidate {
        title: String::from(title),
        url: String::from(url),
        snippet: String::from(snippet),
    }
}

#[test]
fn begin_candidate_extracts_identifier_and_seeds_abstract() {
    let c = candidate("X", "https://doi.org/10.1234/abc", "short snippet");
    let (rec, need_page) = begin_candidate(&c);
    assert_eq!(rec.identifier.as_deref(), Some("10.1234/abc"));
    assert_eq!(rec.abstract_text, "short snippet");
    assert!(need_page);
}

#[test]
fn long_snippet_with_identifier_skips_the_page_fetch() {
    let long = "s".repeat(150);
    let c = candidate("X", "https://doi.org/10.1234/abc", long.as_str());
    let (_, need_page) = begin_candidate(&c);
    assert!(!need_page);
}

#[test]
fn missing_identifier_forces_the_page_fetch() {
    let long = "s".repeat(150);
    let c = candidate("X", "https://example.org/paper", long.as_str());
    let (rec, need_page) = begin_candidate(&c);
    assert_eq!(rec.identifier, None);
    assert!(need_page);
}

#[test]
fn page_data_fills_missing_identifier_only() {
    let c = candidate("X", "https://example.org/p", "snippet");
    let (mut rec, _) = begin_candidate(&c);
    apply_page_data(&mut rec, "", Some(String::from("10.2/xyz")));
    assert_eq!(rec.identifier.as_deref(), Some("10.2/xyz"));
    apply_page_data(&mut rec, "", Some(String::from("10.3/other")));
    assert_eq!(rec.identifier.as_deref(), Some("10.2/xyz"));
}

#[test]
fn abstract_only_grows() {
    let c = candidate("X", "https://example.org/p", "a medium snippet here");
    let (mut rec, _) = begin_candidate(&c);
    apply_page_data(&mut rec, "tiny", None);
    assert_eq!(rec.abstract_text, "a medium snippet here");
    apply_page_data(&mut rec, "a strictly longer page abstract", None);
    assert_eq!(rec.abstract_text, "a strictly longer page abstract");
    apply_api_metadata(&mut rec, "", "shorter");
    assert_eq!(rec.abstract_text, "a strictly longer page abstract");
    apply_api_metadata(
        &mut rec,
        "Registry Title",
        "an even longer abstract from the registry",
    );
    assert_eq!(rec.title, "Registry Title");
    assert_eq!(rec.abstract_text, "an even longer abstract from the registry");
}

#[test]
fn api_chain_runs_only_for_short_abstracts_with_identifier() {
    let c = candidate("X", "https://doi.org/10.1234/abc", "short");
    let (mut rec, _) = begin_candidate(&c);
    assert!(needs_api_metadata(&rec));
    apply_page_data(&mut rec, "p".repeat(120).as_str(), None);
    assert!(!needs_api_metadata(&rec));
    let c2 = candidate("X", "https://example.org/p", "short");
    let (rec2, _) = begin_candidate(&c2);
    assert!(!needs_api_metadata(&rec2));
}

#[test]
fn short_abstract_is_replaced_by_the_title() {
    let c = candidate("The Title", "https://doi.org/10.1234/abc", "under fifty chars");
    let (mut rec, _) = begin_candidate(&c);
    finalize_abstract(&mut rec);
    assert_eq!(rec.abstract_text, "The Title");
    let long = "a".repeat(60);
    let c2 = candidate("T", "https://doi.org/10.1234/abc", long.as_str());
    let (mut rec2, _) = begin_candidate(&c2);
    finalize_abstract(&mut rec2);
    assert_eq!(rec2.abstract_text, long);
}

#[test]
fn api_sources_come_in_fixed_order() {
    let first = first_api_source();
    assert_eq!(first, ApiSource::DoiOrg);
    let second = next_api_source(&first).unwrap();
    assert_eq!(second, ApiSource::CrossRef);
    let third = next_api_source(&second).unwrap();
    assert_eq!(third, ApiSource::DataCite);
    assert_eq!(next_api_source(&third), None);
}

#[test]
fn api_urls_use_the_normalized_identifier() {
    assert_eq!(
        api_url(&ApiSource::DoiOrg, "doi:10.1234/abc"),
        "https://doi.org/10.1234/abc"
    );
    assert_eq!(
        api_url(&ApiSource::CrossRef, "10.1234/abc"),
        "https://api.crossref.org/works/10.1234/abc"
    );
    assert_eq!(
        api_url(&ApiSource::DataCite, "10.1234/abc"),
        "https://api.datacite.org/dois/10.1234/abc"
    );
}

#[test]
fn prompt_carries_subject_title_and_truncated_abstract() {
    let long = "a".repeat(500);
    let p = scoring_prompt("quantum computing", "A Paper", long.as_str());
    assert!(p.contains("Research Topic: \"quantum computing\""));
    assert!(p.contains("Paper Title: \"A Paper\""));
    assert!(p.contains(&"a".repeat(400)));
    assert!(!p.contains(&"a".repeat(401)));
    assert!(p.contains("SCORE: 0.85"));
}

#[test]
fn time_ranges_classify_exactly() {
    assert_eq!(classify_time_range(""), TimeRange::AllTime);
    assert_eq!(classify_time_range("day"), TimeRange::Standard);
    assert_eq!(classify_time_range("week"), TimeRange::Standard);
    assert_eq!(classify_time_range("month"), TimeRange::Standard);
    assert_eq!(classify_time_range("year"), TimeRange::Standard);
    assert_eq!(classify_time_range("5year"), TimeRange::MultiYearFallback);
    assert_eq!(classify_time_range("decade"), TimeRange::Invalid);
    assert_eq!(classify_time_range("xyear"), TimeRange::Invalid);
}

#[test]
fn multiyear_ranges_fall_back_to_year() {
    let ps = search_params("s", "science", "arxiv", "5year");
    assert_eq!(ps.len(), 5);
    assert_eq!(ps[4].0, "time_range");
    assert_eq!(ps[4].1, "year");
}

#[test]
fn search_params_carry_the_query() {
    let ps = search_params("machine learning", "science", "arxiv,pubmed", "");
    assert_eq!(ps.len(), 4);
    assert_eq!(ps[0], (String::from("q"), String::from("machine learning")));
    assert_eq!(ps[1], (String::from("format"), String::from("json")));
    assert_eq!(ps[2], (String::from("categories"), String::from("science")));
    assert_eq!(ps[3], (String::from("engines"), String::from("arxiv,pubmed")));
    let ps2 = search_params("s", "c", "e", "week");
    assert_eq!(ps2.len(), 5);
    assert_eq!(ps2[4].1, "week");
    let ps3 = search_params("s", "c", "e", "bogus");
    assert_eq!(ps3.len(), 4);
}

#[test]
fn service_urls_drop_trailing_slashes() {
    assert_eq!(search_url("https://searxng.site/"), "https://searxng.site/search");
    assert_eq!(
        searxng_probe_url("https://searxng.site//"),
        "https://searxng.site/search?q=test&format=json"
    );
    assert_eq!(
        ollama_tags_url("http://localhost:11434/"),
        "http://localhost:11434/api/tags"
    );
}

#[test]
fn host_and_port_split_at_the_last_colon() {
    let (h, p) = split_host_port("http://localhost:11434");
    assert_eq!(h, "http://localhost");
    assert_eq!(p, 11434);
    let (h2, p2) = split_host_port("http://localhost/");
    assert_eq!(h2, "http://localhost");
    assert_eq!(p2, 11434);
    let (h3, p3) = split_host_port("http://host:99999");
    assert_eq!(h3, "http://host:99999");
    assert_eq!(p3, 11434);
}

#[test]
fn stats_count_each_outcome() {
    let mut stats = RunStats::new();
    stats.set_processed(3);
    stats.note_validated();
    stats.note_saved();
    stats.note_skipped();
    stats.note_skipped();
    assert_eq!(stats.processed, 3);
    assert_eq!(stats.validated, 1);
    assert_eq!(stats.saved, 1);
    assert_eq!(stats.skipped, 2);
}

#[test]
fn end_to_end_disabled_validation_persists_once_then_skips() {
    let snippet = "b".repeat(80);
    let c = candidate("X", "https://doi.org/10.1234/abc", snippet.as_str());
    let mut store = DedupStore::new();
    let mut stats = RunStats::new();
    stats.set_processed(2);

    // first submission
    let (mut rec, need_page) = begin_candidate(&c);
    assert!(need_page);
    apply_page_data(&mut rec, "", None);
    assert!(!should_skip(&store, &rec));
    assert!(needs_api_metadata(&rec));
    // every lookup source failed: nothing to merge
    finalize_abstract(&mut rec);
    assert_eq!(rec.abstract_text, snippet);
    let v = relevance_verdict(false, None, 60);
    assert!(v.accepted);
    assert_eq!(v.score, 110);
    let (_ts, block) = stamped_record_block(
        rec.identifier.as_ref(),
        rec.title.as_str(),
        rec.url.as_str(),
        v.score,
        rec.abstract_text.as_str(),
    );
    assert!(block.contains("\nDOI: 10.1234/abc\n"));
    assert!(block.contains("\nScore: 1.10\n"));
    stats.note_validated();
    record_accepted(&mut store, &rec.identifier);
    stats.note_saved();
    assert!(store.contains("10.1234/abc"));

    // the identical candidate again, in the same store session
    let (rec2, _) = begin_candidate(&c);
    assert!(should_skip(&store, &rec2));
    stats.note_skipped();

    assert_eq!(stats.processed, 2);
    assert_eq!(stats.validated, 1);
    assert_eq!(stats.saved, 1);
    assert_eq!(stats.skipped, 1);
}
