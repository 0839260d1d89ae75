use doi_pipeline::dedup::DedupStore;
use doi_pipeline::dedup::load_dedup_store;
use doi_pipeline::dedup::record_block;
use doi_pipeline::numtext::format_centi;
use doi_pipeline::pipeline::should_skip;
use doi_pipeline::pipeline::EnrichedRecord;

#[test]
fn loaded_store_contains_first_field_of_each_line() {
    let store = load_dedup_store("10.1/abc|Some Title|rest\n10.2/def|Other\n");
    assert!(store.contains("10.1/abc"));
    assert!(store.contains("10.2/def"));
    assert!(!store.contains("10.3/ghi"));
}

#[test]
fn loaded_store_trims_the_identifier_field() {
    let store = load_dedup_store("  10.1/abc  |x\n");
    assert!(store.contains("10.1/abc"));
}

#[test]
fn line_without_delimiter_is_taken_whole() {
    let store = load_dedup_store("10.9/zz\n");
    assert!(store.contains("10.9/zz"));
}

#[test]
fn insert_makes_contains_true() {
    let mut store = DedupStore::new();
    assert!(!store.contains("arXiv:2301.12345"));
    store.insert(String::from("arXiv:2301.12345"));
    assert!(store.contains("arXiv:2301.12345"));
    assert!(!store.contains("arXiv:9999.00000"));
}

#[test]
fn record_block_has_the_exact_layout() {
    let sep = "=".repeat(70);
    let doi = String::from("10.1/abc");
    let block = record_block(
        Some(&doi),
        "A Title",
        "https://doi.org/10.1/abc",
        110,
        "2024-01-02 03:04:05",
        "An abstract.",
    );
    let expected = format!(
        "\n{sep}\nDOI: 10.1/abc\nTitle: A Title\nURL: https://doi.org/10.1/abc\nScore: 1.10\nSaved: 2024-01-02 03:04:05\nAbstract:\nAn abstract.\n{sep}\n\n"
    );
    assert_eq!(block, expected);
}

#[test]
fn record_without_identifier_is_labeled_na() {
    let block = record_block(None, "T", "u", 70, "ts", "a");
    assert!(block.contains("\nDOI: NA\n"));
    assert!(block.contains("\nScore: 0.70\n"));
}

#[test]
fn scores_format_with_two_decimals() {
    assert_eq!(format_centi(92), "0.92");
    assert_eq!(format_centi(110), "1.10");
    assert_eq!(format_centi(0), "0.00");
    assert_eq!(format_centi(100), "1.00");
    assert_eq!(format_centi(-5), "-0.05");
    assert_eq!(format_centi(12345), "123.45");
}

#[test]
fn persisted_identifier_skips_resubmission() {
    let store = load_dedup_store("10.1/abc|legacy line from an earlier run\n");
    assert!(store.contains("10.1/abc"));
    // a second candidate carrying that identifier is skipped, not re-scored
    let rec = EnrichedRecord {
        title: String::from("Resubmitted"),
        url: String::from("https://example.org/again"),
        identifier: Some(String::from("10.1/abc")),
        abstract_text: String::from("whatever the snippet said"),
    };
    assert!(should_skip(&store, &rec));
    let fresh = EnrichedRecord {
        title: String::from("New"),
        url: String::from("https://example.org/new"),
        identifier: Some(String::from("10.2/new")),
        abstract_text: String::new(),
    };
    assert!(!should_skip(&store, &fresh));
}

#[test]
fn store_counts_distinct_identifiers() {
    let mut store = DedupStore::new();
    assert_eq!(store.len(), 0);
    store.insert(String::from("10.1/a"));
    store.insert(String::from("10.1/a"));
    assert_eq!(store.len(), 1);
    store.insert(String::from("10.2/b"));
    assert_eq!(store.len(), 2);
    let loaded = load_dedup_store("x|1\nx|2\ny|3\n");
    assert_eq!(loaded.len(), 2);
}
