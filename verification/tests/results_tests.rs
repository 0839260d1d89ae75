use doi_pipeline::dedup::record_block;
use doi_pipeline::results::filter_records;
use doi_pipeline::results::parse_results_text;
use doi_pipeline::logbuf::LogBuffer;
use doi_pipeline::logbuf::format_log_entry;
use doi_pipeline::clock::stamped_log_entry;
use doi_pipeline::clock::stamped_record_block;

#[test]
fn persisted_blocks_parse_back() {
    let doi = String::from("10.1/abc");
    let mut text = record_block(
        Some(&doi),
        "First Paper",
        "https://doi.org/10.1/abc",
        92,
        "2024-01-02 03:04:05",
        "A long enough abstract.",
    );
    text.push_str(&record_block(
        None,
        "Second Paper",
        "https://example.org/two",
        70,
        "2024-01-02 03:05:06",
        "Line one.\nLine two.",
    ));
    let records = parse_results_text(&text);
    assert_eq!(records.len(), 2);
    assert_eq!(records[0].doi, "10.1/abc");
    assert_eq!(records[0].title, "First Paper");
    assert_eq!(records[0].url, "https://doi.org/10.1/abc");
    assert_eq!(records[0].score, 92);
    assert_eq!(records[0].saved_at, "2024-01-02 03:04:05");
    assert_eq!(records[0].abstract_text, "A long enough abstract.");
    assert_eq!(records[1].doi, "NA");
    assert_eq!(records[1].abstract_text, "Line one. Line two.");
}

#[test]
fn zero_score_records_are_dropped() {
    let text = "====\nDOI: 10.1/zero\nTitle: T\nScore: 0.00\n====\n";
    let records = parse_results_text(text);
    assert_eq!(records.len(), 0);
}

#[test]
fn unparsable_score_lines_leave_the_score_unset() {
    let text = "====\nDOI: 10.1/x\nScore: not-a-number\n====\n";
    let records = parse_results_text(text);
    assert_eq!(records.len(), 0);
}

#[test]
fn text_before_the_first_separator_is_ignored() {
    let text = "stray line\nDOI: 10.9/ignored\n====\nDOI: 10.1/kept\nScore: 0.80\n====\n";
    let records = parse_results_text(text);
    assert_eq!(records.len(), 1);
    assert_eq!(records[0].doi, "10.1/kept");
}

#[test]
fn filtering_is_case_insensitive_and_reverses() {
    let doi_a = String::from("10.1/aaa");
    let doi_b = String::from("10.2/bbb");
    let mut text = record_block(
        Some(&doi_a),
        "Quantum Widgets",
        "u1",
        80,
        "t1",
        "about widgets",
    );
    text.push_str(&record_block(
        Some(&doi_b),
        "Classical Gadgets",
        "u2",
        90,
        "t2",
        "about QUANTUM gadgets",
    ));
    let records = parse_results_text(&text);
    let all = filter_records(&records, None);
    assert_eq!(all.len(), 2);
    // newest (last appended) first
    assert_eq!(all[0].doi, "10.2/bbb");
    assert_eq!(all[1].doi, "10.1/aaa");
    let hits = filter_records(&records, Some("quantum"));
    assert_eq!(hits.len(), 2);
    let hits2 = filter_records(&records, Some("widgets"));
    assert_eq!(hits2.len(), 1);
    assert_eq!(hits2[0].doi, "10.1/aaa");
    let none = filter_records(&records, Some("biology"));
    assert_eq!(none.len(), 0);
}

#[test]
fn log_buffer_evicts_oldest_at_the_cap() {
    let mut buf = LogBuffer::new();
    let mut i: usize = 0;
    while i < 501 {
        buf.push_entry(format!("entry {i}"));
        i += 1;
    }
    assert_eq!(buf.len(), 500);
    assert_eq!(buf.get(0), "entry 1");
    assert_eq!(buf.get(499), "entry 500");
}

#[test]
fn log_entries_carry_the_bracketed_stamp() {
    assert_eq!(format_log_entry("12:00:01", "hello"), "[12:00:01] hello");
    let (ts, entry) = stamped_log_entry("starting");
    assert_eq!(entry, format!("[{ts}] starting"));
    assert_eq!(ts.len(), 8);
}

#[test]
fn record_stamps_have_the_clock_shape() {
    let (ts, block) = stamped_record_block(None, "T", "u", 70, "a");
    assert!(ts.len() >= 19);
    let b = ts.as_bytes();
    let n = ts.len();
    assert_eq!(b[n - 15], b'-');
    assert_eq!(b[n - 12], b'-');
    assert_eq!(b[n - 9], b' ');
    assert_eq!(b[n - 6], b':');
    assert_eq!(b[n - 3], b':');
    assert!(block.contains(&format!("\nSaved: {ts}\n")));
}
