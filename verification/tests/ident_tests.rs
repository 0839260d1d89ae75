use doi_pipeline::ident::clean_doi;
use doi_pipeline::ident::extract_doi_from_text;
use doi_pipeline::ident::extract_doi_from_url;
use doi_pipeline::strutil::safe_truncate;
use doi_pipeline::strutil::trim_str;

#[test]
fn clean_strips_https_prefix() {
    assert_eq!(clean_doi("https://doi.org/10.1234/abc"), "10.1234/abc");
}

#[test]
fn clean_strips_http_prefix() {
    assert_eq!(clean_doi("http://doi.org/10.1234/abc"), "10.1234/abc");
}

#[test]
fn clean_strips_doi_scheme() {
    assert_eq!(clean_doi("doi:10.1234/abc"), "10.1234/abc");
}

#[test]
fn clean_strips_scheme_after_url_prefix() {
    assert_eq!(clean_doi("https://doi.org/doi:10.1234/abc"), "10.1234/abc");
}

#[test]
fn clean_trims_whitespace() {
    assert_eq!(clean_doi("  10.1234/abc \n"), "10.1234/abc");
}

#[test]
fn clean_is_idempotent_on_https_prefix() {
    let once = clean_doi("https://doi.org/10.1234/abc");
    assert_eq!(clean_doi(once.as_str()), once);
}

#[test]
fn clean_is_idempotent_on_http_prefix() {
    let once = clean_doi("http://doi.org/10.1234/abc");
    assert_eq!(clean_doi(once.as_str()), once);
}

#[test]
fn clean_is_idempotent_on_doi_scheme() {
    let once = clean_doi("doi:10.1234/abc");
    assert_eq!(clean_doi(once.as_str()), once);
}

#[test]
fn url_with_doi_org_yields_normalized_suffix() {
    assert_eq!(
        extract_doi_from_url("https://doi.org/10.1234/abc").as_deref(),
        Some("10.1234/abc")
    );
}

#[test]
fn url_with_doi_org_takes_suffix_after_last_marker() {
    assert_eq!(
        extract_doi_from_url("https://example.org/doi.org/x/https://doi.org/10.1234/abc")
            .as_deref(),
        Some("10.1234/abc")
    );
}

#[test]
fn url_with_doi_org_but_bad_suffix_falls_through() {
    assert_eq!(extract_doi_from_url("https://doi.org/not-a-doi"), None);
}

#[test]
fn arxiv_abs_url_yields_prefixed_id() {
    assert_eq!(
        extract_doi_from_url("https://arxiv.org/abs/2301.12345").as_deref(),
        Some("arXiv:2301.12345")
    );
}

#[test]
fn arxiv_pdf_url_strips_query_and_extension() {
    assert_eq!(
        extract_doi_from_url("https://arxiv.org/pdf/2301.12345.pdf?x=1").as_deref(),
        Some("arXiv:2301.12345")
    );
}

#[test]
fn plain_url_text_is_scanned_for_doi() {
    assert_eq!(
        extract_doi_from_url("https://publisher.example/paper/10.5555/abcd.42").as_deref(),
        Some("10.5555/abcd.42")
    );
}

#[test]
fn text_scan_finds_first_doi() {
    assert_eq!(
        extract_doi_from_text("see 10.1234/first and 10.9999/second").as_deref(),
        Some("10.1234/first")
    );
}

#[test]
fn text_scan_needs_at_least_four_digits() {
    assert_eq!(extract_doi_from_text("10.123/abc"), None);
}

#[test]
fn text_scan_allows_up_to_nine_digits() {
    assert_eq!(
        extract_doi_from_text("10.123456789/x").as_deref(),
        Some("10.123456789/x")
    );
}

#[test]
fn text_scan_rejects_ten_digit_prefixes() {
    assert_eq!(extract_doi_from_text("10.1234567890/x"), None);
}

#[test]
fn truncate_keeps_short_strings() {
    assert_eq!(safe_truncate("hello", 400), "hello");
}

#[test]
fn truncate_cuts_at_byte_limit() {
    assert_eq!(safe_truncate("abcdef", 3), "abc");
}

#[test]
fn truncate_never_splits_a_multibyte_character() {
    // 'é' takes two bytes; cutting at three bytes backs up to one character
    let s = "aéé";
    assert_eq!(safe_truncate(s, 4), "aé");
    assert_eq!(safe_truncate(s, 2), "a");
}

#[test]
fn trim_removes_both_ends() {
    assert_eq!(trim_str(" \t x y \n"), "x y");
}

#[test]
fn trim_removes_unicode_whitespace() {
    assert_eq!(trim_str("\u{a0}\u{2003}x y\u{3000}"), "x y");
}
