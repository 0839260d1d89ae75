use doi_pipeline::verdict::parse_verdict;
use doi_pipeline::verdict::disabled_verdict;
use doi_pipeline::verdict::model_failure_verdict;
use doi_pipeline::pipeline::relevance_verdict;

#[test]
fn well_formed_reply_parses_exactly() {
    let v = parse_verdict("SCORE: 0.92\nREASON: Directly relevant to the subject.", 60);
    assert_eq!(v.score, 92);
    assert_eq!(v.reason, "Directly relevant to the subject.");
    assert!(v.accepted);
}

#[test]
fn reason_keeps_its_own_colons() {
    let v = parse_verdict("SCORE: 0.5\nREASON: Relevant: methods: yes", 60);
    assert_eq!(v.reason, "Relevant: methods: yes");
}

#[test]
fn acceptance_is_exact_at_the_boundary() {
    let at = parse_verdict("SCORE: 0.60\nREASON: x", 60);
    assert!(at.accepted);
    assert_eq!(at.score, 60);
    let below = parse_verdict("SCORE: 0.59\nREASON: x", 60);
    assert!(!below.accepted);
    assert_eq!(below.score, 59);
}

#[test]
fn marker_is_found_case_insensitively() {
    let v = parse_verdict("score: 0.30\nreason: meh", 60);
    assert_eq!(v.score, 30);
    assert_eq!(v.reason, "meh");
}

#[test]
fn unparsable_score_line_falls_back_to_token_scan() {
    let v = parse_verdict("SCORE: very relevant 0.8\nREASON: x", 60);
    assert_eq!(v.score, 80);
}

#[test]
fn missing_score_line_scans_tokens() {
    let v = parse_verdict("I would rate this 0.75 overall.\nsecond line", 60);
    assert_eq!(v.score, 75);
}

#[test]
fn reply_without_numbers_defaults_to_half() {
    let v = parse_verdict("no numbers here\nat all", 60);
    assert_eq!(v.score, 50);
}

#[test]
fn missing_reason_line_joins_the_rest() {
    let v = parse_verdict("0.40\nline one\nline two", 60);
    assert_eq!(v.score, 40);
    assert_eq!(v.reason, "line one line two");
}

#[test]
fn fraction_is_cut_after_two_digits() {
    let v = parse_verdict("SCORE: 0.857\nREASON: x", 60);
    assert_eq!(v.score, 85);
}

#[test]
fn integer_scores_parse() {
    let v = parse_verdict("SCORE: 1\nREASON: x", 60);
    assert_eq!(v.score, 100);
}

#[test]
fn disabled_verdict_is_the_sentinel() {
    let v = disabled_verdict();
    assert!(v.accepted);
    assert_eq!(v.score, 110);
    assert_eq!(v.reason, "AI disabled -_-");
}

#[test]
fn model_failure_accepts_with_default_score() {
    let v = model_failure_verdict();
    assert!(v.accepted);
    assert_eq!(v.score, 70);
    assert_eq!(v.reason, "AI error, accepted by default");
}

#[test]
fn model_failure_is_independent_of_threshold() {
    // fail-open: the failure verdict accepts whatever the minimum is
    let v = relevance_verdict(true, None, 99);
    assert!(v.accepted);
    assert_eq!(v.score, 70);
    assert_eq!(v.reason, "AI error, accepted by default");
}

#[test]
fn disabled_validation_is_the_sentinel_not_a_real_score() {
    let v = relevance_verdict(false, Some("SCORE: 0.1\nREASON: ignored"), 60);
    assert!(v.accepted);
    assert_eq!(v.score, 110);
}

#[test]
fn enabled_validation_uses_the_reply() {
    let v = relevance_verdict(true, Some("SCORE: 0.2\nREASON: off-topic"), 60);
    assert!(!v.accepted);
    assert_eq!(v.score, 20);
    assert_eq!(v.reason, "off-topic");
}
