use swe_edge_egress_grpc::{classify_resource_exhausted, parse_retry_after_hint, ResourceExhaustedContext};

#[test]
fn test_classify_resource_exhausted_rate_limit_keywords() {
    assert_eq!(classify_resource_exhausted("rate limit exceeded"), ResourceExhaustedContext::RateLimit);
    assert_eq!(classify_resource_exhausted("too many requests"), ResourceExhaustedContext::RateLimit);
    assert_eq!(classify_resource_exhausted("throttled"), ResourceExhaustedContext::RateLimit);
}

#[test]
fn test_classify_resource_exhausted_quota_keywords() {
    assert_eq!(classify_resource_exhausted("quota exceeded"), ResourceExhaustedContext::HardQuota);
    assert_eq!(classify_resource_exhausted("billing limit hit"), ResourceExhaustedContext::HardQuota);
}

#[test]
fn test_classify_resource_exhausted_unknown_defaults_to_capacity() {
    assert_eq!(classify_resource_exhausted(""), ResourceExhaustedContext::Capacity);
    assert_eq!(classify_resource_exhausted("server busy"), ResourceExhaustedContext::Capacity);
}

#[test]
fn classification_ignores_ascii_case_and_prefers_quota() {
    assert_eq!(classify_resource_exhausted("RATE LIMIT"), ResourceExhaustedContext::RateLimit);
    assert_eq!(classify_resource_exhausted("Plan Limit reached"), ResourceExhaustedContext::HardQuota);
    assert_eq!(classify_resource_exhausted("rate quota"), ResourceExhaustedContext::HardQuota);
    assert_eq!(classify_resource_exhausted("Überlastet"), ResourceExhaustedContext::Capacity);
}

#[test]
fn test_parse_retry_after_hint_extracts_seconds() {
    assert_eq!(parse_retry_after_hint("rate limit [retry-after=30s]"), Some(30));
}

#[test]
fn test_parse_retry_after_hint_absent_returns_none() {
    assert_eq!(parse_retry_after_hint("rate limit exceeded"), None);
    assert_eq!(parse_retry_after_hint(""), None);
}

#[test]
fn retry_after_hint_rejects_malformed_values() {
    assert_eq!(parse_retry_after_hint("[retry-after=s]"), None);
    assert_eq!(parse_retry_after_hint("[retry-after=12"), None);
    assert_eq!(parse_retry_after_hint("[retry-after=1x2s]"), None);
    assert_eq!(parse_retry_after_hint("[retry-after=+5s] trailing"), Some(5));
    assert_eq!(parse_retry_after_hint("[retry-after=18446744073709551616s]"), None);
}

#[test]
fn retry_after_hint_reads_back_after_a_prefix_with_brackets() {
    for prefix in ["[rate] limit ", "[retry-after", "[[", "[retry-after=x] "] {
        let msg = format!("{prefix}[retry-after=42s] tail");
        let expected = if prefix.contains("[retry-after=") { None } else { Some(42) };
        assert_eq!(parse_retry_after_hint(&msg), expected, "prefix {prefix:?}");
    }
}
