use better_finder::engine::SearchEngine;
use better_finder::validation::{is_valid_url, sanitize_query, url_encode};
use std::time::Instant;

#[test]
fn test_sanitize_query() {
    assert_eq!(sanitize_query("  hello world  "), "hello world");
    assert_eq!(sanitize_query("test\nquery"), "testquery");
    assert_eq!(sanitize_query("normal query"), "normal query");
}

#[test]
fn test_is_valid_url() {
    assert!(is_valid_url("http://example.com"));
    assert!(is_valid_url("https://example.com"));
    assert!(!is_valid_url("ftp://example.com"));
    assert!(!is_valid_url("example.com"));
}

#[test]
fn test_url_encode() {
    assert_eq!(url_encode("hello world"), "hello+world");
    assert_eq!(url_encode("test@example.com"), "test%40example.com");
    assert_eq!(url_encode("simple"), "simple");
}

#[test]
fn url_encode_keeps_unreserved_and_encodes_the_rest() {
    assert_eq!(url_encode("a-b_c.d~e"), "a-b_c.d~e");
    assert_eq!(url_encode("a/b?c=d&e"), "a%2Fb%3Fc%3Dd%26e");
    assert_eq!(url_encode(""), "");
}

#[test]
fn sanitize_removes_control_characters_inside() {
    assert_eq!(sanitize_query("test\x00query\x01"), "testquery");
    assert_eq!(sanitize_query("\t a\u{7f}b \r\n"), "ab");
}

#[test]
fn sanitize_keeps_at_most_256_characters() {
    let long = "b".repeat(300);
    assert_eq!(sanitize_query(&long).chars().count(), 256);
    let exact = "c".repeat(256);
    assert_eq!(sanitize_query(&exact), exact);
    let padded = format!("   {}   ", "é".repeat(257));
    assert_eq!(sanitize_query(&padded), "é".repeat(256));
}

#[test]
fn sanitize_of_blank_is_empty() {
    assert_eq!(sanitize_query(""), "");
    assert_eq!(sanitize_query("   "), "");
    assert_eq!(sanitize_query("\u{3000}\u{a0}"), "");
}

#[test]
fn benchmark_query_sanitization() {
    let long_query = "a".repeat(1000);

    let start = Instant::now();
    for _ in 0..1000 {
        let _ = SearchEngine::sanitize_query(&long_query);
    }
    let duration = start.elapsed();

    println!("1000 query sanitizations took: {:?}", duration);

    assert!(
        duration.as_millis() < 10,
        "Sanitization took {}ms, expected <10ms",
        duration.as_millis()
    );
}
