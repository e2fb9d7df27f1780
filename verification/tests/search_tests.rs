use s3_finder::request::SearchError;
use s3_finder::request::SearchRequest;
use s3_finder::search::ContentEntry;
use s3_finder::search::PageData;
use s3_finder::search::run_search;

fn req(
    key_regex: Option<&str>,
    content_regex: Option<&str>,
    max_keys: Option<usize>,
    max_hits: Option<usize>,
    tolerate_response_error: bool,
    tolerate_key_error: bool,
) -> SearchRequest {
    SearchRequest::new(
        String::from("bucket"),
        None,
        key_regex,
        content_regex,
        max_keys,
        max_hits,
        10000,
        false,
        tolerate_response_error,
        tolerate_key_error,
    )
    .unwrap()
}

fn page(keys: &[Option<&str>], truncated: bool) -> PageData {
    PageData {
        contents: Some(keys.iter().map(|k| k.map(String::from)).collect()),
        is_truncated: truncated,
    }
}

fn bad_page(truncated: bool) -> PageData {
    PageData { contents: None, is_truncated: truncated }
}

fn entry(key: &str, body: Option<&str>) -> ContentEntry {
    ContentEntry { key: String::from(key), body: body.map(String::from) }
}

fn abc_listing() -> Vec<PageData> {
    vec![page(&[Some("a.txt"), Some("b.log"), Some("a.log")], false)]
}

#[test]
fn scenario_key_pattern_only() {
    let pages = abc_listing();
    let rep = run_search(req(Some(r".*\.log$"), None, None, None, true, true), &pages, &vec![])
        .unwrap();
    assert_eq!(rep.keys, vec!["b.log".to_string(), "a.log".to_string()]);
    assert_eq!(rep.n_scanned, 3);
    assert_eq!(rep.n_hits, 2);
    assert_eq!(rep.n_content_fetches, 0);
}

#[test]
fn scenario_content_pattern_skips_unmatched_keys() {
    let pages = abc_listing();
    let contents = vec![
        entry("a.txt", Some("needle in the wrong file")),
        entry("b.log", Some("here is the needle")),
        entry("a.log", Some("nothing of note")),
    ];
    let rep = run_search(
        req(Some(r".*\.log$"), Some("needle"), None, None, true, true),
        &pages,
        &contents,
    )
    .unwrap();
    assert_eq!(rep.keys, vec!["b.log".to_string()]);
    // Only the two .log keys were fetched; a.txt's content (which would have
    // matched) was never consulted.
    assert_eq!(rep.n_content_fetches, 2);
    assert_eq!(rep.n_hits, 1);
}

#[test]
fn scenario_max_hits_stops_scan() {
    let pages = abc_listing();
    let rep = run_search(req(Some(r".*\.log$"), None, None, Some(1), true, true), &pages, &vec![])
        .unwrap();
    assert_eq!(rep.keys, vec!["b.log".to_string()]);
    // "a.log" was never examined: scanning stopped at the hit.
    assert_eq!(rep.n_scanned, 2);
}

#[test]
fn scenario_malformed_page_tolerated() {
    let pages = vec![bad_page(true), page(&[Some("x"), Some("y")], false)];
    let rep = run_search(req(None, None, None, None, true, true), &pages, &vec![]).unwrap();
    assert_eq!(rep.keys, vec!["x".to_string(), "y".to_string()]);
    assert_eq!(rep.n_pages, 2);
    assert_eq!(rep.n_scanned, 2);
}

#[test]
fn scenario_malformed_page_fatal() {
    let pages = vec![bad_page(true), page(&[Some("x")], false)];
    let err = run_search(req(None, None, None, None, false, true), &pages, &vec![]).unwrap_err();
    assert_eq!(err, SearchError::UnreadableListing);
}

#[test]
fn scenario_content_failure_tolerated() {
    let pages = vec![page(&[Some("a.log"), Some("b.log")], false)];
    let contents = vec![entry("a.log", None), entry("b.log", Some("match me"))];
    let rep =
        run_search(req(Some(r"\.log$"), Some("match"), None, None, true, true), &pages, &contents)
            .unwrap();
    // a.log's failed fetch excludes it, but it still counts as scanned.
    assert_eq!(rep.keys, vec!["b.log".to_string()]);
    assert_eq!(rep.n_scanned, 2);
    assert_eq!(rep.n_content_fetches, 2);
}

#[test]
fn content_failure_fatal() {
    let pages = vec![page(&[Some("a.log")], false)];
    let contents = vec![entry("a.log", None)];
    let err =
        run_search(req(Some(r"\.log$"), Some("x"), None, None, true, false), &pages, &contents)
            .unwrap_err();
    assert_eq!(err, SearchError::ContentUnavailable { key: String::from("a.log") });
}

#[test]
fn missing_content_entry_counts_as_failed_fetch() {
    let pages = vec![page(&[Some("a.log")], false)];
    let err = run_search(req(None, Some("x"), None, None, true, false), &pages, &vec![])
        .unwrap_err();
    assert_eq!(err, SearchError::ContentUnavailable { key: String::from("a.log") });
}

#[test]
fn no_patterns_returns_full_listing_in_order() {
    let pages = vec![
        page(&[Some("k1"), Some("k2")], true),
        page(&[Some("k3")], true),
        page(&[Some("k4"), Some("k5")], false),
    ];
    let rep = run_search(req(None, None, None, None, true, true), &pages, &vec![]).unwrap();
    assert_eq!(
        rep.keys,
        vec![
            "k1".to_string(),
            "k2".to_string(),
            "k3".to_string(),
            "k4".to_string(),
            "k5".to_string(),
        ]
    );
    assert_eq!(rep.n_pages, 3);
    assert_eq!(rep.n_content_fetches, 0);
}

#[test]
fn untruncated_page_ends_listing() {
    // The third page exists but must never be consulted: the second page is
    // untruncated.
    let pages = vec![
        page(&[Some("k1")], true),
        page(&[Some("k2")], false),
        page(&[Some("k3")], false),
    ];
    let rep = run_search(req(None, None, None, None, true, true), &pages, &vec![]).unwrap();
    assert_eq!(rep.keys, vec!["k1".to_string(), "k2".to_string()]);
    assert_eq!(rep.n_pages, 2);
}

#[test]
fn listing_exhausted_while_truncated() {
    let pages = vec![page(&[Some("k1")], true)];
    let rep = run_search(req(None, None, None, None, true, true), &pages, &vec![]).unwrap();
    assert_eq!(rep.keys, vec!["k1".to_string()]);
}

#[test]
fn repeated_search_is_identical() {
    let pages = abc_listing();
    let contents = vec![entry("b.log", Some("needle")), entry("a.log", Some("hay"))];
    let first = run_search(
        req(Some(r".*\.log$"), Some("needle"), None, None, true, true),
        &pages,
        &contents,
    )
    .unwrap();
    let second = run_search(
        req(Some(r".*\.log$"), Some("needle"), None, None, true, true),
        &pages,
        &contents,
    )
    .unwrap();
    assert_eq!(first.keys, second.keys);
    assert_eq!(first.n_scanned, second.n_scanned);
    assert_eq!(first.n_hits, second.n_hits);
    assert_eq!(first.n_content_fetches, second.n_content_fetches);
    assert_eq!(first.n_pages, second.n_pages);
}

#[test]
fn zero_max_keys_scans_nothing() {
    let pages = abc_listing();
    let rep = run_search(req(None, None, Some(0), None, true, true), &pages, &vec![]).unwrap();
    assert!(rep.keys.is_empty());
    assert_eq!(rep.n_scanned, 0);
    assert_eq!(rep.n_pages, 0);
    assert_eq!(rep.n_content_fetches, 0);
}

#[test]
fn zero_max_hits_scans_nothing() {
    let pages = abc_listing();
    let rep = run_search(req(None, None, None, Some(0), true, true), &pages, &vec![]).unwrap();
    assert!(rep.keys.is_empty());
    assert_eq!(rep.n_scanned, 0);
    assert_eq!(rep.n_pages, 0);
}

#[test]
fn limit_reached_mid_page_halts_remainder() {
    let pages = vec![page(&[Some("k1"), Some("k2"), Some("k3")], true), page(&[Some("k4")], false)];
    let rep = run_search(req(None, None, Some(2), None, true, true), &pages, &vec![]).unwrap();
    assert_eq!(rep.keys, vec!["k1".to_string(), "k2".to_string()]);
    assert_eq!(rep.n_scanned, 2);
    assert_eq!(rep.n_pages, 1);
}

#[test]
fn missing_key_tolerated_is_skipped_silently() {
    let pages = vec![page(&[Some("k1"), None, Some("k2")], false)];
    let rep = run_search(req(None, None, None, None, true, true), &pages, &vec![]).unwrap();
    assert_eq!(rep.keys, vec!["k1".to_string(), "k2".to_string()]);
    // A descriptor without a key string is not counted as scanned.
    assert_eq!(rep.n_scanned, 2);
}

#[test]
fn missing_key_fatal() {
    let pages = vec![page(&[Some("k1"), None], false)];
    let err = run_search(req(None, None, None, None, true, false), &pages, &vec![]).unwrap_err();
    assert_eq!(err, SearchError::MissingKey);
}

#[test]
fn invalid_key_pattern_fails_fast() {
    let err = SearchRequest::new(
        String::from("bucket"),
        None,
        Some("("),
        None,
        None,
        None,
        10000,
        false,
        true,
        true,
    );
    let err = match err {
        Err(e) => e,
        Ok(_) => panic!("expected an invalid key pattern to be rejected"),
    };
    assert_eq!(err, SearchError::InvalidKeyPattern { pattern: String::from("(") });
}

#[test]
fn invalid_content_pattern_fails_fast() {
    let err = SearchRequest::new(
        String::from("bucket"),
        None,
        Some("ok"),
        Some("["),
        None,
        None,
        10000,
        false,
        true,
        true,
    );
    let err = match err {
        Err(e) => e,
        Ok(_) => panic!("expected an invalid content pattern to be rejected"),
    };
    assert_eq!(err, SearchError::InvalidContentPattern { pattern: String::from("[") });
}

#[test]
fn key_pattern_checked_before_content_pattern() {
    let err = SearchRequest::new(
        String::from("bucket"),
        None,
        Some("("),
        Some("["),
        None,
        None,
        10000,
        false,
        true,
        true,
    );
    let err = match err {
        Err(e) => e,
        Ok(_) => panic!("expected the key pattern to be rejected first"),
    };
    assert_eq!(err, SearchError::InvalidKeyPattern { pattern: String::from("(") });
}

#[test]
fn first_content_entry_wins() {
    let pages = vec![page(&[Some("k")], false)];
    let contents = vec![entry("k", Some("match")), entry("k", Some("other"))];
    let rep = run_search(req(None, Some("match"), None, None, true, true), &pages, &contents)
        .unwrap();
    assert_eq!(rep.keys, vec!["k".to_string()]);
}

#[test]
fn content_pattern_without_key_pattern_fetches_everything() {
    let pages = abc_listing();
    let contents = vec![
        entry("a.txt", Some("needle")),
        entry("b.log", Some("hay")),
        entry("a.log", Some("needle")),
    ];
    let rep = run_search(req(None, Some("needle"), None, None, true, true), &pages, &contents)
        .unwrap();
    assert_eq!(rep.keys, vec!["a.txt".to_string(), "a.log".to_string()]);
    assert_eq!(rep.n_content_fetches, 3);
}
