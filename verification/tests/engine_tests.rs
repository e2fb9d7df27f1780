use s3_finder::engine::Engine;
use s3_finder::engine::StepResult;
use s3_finder::request::SearchError;
use s3_finder::request::SearchRequest;

fn request(
    key_regex: Option<&str>,
    content_regex: Option<&str>,
    max_keys: Option<usize>,
    max_hits: Option<usize>,
    log_interval: usize,
    log_hits: bool,
) -> SearchRequest {
    SearchRequest::new(
        String::from("bucket"),
        Some(String::from("prefix/")),
        key_regex,
        content_regex,
        max_keys,
        max_hits,
        log_interval,
        log_hits,
        true,
        true,
    )
    .unwrap()
}

#[test]
fn engine_two_stage_flow() {
    let mut engine = Engine::new(request(Some("^b"), Some("needle"), None, None, 10, false));
    assert!(engine.is_running());
    assert!(engine.on_page(true));

    // Fails the key stage: judged on the spot, no fetch requested.
    match engine.on_key(Some(String::from("apple"))) {
        StepResult::Scanned(note) => assert!(!note.hit),
        other => panic!("expected a scanned key, got {:?}", other),
    }
    assert_eq!(engine.n_content_fetches(), 0);

    // Passes the key stage: the engine asks for contents.
    match engine.on_key(Some(String::from("berry"))) {
        StepResult::NeedContent => {}
        other => panic!("expected a content request, got {:?}", other),
    }
    assert_eq!(engine.n_content_fetches(), 1);
    match engine.on_content(Some(String::from("a needle here"))) {
        StepResult::Scanned(note) => assert!(note.hit),
        other => panic!("expected a scanned key, got {:?}", other),
    }

    assert_eq!(engine.n_scanned(), 2);
    assert_eq!(engine.n_hits(), 1);
    let report = engine.into_result().unwrap();
    assert_eq!(report.keys, vec!["berry".to_string()]);
}

#[test]
fn engine_notes_report_logging_decisions() {
    let mut engine = Engine::new(request(None, None, None, None, 2, true));
    assert!(engine.on_page(true));
    match engine.on_key(Some(String::from("k1"))) {
        StepResult::Scanned(note) => {
            assert!(note.hit);
            assert!(note.log_hit);
            // One key scanned, cadence two: no progress line yet.
            assert!(!note.log_progress);
            assert!(!note.limit_reached);
        }
        other => panic!("expected a scanned key, got {:?}", other),
    }
    match engine.on_key(Some(String::from("k2"))) {
        StepResult::Scanned(note) => assert!(note.log_progress),
        other => panic!("expected a scanned key, got {:?}", other),
    }
}

#[test]
fn engine_limit_note_stops_scan() {
    let mut engine = Engine::new(request(None, None, Some(1), None, 10, false));
    assert!(engine.on_page(true));
    match engine.on_key(Some(String::from("k1"))) {
        StepResult::Scanned(note) => assert!(note.limit_reached),
        other => panic!("expected a scanned key, got {:?}", other),
    }
    assert!(!engine.is_running());
    let report = engine.into_result().unwrap();
    assert_eq!(report.keys, vec!["k1".to_string()]);
}

#[test]
fn engine_zero_limit_starts_stopped() {
    let engine = Engine::new(request(None, None, Some(0), None, 10, false));
    assert!(!engine.is_running());
    let report = engine.into_result().unwrap();
    assert!(report.keys.is_empty());
    assert_eq!(report.n_pages, 0);
}

#[test]
fn engine_unreadable_page_aborts_when_intolerant() {
    let req = SearchRequest::new(
        String::from("bucket"),
        None,
        None,
        None,
        None,
        None,
        10,
        false,
        false,
        true,
    )
    .unwrap();
    let mut engine = Engine::new(req);
    assert!(!engine.on_page(false));
    assert_eq!(engine.into_result().unwrap_err(), SearchError::UnreadableListing);
}

#[test]
fn engine_unreadable_page_tolerated_counts_page() {
    let mut engine = Engine::new(request(None, None, None, None, 10, false));
    assert!(engine.on_page(false));
    assert_eq!(engine.n_pages(), 1);
    assert_eq!(engine.n_scanned(), 0);
}

#[test]
fn engine_failed_content_fetch_is_a_miss_when_tolerated() {
    let mut engine = Engine::new(request(None, Some("x"), None, None, 10, false));
    assert!(engine.on_page(true));
    match engine.on_key(Some(String::from("k"))) {
        StepResult::NeedContent => {}
        other => panic!("expected a content request, got {:?}", other),
    }
    match engine.on_content(None) {
        StepResult::Scanned(note) => assert!(!note.hit),
        other => panic!("expected a scanned key, got {:?}", other),
    }
    assert_eq!(engine.n_scanned(), 1);
    assert!(engine.into_result().unwrap().keys.is_empty());
}
