use query_service::quickwit::SearchResponse;
use query_service::raw::RawValue;
use query_service::services::{
    after_agg_response, extract_buckets, scan_absorb, scan_request, scan_start, services_agg_query,
    services_from_buckets, ScanStep,
};

fn bucket(key: &str) -> RawValue {
    RawValue::Object(vec![
        ("key".to_string(), RawValue::Text(key.to_string())),
        ("doc_count".to_string(), RawValue::Int(1)),
    ])
}

fn agg_response(root: &str, keys: Vec<&str>) -> RawValue {
    let buckets = RawValue::Array(keys.into_iter().map(bucket).collect());
    RawValue::Object(vec![(
        root.to_string(),
        RawValue::Object(vec![(
            "services".to_string(),
            RawValue::Object(vec![("buckets".to_string(), buckets)]),
        )]),
    )])
}

fn hit(service: &str) -> query_service::LogHit {
    query_service::LogHit {
        timestamp: 1,
        message: "m".to_string(),
        level: "INFO".to_string(),
        service: service.to_string(),
        host: None,
        env: "prod".to_string(),
        trace_id: None,
        span_id: None,
        stack_trace: None,
        labels: None,
    }
}

fn page(services: Vec<&str>, total: u64) -> SearchResponse {
    SearchResponse {
        total,
        hits: services.into_iter().map(hit).collect(),
        page: 1,
        page_size: 500,
        took_ms: 0,
    }
}

#[test]
fn buckets_sorted_and_deduped() {
    let resp = agg_response("aggs", vec!["b", "a", "a"]);
    match after_agg_response(0, 86400, &resp) {
        ScanStep::Done(names) => assert_eq!(names, vec!["a".to_string(), "b".to_string()]),
        ScanStep::Continue(_) => panic!("buckets were present; no fallback expected"),
    }
}

#[test]
fn both_aggregation_roots_are_understood() {
    for root in ["aggs", "aggregations"] {
        let resp = agg_response(root, vec!["x"]);
        let buckets = extract_buckets(&resp).expect("buckets present");
        assert_eq!(services_from_buckets(buckets), vec!["x".to_string()]);
    }
}

#[test]
fn buckets_without_keys_are_skipped() {
    let buckets = vec![
        bucket("svc"),
        RawValue::Object(vec![("doc_count".to_string(), RawValue::Int(2))]),
    ];
    assert_eq!(services_from_buckets(&buckets), vec!["svc".to_string()]);
}

#[test]
fn missing_buckets_fall_back_to_scan() {
    let resp = RawValue::Object(vec![("num_hits".to_string(), RawValue::Int(0))]);
    match after_agg_response(100, 200, &resp) {
        ScanStep::Continue(state) => {
            assert_eq!(state.page, 1);
            assert_eq!(state.start_time, 100);
            assert_eq!(state.end_time, 200);
            assert!(state.acc.is_empty());
        }
        ScanStep::Done(_) => panic!("no buckets: the scan should start"),
    }
}

#[test]
fn scan_stops_on_empty_page() {
    // pages: ["x"], ["y"], [] — the third, empty page ends the scan
    let state = scan_start(0, 86400);
    let state = match scan_absorb(state, &page(vec!["x"], 100_000)) {
        ScanStep::Continue(s) => s,
        ScanStep::Done(_) => panic!("more pages expected"),
    };
    assert_eq!(state.page, 2);
    let state = match scan_absorb(state, &page(vec!["y"], 100_000)) {
        ScanStep::Continue(s) => s,
        ScanStep::Done(_) => panic!("more pages expected"),
    };
    assert_eq!(state.page, 3);
    match scan_absorb(state, &page(Vec::new(), 100_000)) {
        ScanStep::Done(names) => assert_eq!(names, vec!["x".to_string(), "y".to_string()]),
        ScanStep::Continue(_) => panic!("an empty page ends the scan"),
    }
}

#[test]
fn scan_stops_at_page_cap() {
    let mut state = scan_start(0, 86400);
    for expected_page in 1..=9usize {
        assert_eq!(state.page, expected_page);
        state = match scan_absorb(state, &page(vec!["s"], 1_000_000)) {
            ScanStep::Continue(s) => s,
            ScanStep::Done(_) => panic!("cap not yet reached"),
        };
    }
    match scan_absorb(state, &page(vec!["s"], 1_000_000)) {
        ScanStep::Done(names) => assert_eq!(names, vec!["s".to_string()]),
        ScanStep::Continue(_) => panic!("the tenth page ends the scan"),
    }
}

#[test]
fn scan_stops_when_total_is_reached() {
    let state = scan_start(0, 86400);
    // 1 * 500 >= 400: the first page already covers the reported total
    match scan_absorb(state, &page(vec!["a", "b"], 400)) {
        ScanStep::Done(names) => assert_eq!(names, vec!["a".to_string(), "b".to_string()]),
        ScanStep::Continue(_) => panic!("total reached: the scan should stop"),
    }
    let state = scan_start(0, 86400);
    // 1 * 500 < 501: a second page is needed
    assert!(matches!(
        scan_absorb(state, &page(vec!["a"], 501)),
        ScanStep::Continue(_)
    ));
}

#[test]
fn scan_result_is_sorted_and_deduped() {
    let state = scan_start(0, 86400);
    let state = match scan_absorb(state, &page(vec!["zeta", "alpha", "zeta"], 100_000)) {
        ScanStep::Continue(s) => s,
        ScanStep::Done(_) => panic!("more pages expected"),
    };
    match scan_absorb(state, &page(Vec::new(), 100_000)) {
        ScanStep::Done(names) => {
            assert_eq!(names, vec!["alpha".to_string(), "zeta".to_string()])
        }
        ScanStep::Continue(_) => panic!("an empty page ends the scan"),
    }
}

#[test]
fn scan_request_shape() {
    let state = scan_start(11, 22);
    let req = scan_request(&state);
    assert_eq!(req.query, "*");
    assert!(req.filters.is_empty());
    assert_eq!(req.time_range_type, "absolute");
    assert!(req.relative_time_key.is_none());
    assert_eq!(req.start_time, Some(11));
    assert_eq!(req.end_time, Some(22));
    assert_eq!(req.page, 1);
    assert_eq!(req.page_size, 500);
    assert_eq!(req.sort_by, "timestamp");
    assert!(req.sort_desc);
    assert!(req.validate().is_ok());
}

#[test]
fn aggregation_query_shape() {
    let q = services_agg_query(500, 86900);
    assert_eq!(q.query, "*");
    assert_eq!(q.start_timestamp, 500);
    assert_eq!(q.end_timestamp, 86900);
    assert_eq!(q.max_hits, 0);
    assert_eq!(q.agg_field, "service");
    assert_eq!(q.agg_size, 200);
}
