use query_service::quickwit::build_query;
use query_service::SearchRequest;

fn request(query: &str, filters: Vec<(&str, &str)>) -> SearchRequest {
    SearchRequest {
        query: query.to_string(),
        filters: filters
            .into_iter()
            .map(|(k, v)| (k.to_string(), v.to_string()))
            .collect(),
        time_range_type: "absolute".to_string(),
        relative_time_key: None,
        start_time: Some(100),
        end_time: Some(200),
        page: 1,
        page_size: 50,
        sort_by: "timestamp".to_string(),
        sort_desc: true,
    }
}

#[test]
fn sort_inversion() {
    let mut req = request("*", Vec::new());
    req.sort_desc = true;
    let q = build_query(&req, 100, 200);
    assert_eq!(q.sort_by, "timestamp");
    req.sort_desc = false;
    let q = build_query(&req, 100, 200);
    assert_eq!(q.sort_by, "-timestamp");
}

#[test]
fn offset_page_three() {
    let mut req = request("*", Vec::new());
    req.page = 3;
    req.page_size = 20;
    let q = build_query(&req, 100, 200);
    assert_eq!(q.start_offset, 40);
    assert_eq!(q.max_hits, 20);
}

#[test]
fn first_page_offset_is_zero() {
    let req = request("*", Vec::new());
    let q = build_query(&req, 100, 200);
    assert_eq!(q.start_offset, 0);
    assert_eq!(q.max_hits, 50);
}

#[test]
fn query_and_filters_joined() {
    let req = request("error", vec![("service", "api"), ("level", "ERROR")]);
    let q = build_query(&req, 100, 200);
    assert_eq!(q.query, "error AND service:api AND level:ERROR");
}

#[test]
fn empty_query_with_filters() {
    let req = request("", vec![("service", "api")]);
    let q = build_query(&req, 100, 200);
    assert_eq!(q.query, "service:api");
}

#[test]
fn all_empty_becomes_wildcard() {
    let req = request("", Vec::new());
    let q = build_query(&req, 100, 200);
    assert_eq!(q.query, "*");
}

#[test]
fn time_bounds_are_passed_through() {
    let req = request("x", Vec::new());
    let q = build_query(&req, -5, 99);
    assert_eq!(q.start_timestamp, -5);
    assert_eq!(q.end_timestamp, 99);
}
