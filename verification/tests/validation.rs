use query_service::SearchRequest;

fn base_request() -> SearchRequest {
    SearchRequest {
        query: String::new(),
        filters: Vec::new(),
        time_range_type: "relative".to_string(),
        relative_time_key: Some("1h".to_string()),
        start_time: None,
        end_time: None,
        page: 1,
        page_size: 50,
        sort_by: "timestamp".to_string(),
        sort_desc: true,
    }
}

#[test]
fn pagination_in_bounds_accepted() {
    for (page, page_size) in [(1usize, 1usize), (1, 1000), (3, 20), (1000, 500)] {
        let mut req = base_request();
        req.page = page;
        req.page_size = page_size;
        assert!(req.validate().is_ok(), "page={page} page_size={page_size}");
    }
}

#[test]
fn page_zero_rejected() {
    let mut req = base_request();
    req.page = 0;
    assert_eq!(req.validate().unwrap_err(), "page must be >= 1");
}

#[test]
fn page_size_bounds() {
    let mut req = base_request();
    req.page_size = 0;
    assert_eq!(
        req.validate().unwrap_err(),
        "page_size must be between 1 and 1000"
    );
    req.page_size = 1001;
    assert_eq!(
        req.validate().unwrap_err(),
        "page_size must be between 1 and 1000"
    );
    req.page_size = 1;
    assert!(req.validate().is_ok());
    req.page_size = 1000;
    assert!(req.validate().is_ok());
}

#[test]
fn known_relative_keys_accepted() {
    for key in ["1m", "5m", "15m", "1h", "4h", "1d", "7d", "30d"] {
        let mut req = base_request();
        req.relative_time_key = Some(key.to_string());
        assert!(req.validate().is_ok(), "key={key}");
    }
}

#[test]
fn unknown_relative_key_rejected() {
    for key in ["2h", "90m", "1w", "1H", "1h ", "0m"] {
        let mut req = base_request();
        req.relative_time_key = Some(key.to_string());
        assert_eq!(
            req.validate().unwrap_err(),
            format!("invalid relative_time_key: {key}")
        );
    }
}

#[test]
fn missing_or_empty_relative_key_rejected() {
    let mut req = base_request();
    req.relative_time_key = None;
    assert_eq!(
        req.validate().unwrap_err(),
        "relative_time_key is required when time_range_type is 'relative'"
    );
    req.relative_time_key = Some(String::new());
    assert_eq!(
        req.validate().unwrap_err(),
        "relative_time_key is required when time_range_type is 'relative'"
    );
}

#[test]
fn absolute_requires_both_bounds() {
    let mut req = base_request();
    req.time_range_type = "absolute".to_string();
    req.relative_time_key = None;
    assert_eq!(
        req.validate().unwrap_err(),
        "start_time and end_time are required when time_range_type is 'absolute'"
    );
    req.start_time = Some(100);
    assert_eq!(
        req.validate().unwrap_err(),
        "start_time and end_time are required when time_range_type is 'absolute'"
    );
    req.end_time = Some(200);
    assert!(req.validate().is_ok());
}

#[test]
fn absolute_unordered_bounds_rejected() {
    let mut req = base_request();
    req.time_range_type = "absolute".to_string();
    req.relative_time_key = None;
    req.start_time = Some(200);
    req.end_time = Some(200);
    assert_eq!(req.validate().unwrap_err(), "start_time must be before end_time");
    req.start_time = Some(300);
    assert_eq!(req.validate().unwrap_err(), "start_time must be before end_time");
}

#[test]
fn unknown_time_range_type_rejected() {
    let mut req = base_request();
    req.time_range_type = "sliding".to_string();
    assert_eq!(
        req.validate().unwrap_err(),
        "invalid time_range_type: sliding"
    );
}
