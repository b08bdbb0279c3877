use cavin_tools::capture::{
    matches_filter, status_text, CapturedRequest, CapturedResponse, FilterCriteria,
};

fn headers(pairs: &[(&str, &str)]) -> Vec<(String, String)> {
    pairs.iter().map(|(k, v)| (k.to_string(), v.to_string())).collect()
}

#[test]
fn response_derives_content_type_and_length_from_reality() {
    let resp = CapturedResponse::new(
        200,
        status_text(200),
        headers(&[("server", "x"), ("content-type", "application/json"), ("content-length", "999")]),
        Some(b"{\"a\":1}".to_vec()),
    );
    assert_eq!(resp.content_type.as_deref(), Some("application/json"));
    // The length is the actual body size, never the headers' claim.
    assert_eq!(resp.content_length, Some(7));
    assert_eq!(resp.body_text.as_deref(), Some("{\"a\":1}"));
}

#[test]
fn body_text_is_decoded_only_for_textual_content_types() {
    let binary = CapturedResponse::new(
        200,
        status_text(200),
        headers(&[("content-type", "application/octet-stream")]),
        Some(vec![0, 159, 146, 150]),
    );
    assert!(binary.body_text.is_none());

    let invalid_utf8 = CapturedResponse::new(
        200,
        status_text(200),
        headers(&[("content-type", "text/plain")]),
        Some(vec![0xff, 0xfe]),
    );
    assert!(invalid_utf8.body_text.is_none());

    let unicode = CapturedResponse::new(
        200,
        status_text(200),
        headers(&[("content-type", "text/html; charset=utf-8")]),
        Some("héllo 世界".as_bytes().to_vec()),
    );
    assert_eq!(unicode.body_text.as_deref(), Some("héllo 世界"));

    let no_content_type =
        CapturedResponse::new(200, status_text(200), vec![], Some(b"plain".to_vec()));
    assert!(no_content_type.body_text.is_none());
}

#[test]
fn status_text_names_the_known_codes() {
    assert_eq!(status_text(200), "OK");
    assert_eq!(status_text(404), "Not Found");
    assert_eq!(status_text(502), "Bad Gateway");
    assert_eq!(status_text(599), "Unknown");
}

#[test]
fn request_capture_decodes_its_body_best_effort() {
    let req = CapturedRequest::new(
        "POST".to_string(),
        "http://example.com/api".to_string(),
        "example.com".to_string(),
        "/api".to_string(),
        "http".to_string(),
        vec![],
        Some(b"name=value".to_vec()),
    );
    assert_eq!(req.request_body_text.as_deref(), Some("name=value"));
    assert!(req.response.is_none());
    assert!(req.duration_ms.is_none());
    assert_eq!(req.id.len(), 36);

    let binary = CapturedRequest::new(
        "POST".to_string(),
        "http://example.com/upload".to_string(),
        "example.com".to_string(),
        "/upload".to_string(),
        "http".to_string(),
        vec![],
        Some(vec![0xff, 0x00]),
    );
    assert!(binary.request_body_text.is_none());
}

#[test]
fn fresh_captures_get_distinct_identifiers() {
    let a = CapturedRequest::new(
        "GET".to_string(),
        "http://example.com/".to_string(),
        "example.com".to_string(),
        "/".to_string(),
        "http".to_string(),
        vec![],
        None,
    );
    let b = CapturedRequest::new(
        "GET".to_string(),
        "http://example.com/".to_string(),
        "example.com".to_string(),
        "/".to_string(),
        "http".to_string(),
        vec![],
        None,
    );
    assert_ne!(a.id, b.id);
}

#[test]
fn filter_clauses_combine_with_and() {
    let mut req = CapturedRequest::new(
        "GET".to_string(),
        "http://api.example.com/users".to_string(),
        "api.example.com".to_string(),
        "/users".to_string(),
        "http".to_string(),
        vec![],
        None,
    );
    req.set_response(
        CapturedResponse::new(
            404,
            status_text(404),
            headers(&[("content-type", "application/json")]),
            Some(b"{\"error\":\"missing\"}".to_vec()),
        ),
        11,
    );

    let both = FilterCriteria {
        url_pattern: Some("API.example".to_string()),
        methods: Some(vec!["GET".to_string(), "POST".to_string()]),
        status_codes: Some(vec![404]),
        content_type: Some("json".to_string()),
        search_text: Some("MISSING".to_string()),
    };
    assert!(matches_filter(&req, &both));

    let wrong_method = FilterCriteria {
        methods: Some(vec!["DELETE".to_string()]),
        ..FilterCriteria::none()
    };
    assert!(!matches_filter(&req, &wrong_method));

    let wrong_status = FilterCriteria {
        status_codes: Some(vec![200]),
        ..FilterCriteria::none()
    };
    assert!(!matches_filter(&req, &wrong_status));

    assert!(matches_filter(&req, &FilterCriteria::none()));
}
