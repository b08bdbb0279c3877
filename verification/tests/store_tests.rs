use cavin_tools::capture::{CapturedRequest, CapturedResponse, FilterCriteria};
use cavin_tools::store::RequestStore;

fn request(method: &str, url: &str, body: Option<&str>) -> CapturedRequest {
    CapturedRequest::new(
        method.to_string(),
        url.to_string(),
        "example.com".to_string(),
        "/".to_string(),
        "http".to_string(),
        vec![],
        body.map(|b| b.as_bytes().to_vec()),
    )
}

fn response(status: u16, content_type: &str, body: &str) -> CapturedResponse {
    CapturedResponse::new(
        status,
        "OK".to_string(),
        vec![("content-type".to_string(), content_type.to_string())],
        Some(body.as_bytes().to_vec()),
    )
}

#[test]
fn capacity_plus_one_inserts_evict_the_oldest() {
    let mut store = RequestStore::new(3);
    let mut ids = Vec::new();
    for i in 0..4 {
        let req = request("GET", &format!("http://example.com/{}", i), None);
        ids.push(req.id.clone());
        store.add(req);
    }
    assert_eq!(store.len(), 3);
    assert!(store.get(&ids[0]).is_none(), "the least recently touched entry is evicted");
    for id in &ids[1..] {
        assert!(store.get(id).is_some());
    }
}

#[test]
fn lookup_refreshes_recency() {
    let mut store = RequestStore::new(2);
    let first = request("GET", "http://example.com/first", None);
    let second = request("GET", "http://example.com/second", None);
    let first_id = first.id.clone();
    let second_id = second.id.clone();
    store.add(first);
    store.add(second);
    // Touch the older entry, then overflow: the untouched one must go.
    assert!(store.get(&first_id).is_some());
    store.add(request("GET", "http://example.com/third", None));
    assert_eq!(store.len(), 2);
    assert!(store.get(&first_id).is_some());
    assert!(store.get(&second_id).is_none());
}

#[test]
fn adding_the_same_id_replaces_without_eviction() {
    let mut store = RequestStore::new(2);
    let a = request("GET", "http://example.com/a", None);
    let b = request("GET", "http://example.com/b", None);
    let a_id = a.id.clone();
    let b_id = b.id.clone();
    store.add(a);
    store.add(b);
    let replacement = store.get(&a_id).unwrap();
    store.add(replacement);
    assert_eq!(store.len(), 2);
    assert!(store.get(&a_id).is_some());
    assert!(store.get(&b_id).is_some());
}

#[test]
fn two_simultaneous_predicates_select_only_entries_satisfying_both() {
    let mut store = RequestStore::new(10);

    let mut get_json = request("GET", "http://api.example.com/data", None);
    get_json.set_response(response(200, "application/json", "{\"ok\":true}"), 5);
    store.add(get_json);

    let mut post_json = request("POST", "http://api.example.com/data", None);
    post_json.set_response(response(200, "application/json", "{}"), 5);
    store.add(post_json);

    let mut get_html = request("GET", "http://www.example.com/", None);
    get_html.set_response(response(200, "text/html", "<html></html>"), 5);
    store.add(get_html);

    let pending = request("GET", "http://slow.example.com/", None);
    store.add(pending);

    let filter = FilterCriteria {
        url_pattern: None,
        methods: Some(vec!["GET".to_string()]),
        status_codes: None,
        content_type: Some("json".to_string()),
        search_text: None,
    };
    let hits = store.get_filtered(Some(filter));
    assert_eq!(hits.len(), 1);
    assert_eq!(hits[0].method, "GET");
    assert_eq!(hits[0].url, "http://api.example.com/data");
}

#[test]
fn pending_entries_never_match_a_status_filter() {
    let mut store = RequestStore::new(10);
    let pending = request("GET", "http://example.com/pending", None);
    store.add(pending);
    let mut done = request("GET", "http://example.com/done", None);
    done.set_response(response(200, "text/plain", "ok"), 2);
    store.add(done);

    let filter = FilterCriteria {
        url_pattern: None,
        methods: None,
        status_codes: Some(vec![200, 404]),
        content_type: None,
        search_text: None,
    };
    let hits = store.get_filtered(Some(filter));
    assert_eq!(hits.len(), 1);
    assert_eq!(hits[0].url, "http://example.com/done");
}

#[test]
fn absent_filter_and_empty_predicates_keep_everything() {
    let mut store = RequestStore::new(10);
    store.add(request("GET", "http://example.com/a", None));
    store.add(request("POST", "http://example.com/b", None));
    assert_eq!(store.get_filtered(None).len(), 2);
    let empty = FilterCriteria::none();
    assert_eq!(store.get_filtered(Some(empty)).len(), 2);
}

#[test]
fn url_filter_is_case_insensitive() {
    let mut store = RequestStore::new(10);
    store.add(request("GET", "http://API.Example.com/Path", None));
    let filter = FilterCriteria {
        url_pattern: Some("api.example".to_string()),
        methods: None,
        status_codes: None,
        content_type: None,
        search_text: None,
    };
    assert_eq!(store.get_filtered(Some(filter)).len(), 1);
}

#[test]
fn search_text_reaches_the_response_body() {
    let mut store = RequestStore::new(10);
    let mut entry = request("POST", "http://example.com/api", Some("payload"));
    entry.set_response(response(200, "application/json", "{\"token\":\"NEEDLE\"}"), 3);
    store.add(entry);
    store.add(request("GET", "http://example.com/other", None));

    let filter = FilterCriteria {
        url_pattern: None,
        methods: None,
        status_codes: None,
        content_type: None,
        search_text: Some("needle".to_string()),
    };
    let hits = store.get_filtered(Some(filter));
    assert_eq!(hits.len(), 1);
    assert_eq!(hits[0].url, "http://example.com/api");
}

#[test]
fn clear_empties_the_store() {
    let mut store = RequestStore::new(4);
    store.add(request("GET", "http://example.com/", None));
    store.clear();
    assert_eq!(store.len(), 0);
    assert!(store.get_all().is_empty());
}

#[test]
fn newest_entries_come_first() {
    let mut store = RequestStore::new(4);
    store.add(request("GET", "http://example.com/old", None));
    store.add(request("GET", "http://example.com/new", None));
    let all = store.get_all();
    assert_eq!(all[0].url, "http://example.com/new");
    assert_eq!(all[1].url, "http://example.com/old");
}
