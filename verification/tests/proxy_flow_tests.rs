use cavin_tools::capture::{CapturedRequest, FilterCriteria};
use cavin_tools::handler::{build_url, complete_exchange, forward_headers, UpstreamOutcome};
use cavin_tools::store::RequestStore;

/// Drive one exchange through the handler pipeline the way a connection
/// task does: build the capture, re-issue with stripped headers, complete
/// with the upstream outcome, and publish into the store.
fn run_exchange(
    store: &mut RequestStore,
    method: &str,
    host: &str,
    path: &str,
    outcome: UpstreamOutcome,
) -> String {
    let url = build_url("http", host, path);
    let headers = vec![
        ("host".to_string(), host.to_string()),
        ("accept".to_string(), "*/*".to_string()),
        ("connection".to_string(), "keep-alive".to_string()),
    ];
    let upstream_headers = forward_headers(&headers);
    assert!(upstream_headers.iter().all(|(k, _)| k != "host" && k != "connection"));

    let mut captured = CapturedRequest::new(
        method.to_string(),
        url,
        host.to_string(),
        path.to_string(),
        "http".to_string(),
        headers,
        None,
    );
    let id = captured.id.clone();
    let _reply = complete_exchange(&mut captured, outcome, 12);
    store.add(captured);
    id
}

#[test]
fn get_to_json_endpoint_yields_single_entry() {
    let mut store = RequestStore::new(100);
    let body = b"{\"status\":\"ok\",\"value\":42}".to_vec();
    run_exchange(
        &mut store,
        "GET",
        "api.test.local",
        "/status",
        UpstreamOutcome::Success {
            status: 200,
            headers: vec![("content-type".to_string(), "application/json".to_string())],
            body,
        },
    );

    let entries = store.get_filtered(None);
    assert_eq!(entries.len(), 1, "exactly one entry is stored per exchange");
    let entry = &entries[0];
    let resp = entry.response.as_ref().expect("the exchange completed");
    assert_eq!(resp.status_code, 200);
    assert!(resp.content_type.as_deref().unwrap().contains("json"));
    assert_eq!(resp.body_text.as_deref(), Some("{\"status\":\"ok\",\"value\":42}"));
    assert_eq!(entry.url, "http://api.test.local/status");
    assert_eq!(entry.duration_ms, Some(12));
}

#[test]
fn a_failing_exchange_leaves_concurrent_exchanges_and_the_store_intact() {
    let mut store = RequestStore::new(100);

    let failed_id = run_exchange(
        &mut store,
        "GET",
        "down.test.local",
        "/",
        UpstreamOutcome::Failure { error: "connect timed out".to_string() },
    );
    let ok_id = run_exchange(
        &mut store,
        "GET",
        "up.test.local",
        "/data",
        UpstreamOutcome::Success {
            status: 200,
            headers: vec![("content-type".to_string(), "text/plain".to_string())],
            body: b"fine".to_vec(),
        },
    );

    // Both exchanges are captured; the failure is data, not an outage.
    assert_eq!(store.len(), 2);
    let failed = store.get(&failed_id).unwrap();
    assert_eq!(failed.response.as_ref().unwrap().status_code, 502);
    assert_eq!(
        failed.response.as_ref().unwrap().body.as_deref(),
        Some(&b"connect timed out"[..])
    );
    let ok = store.get(&ok_id).unwrap();
    assert_eq!(ok.response.as_ref().unwrap().status_code, 200);
}
