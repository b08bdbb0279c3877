use cavin_tools::capture::CapturedRequest;
use cavin_tools::ca::CaManager;
use cavin_tools::handler::{
    build_url, classify_stream, complete_exchange, connect_host, forward_headers, is_hop_header,
    u32_to_string, u64_to_string, ClientResponse, ConnectionContext, SockAddr, StreamClass,
    UpstreamOutcome,
};
use x509_parser::prelude::{parse_x509_pem, GeneralName};

fn pending(method: &str, url: &str) -> CapturedRequest {
    CapturedRequest::new(
        method.to_string(),
        url.to_string(),
        "example.com".to_string(),
        "/".to_string(),
        "http".to_string(),
        vec![("accept".to_string(), "*/*".to_string())],
        None,
    )
}

#[test]
fn connect_authority_names_the_host() {
    assert_eq!(connect_host("example.com:443"), "example.com");
    assert_eq!(connect_host("example.com"), "example.com");
    assert_eq!(connect_host("10.1.2.3:8443"), "10.1.2.3");
}

#[test]
fn connect_then_client_hello_signs_a_leaf_for_exactly_that_host() {
    // The CONNECT authority names the tunnel target...
    let host = connect_host("example.com:443");
    assert_eq!(host, "example.com");

    // ...the bytes that follow are a ClientHello for the same name...
    let hello = hello_for("example.com");
    let sni = match classify_stream(&hello) {
        StreamClass::Tls { sni } => sni,
        StreamClass::PlainHttp => panic!("a ClientHello must classify as TLS"),
    };
    assert_eq!(sni.as_deref(), Some("example.com"));

    // ...and the handler asks the CA for a leaf whose sole SAN is exactly
    // that host.
    let (manager, _) = CaManager::new("/tmp/capture".to_string(), None).unwrap();
    let (leaf_pem, _) = manager.sign_cert_for_domain(&host).unwrap();
    let (_, pem) = parse_x509_pem(leaf_pem.as_bytes()).unwrap();
    let cert = pem.parse_x509().unwrap();
    let san = cert.subject_alternative_name().unwrap().unwrap();
    let names: Vec<_> = san.value.general_names.iter().collect();
    assert_eq!(names.len(), 1);
    match names[0] {
        GeneralName::DNSName(name) => assert_eq!(*name, "example.com"),
        other => panic!("unexpected SAN kind: {:?}", other),
    }
}

fn hello_for(host: &str) -> Vec<u8> {
    let host_bytes = host.as_bytes();
    let name_len = host_bytes.len() as u16;
    let mut hello = Vec::new();
    hello.extend_from_slice(&[0x16, 0x03, 0x01, 0x00, 0x00]);
    hello.extend_from_slice(&[0x01, 0x00, 0x00, 0x00, 0x03, 0x03]);
    hello.extend_from_slice(&[0u8; 32]);
    hello.push(0x00);
    hello.extend_from_slice(&[0x00, 0x02, 0x13, 0x01, 0x01, 0x00]);
    hello.extend_from_slice(&(name_len + 9).to_be_bytes());
    hello.extend_from_slice(&[0x00, 0x00]);
    hello.extend_from_slice(&(name_len + 5).to_be_bytes());
    hello.extend_from_slice(&(name_len + 3).to_be_bytes());
    hello.push(0x00);
    hello.extend_from_slice(&name_len.to_be_bytes());
    hello.extend_from_slice(host_bytes);
    hello
}

#[test]
fn hop_by_hop_headers_are_stripped_case_insensitively() {
    assert!(is_hop_header("Host"));
    assert!(is_hop_header("CONTENT-LENGTH"));
    assert!(is_hop_header("Transfer-Encoding"));
    assert!(is_hop_header("connection"));
    assert!(!is_hop_header("accept"));

    let headers = vec![
        ("Host".to_string(), "example.com".to_string()),
        ("Accept".to_string(), "*/*".to_string()),
        ("Content-Length".to_string(), "12".to_string()),
        ("X-Custom".to_string(), "yes".to_string()),
        ("Connection".to_string(), "keep-alive".to_string()),
    ];
    let kept = forward_headers(&headers);
    let names: Vec<&str> = kept.iter().map(|(k, _)| k.as_str()).collect();
    assert_eq!(names, vec!["Accept", "X-Custom"]);
}

#[test]
fn urls_are_assembled_from_scheme_host_and_path() {
    assert_eq!(
        build_url("http", "example.com", "/index?x=1"),
        "http://example.com/index?x=1"
    );
    assert_eq!(build_url("https", "example.com", "/"), "https://example.com/");
}

#[test]
fn success_outcome_is_captured_and_relayed() {
    let mut captured = pending("GET", "http://example.com/");
    let outcome = UpstreamOutcome::Success {
        status: 200,
        headers: vec![("content-type".to_string(), "text/plain".to_string())],
        body: b"hello".to_vec(),
    };
    let reply: ClientResponse = complete_exchange(&mut captured, outcome, 42);

    assert_eq!(reply.status, 200);
    assert_eq!(reply.body, b"hello");
    assert_eq!(captured.duration_ms, Some(42));
    let resp = captured.response.as_ref().expect("every exchange is captured");
    assert_eq!(resp.status_code, 200);
    assert_eq!(resp.status_text, "OK");
    assert_eq!(resp.body.as_deref(), Some(&b"hello"[..]));
    assert_eq!(resp.content_type.as_deref(), Some("text/plain"));
    assert_eq!(resp.body_text.as_deref(), Some("hello"));
}

#[test]
fn upstream_failure_becomes_an_observable_502() {
    let mut captured = pending("GET", "http://down.example.com/");
    let outcome = UpstreamOutcome::Failure { error: "connection refused".to_string() };
    let reply = complete_exchange(&mut captured, outcome, 7);

    assert_eq!(reply.status, 502);
    assert_eq!(reply.body, b"Proxy Error: connection refused");
    let resp = captured.response.as_ref().expect("failures are captured, never dropped");
    assert_eq!(resp.status_code, 502);
    assert_eq!(resp.status_text, "Bad Gateway");
    assert_eq!(resp.body.as_deref(), Some(&b"connection refused"[..]));
}

#[test]
fn one_failed_exchange_leaves_an_independent_one_untouched() {
    let mut failing = pending("GET", "http://down.example.com/");
    let mut fine = pending("GET", "http://up.example.com/");

    let _ = complete_exchange(
        &mut failing,
        UpstreamOutcome::Failure { error: "reset".to_string() },
        3,
    );
    let reply = complete_exchange(
        &mut fine,
        UpstreamOutcome::Success { status: 200, headers: vec![], body: b"ok".to_vec() },
        4,
    );

    assert_eq!(reply.status, 200);
    assert_eq!(fine.response.as_ref().unwrap().status_code, 200);
    assert_eq!(failing.response.as_ref().unwrap().status_code, 502);
}

#[test]
fn numbers_format_in_decimal() {
    assert_eq!(u32_to_string(0), "0");
    assert_eq!(u32_to_string(9527), "9527");
    assert_eq!(u64_to_string(18446744073709551615), "18446744073709551615");
}

#[test]
fn socket_addresses_format_as_ip_and_port() {
    let sa = SockAddr { ip_a: 127, ip_b: 0, ip_c: 0, ip_d: 1, port: 9527 };
    assert_eq!(sa.ip_string(), "127.0.0.1");
    assert_eq!(sa.sock_string(), "127.0.0.1:9527");
}

#[test]
fn default_context_is_explicit_proxy() {
    let ctx = ConnectionContext::default();
    assert!(!ctx.is_transparent);
    assert!(ctx.original_dst.is_none());
}
