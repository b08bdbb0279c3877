use cavin_tools::sni::extract_sni;
use cavin_tools::handler::{classify_stream, choose_tls_host, SockAddr, StreamClass};

/// A well-formed ClientHello record whose server_name extension announces
/// the given host.
fn client_hello_with_sni(host: &str) -> Vec<u8> {
    let host_bytes = host.as_bytes();
    let name_len = host_bytes.len() as u16;
    let entry_len = name_len + 3;
    let sni_body_len = entry_len + 2;
    let ext_block_len = sni_body_len + 4;

    let mut hello = Vec::new();
    // Record header: handshake, TLS 1.x, length (filled loosely; the parser
    // does not read it).
    hello.extend_from_slice(&[0x16, 0x03, 0x01, 0x00, 0x00]);
    // Handshake header: client_hello, 3-byte length (unused by the parser).
    hello.extend_from_slice(&[0x01, 0x00, 0x00, 0x00]);
    // client_version + 32 bytes of random: positions 9..43.
    hello.extend_from_slice(&[0x03, 0x03]);
    hello.extend_from_slice(&[0u8; 32]);
    // session id: empty.
    hello.push(0x00);
    // cipher suites: one suite.
    hello.extend_from_slice(&[0x00, 0x02, 0x13, 0x01]);
    // compression methods: null only.
    hello.extend_from_slice(&[0x01, 0x00]);
    // extensions block.
    hello.extend_from_slice(&ext_block_len.to_be_bytes());
    // server_name extension: type 0.
    hello.extend_from_slice(&[0x00, 0x00]);
    hello.extend_from_slice(&sni_body_len.to_be_bytes());
    hello.extend_from_slice(&(entry_len).to_be_bytes());
    hello.push(0x00);
    hello.extend_from_slice(&name_len.to_be_bytes());
    hello.extend_from_slice(host_bytes);
    hello
}

#[test]
fn well_formed_hello_yields_exact_host() {
    let hello = client_hello_with_sni("example.com");
    assert_eq!(extract_sni(&hello), Some("example.com".to_string()));
}

#[test]
fn every_truncation_yields_none_or_the_host() {
    let hello = client_hello_with_sni("example.com");
    for n in 0..hello.len() {
        // No prefix may panic or read out of bounds; a strict prefix of
        // this hello never contains the full server_name entry.
        assert_eq!(extract_sni(&hello[..n]), None, "prefix of {} bytes", n);
    }
}

#[test]
fn short_inputs_yield_none() {
    assert_eq!(extract_sni(&[]), None);
    assert_eq!(extract_sni(&[0x16]), None);
    assert_eq!(extract_sni(&[0u8; 42]), None);
}

#[test]
fn non_tls_bytes_yield_none() {
    let mut data = vec![0x47u8; 64];
    assert_eq!(extract_sni(&data), None);
    data[0] = 0x16;
    data[1] = 0x04; // wrong major version byte
    assert_eq!(extract_sni(&data), None);
}

#[test]
fn hello_without_server_name_yields_none() {
    let mut hello = client_hello_with_sni("example.com");
    // Repaint the extension type so no server_name extension exists.
    let ext_type_at = hello.len() - 20;
    hello[ext_type_at] = 0x00;
    hello[ext_type_at + 1] = 0x17;
    assert_eq!(extract_sni(&hello), None);
}

#[test]
fn classify_tags_tls_and_plain() {
    let hello = client_hello_with_sni("inner.example");
    match classify_stream(&hello) {
        StreamClass::Tls { sni } => assert_eq!(sni, Some("inner.example".to_string())),
        StreamClass::PlainHttp => panic!("a ClientHello must classify as TLS"),
    }
    match classify_stream(b"GET / HTTP/1.1\r\n") {
        StreamClass::Tls { .. } => panic!("plain HTTP must not classify as TLS"),
        StreamClass::PlainHttp => {}
    }
}

#[test]
fn tls_host_falls_back_to_original_destination() {
    let dst = SockAddr { ip_a: 93, ip_b: 184, ip_c: 216, ip_d: 34, port: 443 };
    assert_eq!(choose_tls_host(None, &dst), "93.184.216.34");
    assert_eq!(
        choose_tls_host(Some("example.com".to_string()), &dst),
        "example.com"
    );
}
