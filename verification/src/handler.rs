//! The connection handler's decisions: classifying an intercepted stream,
//! choosing the hostname, preparing a request for re-issue upstream, and
//! turning the upstream outcome into a captured entry plus the reply the
//! client gets.  The sockets, TLS handshakes and upstream calls around these
//! decisions are the caller's; every decision here is exact.

use vstd::prelude::*;
use crate::capture::{
    header_views, spec_status_text, status_text, CapturedRequest, CapturedResponse,
};
use crate::sni::{extract_sni, sni_bytes};
use crate::strutil::{eq_ignore_ascii, str_eq_ignore_ascii_case};

verus! {

use vstd::string::StringSliceAdditionalSpecFns;

/// The decimal digit characters.
pub open spec fn digit_char(d: int) -> char {
    if d == 0 {
        '0'
    } else if d == 1 {
        '1'
    } else if d == 2 {
        '2'
    } else if d == 3 {
        '3'
    } else if d == 4 {
        '4'
    } else if d == 5 {
        '5'
    } else if d == 6 {
        '6'
    } else if d == 7 {
        '7'
    } else if d == 8 {
        '8'
    } else {
        '9'
    }
}

/// The decimal representation of a number, most significant digit first.
pub open spec fn dec_digits(n: nat) -> Seq<char>
    decreases n,
{
    if n < 10 {
        seq![digit_char(n as int)]
    } else {
        dec_digits(n / 10).push(digit_char((n % 10) as int))
    }
}

/// Relies on u32's Display implementation: the decimal digits of the
/// number, most significant first, no leading zeros.
#[verifier::external_body]
pub fn u32_to_string(n: u32) -> (r: String)
    ensures
        r@ == dec_digits(n as nat),
{
    n.to_string()
}

/// Relies on u64's Display implementation: the decimal digits of the
/// number, most significant first, no leading zeros.
#[verifier::external_body]
pub fn u64_to_string(n: u64) -> (r: String)
    ensures
        r@ == dec_digits(n as nat),
{
    n.to_string()
}

/// An IPv4 socket address as plain values.
#[derive(Clone, Copy)]
pub struct SockAddr {
    pub ip_a: u8,
    pub ip_b: u8,
    pub ip_c: u8,
    pub ip_d: u8,
    pub port: u16,
}

/// The dotted-decimal text of the address's IP.
pub open spec fn spec_ip_string(sa: SockAddr) -> Seq<char> {
    dec_digits(sa.ip_a as nat) + "."@ + dec_digits(sa.ip_b as nat) + "."@ + dec_digits(
        sa.ip_c as nat,
    ) + "."@ + dec_digits(sa.ip_d as nat)
}

/// The text of the whole address, IP and port.
pub open spec fn spec_sock_string(sa: SockAddr) -> Seq<char> {
    spec_ip_string(sa) + ":"@ + dec_digits(sa.port as nat)
}

impl SockAddr {
    /// The dotted-decimal text of the IP alone.
    pub fn ip_string(&self) -> (r: String)
        ensures
            r@ == spec_ip_string(*self),
    {
        let mut s = u32_to_string(self.ip_a as u32);
        s.append(".");
        s.append(u32_to_string(self.ip_b as u32).as_str());
        s.append(".");
        s.append(u32_to_string(self.ip_c as u32).as_str());
        s.append(".");
        s.append(u32_to_string(self.ip_d as u32).as_str());
        s
    }

    /// The text of the whole address.
    pub fn sock_string(&self) -> (r: String)
        ensures
            r@ == spec_sock_string(*self),
    {
        let mut s = self.ip_string();
        s.append(":");
        s.append(u32_to_string(self.port as u32).as_str());
        s
    }
}

/// How a connection reached the handler: through explicit proxy
/// configuration, or transparently redirected with its true destination
/// remembered.
pub struct ConnectionContext {
    pub original_dst: Option<SockAddr>,
    pub is_transparent: bool,
}

impl Default for ConnectionContext {
    /// An explicit-proxy connection with no recorded destination.
    fn default() -> (r: Self)
        ensures
            r.original_dst is None,
            !r.is_transparent,
    {
        ConnectionContext { original_dst: None, is_transparent: false }
    }
}

/// What the first bytes of an intercepted stream are: a TLS ClientHello
/// with whatever hostname its server_name extension announces, or plain
/// HTTP.
pub enum StreamClass {
    Tls { sni: Option<String> },
    PlainHttp,
}

/// Classify an intercepted stream by its first bytes: a leading TLS
/// handshake record byte means TLS, and the announced hostname is taken
/// from the ClientHello when present; anything else is plain HTTP.
pub fn classify_stream(peek: &[u8]) -> (r: StreamClass)
    ensures
        r is Tls <==> peek@.len() >= 1 && peek@[0] == 0x16,
        r matches StreamClass::Tls { sni } ==> {
            &&& sni is Some <==> (sni_bytes(peek@) is Some && vstd::utf8::valid_utf8(
                sni_bytes(peek@).unwrap(),
            ))
            &&& sni is Some ==> sni.unwrap()@ == vstd::utf8::decode_utf8(
                sni_bytes(peek@).unwrap(),
            )
        },
{
    if peek.len() >= 1 && peek[0] == 0x16 {
        StreamClass::Tls { sni: extract_sni(peek) }
    } else {
        StreamClass::PlainHttp
    }
}

/// The hostname the transparent TLS path intercepts for: the announced
/// server name when there is one, else the original destination's IP.
pub fn choose_tls_host(sni: Option<String>, original_dst: &SockAddr) -> (r: String)
    ensures
        sni is Some ==> r@ == sni.unwrap()@,
        sni is None ==> r@ == spec_ip_string(*original_dst),
{
    match sni {
        Some(h) => h,
        None => original_dst.ip_string(),
    }
}

/// The host a transparent plain-HTTP request is addressed to: its Host
/// header when one came, else the recorded original destination, IP and
/// port.
pub fn choose_plain_host(host_header: Option<String>, original_dst: &SockAddr) -> (r: String)
    ensures
        host_header is Some ==> r@ == host_header.unwrap()@,
        host_header is None ==> r@ == spec_sock_string(*original_dst),
{
    match host_header {
        Some(h) => h,
        None => original_dst.sock_string(),
    }
}

/// The host of a CONNECT authority: everything before the last colon when
/// a port follows it, else the whole authority.
pub open spec fn spec_connect_host(authority: Seq<char>) -> Seq<char> {
    if exists|i: int| 0 <= i < authority.len() && authority[i] == ':' {
        let i = last_colon(authority);
        authority.subrange(0, i)
    } else {
        authority
    }
}

/// The position of the last colon of the sequence.
pub open spec fn last_colon(s: Seq<char>) -> int {
    choose|i: int|
        0 <= i < s.len() && s[i] == ':' && (forall|j: int| i < j < s.len() ==> s[j] != ':')
}

/// The target host of a CONNECT request, from its authority
/// ("example.com:443" names "example.com").
pub fn connect_host(authority: &str) -> (r: String)
    ensures
        r@ == spec_connect_host(authority@),
{
    let n = authority.unicode_len();
    let mut i: usize = n;
    while i > 0
        invariant
            n == authority@.len(),
            i <= n,
            forall|j: int| i <= j < n ==> authority@[j] != ':',
        decreases i,
    {
        if authority.get_char(i - 1) == ':' {
            proof {
                let k = i - 1 as int;
                assert(authority@[k] == ':' && (forall|j: int|
                    k < j < n ==> authority@[j] != ':'));
                let lc = last_colon(authority@);
                assert(authority@[lc] == ':' && (forall|j: int|
                    lc < j < n ==> authority@[j] != ':'));
                if lc < k {
                    assert(authority@[k] != ':');
                }
                if k < lc {
                    assert(authority@[lc] != ':');
                }
                assert(lc == k);
            }
            return authority.substring_char(0, i - 1).to_owned();
        }
        i = i - 1;
    }
    assert(forall|j: int| 0 <= j < n ==> authority@[j] != ':');
    authority.to_owned()
}

/// A hop-by-hop header name, compared case-insensitively: these are
/// stripped before a request is re-issued upstream.
pub open spec fn hop_name(k: Seq<char>) -> bool {
    ||| eq_ignore_ascii(vstd::utf8::encode_utf8(k), "host".spec_bytes())
    ||| eq_ignore_ascii(vstd::utf8::encode_utf8(k), "content-length".spec_bytes())
    ||| eq_ignore_ascii(vstd::utf8::encode_utf8(k), "transfer-encoding".spec_bytes())
    ||| eq_ignore_ascii(vstd::utf8::encode_utf8(k), "connection".spec_bytes())
}

/// The header list with every hop-by-hop header taken out, order kept.
pub open spec fn strip_hop_headers(h: Seq<(Seq<char>, Seq<char>)>) -> Seq<(Seq<char>, Seq<char>)>
    decreases h.len(),
{
    if h.len() == 0 {
        Seq::empty()
    } else if hop_name(h[0].0) {
        strip_hop_headers(h.drop_first())
    } else {
        seq![h[0]] + strip_hop_headers(h.drop_first())
    }
}

/// Whether this header is stripped before re-issue.
pub fn is_hop_header(name: &str) -> (r: bool)
    ensures
        r == hop_name(name@),
{
    str_eq_ignore_ascii_case(name, "host") || str_eq_ignore_ascii_case(name, "content-length")
        || str_eq_ignore_ascii_case(name, "transfer-encoding") || str_eq_ignore_ascii_case(
        name,
        "connection",
    )
}

/// The headers a request is re-issued with: all of them but the hop-by-hop
/// ones, order kept.
pub fn forward_headers(headers: &Vec<(String, String)>) -> (r: Vec<(String, String)>)
    ensures
        header_views(r@) == strip_hop_headers(header_views(headers@)),
{
    let ghost hv = header_views(headers@);
    let n = headers.len();
    let mut out: Vec<(String, String)> = Vec::new();
    let mut i: usize = 0;
    while i < n
        invariant
            n == headers@.len(),
            hv == header_views(headers@),
            i <= n,
            header_views(out@) == strip_hop_headers(hv.take(i as int)),
        decreases n - i,
    {
        let ghost prefix = hv.take(i as int);
        if !is_hop_header(headers[i].0.as_str()) {
            let k = headers[i].0.clone();
            let v = headers[i].1.clone();
            out.push((k, v));
        }
        proof {
            lemma_strip_snoc(hv.take(i + 1));
            assert(hv.take(i + 1).drop_last() =~= prefix);
            assert(hv.take(i + 1).last() == hv[i as int]);
            if !hop_name(hv[i as int].0) {
                assert(header_views(out@) =~= strip_hop_headers(prefix).push(hv[i as int]));
            }
        }
        i = i + 1;
    }
    assert(hv.take(n as int) =~= hv);
    out
}

/// Stripping a list extended by one header keeps that header exactly when
/// it is not hop-by-hop.
proof fn lemma_strip_snoc(h: Seq<(Seq<char>, Seq<char>)>)
    requires
        h.len() > 0,
    ensures
        strip_hop_headers(h) == (if hop_name(h.last().0) {
            strip_hop_headers(h.drop_last())
        } else {
            strip_hop_headers(h.drop_last()).push(h.last())
        }),
    decreases h.len(),
{
    if h.len() == 1 {
        assert(h.drop_first() =~= h.drop_last());
        assert(h.last() == h[0]);
        if !hop_name(h.last().0) {
            assert(strip_hop_headers(h) =~= strip_hop_headers(h.drop_last()).push(h.last()));
        }
    } else {
        lemma_strip_snoc(h.drop_first());
        assert(h.drop_first().drop_last() =~= h.drop_last().drop_first());
        assert(h.drop_first().last() == h.last());
        assert(h.drop_last()[0] == h[0]);
        if hop_name(h[0].0) {
        } else {
            if hop_name(h.last().0) {
                assert(strip_hop_headers(h) =~= strip_hop_headers(h.drop_last()));
            } else {
                assert(strip_hop_headers(h) =~= strip_hop_headers(h.drop_last()).push(h.last()));
            }
        }
    }
}

/// Build a URL from scheme, host and path-with-query.
pub fn build_url(scheme: &str, host: &str, path: &str) -> (r: String)
    ensures
        r@ == scheme@ + "://"@ + host@ + path@,
{
    let mut s = scheme.to_owned();
    s.append("://");
    s.append(host);
    s.append(path);
    s
}

/// What came back from the upstream call, or the failure that ended it.
pub enum UpstreamOutcome {
    Success { status: u16, headers: Vec<(String, String)>, body: Vec<u8> },
    Failure { error: String },
}

/// The reply the client connection is answered with.
pub struct ClientResponse {
    pub status: u16,
    pub headers: Vec<(String, String)>,
    pub body: Vec<u8>,
}

/// Complete a pending capture from the upstream outcome and build the reply
/// the client gets.  Every exchange is captured, a failure included: a
/// failure becomes a synthesized 502 whose captured body is the error text,
/// so failures are observable data and are never silently dropped.
pub fn complete_exchange(
    captured: &mut CapturedRequest,
    outcome: UpstreamOutcome,
    elapsed_ms: u64,
) -> (r: ClientResponse)
    requires
        old(captured)@.response is None,
    ensures
        final(captured)@.response is Some,
        final(captured)@.duration_ms == Some(elapsed_ms as int),
        final(captured)@.id == old(captured)@.id,
        final(captured)@.url == old(captured)@.url,
        final(captured)@.method == old(captured)@.method,
        final(captured)@.host == old(captured)@.host,
        final(captured)@.scheme == old(captured)@.scheme,
        (match outcome {
            UpstreamOutcome::Success { status, ref headers, ref body } => {
                let resp = final(captured)@.response.unwrap();
                &&& resp.status_code == status
                &&& resp.status_text == spec_status_text(status)
                &&& resp.headers == header_views(headers@)
                &&& resp.body == Some(body@)
                &&& r.status == status
                &&& header_views(r.headers@) == header_views(headers@)
                &&& r.body@ == body@
            },
            UpstreamOutcome::Failure { ref error } => {
                let resp = final(captured)@.response.unwrap();
                &&& resp.status_code == 502
                &&& resp.status_text == spec_status_text(502)
                &&& resp.body == Some(vstd::utf8::encode_utf8(error@))
                &&& r.status == 502
                &&& r.headers@.len() == 0
                &&& r.body@ == vstd::utf8::encode_utf8("Proxy Error: "@ + error@)
            },
        }),
{
    match outcome {
        UpstreamOutcome::Success { status, headers, body } => {
            let resp_headers = crate::capture::clone_headers(&headers);
            let resp_body = crate::capture::clone_bytes(&body);
            let captured_response = CapturedResponse::new(
                status,
                status_text(status),
                headers,
                Some(resp_body),
            );
            captured.set_response(captured_response, elapsed_ms);
            ClientResponse { status, headers: resp_headers, body }
        },
        UpstreamOutcome::Failure { error } => {
            let error_bytes = str_to_bytes(error.as_str());
            let captured_response = CapturedResponse::new(
                502,
                status_text(502),
                Vec::new(),
                Some(error_bytes),
            );
            captured.set_response(captured_response, elapsed_ms);
            let mut msg = "Proxy Error: ".to_owned();
            msg.append(error.as_str());
            let body = str_to_bytes(msg.as_str());
            ClientResponse { status: 502, headers: Vec::new(), body }
        },
    }
}

/// The UTF-8 bytes of a string.
pub fn str_to_bytes(s: &str) -> (r: Vec<u8>)
    ensures
        r@ == vstd::utf8::encode_utf8(s@),
{
    s.as_bytes_vec()
}

} // verus!
