//! Captured exchanges: the request/response records the proxy stores, and
//! the filter criteria queries are made with.

use vstd::prelude::*;
use crate::strutil::{contains_str, lower_of, lowercase, str_contains, str_eq, utf8_to_string};

verus! {

/// Mathematical model of a captured response.
pub ghost struct RespView {
    pub status_code: u16,
    pub status_text: Seq<char>,
    pub headers: Seq<(Seq<char>, Seq<char>)>,
    pub body: Option<Seq<u8>>,
    pub body_text: Option<Seq<char>>,
    pub content_type: Option<Seq<char>>,
    pub content_length: Option<int>,
}

/// Mathematical model of a captured request.
pub ghost struct ReqView {
    pub id: Seq<char>,
    pub timestamp_ms: int,
    pub method: Seq<char>,
    pub url: Seq<char>,
    pub host: Seq<char>,
    pub path: Seq<char>,
    pub scheme: Seq<char>,
    pub request_headers: Seq<(Seq<char>, Seq<char>)>,
    pub request_body: Option<Seq<u8>>,
    pub request_body_text: Option<Seq<char>>,
    pub response: Option<RespView>,
    pub duration_ms: Option<int>,
}

/// The views of a header list.
pub open spec fn header_views(h: Seq<(String, String)>) -> Seq<(Seq<char>, Seq<char>)> {
    Seq::new(h.len(), |i: int| (h[i].0@, h[i].1@))
}

/// The value of the first header with exactly the given name.
pub open spec fn first_value(h: Seq<(Seq<char>, Seq<char>)>, name: Seq<char>) -> Option<Seq<char>>
    decreases h.len(),
{
    if h.len() == 0 {
        None
    } else if h[0].0 == name {
        Some(h[0].1)
    } else {
        first_value(h.drop_first(), name)
    }
}

pub proof fn lemma_first_value_skip(h: Seq<(Seq<char>, Seq<char>)>, name: Seq<char>, i: int)
    requires
        0 <= i <= h.len(),
        forall|k: int| 0 <= k < i ==> h[k].0 != name,
    ensures
        first_value(h, name) == first_value(h.skip(i), name),
    decreases i,
{
    if i > 0 {
        assert(h.skip(1) =~= h.drop_first());
        lemma_first_value_skip(h.drop_first(), name, i - 1);
        assert(h.drop_first().skip(i - 1) =~= h.skip(i));
    } else {
        assert(h.skip(0) =~= h);
    }
}

/// A content type whose body text is decoded: it looks textual.
pub open spec fn is_textual(ct: Seq<char>) -> bool {
    str_contains(ct, "text"@) || str_contains(ct, "json"@) || str_contains(ct, "xml"@)
        || str_contains(ct, "html"@)
}

/// A captured upstream response.
pub struct CapturedResponse {
    pub status_code: u16,
    pub status_text: String,
    pub headers: Vec<(String, String)>,
    pub body: Option<Vec<u8>>,
    pub body_text: Option<String>,
    pub content_type: Option<String>,
    pub content_length: Option<usize>,
}

impl View for CapturedResponse {
    type V = RespView;

    open spec fn view(&self) -> RespView {
        RespView {
            status_code: self.status_code,
            status_text: self.status_text@,
            headers: header_views(self.headers@),
            body: match self.body {
                Some(ref b) => Some(b@),
                None => None,
            },
            body_text: match self.body_text {
                Some(ref t) => Some(t@),
                None => None,
            },
            content_type: match self.content_type {
                Some(ref c) => Some(c@),
                None => None,
            },
            content_length: match self.content_length {
                Some(n) => Some(n as int),
                None => None,
            },
        }
    }
}

/// A captured client request, possibly still waiting for its response.
pub struct CapturedRequest {
    pub id: String,
    pub timestamp_ms: i64,
    pub method: String,
    pub url: String,
    pub host: String,
    pub path: String,
    pub scheme: String,
    pub request_headers: Vec<(String, String)>,
    pub request_body: Option<Vec<u8>>,
    pub request_body_text: Option<String>,
    pub response: Option<CapturedResponse>,
    pub duration_ms: Option<u64>,
}

impl View for CapturedRequest {
    type V = ReqView;

    open spec fn view(&self) -> ReqView {
        ReqView {
            id: self.id@,
            timestamp_ms: self.timestamp_ms as int,
            method: self.method@,
            url: self.url@,
            host: self.host@,
            path: self.path@,
            scheme: self.scheme@,
            request_headers: header_views(self.request_headers@),
            request_body: match self.request_body {
                Some(ref b) => Some(b@),
                None => None,
            },
            request_body_text: match self.request_body_text {
                Some(ref t) => Some(t@),
                None => None,
            },
            response: match self.response {
                Some(ref r) => Some(r@),
                None => None,
            },
            duration_ms: match self.duration_ms {
                Some(d) => Some(d as int),
                None => None,
            },
        }
    }
}

/// Relies on uuid::Uuid::new_v4 for a fresh random request identifier.
#[verifier::external_body]
fn new_request_id() -> (r: String) {
    uuid::Uuid::new_v4().to_string()
}

/// Relies on chrono::Utc::now for the wall-clock capture timestamp in
/// milliseconds.
#[verifier::external_body]
fn now_millis() -> (r: i64) {
    chrono::Utc::now().timestamp_millis()
}

/// Copy a header list, preserving names, values and order.
pub fn clone_headers(h: &Vec<(String, String)>) -> (r: Vec<(String, String)>)
    ensures
        header_views(r@) == header_views(h@),
{
    let mut out: Vec<(String, String)> = Vec::new();
    let n = h.len();
    let mut i: usize = 0;
    while i < n
        invariant
            n == h@.len(),
            i <= n,
            out@.len() == i,
            forall|k: int|
                0 <= k < i ==> out@[k].0@ == h@[k].0@ && out@[k].1@ == h@[k].1@,
        decreases n - i,
    {
        let name = h[i].0.clone();
        let value = h[i].1.clone();
        out.push((name, value));
        i = i + 1;
    }
    assert(header_views(out@) =~= header_views(h@));
    out
}

/// Copy a byte buffer.
pub fn clone_bytes(b: &Vec<u8>) -> (r: Vec<u8>)
    ensures
        r@ == b@,
{
    let mut out: Vec<u8> = Vec::new();
    let n = b.len();
    let mut i: usize = 0;
    while i < n
        invariant
            n == b@.len(),
            i <= n,
            out@ == b@.subrange(0, i as int),
        decreases n - i,
    {
        out.push(b[i]);
        assert(out@ =~= b@.subrange(0, i + 1 as int));
        i = i + 1;
    }
    assert(out@ =~= b@);
    out
}

/// The standard reason phrase of the status codes the proxy reports;
/// "Unknown" for the rest.
pub open spec fn spec_status_text(code: u16) -> Seq<char> {
    if code == 200 {
        "OK"@
    } else if code == 201 {
        "Created"@
    } else if code == 204 {
        "No Content"@
    } else if code == 301 {
        "Moved Permanently"@
    } else if code == 302 {
        "Found"@
    } else if code == 304 {
        "Not Modified"@
    } else if code == 400 {
        "Bad Request"@
    } else if code == 401 {
        "Unauthorized"@
    } else if code == 403 {
        "Forbidden"@
    } else if code == 404 {
        "Not Found"@
    } else if code == 500 {
        "Internal Server Error"@
    } else if code == 502 {
        "Bad Gateway"@
    } else if code == 503 {
        "Service Unavailable"@
    } else {
        "Unknown"@
    }
}

/// The reason phrase used when a captured response is synthesized.
pub fn status_text(code: u16) -> (r: String)
    ensures
        r@ == spec_status_text(code),
{
    let s: &str = match code {
        200 => "OK",
        201 => "Created",
        204 => "No Content",
        301 => "Moved Permanently",
        302 => "Found",
        304 => "Not Modified",
        400 => "Bad Request",
        401 => "Unauthorized",
        403 => "Forbidden",
        404 => "Not Found",
        500 => "Internal Server Error",
        502 => "Bad Gateway",
        503 => "Service Unavailable",
        _ => "Unknown",
    };
    s.to_owned()
}

impl CapturedResponse {
    /// Build a captured response from the status line, headers and buffered
    /// body.  The content type is taken from the first "content-type"
    /// header; the content length is the actual body size, never the
    /// headers' claim; the body text is decoded only when the content type
    /// looks textual and the bytes are valid UTF-8.
    pub fn new(
        status_code: u16,
        status_text: String,
        headers: Vec<(String, String)>,
        body: Option<Vec<u8>>,
    ) -> (r: CapturedResponse)
        ensures
            r.status_code == status_code,
            r@.status_text == status_text@,
            r@.headers == header_views(headers@),
            r@.content_type == first_value(header_views(headers@), "content-type"@),
            r@.body == (match body {
                Some(ref b) => Some::<Seq<u8>>(b@),
                None => None::<Seq<u8>>,
            }),
            r@.content_length == (match body {
                Some(ref b) => Some(b@.len() as int),
                None => None::<int>,
            }),
            r@.body_text is Some <==> (body is Some && r@.content_type is Some && is_textual(
                r@.content_type.unwrap(),
            ) && vstd::utf8::valid_utf8(body.unwrap()@)),
            r@.body_text is Some ==> r@.body_text.unwrap() == vstd::utf8::decode_utf8(
                body.unwrap()@,
            ),
    {
        let ghost hv = header_views(headers@);
        let n = headers.len();
        let mut i: usize = 0;
        let mut found = false;
        while i < n && !found
            invariant
                n == headers@.len(),
                i <= n,
                !found ==> forall|k: int|
                    0 <= k < i ==> header_views(headers@)[k].0 != "content-type"@,
                found ==> i < n && header_views(headers@)[i as int].0 == "content-type"@,
                found ==> forall|k: int|
                    0 <= k < i ==> header_views(headers@)[k].0 != "content-type"@,
            decreases n - i + (if found { 0int } else { 1int }),
        {
            if str_eq(headers[i].0.as_str(), "content-type") {
                found = true;
            } else {
                i = i + 1;
            }
        }
        let content_type: Option<String> = if found {
            Some(headers[i].1.clone())
        } else {
            None
        };
        proof {
            lemma_first_value_skip(hv, "content-type"@, i as int);
            if found {
                assert(hv.skip(i as int)[0] == hv[i as int]);
            } else {
                assert(hv.skip(n as int) =~= Seq::<(Seq<char>, Seq<char>)>::empty());
            }
        }
        let content_length: Option<usize> = match body {
            Some(ref b) => Some(b.len()),
            None => None,
        };
        let body_text: Option<String> = match body {
            Some(ref b) => {
                match content_type {
                    Some(ref ct) => {
                        let textual = contains_str(ct.as_str(), "text") || contains_str(
                            ct.as_str(),
                            "json",
                        ) || contains_str(ct.as_str(), "xml") || contains_str(ct.as_str(), "html");
                        if textual {
                            utf8_to_string(b)
                        } else {
                            None
                        }
                    },
                    None => None,
                }
            },
            None => None,
        };
        CapturedResponse {
            status_code,
            status_text,
            headers,
            body,
            body_text,
            content_type,
            content_length,
        }
    }

    /// Copy this response; the copy has the same model.
    pub fn duplicate(&self) -> (r: CapturedResponse)
        ensures
            r@ == self@,
    {
        let r = CapturedResponse {
            status_code: self.status_code,
            status_text: self.status_text.clone(),
            headers: clone_headers(&self.headers),
            body: match self.body {
                Some(ref b) => Some(clone_bytes(b)),
                None => None,
            },
            body_text: match self.body_text {
                Some(ref t) => Some(t.clone()),
                None => None,
            },
            content_type: match self.content_type {
                Some(ref c) => Some(c.clone()),
                None => None,
            },
            content_length: self.content_length,
        };
        assert(r@ == self@);
        r
    }
}

impl CapturedRequest {
    /// Build a pending capture from the parsed request.  The identifier is
    /// freshly generated and the timestamp is the current wall clock; the
    /// response and duration are not yet set; the request body text is the
    /// body decoded as UTF-8 when that succeeds.
    pub fn new(
        method: String,
        url: String,
        host: String,
        path: String,
        scheme: String,
        headers: Vec<(String, String)>,
        body: Option<Vec<u8>>,
    ) -> (r: CapturedRequest)
        ensures
            r@.method == method@,
            r@.url == url@,
            r@.host == host@,
            r@.path == path@,
            r@.scheme == scheme@,
            r@.request_headers == header_views(headers@),
            r@.request_body == (match body {
                Some(ref b) => Some::<Seq<u8>>(b@),
                None => None::<Seq<u8>>,
            }),
            r@.request_body_text is Some <==> (body is Some && vstd::utf8::valid_utf8(
                body.unwrap()@,
            )),
            r@.request_body_text is Some ==> r@.request_body_text.unwrap()
                == vstd::utf8::decode_utf8(body.unwrap()@),
            r@.response is None,
            r@.duration_ms is None,
    {
        let body_text: Option<String> = match body {
            Some(ref b) => utf8_to_string(b),
            None => None,
        };
        CapturedRequest {
            id: new_request_id(),
            timestamp_ms: now_millis(),
            method,
            url,
            host,
            path,
            scheme,
            request_headers: headers,
            request_body: body,
            request_body_text: body_text,
            response: None,
            duration_ms: None,
        }
    }

    /// Complete a pending capture: the response is set exactly once, together
    /// with the exchange duration; every other field is kept.
    pub fn set_response(&mut self, response: CapturedResponse, duration_ms: u64)
        requires
            old(self)@.response is None,
        ensures
            final(self)@ == (ReqView {
                response: Some(response@),
                duration_ms: Some(duration_ms as int),
                ..old(self)@
            }),
    {
        self.response = Some(response);
        self.duration_ms = Some(duration_ms);
    }

    /// Copy this capture; the copy has the same model.
    pub fn duplicate(&self) -> (r: CapturedRequest)
        ensures
            r@ == self@,
    {
        let r = CapturedRequest {
            id: self.id.clone(),
            timestamp_ms: self.timestamp_ms,
            method: self.method.clone(),
            url: self.url.clone(),
            host: self.host.clone(),
            path: self.path.clone(),
            scheme: self.scheme.clone(),
            request_headers: clone_headers(&self.request_headers),
            request_body: match self.request_body {
                Some(ref b) => Some(clone_bytes(b)),
                None => None,
            },
            request_body_text: match self.request_body_text {
                Some(ref t) => Some(t.clone()),
                None => None,
            },
            response: match self.response {
                Some(ref resp) => Some(resp.duplicate()),
                None => None,
            },
            duration_ms: self.duration_ms,
        };
        assert(r@ == self@);
        r
    }
}

/// Mathematical model of a filter.
pub ghost struct FilterView {
    pub url_pattern: Option<Seq<char>>,
    pub methods: Option<Seq<Seq<char>>>,
    pub status_codes: Option<Seq<u16>>,
    pub content_type: Option<Seq<char>>,
    pub search_text: Option<Seq<char>>,
}

/// Query criteria: independent optional predicates combined with AND.
pub struct FilterCriteria {
    pub url_pattern: Option<String>,
    pub methods: Option<Vec<String>>,
    pub status_codes: Option<Vec<u16>>,
    pub content_type: Option<String>,
    pub search_text: Option<String>,
}

impl View for FilterCriteria {
    type V = FilterView;

    open spec fn view(&self) -> FilterView {
        FilterView {
            url_pattern: match self.url_pattern {
                Some(ref p) => Some(p@),
                None => None,
            },
            methods: match self.methods {
                Some(ref ms) => Some(Seq::new(ms@.len(), |i: int| ms@[i]@)),
                None => None,
            },
            status_codes: match self.status_codes {
                Some(ref cs) => Some(cs@),
                None => None,
            },
            content_type: match self.content_type {
                Some(ref c) => Some(c@),
                None => None,
            },
            search_text: match self.search_text {
                Some(ref s) => Some(s@),
                None => None,
            },
        }
    }
}

impl FilterCriteria {
    /// A filter with no predicate: it matches every entry.
    pub fn none() -> (r: FilterCriteria)
        ensures
            r@.url_pattern is None,
            r@.methods is None,
            r@.status_codes is None,
            r@.content_type is None,
            r@.search_text is None,
    {
        FilterCriteria {
            url_pattern: None,
            methods: None,
            status_codes: None,
            content_type: None,
            search_text: None,
        }
    }
}

/// The URL predicate: a non-empty pattern must occur in the URL,
/// case-insensitively.
pub open spec fn url_clause(r: ReqView, f: FilterView) -> bool {
    match f.url_pattern {
        Some(p) => p.len() == 0 || str_contains(lower_of(r.url), lower_of(p)),
        None => true,
    }
}

/// The method predicate: a non-empty method set must hold the request's
/// method.
pub open spec fn method_clause(r: ReqView, f: FilterView) -> bool {
    match f.methods {
        Some(ms) => ms.len() == 0 || ms.contains(r.method),
        None => true,
    }
}

/// The status predicate: a non-empty status set must hold the response's
/// code; an entry still pending never satisfies it.
pub open spec fn status_clause(r: ReqView, f: FilterView) -> bool {
    match f.status_codes {
        Some(cs) => cs.len() == 0 || (r.response is Some && cs.contains(
            r.response.unwrap().status_code,
        )),
        None => true,
    }
}

/// The content-type predicate: a non-empty pattern must occur,
/// case-insensitively, in the response's content type.
pub open spec fn content_type_clause(r: ReqView, f: FilterView) -> bool {
    match f.content_type {
        Some(ct) => ct.len() == 0 || (r.response is Some && r.response.unwrap().content_type
            is Some && str_contains(
            lower_of(r.response.unwrap().content_type.unwrap()),
            lower_of(ct),
        )),
        None => true,
    }
}

/// The full-text predicate: a non-empty needle must occur,
/// case-insensitively, in the URL, the request body text or the response
/// body text.
pub open spec fn search_clause(r: ReqView, f: FilterView) -> bool {
    match f.search_text {
        Some(s) => s.len() == 0 || str_contains(lower_of(r.url), lower_of(s)) || (
        r.request_body_text is Some && str_contains(
            lower_of(r.request_body_text.unwrap()),
            lower_of(s),
        )) || (r.response is Some && r.response.unwrap().body_text is Some && str_contains(
            lower_of(r.response.unwrap().body_text.unwrap()),
            lower_of(s),
        )),
        None => true,
    }
}

/// An entry satisfies a filter when it satisfies every supplied predicate.
pub open spec fn req_matches(r: ReqView, f: FilterView) -> bool {
    url_clause(r, f) && method_clause(r, f) && status_clause(r, f) && content_type_clause(r, f)
        && search_clause(r, f)
}

/// An entry without a response never satisfies a filter with a non-empty
/// status-code set, whatever its other fields.
pub proof fn lemma_pending_never_matches_status(r: ReqView, f: FilterView)
    requires
        f.status_codes is Some,
        f.status_codes.unwrap().len() > 0,
        r.response is None,
    ensures
        !req_matches(r, f),
{
}

/// Case-insensitive containment of `pat` in `text`.
fn contains_lower(text: &str, pat: &str) -> (r: bool)
    ensures
        r == str_contains(lower_of(text@), lower_of(pat@)),
{
    let lt = lowercase(text);
    let lp = lowercase(pat);
    contains_str(lt.as_str(), lp.as_str())
}

/// Whether the entry satisfies every supplied predicate of the filter.
pub fn matches_filter(req: &CapturedRequest, f: &FilterCriteria) -> (r: bool)
    ensures
        r == req_matches(req@, f@),
{
    match f.url_pattern {
        Some(ref p) => {
            if !p.as_str().is_empty() && !contains_lower(req.url.as_str(), p.as_str()) {
                return false;
            }
        },
        None => {},
    }
    match f.methods {
        Some(ref ms) => {
            if ms.len() > 0 {
                let mut hit = false;
                let n = ms.len();
                let mut i: usize = 0;
                while i < n
                    invariant
                        n == ms@.len(),
                        i <= n,
                        hit <==> (exists|k: int| 0 <= k < i && ms@[k]@ == req.method@),
                    decreases n - i,
                {
                    if str_eq(ms[i].as_str(), req.method.as_str()) {
                        hit = true;
                    }
                    i = i + 1;
                }
                proof {
                    let msv = Seq::new(ms@.len(), |i: int| ms@[i]@);
                    assert(forall|j: int| 0 <= j < msv.len() ==> msv[j] == ms@[j]@);
                    if hit {
                        let k = choose|k: int| 0 <= k < n && ms@[k]@ == req.method@;
                        assert(msv[k] == req.method@);
                    }
                    assert(hit <==> msv.contains(req.method@));
                }
                if !hit {
                    return false;
                }
            }
        },
        None => {},
    }
    match f.status_codes {
        Some(ref cs) => {
            if cs.len() > 0 {
                match req.response {
                    Some(ref resp) => {
                        let mut hit = false;
                        let n = cs.len();
                        let mut i: usize = 0;
                        while i < n
                            invariant
                                n == cs@.len(),
                                i <= n,
                                hit <==> (exists|k: int|
                                    0 <= k < i && cs@[k] == resp.status_code),
                            decreases n - i,
                        {
                            if cs[i] == resp.status_code {
                                hit = true;
                            }
                            i = i + 1;
                        }
                        if !hit {
                            return false;
                        }
                    },
                    None => {
                        return false;
                    },
                }
            }
        },
        None => {},
    }
    match f.content_type {
        Some(ref ct) => {
            if !ct.as_str().is_empty() {
                match req.response {
                    Some(ref resp) => {
                        match resp.content_type {
                            Some(ref rct) => {
                                if !contains_lower(rct.as_str(), ct.as_str()) {
                                    return false;
                                }
                            },
                            None => {
                                return false;
                            },
                        }
                    },
                    None => {
                        return false;
                    },
                }
            }
        },
        None => {},
    }
    match f.search_text {
        Some(ref s) => {
            if !s.as_str().is_empty() {
                let in_url = contains_lower(req.url.as_str(), s.as_str());
                let in_req_body = match req.request_body_text {
                    Some(ref t) => contains_lower(t.as_str(), s.as_str()),
                    None => false,
                };
                let in_resp_body = match req.response {
                    Some(ref resp) => match resp.body_text {
                        Some(ref t) => contains_lower(t.as_str(), s.as_str()),
                        None => false,
                    },
                    None => false,
                };
                if !in_url && !in_req_body && !in_resp_body {
                    return false;
                }
            }
        },
        None => {},
    }
    true
}

/// What the control surface reports about the proxy.
pub struct ProxyStatus {
    pub running: bool,
    pub port: u16,
    pub request_count: usize,
    pub ca_installed: bool,
}

/// What the control surface reports about the certificate authority.
pub struct CaInfo {
    pub exists: bool,
    pub path: String,
    pub pem: Option<String>,
}

} // verus!
