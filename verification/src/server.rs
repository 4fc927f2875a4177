//! The request-side decisions of the service: which mode a path names, the
//! required-URL check that runs before any fetch, the header enrichment
//! applied to every shaped response, and the composed per-mode handlers.

use vstd::prelude::*;
use crate::page_types::FetchOutcome;
use crate::process_request::{
    process_request_get, process_request_info, process_request_raw, spec_process_get,
    spec_process_info, spec_process_raw,
};
use crate::response::{spec_get_header, spec_set_header, ProxyResponse, ProxyResponseView};
use crate::text::str_eq;

verus! {

/// The query parameters the service accepts.
pub struct QueryParams {
    pub url: Option<String>,
    pub charset: Option<String>,
}

/// The mathematical content of a [`QueryParams`].
pub ghost struct QueryParamsView {
    pub url: Option<Seq<char>>,
    pub charset: Option<Seq<char>>,
}

impl View for QueryParams {
    type V = QueryParamsView;

    open spec fn view(&self) -> QueryParamsView {
        QueryParamsView { url: self.url.deep_view(), charset: self.charset.deep_view() }
    }
}

/// The two inbound headers the enricher reads.
pub struct InboundHeaders {
    pub cache_control: Option<String>,
    pub origin: Option<String>,
}

/// The mathematical content of an [`InboundHeaders`].
pub ghost struct InboundHeadersView {
    pub cache_control: Option<Seq<char>>,
    pub origin: Option<Seq<char>>,
}

impl View for InboundHeaders {
    type V = InboundHeadersView;

    open spec fn view(&self) -> InboundHeadersView {
        InboundHeadersView {
            cache_control: self.cache_control.deep_view(),
            origin: self.origin.deep_view(),
        }
    }
}

/// The three response modes of the service.
pub enum ProxyMode {
    Info,
    Get,
    Raw,
}

/// How far the first path segment runs: the number of characters before the
/// first `'/'`.
pub open spec fn seg_end(s: Seq<char>) -> nat
    decreases s.len(),
{
    if s.len() == 0 || s[0] == '/' {
        0
    } else {
        1 + seg_end(s.drop_first())
    }
}

/// The first segment of a path: what stands between an optional leading
/// `'/'` and the next `'/'` or the end.
pub open spec fn first_segment(p: Seq<char>) -> Seq<char> {
    let s = if p.len() > 0 && p[0] == '/' {
        p.drop_first()
    } else {
        p
    };
    s.take(seg_end(s) as int)
}

/// Which mode a path names: decided by its first segment alone, as the
/// router dispatches it.
pub open spec fn spec_route(p: Seq<char>) -> Option<ProxyMode> {
    let seg = first_segment(p);
    if seg == "info"@ {
        Some(ProxyMode::Info)
    } else if seg == "get"@ {
        Some(ProxyMode::Get)
    } else if seg == "raw"@ {
        Some(ProxyMode::Raw)
    } else {
        None
    }
}

/// A segment that ends where a boundary stands and holds no `'/'` before it
/// has exactly that length.
proof fn lemma_seg_end(s: Seq<char>, e: int)
    requires
        0 <= e <= s.len(),
        forall|k: int| 0 <= k < e ==> s[k] != '/',
        e == s.len() || s[e] == '/',
    ensures
        seg_end(s) == e,
    decreases e,
{
    if e == 0 {
    } else {
        assert(s[0] != '/');
        lemma_seg_end(s.drop_first(), e - 1);
    }
}

/// Maps a path onto the mode its first segment names, or onto nothing.
pub fn route(path: &str) -> (r: Option<ProxyMode>)
    ensures
        r == spec_route(path@),
{
    let len = path.unicode_len();
    let start: usize = if len > 0 && path.get_char(0) == '/' {
        1
    } else {
        0
    };
    let ghost s = if path@.len() > 0 && path@[0] == '/' {
        path@.drop_first()
    } else {
        path@
    };
    proof {
        assert(s =~= path@.skip(start as int));
    }
    let mut end = start;
    while end < len && path.get_char(end) != '/'
        invariant
            start <= end <= len,
            len == path@.len(),
            s == path@.skip(start as int),
            forall|k: int| start <= k < end ==> path@[k] != '/',
        decreases len - end,
    {
        end = end + 1;
    }
    proof {
        assert(forall|k: int| 0 <= k < end - start ==> s[k] == path@[k + start] && s[k] != '/');
        lemma_seg_end(s, end - start);
    }
    let seg = path.substring_char(start, end);
    proof {
        assert(seg@ =~= first_segment(path@));
    }
    if str_eq(seg, "info") {
        Some(ProxyMode::Info)
    } else if str_eq(seg, "get") {
        Some(ProxyMode::Get)
    } else if str_eq(seg, "raw") {
        Some(ProxyMode::Raw)
    } else {
        None
    }
}

/// Whether a mode probes with `HEAD` regardless of the inbound method; only
/// the metadata mode does, the other two pass the inbound method through.
pub fn uses_head_probe(mode: &ProxyMode) -> (r: bool)
    ensures
        r == (mode is Info),
{
    match mode {
        ProxyMode::Info => true,
        ProxyMode::Get => false,
        ProxyMode::Raw => false,
    }
}

/// What an unmatched path is answered with: status 404, no headers, an
/// empty body.
pub open spec fn spec_not_found() -> ProxyResponseView {
    ProxyResponseView {
        status: 404,
        headers: Seq::<(Seq<char>, Seq<char>)>::empty(),
        body: Seq::<char>::empty(),
    }
}

/// The response for a path no mode matches, whatever the method.
pub fn not_found_response() -> (r: ProxyResponse)
    ensures
        r@ == spec_not_found(),
{
    let r = ProxyResponse::new(404, String::new());
    proof {
        assert(r@ =~= spec_not_found());
    }
    r
}

/// What a request without a `url` parameter is answered with: status 400, a
/// plain-text content type, a fixed body, and no enrichment at all.
pub open spec fn spec_bad_request() -> ProxyResponseView {
    ProxyResponseView {
        status: 400,
        headers: seq![("content-type"@, "text/plain"@)],
        body: "No 'url' query parameter"@,
    }
}

/// The required-URL check that runs before any fetch: a missing `url`
/// parameter short-circuits with the fixed bad-request response, which
/// skips header enrichment entirely.
pub fn check_empty_url(query_params: &QueryParams) -> (r: Option<ProxyResponse>)
    ensures
        match r {
            Some(resp) => query_params@.url is None && resp@ == spec_bad_request(),
            None => query_params@.url is Some,
        },
{
    match &query_params.url {
        None => {
            let mut resp = ProxyResponse::new(400, "No 'url' query parameter".to_owned());
            resp.set_header("content-type", "text/plain".to_owned());
            proof {
                assert(resp@.headers =~= seq![("content-type"@, "text/plain"@)]);
            }
            Some(resp)
        },
        Some(_) => None,
    }
}

/// The header list after enrichment: the inbound `cache-control` copied over
/// where present; `access-control-allow-origin` set to the inbound origin or
/// `*`; the fixed credentials, allow-list, methods and via headers; and,
/// where a charset was asked for and a content type is present, the charset
/// appended to it.
pub open spec fn spec_enriched_headers(
    h0: Seq<(Seq<char>, Seq<char>)>,
    inbound: InboundHeadersView,
    charset: Option<Seq<char>>,
) -> Seq<(Seq<char>, Seq<char>)> {
    let h1 = match inbound.cache_control {
        Some(cc) => spec_set_header(h0, "cache-control"@, cc),
        None => h0,
    };
    let h2 = spec_set_header(
        h1,
        "access-control-allow-origin"@,
        match inbound.origin {
            Some(o) => o,
            None => "*"@,
        },
    );
    let h3 = spec_set_header(h2, "access-control-allow-credentials"@, "true"@);
    let h4 = spec_set_header(
        h3,
        "access-control-allow-headers"@,
        "Origin, X-Requested-With, Content-Type, Accept, Cache-Control"@,
    );
    let h5 = spec_set_header(
        h4,
        "access-control-allow-methods"@,
        "OPTIONS, GET, POST, PATCH, PUT, DELETE"@,
    );
    let h6 = spec_set_header(h5, "via"@, "all_origins_rust"@);
    match charset {
        Some(cs) => match spec_get_header(h6, "content-type"@) {
            Some(ct) => spec_set_header(h6, "content-type"@, ct + "; charset="@ + cs),
            None => h6,
        },
        None => h6,
    }
}

/// A response after enrichment: same status and body, enriched headers.
pub open spec fn spec_enrich(
    r: ProxyResponseView,
    inbound: InboundHeadersView,
    charset: Option<Seq<char>>,
) -> ProxyResponseView {
    ProxyResponseView {
        status: r.status,
        headers: spec_enriched_headers(r.headers, inbound, charset),
        body: r.body,
    }
}

/// Enriches an outgoing response, whatever mode shaped it and whether the
/// fetch succeeded or failed.
pub fn add_headers(headers: &InboundHeaders, charset: Option<String>, content: &mut ProxyResponse)
    ensures
        final(content)@ == spec_enrich(old(content)@, headers@, charset.deep_view()),
{
    match &headers.cache_control {
        Some(cache_control) => {
            content.set_header("cache-control", cache_control.clone());
        },
        None => {},
    }
    match &headers.origin {
        Some(origin) => {
            content.set_header("access-control-allow-origin", origin.clone());
        },
        None => {
            content.set_header("access-control-allow-origin", "*".to_owned());
        },
    }
    content.set_header("access-control-allow-credentials", "true".to_owned());
    content.set_header(
        "access-control-allow-headers",
        "Origin, X-Requested-With, Content-Type, Accept, Cache-Control".to_owned(),
    );
    content.set_header(
        "access-control-allow-methods",
        "OPTIONS, GET, POST, PATCH, PUT, DELETE".to_owned(),
    );
    content.set_header("via", "all_origins_rust".to_owned());
    match &charset {
        Some(charset_value) => {
            let content_type: Option<String> = match content.get_header("content-type") {
                Some(ct) => Some(ct.clone()),
                None => None,
            };
            match content_type {
                Some(ct) => {
                    let mut new_ct = ct;
                    new_ct.append("; charset=");
                    new_ct.append(charset_value.as_str());
                    content.set_header("content-type", new_ct);
                },
                None => {},
            }
        },
        None => {},
    }
}

/// The metadata-mode handler after the fetch came back: classify, wrap in
/// the envelope, enrich.
pub fn info_handler(
    url: String,
    outcome: FetchOutcome,
    elapsed_ms: u32,
    charset: Option<String>,
    inbound: &InboundHeaders,
) -> (r: ProxyResponse)
    requires
        outcome@.wf(),
    ensures
        r@ == spec_enrich(
            spec_process_info(url@, outcome@, elapsed_ms),
            inbound@,
            charset.deep_view(),
        ),
{
    let mut content = process_request_info(url, outcome, elapsed_ms);
    add_headers(inbound, charset, &mut content);
    content
}

/// The passthrough-mode handler after the fetch came back.
pub fn get_handler(
    url: String,
    outcome: FetchOutcome,
    elapsed_ms: u32,
    charset: Option<String>,
    inbound: &InboundHeaders,
) -> (r: ProxyResponse)
    requires
        outcome@.wf(),
    ensures
        r@ == spec_enrich(
            spec_process_get(url@, outcome@, elapsed_ms),
            inbound@,
            charset.deep_view(),
        ),
{
    let mut content = process_request_get(url, outcome, elapsed_ms);
    add_headers(inbound, charset, &mut content);
    content
}

/// The raw-mode handler after the fetch came back. Enrichment applies to
/// the failure envelope exactly as it does to the raw success body.
pub fn raw_handler(
    url: String,
    outcome: FetchOutcome,
    elapsed_ms: u32,
    charset: Option<String>,
    inbound: &InboundHeaders,
) -> (r: ProxyResponse)
    requires
        outcome@.wf(),
    ensures
        r@ == spec_enrich(
            spec_process_raw(url@, outcome@, elapsed_ms),
            inbound@,
            charset.deep_view(),
        ),
{
    let mut content = process_request_raw(url, outcome, elapsed_ms);
    add_headers(inbound, charset, &mut content);
    content
}

/// What a whole handled request answers once the fetch outcome is in hand.
pub open spec fn spec_handle_fetched(
    mode: ProxyMode,
    url: Seq<char>,
    o: crate::page_types::FetchOutcomeView,
    elapsed_ms: u32,
    inbound: InboundHeadersView,
    charset: Option<Seq<char>>,
) -> ProxyResponseView {
    let shaped = match mode {
        ProxyMode::Info => spec_process_info(url, o, elapsed_ms),
        ProxyMode::Get => spec_process_get(url, o, elapsed_ms),
        ProxyMode::Raw => spec_process_raw(url, o, elapsed_ms),
    };
    spec_enrich(shaped, inbound, charset)
}

/// Dispatches a fetched outcome to the handler of the mode the router
/// chose.
pub fn handle_fetched(
    mode: ProxyMode,
    url: String,
    outcome: FetchOutcome,
    elapsed_ms: u32,
    charset: Option<String>,
    inbound: &InboundHeaders,
) -> (r: ProxyResponse)
    requires
        outcome@.wf(),
    ensures
        r@ == spec_handle_fetched(
            mode,
            url@,
            outcome@,
            elapsed_ms,
            inbound@,
            charset.deep_view(),
        ),
{
    match mode {
        ProxyMode::Info => info_handler(url, outcome, elapsed_ms, charset, inbound),
        ProxyMode::Get => get_handler(url, outcome, elapsed_ms, charset, inbound),
        ProxyMode::Raw => raw_handler(url, outcome, elapsed_ms, charset, inbound),
    }
}

} // verus!
