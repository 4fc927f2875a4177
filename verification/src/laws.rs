//! The service-wide guarantees, each stated over the specification functions
//! that the executable functions are proved against.

use vstd::prelude::*;
use vstd::utf8::encode_utf8;
use crate::is_success_status;
use crate::page_types::{
    spec_data, spec_error, spec_info, FetchOutcomeView, FetchedResponseView, TransportFailureView,
};
use crate::process_request::{
    spec_classify_data, spec_classify_info, spec_process_get, spec_process_info, spec_process_raw,
    spec_raw_success,
};
use crate::response::{
    lemma_get_set_other, lemma_get_set_same, spec_get_header, spec_set_header,
};
use crate::server::{spec_enrich, InboundHeadersView};
use crate::status::status_line_of;
use crate::text::{dec_digits, parse_u64_chars};

verus! {

/// A fetch that came back with a 2xx status classifies with no error, in
/// both the metadata and the body-reading classification; with a non-empty
/// decoded body, the body-reading classification's content length is the
/// decoded body's size in bytes, and the metadata classification's is the
/// numeric parse of the literal header value.
pub proof fn lemma_success_classification(r: FetchedResponseView)
    requires
        r.wf(),
        is_success_status(r.status),
    ensures
        spec_data(r).error is None,
        spec_info(r).error is None,
        r.body matches Some(b) && b.len() > 0 ==> spec_data(r).content_length == Some(
            encode_utf8(r.body->Some_0).len() as u64,
        ),
        r.content_length matches Some(h) ==> spec_info(r).content_length == parse_u64_chars(h),
{
}

/// A fetch that came back with a status outside the 2xx range classifies
/// with an error equal to the status line text, and a transport failure
/// classifies with its description as the error; either way the error is
/// present exactly when the fetch did not succeed.
pub proof fn lemma_failure_classification(
    r: FetchedResponseView,
    f: TransportFailureView,
    url: Seq<char>,
)
    requires
        r.wf(),
    ensures
        spec_data(r).error is Some <==> !is_success_status(r.status),
        spec_info(r).error is Some <==> !is_success_status(r.status),
        !is_success_status(r.status) ==> spec_data(r).error == Some(status_line_of(r.status))
            && spec_info(r).error == Some(status_line_of(r.status)),
        spec_error(f, url).error == Some(f.message),
{
}

/// Every classified record carries the elapsed handling time, whatever the
/// outcome was; as an unsigned count of milliseconds it is never negative.
pub proof fn lemma_response_time_present(url: Seq<char>, o: FetchOutcomeView, elapsed_ms: u32)
    ensures
        spec_classify_info(url, o, elapsed_ms).response_time == elapsed_ms,
        spec_classify_data(url, o, elapsed_ms).response_time == elapsed_ms,
{
}

/// On success the raw mode copies `content-length` and `content-type` from
/// the classified record onto the outer response and returns the decoded
/// body text verbatim.
pub proof fn lemma_raw_success_copies(url: Seq<char>, o: FetchOutcomeView, elapsed_ms: u32)
    requires
        spec_classify_data(url, o, elapsed_ms).error is None,
    ensures
        ({
            let p = spec_classify_data(url, o, elapsed_ms);
            let r = spec_process_raw(url, o, elapsed_ms);
            &&& r.status == 200
            &&& r.body == (match p.contents {
                Some(c) => c,
                None => Seq::<char>::empty(),
            })
            &&& (p.content_length matches Some(n) ==> spec_get_header(r.headers, "content-length"@)
                == Some(dec_digits(n as nat)))
            &&& (p.content_type matches Some(ct) ==> spec_get_header(r.headers, "content-type"@)
                == Some(ct))
        }),
{
    let p = spec_classify_data(url, o, elapsed_ms);
    let r = spec_process_raw(url, o, elapsed_ms);
    assert(r == spec_raw_success(p));
    reveal_strlit("content-length");
    reveal_strlit("content-type");
    assert("content-length"@ != "content-type"@) by {
        assert("content-length"@.len() == 14);
        assert("content-type"@.len() == 12);
    }
    let cl = match p.content_length {
        Some(n) => seq![("content-length"@, dec_digits(n as nat))],
        None => Seq::<(Seq<char>, Seq<char>)>::empty(),
    };
    let ct = match p.content_type {
        Some(t) => seq![("content-type"@, t)],
        None => Seq::<(Seq<char>, Seq<char>)>::empty(),
    };
    assert(r.headers == cl + ct);
    if p.content_length is Some {
        assert((cl + ct)[0] == cl[0]);
        assert(spec_get_header(r.headers, "content-length"@) == Some(cl[0].1));
    }
    if p.content_type is Some {
        if p.content_length is Some {
            assert((cl + ct)[0] == cl[0]);
            assert((cl + ct).drop_first() =~= ct);
            assert(spec_get_header(r.headers, "content-type"@) == spec_get_header(
                ct,
                "content-type"@,
            ));
        } else {
            assert(cl + ct =~= ct);
        }
        assert(spec_get_header(ct, "content-type"@) == Some(ct[0].1));
    }
}

/// On failure the raw mode answers with exactly the passthrough mode's
/// response: the same JSON envelope at the same outer status 200.
pub proof fn lemma_raw_failure_matches_get(url: Seq<char>, o: FetchOutcomeView, elapsed_ms: u32)
    requires
        spec_classify_data(url, o, elapsed_ms).error is Some,
    ensures
        spec_process_raw(url, o, elapsed_ms) == spec_process_get(url, o, elapsed_ms),
{
}

/// The seven header names the enricher touches, pairwise distinct where the
/// proofs below need it.
proof fn lemma_enricher_names_distinct()
    ensures
        "access-control-allow-origin"@ != "cache-control"@,
        "access-control-allow-origin"@ != "access-control-allow-credentials"@,
        "access-control-allow-origin"@ != "access-control-allow-headers"@,
        "access-control-allow-origin"@ != "access-control-allow-methods"@,
        "access-control-allow-origin"@ != "via"@,
        "access-control-allow-origin"@ != "content-type"@,
        "content-type"@ != "cache-control"@,
        "content-type"@ != "access-control-allow-credentials"@,
        "content-type"@ != "access-control-allow-headers"@,
        "content-type"@ != "access-control-allow-methods"@,
        "content-type"@ != "via"@,
{
    reveal_strlit("access-control-allow-origin");
    reveal_strlit("access-control-allow-credentials");
    reveal_strlit("access-control-allow-headers");
    reveal_strlit("access-control-allow-methods");
    reveal_strlit("cache-control");
    reveal_strlit("content-type");
    reveal_strlit("via");
    assert("access-control-allow-origin"@.len() == 27);
    assert("access-control-allow-credentials"@.len() == 32);
    assert("access-control-allow-headers"@.len() == 28);
    assert("access-control-allow-methods"@.len() == 28);
    assert("cache-control"@.len() == 13);
    assert("content-type"@.len() == 12);
    assert("via"@.len() == 3);
}

/// An enriched response allows the inbound origin where one was sent, and
/// any origin where none was.
pub proof fn lemma_allow_origin(
    r: crate::response::ProxyResponseView,
    inbound: InboundHeadersView,
    charset: Option<Seq<char>>,
)
    ensures
        spec_get_header(spec_enrich(r, inbound, charset).headers, "access-control-allow-origin"@)
            == Some(
            match inbound.origin {
                Some(o) => o,
                None => "*"@,
            },
        ),
{
    lemma_enricher_names_distinct();
    let acao = "access-control-allow-origin"@;
    let v = match inbound.origin {
        Some(o) => o,
        None => "*"@,
    };
    let h1 = match inbound.cache_control {
        Some(cc) => spec_set_header(r.headers, "cache-control"@, cc),
        None => r.headers,
    };
    let h2 = spec_set_header(h1, acao, v);
    let h3 = spec_set_header(h2, "access-control-allow-credentials"@, "true"@);
    let h4 = spec_set_header(
        h3,
        "access-control-allow-headers"@,
        "Origin, X-Requested-With, Content-Type, Accept, Cache-Control"@,
    );
    let h5 = spec_set_header(
        h4,
        "access-control-allow-methods"@,
        "OPTIONS, GET, POST, PATCH, PUT, DELETE"@,
    );
    let h6 = spec_set_header(h5, "via"@, "all_origins_rust"@);
    lemma_get_set_same(h1, acao, v);
    lemma_get_set_other(h2, "access-control-allow-credentials"@, "true"@, acao);
    lemma_get_set_other(
        h3,
        "access-control-allow-headers"@,
        "Origin, X-Requested-With, Content-Type, Accept, Cache-Control"@,
        acao,
    );
    lemma_get_set_other(
        h4,
        "access-control-allow-methods"@,
        "OPTIONS, GET, POST, PATCH, PUT, DELETE"@,
        acao,
    );
    lemma_get_set_other(h5, "via"@, "all_origins_rust"@, acao);
    match charset {
        Some(cs) => match spec_get_header(h6, "content-type"@) {
            Some(ct) => {
                lemma_get_set_other(h6, "content-type"@, ct + "; charset="@ + cs, acao);
            },
            None => {},
        },
        None => {},
    }
}

/// Where a charset was asked for and the shaped response already carries a
/// content type, the enriched response carries that content type with
/// `; charset=<value>` appended; the other enricher headers never disturb
/// it.
pub proof fn lemma_charset_appended(
    r: crate::response::ProxyResponseView,
    inbound: InboundHeadersView,
    cs: Seq<char>,
    ct0: Seq<char>,
)
    requires
        spec_get_header(r.headers, "content-type"@) == Some(ct0),
    ensures
        spec_get_header(spec_enrich(r, inbound, Some(cs)).headers, "content-type"@) == Some(
            ct0 + "; charset="@ + cs,
        ),
{
    lemma_enricher_names_distinct();
    let ctn = "content-type"@;
    let h1 = match inbound.cache_control {
        Some(cc) => spec_set_header(r.headers, "cache-control"@, cc),
        None => r.headers,
    };
    let v = match inbound.origin {
        Some(o) => o,
        None => "*"@,
    };
    let h2 = spec_set_header(h1, "access-control-allow-origin"@, v);
    let h3 = spec_set_header(h2, "access-control-allow-credentials"@, "true"@);
    let h4 = spec_set_header(
        h3,
        "access-control-allow-headers"@,
        "Origin, X-Requested-With, Content-Type, Accept, Cache-Control"@,
    );
    let h5 = spec_set_header(
        h4,
        "access-control-allow-methods"@,
        "OPTIONS, GET, POST, PATCH, PUT, DELETE"@,
    );
    let h6 = spec_set_header(h5, "via"@, "all_origins_rust"@);
    match inbound.cache_control {
        Some(cc) => {
            lemma_get_set_other(r.headers, "cache-control"@, cc, ctn);
        },
        None => {},
    }
    lemma_get_set_other(h1, "access-control-allow-origin"@, v, ctn);
    lemma_get_set_other(h2, "access-control-allow-credentials"@, "true"@, ctn);
    lemma_get_set_other(
        h3,
        "access-control-allow-headers"@,
        "Origin, X-Requested-With, Content-Type, Accept, Cache-Control"@,
        ctn,
    );
    lemma_get_set_other(
        h4,
        "access-control-allow-methods"@,
        "OPTIONS, GET, POST, PATCH, PUT, DELETE"@,
        ctn,
    );
    lemma_get_set_other(h5, "via"@, "all_origins_rust"@, ctn);
    assert(spec_get_header(h6, ctn) == Some(ct0));
    lemma_get_set_same(h6, ctn, ct0 + "; charset="@ + cs);
}

/// Whatever mode handled the request and however the fetch went, the outer
/// response reports status 200: the remote resource's own failure is data
/// inside the payload, never a proxy-level error. Enrichment never touches
/// the status or the body.
pub proof fn lemma_outer_status_always_200(
    mode: crate::server::ProxyMode,
    url: Seq<char>,
    o: FetchOutcomeView,
    elapsed_ms: u32,
    inbound: InboundHeadersView,
    charset: Option<Seq<char>>,
)
    ensures
        crate::server::spec_handle_fetched(mode, url, o, elapsed_ms, inbound, charset).status
            == 200,
        crate::server::spec_handle_fetched(mode, url, o, elapsed_ms, inbound, charset).body == (
        match mode {
            crate::server::ProxyMode::Info => spec_process_info(url, o, elapsed_ms),
            crate::server::ProxyMode::Get => spec_process_get(url, o, elapsed_ms),
            crate::server::ProxyMode::Raw => spec_process_raw(url, o, elapsed_ms),
        }).body,
{
}

/// An unparsable `Content-Length` header on the remote response yields an
/// absent content length in the metadata classification, never zero.
pub proof fn lemma_unparsable_length_absent(r: FetchedResponseView)
    requires
        r.content_length matches Some(h) && parse_u64_chars(h) is None,
    ensures
        spec_info(r).content_length is None,
{
}

} // verus!
