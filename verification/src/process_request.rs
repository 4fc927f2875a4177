//! The three mode pipelines: each takes the outcome of the outbound fetch
//! and the elapsed handling time and shapes the outgoing response, before
//! header enrichment. The outer status is always 200 — a remote failure is
//! reported inside the JSON payload, never as the proxy's own status.

use vstd::prelude::*;
use crate::page_types::{
    envelope_chars, spec_data, spec_error, spec_info, FetchOutcome, FetchOutcomeView, PageContent,
    PageContentView,
};
use crate::response::{spec_set_header, ProxyResponse, ProxyResponseView};
use crate::text::{dec_digits, dec_u64_string};

verus! {

/// A record with its handling time filled in.
pub open spec fn spec_with_time(p: PageContentView, elapsed_ms: u32) -> PageContentView {
    PageContentView { response_time: elapsed_ms, ..p }
}

/// The metadata-mode record for an outcome: classification of the response
/// or of the transport failure, with the handling time filled in.
pub open spec fn spec_classify_info(
    url: Seq<char>,
    o: FetchOutcomeView,
    elapsed_ms: u32,
) -> PageContentView {
    match o {
        FetchOutcomeView::Fetched(r) => spec_with_time(spec_info(r), elapsed_ms),
        FetchOutcomeView::Failed(f) => spec_with_time(spec_error(f, url), elapsed_ms),
    }
}

/// The body-mode record for an outcome.
pub open spec fn spec_classify_data(
    url: Seq<char>,
    o: FetchOutcomeView,
    elapsed_ms: u32,
) -> PageContentView {
    match o {
        FetchOutcomeView::Fetched(r) => spec_with_time(spec_data(r), elapsed_ms),
        FetchOutcomeView::Failed(f) => spec_with_time(spec_error(f, url), elapsed_ms),
    }
}

/// The JSON envelope response for a record: outer status 200, a
/// `content-type` of `application/json`, and the envelope as body.
pub open spec fn spec_json_response(p: PageContentView) -> ProxyResponseView {
    ProxyResponseView {
        status: 200,
        headers: seq![("content-type"@, "application/json"@)],
        body: envelope_chars(p),
    }
}

/// The raw-mode success response for a record: outer status 200, the decoded
/// body verbatim, and `content-length` / `content-type` copied from the
/// record where present.
pub open spec fn spec_raw_success(p: PageContentView) -> ProxyResponseView {
    ProxyResponseView {
        status: 200,
        headers: (match p.content_length {
            Some(n) => seq![("content-length"@, dec_digits(n as nat))],
            None => Seq::<(Seq<char>, Seq<char>)>::empty(),
        }) + (match p.content_type {
            Some(ct) => seq![("content-type"@, ct)],
            None => Seq::<(Seq<char>, Seq<char>)>::empty(),
        }),
        body: match p.contents {
            Some(c) => c,
            None => Seq::<char>::empty(),
        },
    }
}

/// What the metadata mode answers: always the JSON envelope.
pub open spec fn spec_process_info(
    url: Seq<char>,
    o: FetchOutcomeView,
    elapsed_ms: u32,
) -> ProxyResponseView {
    spec_json_response(spec_classify_info(url, o, elapsed_ms))
}

/// What the passthrough mode answers: always the JSON envelope, with the
/// decoded body inside it.
pub open spec fn spec_process_get(
    url: Seq<char>,
    o: FetchOutcomeView,
    elapsed_ms: u32,
) -> ProxyResponseView {
    spec_json_response(spec_classify_data(url, o, elapsed_ms))
}

/// What the raw mode answers: the body verbatim on success, and the same
/// JSON envelope as the passthrough mode on any failure.
pub open spec fn spec_process_raw(
    url: Seq<char>,
    o: FetchOutcomeView,
    elapsed_ms: u32,
) -> ProxyResponseView {
    let p = spec_classify_data(url, o, elapsed_ms);
    if p.error is Some {
        spec_json_response(p)
    } else {
        spec_raw_success(p)
    }
}

/// Wraps a record in its JSON envelope response.
pub fn json_response(content: &PageContent) -> (r: ProxyResponse)
    ensures
        r@ == spec_json_response(content@),
{
    let mut r = ProxyResponse::new(200, content.to_json());
    r.set_header("content-type", "application/json".to_owned());
    proof {
        assert(r@.headers =~= seq![("content-type"@, "application/json"@)]);
    }
    r
}

/// Classifies an outcome for the metadata mode and stamps the handling time.
pub fn classify_info(url: String, outcome: FetchOutcome, elapsed_ms: u32) -> (r: PageContent)
    requires
        outcome@.wf(),
    ensures
        r@ == spec_classify_info(url@, outcome@, elapsed_ms),
{
    let mut content = match outcome {
        FetchOutcome::Fetched(resp) => PageContent::info(resp),
        FetchOutcome::Failed(err) => PageContent::error(err, url),
    };
    content.response_time = elapsed_ms;
    content
}

/// Classifies an outcome for the body-returning modes and stamps the
/// handling time.
pub fn classify_data(url: String, outcome: FetchOutcome, elapsed_ms: u32) -> (r: PageContent)
    requires
        outcome@.wf(),
    ensures
        r@ == spec_classify_data(url@, outcome@, elapsed_ms),
{
    let mut content = match outcome {
        FetchOutcome::Fetched(resp) => PageContent::data(resp),
        FetchOutcome::Failed(err) => PageContent::error(err, url),
    };
    content.response_time = elapsed_ms;
    content
}

/// The metadata mode: wraps the metadata classification in the JSON
/// envelope.
pub fn process_request_info(url: String, outcome: FetchOutcome, elapsed_ms: u32) -> (r:
    ProxyResponse)
    requires
        outcome@.wf(),
    ensures
        r@ == spec_process_info(url@, outcome@, elapsed_ms),
{
    let content = classify_info(url, outcome, elapsed_ms);
    json_response(&content)
}

/// The passthrough mode: wraps the body classification in the JSON envelope.
pub fn process_request_get(url: String, outcome: FetchOutcome, elapsed_ms: u32) -> (r:
    ProxyResponse)
    requires
        outcome@.wf(),
    ensures
        r@ == spec_process_get(url@, outcome@, elapsed_ms),
{
    let content = classify_data(url, outcome, elapsed_ms);
    json_response(&content)
}

/// The raw mode: returns the decoded body verbatim with copied
/// `content-length` and `content-type` on success, and falls back to the
/// passthrough mode's JSON envelope on failure.
pub fn process_request_raw(url: String, outcome: FetchOutcome, elapsed_ms: u32) -> (r:
    ProxyResponse)
    requires
        outcome@.wf(),
    ensures
        r@ == spec_process_raw(url@, outcome@, elapsed_ms),
{
    let content = classify_data(url, outcome, elapsed_ms);
    if content.error.is_some() {
        return json_response(&content);
    }
    let body = match content.contents {
        Some(c) => c,
        None => String::new(),
    };
    let mut r = ProxyResponse::new(200, body);
    let ghost p = spec_classify_data(url@, outcome@, elapsed_ms);
    proof {
        reveal_strlit("content-length");
        reveal_strlit("content-type");
    }
    match &content.content_length {
        Some(n) => {
            r.set_header("content-length", dec_u64_string(*n));
            proof {
                assert(r@.headers =~= seq![("content-length"@, dec_digits((*n) as nat))]);
            }
        },
        None => {},
    }
    let ghost with_length = r@.headers;
    match &content.content_type {
        Some(ct) => {
            r.set_header("content-type", ct.clone());
            proof {
                assert("content-length"@ != "content-type"@) by {
                    assert("content-length"@.len() == 14);
                    assert("content-type"@.len() == 12);
                }
                if content.content_length is Some {
                    assert(with_length[0].0 == "content-length"@);
                    assert(with_length.drop_first() =~= Seq::<(Seq<char>, Seq<char>)>::empty());
                    assert(spec_set_header(with_length, "content-type"@, ct@) == seq![
                        with_length[0],
                    ] + spec_set_header(with_length.drop_first(), "content-type"@, ct@));
                    assert(spec_set_header(with_length.drop_first(), "content-type"@, ct@) =~= seq![
                        ("content-type"@, ct@),
                    ]);
                    assert(r@.headers =~= with_length + seq![("content-type"@, ct@)]);
                } else {
                    assert(r@.headers =~= seq![("content-type"@, ct@)]);
                }
            }
        },
        None => {},
    }
    proof {
        assert(r@.headers =~= spec_raw_success(p).headers);
        assert(r@.body == spec_raw_success(p).body);
    }
    r
}

} // verus!
