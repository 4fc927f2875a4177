//! The normalized result record of one proxied fetch, and the classifiers
//! that build it from a fetch outcome: a metadata-only classification, a
//! body-reading classification, and a transport-failure classification, plus
//! the JSON envelope the service answers with.

use vstd::prelude::*;
use vstd::utf8::encode_utf8;
use crate::is_success_status;
use crate::status::{status_line, status_line_of};
use crate::text::{
    dec_digits, json_string_chars, parse_u64, parse_u64_chars, push_dec_u64, push_json_string,
};

verus! {

/// What an outbound fetch handed back when the remote answered at all: the
/// final URL after redirects, the remote status, the verbatim `Content-Type`
/// and `Content-Length` header values (absent where the header is missing or
/// not readable as text), and the decoded body text (absent where the body
/// was never read or could not be decoded).
pub struct FetchedResponse {
    pub url: String,
    pub status: u16,
    pub content_type: Option<String>,
    pub content_length: Option<String>,
    pub body: Option<String>,
}

/// The mathematical content of a [`FetchedResponse`].
pub ghost struct FetchedResponseView {
    pub url: Seq<char>,
    pub status: u16,
    pub content_type: Option<Seq<char>>,
    pub content_length: Option<Seq<char>>,
    pub body: Option<Seq<char>>,
}

impl View for FetchedResponse {
    type V = FetchedResponseView;

    open spec fn view(&self) -> FetchedResponseView {
        FetchedResponseView {
            url: self.url@,
            status: self.status,
            content_type: self.content_type.deep_view(),
            content_length: self.content_length.deep_view(),
            body: self.body.deep_view(),
        }
    }
}

impl FetchedResponseView {
    /// What every response delivered by a real HTTP transport satisfies: a
    /// status code in the range the wire format allows, and a body whose
    /// encoded size a machine can hold.
    pub open spec fn wf(&self) -> bool {
        &&& 100 <= self.status <= 999
        &&& match self.body {
            Some(b) => encode_utf8(b).len() <= usize::MAX,
            None => true,
        }
    }
}

/// A fetch that never produced a remote response: a human-readable
/// description and, where the underlying failure carried one, a status code.
pub struct TransportFailure {
    pub message: String,
    pub status: Option<u16>,
}

/// The mathematical content of a [`TransportFailure`].
pub ghost struct TransportFailureView {
    pub message: Seq<char>,
    pub status: Option<u16>,
}

impl View for TransportFailure {
    type V = TransportFailureView;

    open spec fn view(&self) -> TransportFailureView {
        TransportFailureView { message: self.message@, status: self.status }
    }
}

/// The outcome of one outbound fetch: a remote response, or a transport
/// failure.
pub enum FetchOutcome {
    Fetched(FetchedResponse),
    Failed(TransportFailure),
}

/// The mathematical content of a [`FetchOutcome`].
pub ghost enum FetchOutcomeView {
    Fetched(FetchedResponseView),
    Failed(TransportFailureView),
}

impl View for FetchOutcome {
    type V = FetchOutcomeView;

    open spec fn view(&self) -> FetchOutcomeView {
        match self {
            FetchOutcome::Fetched(r) => FetchOutcomeView::Fetched(r@),
            FetchOutcome::Failed(f) => FetchOutcomeView::Failed(f@),
        }
    }
}

impl FetchOutcomeView {
    /// Well-formedness of the outcome: a delivered response is one a real
    /// transport could deliver.
    pub open spec fn wf(&self) -> bool {
        match self {
            FetchOutcomeView::Fetched(r) => r.wf(),
            FetchOutcomeView::Failed(_) => true,
        }
    }
}

/// The normalized record of one proxied fetch, the shape every JSON envelope
/// serializes: metadata of the remote response, the decoded body where a
/// body-returning mode read one, the elapsed handling time, and an error
/// description present exactly when the fetch did not succeed.
pub struct PageContent {
    pub content_length: Option<u64>,
    pub content_type: Option<String>,
    pub http_code: Option<u16>,
    pub response_time: u32,
    pub url: String,
    pub contents: Option<String>,
    pub error: Option<String>,
}

/// The mathematical content of a [`PageContent`].
pub ghost struct PageContentView {
    pub content_length: Option<u64>,
    pub content_type: Option<Seq<char>>,
    pub http_code: Option<u16>,
    pub response_time: u32,
    pub url: Seq<char>,
    pub contents: Option<Seq<char>>,
    pub error: Option<Seq<char>>,
}

impl View for PageContent {
    type V = PageContentView;

    open spec fn view(&self) -> PageContentView {
        PageContentView {
            content_length: self.content_length,
            content_type: self.content_type.deep_view(),
            http_code: self.http_code,
            response_time: self.response_time,
            url: self.url@,
            contents: self.contents.deep_view(),
            error: self.error.deep_view(),
        }
    }
}

/// The error field of a classified response: absent on a 2xx status, the
/// status line text otherwise.
pub open spec fn spec_status_error(status: u16) -> Option<Seq<char>> {
    if is_success_status(status) {
        None
    } else {
        Some(status_line_of(status))
    }
}

/// The metadata-only classification: status and headers are read, the body
/// never is. The content length is the numeric parse of the literal header
/// value; an unparsable value yields an absent length, not zero.
pub open spec fn spec_info(r: FetchedResponseView) -> PageContentView {
    PageContentView {
        content_length: match r.content_length {
            Some(h) => parse_u64_chars(h),
            None => None,
        },
        content_type: r.content_type,
        http_code: Some(r.status),
        response_time: 0,
        url: r.url,
        contents: None,
        error: spec_status_error(r.status),
    }
}

/// The body-reading classification: an unreadable or empty body collapses to
/// an absent body and an absent length; otherwise the length is the decoded
/// body's size in bytes, whatever any `Content-Length` header said.
pub open spec fn spec_data(r: FetchedResponseView) -> PageContentView {
    let contents = match r.body {
        Some(b) => if b.len() == 0 {
            None
        } else {
            Some(b)
        },
        None => None,
    };
    PageContentView {
        content_length: match contents {
            Some(b) => Some(encode_utf8(b).len() as u64),
            None => None,
        },
        content_type: r.content_type,
        http_code: Some(r.status),
        response_time: 0,
        url: r.url,
        contents: contents,
        error: spec_status_error(r.status),
    }
}

/// The transport-failure classification: the requested URL is echoed back,
/// the error description is always present, and a status code appears only
/// where the failure carried one.
pub open spec fn spec_error(f: TransportFailureView, url: Seq<char>) -> PageContentView {
    PageContentView {
        content_length: None,
        content_type: None,
        http_code: f.status,
        response_time: 0,
        url: url,
        contents: None,
        error: Some(f.message),
    }
}

impl PageContent {
    /// Classifies a remote response for the metadata mode, without touching
    /// the body.
    pub fn info(resp: FetchedResponse) -> (r: PageContent)
        requires
            resp@.wf(),
        ensures
            r@ == spec_info(resp@),
    {
        let content_length: Option<u64> = match &resp.content_length {
            Some(h) => parse_u64(h.as_str()),
            None => None,
        };
        let error: Option<String> = if crate::status_is_success(resp.status) {
            None
        } else {
            Some(status_line(resp.status))
        };
        PageContent {
            content_length,
            content_type: resp.content_type,
            http_code: Some(resp.status),
            response_time: 0,
            url: resp.url,
            contents: None,
            error,
        }
    }

    /// Classifies a remote response for the body-returning modes.
    pub fn data(resp: FetchedResponse) -> (r: PageContent)
        requires
            resp@.wf(),
        ensures
            r@ == spec_data(resp@),
    {
        let error: Option<String> = if crate::status_is_success(resp.status) {
            None
        } else {
            Some(status_line(resp.status))
        };
        let contents: Option<String> = match resp.body {
            Some(b) => if b.as_str().is_empty() {
                None
            } else {
                Some(b)
            },
            None => None,
        };
        let content_length: Option<u64> = match &contents {
            Some(c) => Some(c.as_str().len() as u64),
            None => None,
        };
        PageContent {
            content_length,
            content_type: resp.content_type,
            http_code: Some(resp.status),
            response_time: 0,
            url: resp.url,
            contents,
            error,
        }
    }

    /// Classifies a transport failure; the requested URL is echoed back.
    pub fn error(err: TransportFailure, url: String) -> (r: PageContent)
        ensures
            r@ == spec_error(err@, url@),
    {
        PageContent {
            content_length: None,
            content_type: None,
            http_code: err.status,
            response_time: 0,
            url,
            contents: None,
            error: Some(err.message),
        }
    }
}

/// The JSON envelope text for a record: the fields in a fixed order, each
/// optional field omitted when absent, `response_time` and `url` always
/// present.
pub open spec fn envelope_chars(p: PageContentView) -> Seq<char> {
    "{"@ + (match p.content_length {
        Some(n) => "\"content_length\":"@ + dec_digits(n as nat) + ","@,
        None => Seq::<char>::empty(),
    }) + (match p.content_type {
        Some(s) => "\"content_type\":"@ + json_string_chars(s) + ","@,
        None => Seq::<char>::empty(),
    }) + (match p.http_code {
        Some(n) => "\"http_code\":"@ + dec_digits(n as nat) + ","@,
        None => Seq::<char>::empty(),
    }) + "\"response_time\":"@ + dec_digits(p.response_time as nat) + ",\"url\":"@
        + json_string_chars(p.url) + (match p.contents {
        Some(s) => ",\"contents\":"@ + json_string_chars(s),
        None => Seq::<char>::empty(),
    }) + (match p.error {
        Some(s) => ",\"error\":"@ + json_string_chars(s),
        None => Seq::<char>::empty(),
    }) + "}"@
}

impl PageContent {
    /// Serializes the record as its JSON envelope.
    #[verifier::rlimit(60)]
    pub fn to_json(&self) -> (r: String)
        ensures
            r@ == envelope_chars(self@),
    {
        let mut out = String::new();
        let ghost mut g: Seq<char> = Seq::empty();
        out.append("{");
        proof {
            g = "{"@;
            assert(out@ =~= g);
        }
        match &self.content_length {
            Some(n) => {
                out.append("\"content_length\":");
                push_dec_u64(&mut out, *n);
                out.append(",");
                proof {
                    g = g + ("\"content_length\":"@ + dec_digits((*n) as nat) + ","@);
                    assert(out@ =~= g);
                }
            },
            None => {
                proof {
                    g = g + Seq::<char>::empty();
                    assert(out@ =~= g);
                }
            },
        }
        match &self.content_type {
            Some(s) => {
                out.append("\"content_type\":");
                push_json_string(&mut out, s.as_str());
                out.append(",");
                proof {
                    g = g + ("\"content_type\":"@ + json_string_chars(s@) + ","@);
                    assert(out@ =~= g);
                }
            },
            None => {
                proof {
                    g = g + Seq::<char>::empty();
                    assert(out@ =~= g);
                }
            },
        }
        match &self.http_code {
            Some(n) => {
                out.append("\"http_code\":");
                push_dec_u64(&mut out, *n as u64);
                out.append(",");
                proof {
                    g = g + ("\"http_code\":"@ + dec_digits((*n) as nat) + ","@);
                    assert(out@ =~= g);
                }
            },
            None => {
                proof {
                    g = g + Seq::<char>::empty();
                    assert(out@ =~= g);
                }
            },
        }
        out.append("\"response_time\":");
        proof {
            g = g + "\"response_time\":"@;
            assert(out@ =~= g);
        }
        push_dec_u64(&mut out, self.response_time as u64);
        proof {
            g = g + dec_digits(self.response_time as nat);
            assert(out@ =~= g);
        }
        out.append(",\"url\":");
        proof {
            g = g + ",\"url\":"@;
            assert(out@ =~= g);
        }
        push_json_string(&mut out, self.url.as_str());
        proof {
            g = g + json_string_chars(self.url@);
            assert(out@ =~= g);
        }
        match &self.contents {
            Some(s) => {
                out.append(",\"contents\":");
                push_json_string(&mut out, s.as_str());
                proof {
                    g = g + (",\"contents\":"@ + json_string_chars(s@));
                    assert(out@ =~= g);
                }
            },
            None => {
                proof {
                    g = g + Seq::<char>::empty();
                    assert(out@ =~= g);
                }
            },
        }
        match &self.error {
            Some(s) => {
                out.append(",\"error\":");
                push_json_string(&mut out, s.as_str());
                proof {
                    g = g + (",\"error\":"@ + json_string_chars(s@));
                    assert(out@ =~= g);
                }
            },
            None => {
                proof {
                    g = g + Seq::<char>::empty();
                    assert(out@ =~= g);
                }
            },
        }
        out.append("}");
        proof {
            g = g + "}"@;
            assert(out@ =~= g);
            assert(g == envelope_chars(self@));
        }
        out
    }
}

} // verus!
