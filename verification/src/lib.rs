//! A CORS-bypassing HTTP proxy core: it maps an inbound proxy request onto an
//! outbound fetch, classifies the fetch outcome into a normalized result
//! record, shapes that record into one of three response modes (`info`, `get`,
//! `raw`), and enriches every outgoing response with cross-origin headers.
//!
//! The outbound fetch itself and the HTTP server that dispatches inbound
//! requests are outside collaborators; this crate holds the decisions and
//! transformations between them.

use vstd::prelude::*;

pub mod get_page;
pub mod laws;
pub mod page_types;
pub mod process_request;
pub mod response;
pub mod server;
pub mod status;
pub mod text;

verus! {

/// A proxied fetch is a success exactly when the remote status is in the 2xx
/// range.
pub open spec fn is_success_status(code: u16) -> bool {
    200 <= code < 300
}

/// Whether the remote status is in the 2xx success range.
pub fn status_is_success(code: u16) -> (r: bool)
    ensures
        r == is_success_status(code),
{
    200 <= code && code < 300
}

} // verus!
