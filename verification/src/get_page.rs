//! The target of one outbound fetch. The fetch itself — building the
//! permissive HTTP client and sending the request — is the transport
//! collaborator's work; this type carries the URL it is given.

use vstd::prelude::*;

verus! {

/// The target URL of one outbound fetch.
pub struct GetPage {
    url: String,
}

impl View for GetPage {
    type V = Seq<char>;

    closed spec fn view(&self) -> Seq<char> {
        self.url@
    }
}

impl GetPage {
    /// Wraps a target URL.
    pub fn new(url: String) -> (r: GetPage)
        ensures
            r@ == url@,
    {
        GetPage { url }
    }

    /// The target URL.
    pub fn url(&self) -> (r: &String)
        ensures
            r@ == self@,
    {
        &self.url
    }

    /// Gives the URL back, consuming the wrapper.
    pub fn into_url(self) -> (r: String)
        ensures
            r@ == self@,
    {
        self.url
    }
}

} // verus!
