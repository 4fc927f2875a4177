//! The status line text of a remote HTTP status, as the `http` crate renders
//! it: the decimal code, a space, and the canonical reason phrase (or a fixed
//! placeholder for a code without one).

use vstd::prelude::*;
use crate::text::dec_digits;

verus! {

/// What follows the decimal code and the space in the `http` crate's
/// rendering of a status: the canonical reason phrase of the code, or
/// `<unknown status code>` where the code has none. The table is the `http`
/// crate's; only that crate computes it.
pub uninterp spec fn reason_of(code: u16) -> Seq<char>;

/// The full status line text for a code: `"404 Not Found"` and the like.
pub open spec fn status_line_of(code: u16) -> Seq<char> {
    dec_digits(code as nat) + seq![' '] + reason_of(code)
}

/// Relies on `http::StatusCode`: `from_u16` accepts every code from 100 to
/// 999, and `Display` writes the decimal code, one space, and the canonical
/// reason phrase or `<unknown status code>`.
#[verifier::external_body]
pub fn status_line(code: u16) -> (r: String)
    requires
        100 <= code <= 999,
    ensures
        r@ == dec_digits(code as nat) + seq![' '] + reason_of(code),
{
    match http::StatusCode::from_u16(code) {
        Ok(status) => status.to_string(),
        Err(_) => String::new(),
    }
}

} // verus!
