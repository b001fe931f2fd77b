//! HTTP status codes as the library reads them: a number from 100 through 999.
use vstd::prelude::*;
use crate::text::decimal;

verus! {

/// An HTTP status code: the number that `reqwest::StatusCode` carries,
/// always from 100 through 999.
#[derive(Debug, Clone, Copy, PartialEq, Eq)]
pub struct HttpStatus {
    code: u16,
}

impl View for HttpStatus {
    type V = u16;

    closed spec fn view(&self) -> u16 {
        self.code
    }
}

impl HttpStatus {
    #[verifier::type_invariant]
    spec fn valid(self) -> bool {
        100 <= self.code <= 999
    }

    /// The status with the given code; `None` where `reqwest::StatusCode`
    /// refuses the number (below 100 or above 999).
    pub fn from_u16(code: u16) -> (r: Option<HttpStatus>)
        ensures
            r is Some <==> 100 <= code <= 999,
            r matches Some(s) ==> s@ == code,
    {
        if status_code_accepts(code) {
            Some(HttpStatus { code })
        } else {
            None
        }
    }

    /// The numeric code.
    pub fn as_u16(&self) -> (r: u16)
        ensures
            r == self@,
            100 <= r <= 999,
    {
        proof {
            use_type_invariant(self);
        }
        self.code
    }
}

/// `reqwest::StatusCode::from_u16` (the `http` crate's): as its documentation
/// says, it accepts a number exactly when it is at least 100 and below 1000.
#[verifier::external_body]
fn status_code_accepts(code: u16) -> (r: bool)
    ensures
        r == (100 <= code <= 999),
{
    reqwest::StatusCode::from_u16(code).is_ok()
}

/// What `Display` for `reqwest::StatusCode` writes after the number and a
/// space: the canonical reason phrase from the crate's table, or
/// `<unknown status code>` for a code the table lacks.
pub uninterp spec fn status_reason_text(code: u16) -> Seq<char>;

/// The text `Display` for `reqwest::StatusCode` writes: the decimal code, a
/// space, then the reason part.
pub open spec fn status_display(code: u16) -> Seq<char> {
    decimal(code as nat) + " "@ + status_reason_text(code)
}

/// `Display` of `reqwest::StatusCode`, applied to the status with this code.
/// As its source shows, it writes the code in decimal, a space and the reason
/// part, which is named by `status_reason_text`.
#[verifier::external_body]
pub(crate) fn status_text(code: u16) -> (r: String)
    requires
        100 <= code <= 999,
    ensures
        r@ == decimal(code as nat) + " "@ + status_reason_text(code),
{
    match reqwest::StatusCode::from_u16(code) {
        Ok(status) => status.to_string(),
        Err(_) => String::new(),
    }
}

} // verus!
