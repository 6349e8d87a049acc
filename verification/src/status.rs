//! HTTP status codes as the error payloads of the API carry them.

use vstd::prelude::*;

verus! {

/// An HTTP status code: a number of three digits.
#[derive(Clone, Copy, Debug, PartialEq, Eq)]
pub struct StatusCode {
    code: u16,
}

/// The status line of `code`: the number, a space and the reason phrase that
/// the standard gives the code.
pub uninterp spec fn status_line_text(code: int) -> Seq<char>;

/// Calls http's `StatusCode::from_u16` and renders what it gives with the
/// `Display` impl of http's `StatusCode`. The first accepts exactly the codes
/// from 100 to 999; the contract names the rendered line and claims nothing
/// more of it.
#[verifier::external_body]
fn status_line(code: u16) -> (line: Option<String>)
    ensures
        line is Some <==> 100 <= code <= 999,
        line is Some ==> line.unwrap()@ == status_line_text(code as int),
{
    match http::StatusCode::from_u16(code) {
        Ok(status) => Some(status.to_string()),
        Err(_) => None,
    }
}

impl StatusCode {
    #[verifier::type_invariant]
    spec fn three_digits(&self) -> bool {
        100 <= self.code <= 999
    }

    /// The number of the code.
    pub closed spec fn number(&self) -> int {
        self.code as int
    }

    /// The status code with the number `code`, where it has three digits.
    pub fn from_u16(code: u16) -> (status: Option<StatusCode>)
        ensures
            status is Some <==> 100 <= code <= 999,
            status is Some ==> status.unwrap().number() == code,
    {
        if 100 <= code && code <= 999 {
            Some(StatusCode { code })
        } else {
            None
        }
    }

    /// The number of the code.
    pub fn as_u16(&self) -> (code: u16)
        ensures
            code == self.number(),
            100 <= code <= 999,
    {
        proof {
            use_type_invariant(self);
        }
        self.code
    }

    /// Whether the code is one of the server errors, 500 to 599.
    pub fn is_server_error(&self) -> (yes: bool)
        ensures
            yes == (500 <= self.number() <= 599),
    {
        500 <= self.code && self.code <= 599
    }

    /// The status line, such as `400 Bad Request`.
    pub fn to_text(&self) -> (line: String)
        ensures
            line@ == status_line_text(self.number()),
    {
        proof {
            use_type_invariant(self);
        }
        match status_line(self.code) {
            Some(line) => line,
            None => String::new(),
        }
    }
}

} // verus!
