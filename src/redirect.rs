//! A redirect service description: the path it answers, where it sends the
//! client and with which status code.

use vstd::prelude::*;

verus! {

/// `307 Temporary Redirect`: the default status of a redirect.
pub const TEMPORARY_REDIRECT: u16 = 307;

/// `308 Permanent Redirect`.
pub const PERMANENT_REDIRECT: u16 = 308;

/// `303 See Other`.
pub const SEE_OTHER: u16 = 303;

/// A character that an HTTP header value may hold: visible ASCII, space, tab,
/// or any character outside ASCII (whose UTF-8 bytes are all 128 and above).
pub open spec fn header_char_ok(c: char) -> bool {
    (c as u32 >= 32 && c as u32 != 127) || c as u32 == 9
}

/// Whether a text can stand as an HTTP header value.
pub open spec fn header_text_ok(text: Seq<char>) -> bool {
    forall|i: int| 0 <= i < text.len() ==> header_char_ok(#[trigger] text[i])
}

/// Relies on `http::HeaderValue::from_str` (through actix-web): it accepts a
/// text exactly when every byte of it is a tab or at least 32 and not 127.
#[verifier::external_body]
fn parses_as_header_value(s: &str) -> (r: bool)
    ensures
        r == header_text_ok(s@),
{
    actix_web::http::header::HeaderValue::from_str(s).is_ok()
}

/// A service that answers requests under `from` with a redirect to `to`.
pub struct Redirect {
    from: String,
    to: String,
    status: u16,
}

impl Redirect {
    /// The path prefix this redirect answers.
    pub closed spec fn spec_from(&self) -> Seq<char> {
        self.from@
    }

    /// The target sent to the client.
    pub closed spec fn spec_to(&self) -> Seq<char> {
        self.to@
    }

    /// The status code of the response.
    pub closed spec fn spec_status(&self) -> u16 {
        self.status
    }

    /// A temporary redirect from `from` to `to`.
    pub fn new(from: &str, to: &str) -> (r: Redirect)
        ensures
            r.spec_from() == from@,
            r.spec_to() == to@,
            r.spec_status() == TEMPORARY_REDIRECT,
    {
        Redirect { from: from.to_owned(), to: to.to_owned(), status: TEMPORARY_REDIRECT }
    }

    /// The same redirect, answered with `308 Permanent Redirect`.
    pub fn permanent(self) -> (r: Redirect)
        ensures
            r.spec_from() == self.spec_from(),
            r.spec_to() == self.spec_to(),
            r.spec_status() == PERMANENT_REDIRECT,
    {
        Redirect { status: PERMANENT_REDIRECT, ..self }
    }

    /// The same redirect, answered with `307 Temporary Redirect`.
    pub fn temporary(self) -> (r: Redirect)
        ensures
            r.spec_from() == self.spec_from(),
            r.spec_to() == self.spec_to(),
            r.spec_status() == TEMPORARY_REDIRECT,
    {
        Redirect { status: TEMPORARY_REDIRECT, ..self }
    }

    /// The same redirect, answered with `303 See Other`.
    pub fn see_other(self) -> (r: Redirect)
        ensures
            r.spec_from() == self.spec_from(),
            r.spec_to() == self.spec_to(),
            r.spec_status() == SEE_OTHER,
    {
        Redirect { status: SEE_OTHER, ..self }
    }

    /// The path prefix this redirect answers.
    pub fn from(&self) -> (r: &str)
        ensures
            r@ == self.spec_from(),
    {
        self.from.as_str()
    }

    /// The target sent to the client.
    pub fn to(&self) -> (r: &str)
        ensures
            r@ == self.spec_to(),
    {
        self.to.as_str()
    }

    /// The status code of the response.
    pub fn status_code(&self) -> (r: u16)
        ensures
            r == self.spec_status(),
    {
        self.status
    }

    /// The `Location` header of the response: the target as it was given,
    /// or nothing where the target cannot stand as a header value.
    pub fn location(&self) -> (r: Option<&str>)
        ensures
            header_text_ok(self.spec_to()) ==> r is Some && r->0@ == self.spec_to(),
            !header_text_ok(self.spec_to()) ==> r is None,
    {
        let to = self.to.as_str();
        if parses_as_header_value(to) {
            Some(to)
        } else {
            None
        }
    }
}

} // verus!
