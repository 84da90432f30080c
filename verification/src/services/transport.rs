//! Requests as values, and the shapes in which the outcome of sending one comes back.

use crate::text::{decimal, i64_to_decimal};
use vstd::prelude::*;

verus! {

/// The HTTP methods that the backend is called with.
#[derive(Clone, Copy, Debug, PartialEq, Eq, Structural)]
pub enum HttpMethod {
    Get,
    Post,
    Put,
    Delete,
}

/// A request to send: the method and the path below the site's origin.
#[derive(Debug)]
pub struct ApiRequest {
    pub method: HttpMethod,
    pub url: String,
}

/// The status of a response that refuses the request: any status outside 200..=299. A
/// refusal is made by `Refusal::of` alone, so none holds a status of success.
#[derive(Clone, Copy, Debug, PartialEq, Eq)]
pub struct Refusal {
    status: u16,
}

impl Refusal {
    #[verifier::type_invariant]
    spec fn inv(self) -> bool {
        !is_success(self.status)
    }

    /// The status that this refusal holds.
    pub closed spec fn spec_status(&self) -> u16 {
        self.status
    }

    /// A refusal holds no status of success.
    pub open spec fn wf(&self) -> bool {
        !is_success(self.spec_status())
    }

    /// Classes the status of a response: a refusal outside 200..=299, and none within,
    /// where the response is a success.
    pub fn of(status: u16) -> (r: Option<Refusal>)
        ensures
            match r {
                Some(refusal) => !is_success(status) && refusal.spec_status() == status
                    && refusal.wf(),
                None => is_success(status),
            },
    {
        if status_is_success(status) {
            None
        } else {
            Some(Refusal { status })
        }
    }

    /// The status that this refusal holds.
    #[verifier::when_used_as_spec(spec_status)]
    pub fn status(&self) -> (status: u16)
        ensures
            status == self.spec_status(),
            !is_success(status),
            self.wf(),
    {
        proof {
            use_type_invariant(self);
        }
        self.status
    }
}

/// What came of a request whose status decides how the body is read. `E` is the shape in
/// which a refusal's structured body is kept.
#[derive(Debug)]
pub enum Reply<T, E> {
    /// No response came; the transport's message.
    Unreachable(String),
    /// A response outside 200..=299, with its structured error body where it had one.
    Refused { refusal: Refusal, error: Option<E> },
    /// A response within 200..=299: its decoded body, or the decoder's message.
    Accepted(Result<T, String>),
}

/// What came of a request that carries a payload.
#[derive(Debug)]
pub enum Dispatch<T, E> {
    /// The payload could not be encoded; nothing was sent.
    NotEncoded,
    /// The request was sent.
    Sent(Reply<T, E>),
}

/// A status that counts as success.
pub open spec fn is_success(status: u16) -> bool {
    200 <= status <= 299
}

/// Tells whether `status` counts as success.
pub fn status_is_success(status: u16) -> (r: bool)
    ensures
        r == is_success(status),
{
    200 <= status && status <= 299
}

/// The error code that stands for a refusal without a structured body.
pub open spec fn http_error_code(status: u16) -> Seq<char> {
    "HTTP_ERROR_"@ + decimal(status as int)
}

/// Builds the error code that stands for a refusal without a structured body.
pub fn make_http_error_code(status: u16) -> (code: String)
    ensures
        code@ == http_error_code(status),
{
    let mut code = String::from_str("HTTP_ERROR_");
    let digits = i64_to_decimal(status as i64);
    code.append(digits.as_str());
    code
}

/// A result with its error text taken by view.
pub open spec fn result_text<T>(r: Result<T, String>) -> Result<T, Seq<char>> {
    match r {
        Ok(v) => Ok(v),
        Err(e) => Err(e@),
    }
}

/// `prefix` followed by `message`.
pub fn prefixed(prefix: &str, message: &String) -> (r: String)
    ensures
        r@ == prefix@ + message@,
{
    let mut r = String::from_str(prefix);
    r.append(message.as_str());
    r
}

/// What a status-checked reply means where errors are plain texts: the body, or the text
/// that says why there is none.
pub open spec fn spec_simple_outcome<T>(reply: Reply<T, String>) -> Result<T, Seq<char>> {
    match reply {
        Reply::Unreachable(e) => Err("Network error: "@ + e@),
        Reply::Refused { refusal, error } => Err(
            match error {
                Some(code) => code@,
                None => http_error_code(refusal.spec_status()),
            },
        ),
        Reply::Accepted(Ok(body)) => Ok(body),
        Reply::Accepted(Err(e)) => Err("Failed to parse response: "@ + e@),
    }
}

/// Reads a status-checked reply where errors are plain texts.
pub fn simple_outcome<T>(reply: Reply<T, String>) -> (r: Result<T, String>)
    ensures
        result_text(r) == spec_simple_outcome(reply),
{
    match reply {
        Reply::Unreachable(e) => Err(prefixed("Network error: ", &e)),
        Reply::Refused { refusal, error } => match error {
            Some(code) => Err(code),
            None => Err(make_http_error_code(refusal.status())),
        },
        Reply::Accepted(Ok(body)) => Ok(body),
        Reply::Accepted(Err(e)) => Err(prefixed("Failed to parse response: ", &e)),
    }
}

} // verus!
