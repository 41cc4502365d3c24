//! Requests to an HTTP API and what comes back for them.
use vstd::prelude::*;
use vstd::string::*;

verus! {

/// The method of a request.
#[derive(Debug, Clone, Copy, PartialEq, Eq, Structural)]
pub enum Method {
    Get,
    Post,
    Delete,
}

/// An authenticated request, complete but for its body.
#[derive(Debug, Clone)]
pub struct ApiRequest {
    pub method: Method,
    pub url: String,
    /// Value of the `Authorization` header
    pub authorization: String,
}

impl ApiRequest {
    /// Whether this is the request with the given method, URL and authorization.
    pub open spec fn is(self, method: Method, url: Seq<char>, authorization: Seq<char>) -> bool {
        &&& self.method == method
        &&& self.url@ == url
        &&& self.authorization@ == authorization
    }
}

/// What came back for a request whose answer is a `T`.
#[derive(Debug)]
pub enum Reply<T> {
    /// The exchange failed; with the message of the failure.
    Failed(String),
    /// The status was no success; with the text of the body, if it could be read.
    Refused { status: u16, text: Option<String> },
    /// The status was a success; with the decoded body, or the message of the decoding error. The
    /// body of a reply to a deletion does not matter.
    Answered(Result<T, String>),
}

/// The message of a refusal whose body could not be read.
pub const UNKNOWN_ERROR: &'static str = "Unknown error";

/// The message of a refusal: the text of its body.
pub open spec fn refusal_message(text: Option<String>) -> Seq<char> {
    match text {
        Some(t) => t@,
        None => UNKNOWN_ERROR@,
    }
}

/// The message of a body that could not be decoded.
pub open spec fn decoding_message(cause: Seq<char>) -> Seq<char> {
    "JSON parsing failed: "@ + cause
}

/// What to read from the body of a response.
#[derive(Debug, Clone, Copy, PartialEq, Eq, Structural)]
pub enum NextRead {
    /// The status was a success: the body is the answer, to be decoded.
    Answer,
    /// The status of a deletion was a success: that is all there is to know.
    Nothing,
    /// The status was no success: the body is the text of an error message.
    Message,
}

/// Whether a status is a success.
pub open spec fn is_success(status: u16) -> bool {
    200 <= status < 300
}

/// What to read from the body of a response with this status to a request with this method.
pub fn next_read(method: Method, status: u16) -> (next: NextRead)
    ensures
        next == if !is_success(status) {
            NextRead::Message
        } else if method == Method::Delete {
            NextRead::Nothing
        } else {
            NextRead::Answer
        },
{
    if status < 200 || 300 <= status {
        NextRead::Message
    } else if method == Method::Delete {
        NextRead::Nothing
    } else {
        NextRead::Answer
    }
}

/// The message of a refusal: the text of its body.
pub fn refusal_text(text: Option<String>) -> (message: String)
    ensures
        message@ == refusal_message(text),
{
    match text {
        Some(t) => t,
        None => UNKNOWN_ERROR.to_owned(),
    }
}

/// The message of a body that could not be decoded.
pub fn decoding_text(cause: &str) -> (message: String)
    ensures
        message@ == decoding_message(cause@),
{
    String::from_str("JSON parsing failed: ").concat(cause)
}

} // verus!
