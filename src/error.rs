use vstd::prelude::*;

verus! {

/// The closed set of ways in which one remote operation can fail.
///
/// Each kind stands for one failure point of a call, so that a caller can
/// tell an unreachable server from a reply it cannot read and from a server
/// that rejected the operation.
#[derive(Debug, Clone)]
pub enum ChromaClientError {
    /// The request's address or query could not be built.
    UrlParseError(String),
    /// The request could not be sent (name resolution, refused connection,
    /// transport timeout).
    RequestError(String),
    /// The connection succeeded but the reply's body could not be read.
    ResponseError(String),
    /// The reply's body does not have the expected JSON shape.
    ResponseParseError(String),
    /// The server answered with a status outside `200..=299`; the message
    /// holds the status code.
    ResponseStatusError(String),
    /// A pre-check of authentication or connectivity failed.
    PreflightError(String),
    /// The operation is not supported by this client yet.
    Unsupported(String),
}

/// The text that introduces the message of each error kind.
pub open spec fn error_prefix(e: ChromaClientError) -> Seq<char> {
    match e {
        ChromaClientError::UrlParseError(_) => "Unable to parse URL: "@,
        ChromaClientError::RequestError(_) => "Unable to send request: "@,
        ChromaClientError::ResponseError(_) => "Unable to parse response: "@,
        ChromaClientError::ResponseParseError(_) => "Unable to parse into json response: "@,
        ChromaClientError::ResponseStatusError(_) => "Respond with a bad status: "@,
        ChromaClientError::PreflightError(_) => "Preflight request failed, status: "@,
        ChromaClientError::Unsupported(_) => "Operation not supported: "@,
    }
}

/// The detail that an error carries.
pub open spec fn error_detail(e: ChromaClientError) -> Seq<char> {
    match e {
        ChromaClientError::UrlParseError(m) => m@,
        ChromaClientError::RequestError(m) => m@,
        ChromaClientError::ResponseError(m) => m@,
        ChromaClientError::ResponseParseError(m) => m@,
        ChromaClientError::ResponseStatusError(m) => m@,
        ChromaClientError::PreflightError(m) => m@,
        ChromaClientError::Unsupported(m) => m@,
    }
}

impl ChromaClientError {
    /// A human-readable description: the kind's introduction followed by the
    /// detail.
    pub fn message(&self) -> (r: String)
        ensures
            r@ == error_prefix(*self) + error_detail(*self),
    {
        let (prefix, detail) = match self {
            ChromaClientError::UrlParseError(m) => ("Unable to parse URL: ", m),
            ChromaClientError::RequestError(m) => ("Unable to send request: ", m),
            ChromaClientError::ResponseError(m) => ("Unable to parse response: ", m),
            ChromaClientError::ResponseParseError(m) => ("Unable to parse into json response: ", m),
            ChromaClientError::ResponseStatusError(m) => ("Respond with a bad status: ", m),
            ChromaClientError::PreflightError(m) => ("Preflight request failed, status: ", m),
            ChromaClientError::Unsupported(m) => ("Operation not supported: ", m),
        };
        let mut s = String::from_str(prefix);
        s.append(detail.as_str());
        s
    }
}

} // verus!
