//! Failures of the HTTP transport.
use vstd::prelude::*;

verus! {

/// A failure of the HTTP transport; payloads are the rendered causes.
#[derive(Debug)]
pub enum TransportError {
    Serialization(String),
    InvalidMethod,
    InvalidStatusCode(String),
    RequestFailed(String),
    NetworkError(String),
    InvalidResponse(String),
    Timeout,
    Other(String),
}

/// The text each transport failure renders as.
pub open spec fn transport_error_text(e: TransportError) -> Seq<char> {
    match e {
        TransportError::Serialization(m) => "Serialization error: "@ + m@,
        TransportError::InvalidMethod => "Invalid HTTP method"@,
        TransportError::InvalidStatusCode(m) => "Invalid status code: "@ + m@,
        TransportError::RequestFailed(m) => "Request failed: "@ + m@,
        TransportError::NetworkError(m) => "Network error: "@ + m@,
        TransportError::InvalidResponse(m) => "Invalid response: "@ + m@,
        TransportError::Timeout => "Timeout error"@,
        TransportError::Other(m) => "Other error: "@ + m@,
    }
}

fn prefixed(prefix: &str, m: &String) -> (s: String)
    ensures
        s@ == prefix@ + m@,
{
    let mut s = String::from_str(prefix);
    s.append(m.as_str());
    s
}

impl TransportError {
    /// The rendered failure.
    pub fn to_string(&self) -> (s: String)
        ensures
            s@ == transport_error_text(*self),
    {
        match self {
            TransportError::Serialization(m) => prefixed("Serialization error: ", m),
            TransportError::InvalidMethod => String::from_str("Invalid HTTP method"),
            TransportError::InvalidStatusCode(m) => prefixed("Invalid status code: ", m),
            TransportError::RequestFailed(m) => prefixed("Request failed: ", m),
            TransportError::NetworkError(m) => prefixed("Network error: ", m),
            TransportError::InvalidResponse(m) => prefixed("Invalid response: ", m),
            TransportError::Timeout => String::from_str("Timeout error"),
            TransportError::Other(m) => prefixed("Other error: ", m),
        }
    }
}

/// What kind of failure an HTTP client reported: a timeout, a failed connection, a
/// request that could not be built or sent, or something else.
#[derive(Debug, Clone, Copy, PartialEq, Eq, Structural)]
pub enum ClientErrorKind {
    Timeout,
    Connect,
    Request,
    Other,
}

/// The transport failure a client failure of this kind and rendering stands for.
pub open spec fn client_failure(kind: ClientErrorKind, rendered: Seq<char>) -> TransportErrorView {
    match kind {
        ClientErrorKind::Timeout => TransportErrorView::Timeout,
        ClientErrorKind::Connect => TransportErrorView::NetworkError("Connection failed: "@ + rendered),
        ClientErrorKind::Request => TransportErrorView::RequestFailed("Request error: "@ + rendered),
        ClientErrorKind::Other => TransportErrorView::Other(rendered),
    }
}

/// A transport failure as plain values.
pub enum TransportErrorView {
    Serialization(Seq<char>),
    InvalidMethod,
    InvalidStatusCode(Seq<char>),
    RequestFailed(Seq<char>),
    NetworkError(Seq<char>),
    InvalidResponse(Seq<char>),
    Timeout,
    Other(Seq<char>),
}

impl View for TransportError {
    type V = TransportErrorView;

    open spec fn view(&self) -> TransportErrorView {
        match self {
            TransportError::Serialization(m) => TransportErrorView::Serialization(m@),
            TransportError::InvalidMethod => TransportErrorView::InvalidMethod,
            TransportError::InvalidStatusCode(m) => TransportErrorView::InvalidStatusCode(m@),
            TransportError::RequestFailed(m) => TransportErrorView::RequestFailed(m@),
            TransportError::NetworkError(m) => TransportErrorView::NetworkError(m@),
            TransportError::InvalidResponse(m) => TransportErrorView::InvalidResponse(m@),
            TransportError::Timeout => TransportErrorView::Timeout,
            TransportError::Other(m) => TransportErrorView::Other(m@),
        }
    }
}

impl TransportError {
    /// The transport failure for a failure the HTTP client reported, `rendered` being
    /// its text.
    pub fn from_client_error(kind: ClientErrorKind, rendered: &str) -> (e: Self)
        ensures
            e@ == client_failure(kind, rendered@),
    {
        match kind {
            ClientErrorKind::Timeout => TransportError::Timeout,
            ClientErrorKind::Connect => {
                let mut m = String::from_str("Connection failed: ");
                m.append(rendered);
                TransportError::NetworkError(m)
            },
            ClientErrorKind::Request => {
                let mut m = String::from_str("Request error: ");
                m.append(rendered);
                TransportError::RequestFailed(m)
            },
            ClientErrorKind::Other => TransportError::Other(String::from_str(rendered)),
        }
    }
}

} // verus!
