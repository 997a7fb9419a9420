//! Errors of the API clients.
use vstd::prelude::*;
use crate::api_client::transport::TransportError;
use crate::json_text::{decimal_string, decimal_text};

verus! {

/// A client was configured in a way the API does not support.
#[derive(Debug)]
pub enum ConfigurationError {
    InvalidEnvironment(String),
}

impl ConfigurationError {
    /// The rendered error.
    pub fn to_string(&self) -> (s: String)
        ensures
            s@ == match self {
                ConfigurationError::InvalidEnvironment(m) => "Invalid environment: "@ + m@,
            },
    {
        match self {
            ConfigurationError::InvalidEnvironment(m) => {
                let mut s = String::from_str("Invalid environment: ");
                s.append(m.as_str());
                s
            },
        }
    }
}

/// An error answered by the API, or met on the way to it: the HTTP status,
/// the API's raw error code and its message, where there are any.
#[derive(Debug, Clone)]
pub struct ApiClientError {
    status: u16,
    raw_code: Option<i64>,
    message: Option<String>,
}

impl View for ApiClientError {
    type V = (u16, Option<i64>, Option<Seq<char>>);

    closed spec fn view(&self) -> (u16, Option<i64>, Option<Seq<char>>) {
        (
            self.status,
            self.raw_code,
            match self.message {
                Some(m) => Some(m@),
                None => None,
            },
        )
    }
}

/// The rendered form of an API error with these parts.
pub open spec fn api_client_error_text(e: (u16, Option<i64>, Option<Seq<char>>)) -> Seq<char> {
    "APIException: HTTP Status Code "@ + decimal_text(e.0 as int) + match e.1 {
        Some(c) => ", Raw API Error: "@ + decimal_text(c as int),
        None => Seq::<char>::empty(),
    } + match e.2 {
        Some(m) => ", Error Message: "@ + m,
        None => Seq::<char>::empty(),
    }
}

/// The kinds of `http::Error` the client tells apart.
#[derive(Debug, Clone, Copy, PartialEq, Eq, Structural)]
pub enum HttpErrorKind {
    InvalidStatusCode,
    InvalidMethod,
    InvalidUri,
    InvalidHeader,
    MaxSizeReached,
    Other,
}

/// The status and message prefix each kind of `http::Error` maps to.
pub open spec fn http_error_mapping(kind: HttpErrorKind) -> (u16, Seq<char>) {
    match kind {
        HttpErrorKind::InvalidStatusCode => (500, "Invalid status code"@),
        HttpErrorKind::InvalidMethod => (400, "Invalid HTTP method"@),
        HttpErrorKind::InvalidUri => (400, "Invalid URI"@),
        HttpErrorKind::InvalidHeader => (400, "Invalid header"@),
        HttpErrorKind::MaxSizeReached => (431, "Request header fields too large"@),
        HttpErrorKind::Other => (500, "Unknown HTTP error"@),
    }
}

/// The status and message each transport failure maps to.
pub open spec fn transport_error_mapping(e: TransportError) -> (u16, Seq<char>) {
    match e {
        TransportError::Serialization(m) => (400, "Serialization error: "@ + m@),
        TransportError::InvalidMethod => (400, "Invalid HTTP method"@),
        TransportError::InvalidStatusCode(m) => (500, "Invalid status code: "@ + m@),
        TransportError::RequestFailed(m) => (500, "Request failed: "@ + m@),
        TransportError::NetworkError(m) => (503, "Network error: "@ + m@),
        TransportError::InvalidResponse(m) => (502, "Invalid response: "@ + m@),
        TransportError::Timeout => (504, "Request timeout"@),
        TransportError::Other(m) => (500, "Unexpected error: "@ + m@),
    }
}

fn prefixed(prefix: &str, m: &str) -> (s: String)
    ensures
        s@ == prefix@ + m@,
{
    let mut s = String::from_str(prefix);
    s.append(m);
    s
}

impl ApiClientError {
    pub fn status(&self) -> (s: u16)
        ensures
            s == self@.0,
    {
        self.status
    }

    pub fn raw_code(&self) -> (c: Option<i64>)
        ensures
            c == self@.1,
    {
        self.raw_code
    }

    pub fn message(&self) -> (m: Option<&str>)
        ensures
            m is Some <==> self@.2 is Some,
            m matches Some(t) ==> self@.2 == Some(t@),
    {
        match &self.message {
            Some(m) => Some(m.as_str()),
            None => None,
        }
    }

    /// The rendered error: the status, then the raw code and the message where present.
    pub fn to_string(&self) -> (s: String)
        ensures
            s@ == api_client_error_text(self@),
    {
        let mut s = String::from_str("APIException: HTTP Status Code ");
        let status = decimal_string(self.status as i64);
        s.append(status.as_str());
        let ghost head = s@;
        match self.raw_code {
            Some(c) => {
                s.append(", Raw API Error: ");
                let code = decimal_string(c);
                s.append(code.as_str());
            },
            None => {},
        }
        match &self.message {
            Some(m) => {
                s.append(", Error Message: ");
                s.append(m.as_str());
            },
            None => {},
        }
        s
    }

    pub fn new(status: u16, raw_code: Option<i64>, message: Option<String>) -> (e: Self)
        ensures
            e@ == (
                status,
                raw_code,
                match message {
                    Some(m) => Some(m@),
                    None => None,
                },
            ),
    {
        Self { status, raw_code, message }
    }

    /// The error for a response whose body reported `errorCode` and `errorMessage`:
    /// both are kept when both are present, neither otherwise.
    pub fn from_error_payload(status: u16, error_code: Option<i64>, error_message: Option<String>) -> (e: Self)
        ensures
            e@ == match (error_code, error_message) {
                (Some(c), Some(m)) => (status, Some(c), Some(m@)),
                _ => (status, None::<i64>, None::<Seq<char>>),
            },
    {
        match (error_code, error_message) {
            (Some(code), Some(message)) => Self::new(status, Some(code), Some(message)),
            _ => Self::new(status, None, None),
        }
    }

    /// The error for an `http::Error` of the given kind, `rendered` being its text.
    pub fn from_http_error(kind: HttpErrorKind, rendered: &str) -> (e: Self)
        ensures
            e@ == (
                http_error_mapping(kind).0,
                None::<i64>,
                Some(http_error_mapping(kind).1 + ": "@ + rendered@),
            ),
    {
        let (status, prefix) = match kind {
            HttpErrorKind::InvalidStatusCode => (500u16, "Invalid status code"),
            HttpErrorKind::InvalidMethod => (400u16, "Invalid HTTP method"),
            HttpErrorKind::InvalidUri => (400u16, "Invalid URI"),
            HttpErrorKind::InvalidHeader => (400u16, "Invalid header"),
            HttpErrorKind::MaxSizeReached => (431u16, "Request header fields too large"),
            HttpErrorKind::Other => (500u16, "Unknown HTTP error"),
        };
        let mut m = String::from_str(prefix);
        m.append(": ");
        m.append(rendered);
        Self::new(status, None, Some(m))
    }

    /// The error for a failure of the transport.
    pub fn from_transport_error(err: TransportError) -> (e: Self)
        ensures
            e@ == (transport_error_mapping(err).0, None::<i64>, Some(transport_error_mapping(err).1)),
    {
        match err {
            TransportError::Serialization(e) => Self::new(400, None, Some(prefixed("Serialization error: ", e.as_str()))),
            TransportError::InvalidMethod => Self::new(400, None, Some(String::from_str("Invalid HTTP method"))),
            TransportError::InvalidStatusCode(e) => Self::new(500, None, Some(prefixed("Invalid status code: ", e.as_str()))),
            TransportError::RequestFailed(msg) => Self::new(500, None, Some(prefixed("Request failed: ", msg.as_str()))),
            TransportError::NetworkError(msg) => Self::new(503, None, Some(prefixed("Network error: ", msg.as_str()))),
            TransportError::InvalidResponse(msg) => Self::new(502, None, Some(prefixed("Invalid response: ", msg.as_str()))),
            TransportError::Timeout => Self::new(504, None, Some(String::from_str("Request timeout"))),
            TransportError::Other(msg) => Self::new(500, None, Some(prefixed("Unexpected error: ", msg.as_str()))),
        }
    }
}

} // verus!
