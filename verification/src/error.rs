use vstd::prelude::*;
use vstd::string::*;

verus! {

/// Crate error enumeration.
#[derive(Debug, PartialEq, Eq)]
pub enum Error {
    /// The key material is missing or malformed.
    InvalidKey(String),
    /// The user agent cannot be sent as a header value.
    InvalidUserAgent(String),
    /// Signing or reading the clock failed.
    Internal(String),
    /// The transport failed, possibly with an HTTP status.
    Request { err: String, status: Option<u16> },
    /// A private API was used without credentials.
    Unauthorized,
}

/// What an [`Error`] holds, as plain values.
pub enum ErrorView {
    InvalidKey(Seq<char>),
    InvalidUserAgent(Seq<char>),
    Internal(Seq<char>),
    Request { err: Seq<char>, status: Option<u16> },
    Unauthorized,
}

impl ErrorView {
    /// The message shown for this error.
    pub open spec fn text(self) -> Seq<char> {
        match self {
            ErrorView::InvalidKey(message) => "invalid key: "@ + message,
            ErrorView::InvalidUserAgent(message) => "invalid user agent: "@ + message,
            ErrorView::Internal(message) => "internal error: "@ + message,
            ErrorView::Request { err, status } => "request failed: "@ + err,
            ErrorView::Unauthorized => "not authorized"@,
        }
    }
}

impl View for Error {
    type V = ErrorView;

    open spec fn view(&self) -> ErrorView {
        match self {
            Error::InvalidKey(message) => ErrorView::InvalidKey(message@),
            Error::InvalidUserAgent(message) => ErrorView::InvalidUserAgent(message@),
            Error::Internal(message) => ErrorView::Internal(message@),
            Error::Request { err, status } => ErrorView::Request { err: err@, status: *status },
            Error::Unauthorized => ErrorView::Unauthorized,
        }
    }
}

impl Clone for Error {
    fn clone(&self) -> (copy: Self)
        ensures
            copy@ == self@,
    {
        match self {
            Error::InvalidKey(message) => Error::InvalidKey(message.clone()),
            Error::InvalidUserAgent(message) => Error::InvalidUserAgent(message.clone()),
            Error::Internal(message) => Error::Internal(message.clone()),
            Error::Request { err, status } => Error::Request { err: err.clone(), status: *status },
            Error::Unauthorized => Error::Unauthorized,
        }
    }
}

impl Error {
    /// Constructs an internal error.
    pub fn internal(message: &str) -> (error: Self)
        ensures
            error@ == ErrorView::Internal(message@),
    {
        Error::Internal(String::from_str(message))
    }

    /// Constructs an invalid key error.
    pub fn invalid_key(message: &str) -> (error: Self)
        ensures
            error@ == ErrorView::InvalidKey(message@),
    {
        Error::InvalidKey(String::from_str(message))
    }

    /// Constructs an invalid user agent error.
    pub fn invalid_agent(message: &str) -> (error: Self)
        ensures
            error@ == ErrorView::InvalidUserAgent(message@),
    {
        Error::InvalidUserAgent(String::from_str(message))
    }

    /// Constructs a request error from the transport's message and the HTTP
    /// status it carried, if any.
    pub fn request(message: &str, status: Option<u16>) -> (error: Self)
        ensures
            error@ == (ErrorView::Request { err: message@, status }),
    {
        Error::Request { err: String::from_str(message), status }
    }

    /// The message of this error.
    pub fn to_string(&self) -> (text: String)
        ensures
            text@ == self@.text(),
    {
        match self {
            Error::InvalidKey(message) => {
                let mut text = String::from_str("invalid key: ");
                text.append(message.as_str());
                text
            },
            Error::InvalidUserAgent(message) => {
                let mut text = String::from_str("invalid user agent: ");
                text.append(message.as_str());
                text
            },
            Error::Internal(message) => {
                let mut text = String::from_str("internal error: ");
                text.append(message.as_str());
                text
            },
            Error::Request { err, status: _ } => {
                let mut text = String::from_str("request failed: ");
                text.append(err.as_str());
                text
            },
            Error::Unauthorized => String::from_str("not authorized"),
        }
    }
}

} // verus!
