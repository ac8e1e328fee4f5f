//! Error taxonomy of the remote session store, and the classification of a
//! store response from its status code and body, as the surrounding transport
//! code applies it before deserializing a payload.

use vstd::prelude::*;

verus! {

/// An error surfaced by a remote session-store operation.
///
/// `Http` is a transport failure (the request never produced a usable
/// response); `Serde` is a response body that could not be parsed; `Client` is
/// a server-reported rejection carrying a human-readable message; `Internal`
/// is a response with an empty body, reported with its status line.
pub enum Error {
    Http(String),
    Serde(String),
    Client(String),
    Internal(String),
}

impl Error {
    /// The short human-readable rendering of this error, as a notification
    /// sink displays it.
    pub open spec fn spec_message(&self) -> Seq<char> {
        match self {
            Error::Http(_) => "failed http"@,
            Error::Serde(_) => "deserialize"@,
            Error::Client(s) => s@,
            Error::Internal(s) => s@,
        }
    }

    /// Render this error for display.
    pub fn message(&self) -> (r: String)
        ensures
            r@ == self.spec_message(),
    {
        match self {
            Error::Http(_) => "failed http".to_owned(),
            Error::Serde(_) => "deserialize".to_owned(),
            Error::Client(s) => s.clone(),
            Error::Internal(s) => s.clone(),
        }
    }
}

/// How a store response is to be handled, decided from its status code and
/// whether its body was empty.
#[derive(Clone, Copy, Debug, PartialEq, Eq, Structural)]
pub enum ResponseKind {
    /// Empty body: the request never reached a handler that produced one.
    Empty,
    /// A status in the client-error range: the body carries a server-reported
    /// rejection rather than a payload.
    Rejection,
    /// Anything else: the body is expected to hold the payload.
    Payload,
}

/// Classify a store response. A response with an empty body is broken whatever
/// its status; otherwise a status in 400..=499 marks a server-reported
/// rejection, and any other status a payload.
pub fn classify_response(status: u16, body_empty: bool) -> (r: ResponseKind)
    ensures
        body_empty ==> r == ResponseKind::Empty,
        !body_empty && 400 <= status <= 499 ==> r == ResponseKind::Rejection,
        !body_empty && !(400 <= status <= 499) ==> r == ResponseKind::Payload,
{
    if body_empty {
        ResponseKind::Empty
    } else if 400 <= status && status <= 499 {
        ResponseKind::Rejection
    } else {
        ResponseKind::Payload
    }
}

} // verus!
