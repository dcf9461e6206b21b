//! The one failure value that every call of the library returns.

use vstd::prelude::*;

verus! {

/// Why a call failed. Nothing is retried or recovered: the first failure of
/// a call is its result.
#[derive(Clone, Debug, PartialEq, Eq)]
pub enum RequestError {
    /// The request could not be built or sent, no response was received, or
    /// no client could be made for the proxy. The text describes the cause.
    Transport(String),
    /// A response arrived whose status is outside the success range. The
    /// message embeds the status and, as far as it could be read, the body.
    Status { code: u16, message: String },
    /// The body, or an address or payload inside it, could not be decoded.
    /// The text describes the cause.
    Decode(String),
}

/// What a [`RequestError`] holds, as plain values.
pub enum RequestErrorView {
    Transport(Seq<char>),
    Status { code: u16, message: Seq<char> },
    Decode(Seq<char>),
}

impl RequestErrorView {
    /// The text of the error, whatever its kind.
    pub open spec fn message(self) -> Seq<char> {
        match self {
            RequestErrorView::Transport(cause) => cause,
            RequestErrorView::Status { message, .. } => message,
            RequestErrorView::Decode(cause) => cause,
        }
    }
}

impl View for RequestError {
    type V = RequestErrorView;

    open spec fn view(&self) -> RequestErrorView {
        match self {
            RequestError::Transport(cause) => RequestErrorView::Transport(cause@),
            RequestError::Status { code, message } => RequestErrorView::Status {
                code: *code,
                message: message@,
            },
            RequestError::Decode(cause) => RequestErrorView::Decode(cause@),
        }
    }
}

impl RequestError {
    /// The text of the error, whatever its kind.
    pub fn message(&self) -> (text: String)
        ensures
            text@ == self@.message(),
    {
        match self {
            RequestError::Transport(cause) => cause.clone(),
            RequestError::Status { message, .. } => message.clone(),
            RequestError::Decode(cause) => cause.clone(),
        }
    }

    /// The status of the response, where the error is about one.
    pub fn status_code(&self) -> (code: Option<u16>)
        ensures
            code == match self@ {
                RequestErrorView::Status { code, .. } => Some(code),
                _ => None,
            },
    {
        match self {
            RequestError::Status { code, .. } => Some(*code),
            _ => None,
        }
    }
}

} // verus!
