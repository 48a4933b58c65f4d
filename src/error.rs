//! Errors reported by the client.
use vstd::prelude::*;

verus! {

/// A condition caused by the user of the client rather than by the server
#[derive(Debug, Clone, Copy, PartialEq, Eq, Structural)]
pub enum ClientError {
    /// An authkey is required, but there is none
    NotAuthenticated,
}

/// The text that describes a client error.
pub open spec fn client_error_message(e: ClientError) -> Seq<char> {
    match e {
        ClientError::NotAuthenticated => "This client is not authenticated"@,
    }
}

impl ClientError {
    /// A human-readable description of this error
    pub fn message(&self) -> (r: String)
        ensures
            r@ == client_error_message(*self),
    {
        match self {
            ClientError::NotAuthenticated => "This client is not authenticated".to_owned(),
        }
    }
}

} // verus!

verus! {

/// A Velocity API error's basic structure: all errors get transmitted in this format
#[derive(Debug)]
pub struct VelocityAPIError {
    /// The code for the error; for a rejected request this is the HTTP status
    pub code: u32,
    /// A message describing the error in a human-readable format
    pub message: String,
}

/// An enumeration of all possible errors that can result from this API
#[derive(Debug)]
pub enum VelocityError {
    /// The server rejected the request
    APIError(VelocityAPIError),
    /// The server could not be reached, or its reply could not be read
    Transport(String),
    /// An error by the client / user of this library
    Client(ClientError),
}

/// What an error says, as plain values.
pub enum ErrorView {
    Api { code: int, message: Seq<char> },
    Transport(Seq<char>),
    Client(ClientError),
}

impl View for VelocityError {
    type V = ErrorView;

    open spec fn view(&self) -> ErrorView {
        match self {
            VelocityError::APIError(e) => ErrorView::Api { code: e.code as int, message: e.message@ },
            VelocityError::Transport(m) => ErrorView::Transport(m@),
            VelocityError::Client(c) => ErrorView::Client(*c),
        }
    }
}

/// The error of an operation that needs an authkey where the client holds none.
pub open spec fn not_authenticated() -> ErrorView {
    ErrorView::Client(ClientError::NotAuthenticated)
}

impl VelocityError {
    /// The error of an operation that needs an authkey where the client holds none
    pub fn not_authenticated() -> (r: VelocityError)
        ensures
            r@ == not_authenticated(),
    {
        VelocityError::Client(ClientError::NotAuthenticated)
    }

    /// A human-readable description of this error
    pub fn describe(&self) -> (r: String)
        ensures
            self matches VelocityError::Transport(m) ==> r@ == m@,
            self matches VelocityError::Client(c) ==> r@ == client_error_message(*c),
            self matches VelocityError::APIError(e) ==> r@ == api_error_text(e.code as int, e.message@),
    {
        match self {
            VelocityError::APIError(e) => {
                let mut s = crate::text::decimal_u64(e.code as u64);
                s.append(": ");
                s.append(e.message.as_str());
                s
            },
            VelocityError::Transport(m) => m.clone(),
            VelocityError::Client(c) => c.message(),
        }
    }
}

/// How an API error reads: its code in decimal, a colon, and its message.
pub open spec fn api_error_text(code: int, message: Seq<char>) -> Seq<char> {
    crate::text::decimal(code as nat) + ": "@ + message
}

} // verus!
