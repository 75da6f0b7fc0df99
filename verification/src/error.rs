//! Errors of the library, and the status with which a request is refused.
use vstd::prelude::*;
use vstd::std_specs::convert::FromSpecImpl;

verus! {

/// gRPC's code for an operation that was aborted.
pub const ABORTED: i32 = 10;

/// gRPC's code for an operation that is not implemented.
pub const UNIMPLEMENTED: i32 = 12;

/// Why a request was refused: a gRPC status code and a message.
#[derive(Debug, PartialEq, Eq)]
pub struct Status {
    pub code: i32,
    pub message: String,
}

/// The view of a [`Status`].
pub struct StatusView {
    pub code: i32,
    pub message: Seq<char>,
}

impl View for Status {
    type V = StatusView;

    open spec fn view(&self) -> StatusView {
        StatusView { code: self.code, message: self.message@ }
    }
}

impl StatusView {
    /// The status of an operation that was aborted for the reason given.
    pub open spec fn aborted(message: Seq<char>) -> StatusView {
        StatusView { code: ABORTED, message }
    }
}

impl Status {
    /// The status of an operation that was aborted.
    pub fn aborted(message: String) -> (status: Status)
        ensures
            status@ == StatusView::aborted(message@),
    {
        Status { code: ABORTED, message }
    }

    /// The status of an operation that is not implemented.
    pub fn unimplemented(message: String) -> (status: Status)
        ensures
            status@ == (StatusView { code: UNIMPLEMENTED, message: message@ }),
    {
        Status { code: UNIMPLEMENTED, message }
    }
}

/// What can go wrong while a request is carried out.
#[derive(Debug, PartialEq, Eq)]
pub enum Error {
    /// A failure that is known by its description alone.
    Text(String),
    /// A peer could not be reached.
    TransportError(String),
    /// A peer refused the request that was sent to it.
    RpcError(Status),
    /// A text was read as an id and is none.
    UuidError(String),
}

/// The view of an [`Error`].
pub enum ErrorView {
    Text(Seq<char>),
    TransportError(Seq<char>),
    RpcError(StatusView),
    UuidError(Seq<char>),
}

impl View for Error {
    type V = ErrorView;

    open spec fn view(&self) -> ErrorView {
        match *self {
            Error::Text(text) => ErrorView::Text(text@),
            Error::TransportError(text) => ErrorView::TransportError(text@),
            Error::RpcError(status) => ErrorView::RpcError(status@),
            Error::UuidError(text) => ErrorView::UuidError(text@),
        }
    }
}

impl ErrorView {
    /// The message of an error.
    pub open spec fn message(self) -> Seq<char> {
        match self {
            ErrorView::Text(text) => text,
            ErrorView::TransportError(text) => text,
            ErrorView::RpcError(status) => status.message,
            ErrorView::UuidError(text) => text,
        }
    }

    /// The status with which a request is refused on account of an error.
    pub open spec fn status(self) -> StatusView {
        StatusView::aborted(self.message())
    }
}

impl Error {
    /// The message of the error.
    pub fn message(self) -> (text: String)
        ensures
            text@ == self@.message(),
    {
        match self {
            Error::Text(text) => text,
            Error::TransportError(text) => text,
            Error::RpcError(status) => status.message,
            Error::UuidError(text) => text,
        }
    }
}

impl From<Error> for Status {
    fn from(error: Error) -> (status: Status)
        ensures
            status@ == error@.status(),
    {
        Status::aborted(error.message())
    }
}

/// A status is fixed by the error only up to the identity of its text, so what
/// `from` gives is stated over views, in its own contract.
impl FromSpecImpl<Error> for Status {
    open spec fn obeys_from_spec() -> bool {
        false
    }

    open spec fn from_spec(error: Error) -> Status {
        arbitrary()
    }
}

} // verus!
