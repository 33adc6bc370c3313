//! Errors of the output commands, and the detail a connection keeps of its last failure.

use vstd::prelude::*;

verus! {

/// What a connection has recorded about its last failure: a code that names the kind of the
/// failure, and a message for people.
#[derive(Debug, PartialEq, Eq)]
pub struct ErrorDetail {
    pub code: u32,
    pub message: String,
}

/// The mathematical value of an [`ErrorDetail`].
pub struct DetailView {
    pub code: u32,
    pub message: Seq<char>,
}

impl View for ErrorDetail {
    type V = DetailView;

    open spec fn view(&self) -> DetailView {
        DetailView { code: self.code, message: self.message@ }
    }
}

impl Clone for ErrorDetail {
    fn clone(&self) -> (copy: Self)
        ensures
            copy@ == self@,
    {
        ErrorDetail { code: self.code, message: self.message.clone() }
    }
}

/// Why an operation on the outputs did not succeed.
#[derive(Debug, PartialEq, Eq)]
pub enum MpdError {
    /// A command did not run; the detail is the connection's last error.
    RequestFailed(ErrorDetail),
    /// The list of outputs broke off before its end; the detail is the connection's last error.
    StreamError(ErrorDetail),
    /// A command was refused, and never put to the daemon, because the connection is still
    /// delivering the response to an earlier one.
    ResponseInFlight,
    /// The connection's answers do not fit the questions that were put to it.
    UnexpectedReply,
}

/// The mathematical value of an [`MpdError`].
pub enum ErrorView {
    RequestFailed(DetailView),
    StreamError(DetailView),
    ResponseInFlight,
    UnexpectedReply,
}

impl View for MpdError {
    type V = ErrorView;

    open spec fn view(&self) -> ErrorView {
        match self {
            MpdError::RequestFailed(detail) => ErrorView::RequestFailed(detail@),
            MpdError::StreamError(detail) => ErrorView::StreamError(detail@),
            MpdError::ResponseInFlight => ErrorView::ResponseInFlight,
            MpdError::UnexpectedReply => ErrorView::UnexpectedReply,
        }
    }
}

/// The result of an operation that may fail with an [`MpdError`].
pub type MpdResult<T> = Result<T, MpdError>;

} // verus!
