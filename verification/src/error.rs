//! The closed set of failures the bridge itself can report.
use vstd::prelude::*;
use vstd::string::StringExecFns;

use skyway_webrtc_gateway_caller::error::Error as ParseError;

verus! {

/// A failure of the bridge, as opposed to a failure the worker reports in a
/// well-formed reply.
#[derive(Debug)]
pub enum Error {
    /// Nothing usable came back, or the request never left: the message says
    /// which.
    LocalError(String),
    /// Something came back and could not be read; the parser's own error is
    /// kept as it was.
    DecodeError(ParseError),
}

/// An [`Error`] with its text as a sequence of characters.
pub enum ErrorView {
    LocalError(Seq<char>),
    DecodeError(ParseError),
}

impl View for Error {
    type V = ErrorView;

    open spec fn view(&self) -> ErrorView {
        match self {
            Error::LocalError(message) => ErrorView::LocalError(message@),
            Error::DecodeError(error) => ErrorView::DecodeError(*error),
        }
    }
}

impl Error {
    /// A local failure with the given message.
    pub fn create_local_error(message: &str) -> (error: Error)
        ensures
            error@ == ErrorView::LocalError(message@),
    {
        Error::LocalError(String::from_str(message))
    }
}

} // verus!
