//! The errors this library reports.

use vstd::prelude::*;
use vstd::string::StringExecFns;

verus! {

/// An error of the client engine.
///
/// Failures of the transport, of the file system and of the serialisers are raised
/// outside this library; they are carried here as their rendered text.
#[derive(Debug, PartialEq, Eq)]
pub enum Error {
    /// The HTTP transport failed. Never retried by this library.
    ClientError(String),
    /// A header of the client configuration was not acceptable.
    InvalidConfiguration(String),
    /// Data could not be understood.
    ParsingError(String),
    /// JSON could not be written or read.
    SerdeJsonError(String),
    /// The binary history format could not be written or read.
    PostcardError(String),
    /// Bytes received were not valid UTF-8.
    StringError(String),
    /// The service answered with an application-level failure.
    BackendError {
        /// What the service said went wrong.
        message: String,
        /// The service's class of the failure, such as `server_error`.
        error_type: String,
    },
    /// A file operation failed.
    IOError(String),
    /// An environment variable could not be read.
    VarError(String),
    /// The browser-driven login did not yield the session data.
    SimpleAuthFailed(String),
    /// The event stream broke the protocol; the stream is over.
    MalformedStream(String),
    /// A content chunk arrived for a response that was never begun.
    InvalidChunkSequence,
    /// A function of that name is already registered.
    DuplicateFunction(String),
    /// A function without a description cannot be registered.
    MissingDescription(String),
}

/// The sentence that introduces an error's detail.
pub open spec fn error_prefix(e: Error) -> Seq<char> {
    match e {
        Error::ClientError(_) => "An error occurred when processing a request: "@,
        Error::InvalidConfiguration(_) => "Invalid configuration provided: "@,
        Error::ParsingError(_) => "Parsing error has occurred: "@,
        Error::SerdeJsonError(_) => "Failed to (de)serialize data: "@,
        Error::PostcardError(_) => "Failed to (de)serialize data: "@,
        Error::StringError(_) => "Failed to parse string from UTF-8: "@,
        Error::BackendError { .. } => "An error occurred while processing request: "@,
        Error::IOError(_) => "Error happened during an IO operation: "@,
        Error::VarError(_) => "Error while trying to access an environment variable: "@,
        Error::SimpleAuthFailed(_) => "Simple authentication failed: "@,
        Error::MalformedStream(_) => "Malformed event stream: "@,
        Error::InvalidChunkSequence => "Invalid response chunk sequence!"@,
        Error::DuplicateFunction(_) => "A function with this name is already registered: "@,
        Error::MissingDescription(_) => "This function does not have description: "@,
    }
}

/// The detail that an error carries.
pub open spec fn error_detail(e: Error) -> Seq<char> {
    match e {
        Error::ClientError(s) => s@,
        Error::InvalidConfiguration(s) => s@,
        Error::ParsingError(s) => s@,
        Error::SerdeJsonError(s) => s@,
        Error::PostcardError(s) => s@,
        Error::StringError(s) => s@,
        Error::BackendError { message, .. } => message@,
        Error::IOError(s) => s@,
        Error::VarError(s) => s@,
        Error::SimpleAuthFailed(s) => s@,
        Error::MalformedStream(s) => s@,
        Error::InvalidChunkSequence => Seq::empty(),
        Error::DuplicateFunction(s) => s@,
        Error::MissingDescription(s) => s@,
    }
}

/// The text of an error: its introducing sentence followed by its detail.
pub open spec fn error_text(e: Error) -> Seq<char> {
    error_prefix(e) + error_detail(e)
}

impl Error {
    /// Renders the error for a reader.
    pub fn message(&self) -> (r: String)
        ensures
            r@ == error_text(*self),
    {
        match self {
            Error::ClientError(s) => "An error occurred when processing a request: ".to_owned().concat(
                s.as_str(),
            ),
            Error::InvalidConfiguration(s) => "Invalid configuration provided: ".to_owned().concat(
                s.as_str(),
            ),
            Error::ParsingError(s) => "Parsing error has occurred: ".to_owned().concat(s.as_str()),
            Error::SerdeJsonError(s) => "Failed to (de)serialize data: ".to_owned().concat(s.as_str()),
            Error::PostcardError(s) => "Failed to (de)serialize data: ".to_owned().concat(s.as_str()),
            Error::StringError(s) => "Failed to parse string from UTF-8: ".to_owned().concat(
                s.as_str(),
            ),
            Error::BackendError { message, .. } => "An error occurred while processing request: ".to_owned().concat(
                message.as_str(),
            ),
            Error::IOError(s) => "Error happened during an IO operation: ".to_owned().concat(
                s.as_str(),
            ),
            Error::VarError(s) => "Error while trying to access an environment variable: ".to_owned().concat(
                s.as_str(),
            ),
            Error::SimpleAuthFailed(s) => "Simple authentication failed: ".to_owned().concat(
                s.as_str(),
            ),
            Error::MalformedStream(s) => "Malformed event stream: ".to_owned().concat(s.as_str()),
            Error::InvalidChunkSequence => {
                let text = "Invalid response chunk sequence!".to_owned();
                assert(text@ + Seq::<char>::empty() =~= text@);
                text
            },
            Error::DuplicateFunction(s) => "A function with this name is already registered: ".to_owned().concat(
                s.as_str(),
            ),
            Error::MissingDescription(s) => "This function does not have description: ".to_owned().concat(
                s.as_str(),
            ),
        }
    }
}

} // verus!
