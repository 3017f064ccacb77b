//! Why a setup ends without a server.

use vstd::prelude::*;
use vstd::string::StringExecFns;

verus! {

/// What ends a setup. Each of them is final: nothing is tried again.
#[derive(Clone, Copy, Debug, PartialEq, Eq, Structural)]
pub enum SetupError {
    /// A line of the configuration file gives a numeric key something
    /// else than a number of its range.
    MalformedConfiguration,
    /// The server specifier does not have three parts, or one of them is
    /// empty.
    MalformedSpecifier,
    /// The vendor of the server specifier is not supported.
    UnsupportedVendor,
    /// A request to the remote service did not come through.
    TransportFailure,
    /// The remote service answered something else than expected.
    ResponseShapeMismatch,
    /// A file or a directory could not be read, written or created.
    FilesystemFailure,
    /// The user has no home directory that could be found.
    HomeDirectoryUnresolvable,
    /// The driver answered what it was not asked.
    UnexpectedReply,
}

/// What a driver can fail at.
#[derive(Clone, Copy, Debug, PartialEq, Eq, Structural)]
pub enum Fault {
    /// The network: connection, name resolution, encryption.
    Transport,
    /// The answer of the service is not of the expected shape.
    ResponseShape,
    /// The file system: creating, reading, writing, permissions.
    Filesystem,
}

/// The error that a fault of the driver ends the setup with.
pub open spec fn error_of(fault: Fault) -> SetupError {
    match fault {
        Fault::Transport => SetupError::TransportFailure,
        Fault::ResponseShape => SetupError::ResponseShapeMismatch,
        Fault::Filesystem => SetupError::FilesystemFailure,
    }
}

/// The message that stands for an error.
pub open spec fn message_of(error: SetupError) -> Seq<char> {
    match error {
        SetupError::MalformedConfiguration => "An error has occurred while parsing a configuration value."@,
        SetupError::MalformedSpecifier => "Incorrect server format! Exiting server setup..."@,
        SetupError::UnsupportedVendor => "Unknown server type! Exiting server setup..."@,
        SetupError::TransportFailure => "Couldn't get the response of the GET request! Exiting server setup..."@,
        SetupError::ResponseShapeMismatch => "Failed to parse the string to json! Exiting server setup..."@,
        SetupError::FilesystemFailure => "Couldn't write to the file system! Exiting server setup..."@,
        SetupError::HomeDirectoryUnresolvable => "Couldn't find the home directory! Exiting server setup..."@,
        SetupError::UnexpectedReply => "Got an answer to a request that was not made! Exiting server setup..."@,
    }
}

impl Fault {
    /// The error that this fault ends the setup with.
    pub fn into_error(self) -> (r: SetupError)
        ensures
            r == error_of(self),
    {
        match self {
            Fault::Transport => SetupError::TransportFailure,
            Fault::ResponseShape => SetupError::ResponseShapeMismatch,
            Fault::Filesystem => SetupError::FilesystemFailure,
        }
    }
}

impl SetupError {
    /// One line for the user that says what went wrong.
    pub fn message(&self) -> (r: String)
        ensures
            r@ == message_of(*self),
    {
        match self {
            SetupError::MalformedConfiguration => String::from_str(
                "An error has occurred while parsing a configuration value.",
            ),
            SetupError::MalformedSpecifier => String::from_str(
                "Incorrect server format! Exiting server setup...",
            ),
            SetupError::UnsupportedVendor => String::from_str(
                "Unknown server type! Exiting server setup...",
            ),
            SetupError::TransportFailure => String::from_str(
                "Couldn't get the response of the GET request! Exiting server setup...",
            ),
            SetupError::ResponseShapeMismatch => String::from_str(
                "Failed to parse the string to json! Exiting server setup...",
            ),
            SetupError::FilesystemFailure => String::from_str(
                "Couldn't write to the file system! Exiting server setup...",
            ),
            SetupError::HomeDirectoryUnresolvable => String::from_str(
                "Couldn't find the home directory! Exiting server setup...",
            ),
            SetupError::UnexpectedReply => String::from_str(
                "Got an answer to a request that was not made! Exiting server setup...",
            ),
        }
    }
}

} // verus!
