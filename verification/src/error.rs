//! The ways in which a launch or an entrypoint run can fail.

use crate::text::{decimal, push_decimal};
use vstd::prelude::*;
use vstd::string::*;

verus! {

/// A fatal failure of the launcher or of the entrypoint. None is retried.
#[derive(Debug, Clone, PartialEq, Eq)]
pub enum ToolboxError {
    /// Pulling the container image did not succeed.
    ImagePullError,
    /// A required environment variable (named here) is not set.
    MissingEnvVar(String),
    /// An environment variable (named here) holds a value that is not text.
    InvalidEncoding(String),
    /// The handshake file could not be read.
    HandshakeReadError,
    /// The handshake file does not hold a handshake record.
    HandshakeParseError,
    /// The handshake file could not be written.
    HandshakeWriteError,
    /// Creating the user account inside the container did not succeed.
    UserCreationError,
    /// The container runtime could not be started.
    LaunchFailed,
    /// Neither the chosen shell nor the basic shell could be started.
    ShellExecFailed,
    /// The real UID (given here) has no place in the UID mapping.
    UidOutOfRange(u32),
}

/// Mathematical value of a [`ToolboxError`].
pub enum ErrorModel {
    ImagePullError,
    MissingEnvVar(Seq<char>),
    InvalidEncoding(Seq<char>),
    HandshakeReadError,
    HandshakeParseError,
    HandshakeWriteError,
    UserCreationError,
    LaunchFailed,
    ShellExecFailed,
    UidOutOfRange(u32),
}

impl View for ToolboxError {
    type V = ErrorModel;

    open spec fn view(&self) -> ErrorModel {
        match self {
            ToolboxError::ImagePullError => ErrorModel::ImagePullError,
            ToolboxError::MissingEnvVar(n) => ErrorModel::MissingEnvVar(n@),
            ToolboxError::InvalidEncoding(n) => ErrorModel::InvalidEncoding(n@),
            ToolboxError::HandshakeReadError => ErrorModel::HandshakeReadError,
            ToolboxError::HandshakeParseError => ErrorModel::HandshakeParseError,
            ToolboxError::HandshakeWriteError => ErrorModel::HandshakeWriteError,
            ToolboxError::UserCreationError => ErrorModel::UserCreationError,
            ToolboxError::LaunchFailed => ErrorModel::LaunchFailed,
            ToolboxError::ShellExecFailed => ErrorModel::ShellExecFailed,
            ToolboxError::UidOutOfRange(u) => ErrorModel::UidOutOfRange(*u),
        }
    }
}

/// The one-line diagnostic of an error.
pub open spec fn diagnostic(e: ErrorModel) -> Seq<char> {
    match e {
        ErrorModel::ImagePullError => "Failed to pull image"@,
        ErrorModel::MissingEnvVar(n) => n + " is unset"@,
        ErrorModel::InvalidEncoding(n) => n + " is invalid UTF-8"@,
        ErrorModel::HandshakeReadError => "Failed to read handshake file"@,
        ErrorModel::HandshakeParseError => "Failed to parse handshake file"@,
        ErrorModel::HandshakeWriteError => "Failed to write handshake file"@,
        ErrorModel::UserCreationError => "Failed to useradd"@,
        ErrorModel::LaunchFailed => "Failed to start container runtime"@,
        ErrorModel::ShellExecFailed => "Failed to exec shell"@,
        ErrorModel::UidOutOfRange(u) => "UID "@ + decimal(u as nat) + " is out of range"@,
    }
}

impl ToolboxError {
    /// The one-line diagnostic shown to the user.
    pub fn message(&self) -> (m: String)
        ensures
            m@ == diagnostic(self@),
    {
        match self {
            ToolboxError::ImagePullError => String::from_str("Failed to pull image"),
            ToolboxError::MissingEnvVar(n) => n.clone().concat(" is unset"),
            ToolboxError::InvalidEncoding(n) => n.clone().concat(" is invalid UTF-8"),
            ToolboxError::HandshakeReadError => String::from_str("Failed to read handshake file"),
            ToolboxError::HandshakeParseError => String::from_str(
                "Failed to parse handshake file",
            ),
            ToolboxError::HandshakeWriteError => String::from_str(
                "Failed to write handshake file",
            ),
            ToolboxError::UserCreationError => String::from_str("Failed to useradd"),
            ToolboxError::LaunchFailed => String::from_str("Failed to start container runtime"),
            ToolboxError::ShellExecFailed => String::from_str("Failed to exec shell"),
            ToolboxError::UidOutOfRange(u) => {
                let mut m = String::from_str("UID ");
                push_decimal(&mut m, *u);
                m.append(" is out of range");
                m
            },
        }
    }
}

} // verus!
