//! The errors of the core, by kind.

use vstd::prelude::*;
use vstd::string::*;

verus! {

/// An error of the core. Each variant is a kind and carries the message.
#[derive(Debug)]
pub enum Error {
    /// TCP or handshake failure.
    Connection(String),
    /// A credential was refused, the agent was unreachable or the kind of
    /// secret cannot be used.
    Authentication(String),
    /// A channel operation failed.
    Session(String),
    /// The repository failed.
    Database(String),
    /// Encryption or decryption failed.
    Secret(String),
    /// A file transfer failed.
    Transfer(String),
    /// A cluster operation failed.
    Kubernetes(String),
    /// The environment is not usable.
    Config(String),
    /// An input or output operation failed.
    Io(String),
    /// A stored record cannot be read.
    Serialization(String),
    /// Anything else.
    Other(String),
}

/// The kind of an error.
#[derive(Debug, Clone, Copy, PartialEq, Eq, Structural)]
pub enum ErrorKind {
    Connection,
    Authentication,
    Session,
    Database,
    Secret,
    Transfer,
    Kubernetes,
    Config,
    Io,
    Serialization,
    Other,
}

/// The mathematical value of an `Error`: its kind and its message.
pub struct ErrorView {
    pub kind: ErrorKind,
    pub detail: Seq<char>,
}

impl View for Error {
    type V = ErrorView;

    open spec fn view(&self) -> ErrorView {
        ErrorView { kind: self.kind(), detail: self.detail() }
    }
}

impl Error {
    /// The kind of the error.
    pub open spec fn kind(self) -> ErrorKind {
        match self {
            Error::Connection(_) => ErrorKind::Connection,
            Error::Authentication(_) => ErrorKind::Authentication,
            Error::Session(_) => ErrorKind::Session,
            Error::Database(_) => ErrorKind::Database,
            Error::Secret(_) => ErrorKind::Secret,
            Error::Transfer(_) => ErrorKind::Transfer,
            Error::Kubernetes(_) => ErrorKind::Kubernetes,
            Error::Config(_) => ErrorKind::Config,
            Error::Io(_) => ErrorKind::Io,
            Error::Serialization(_) => ErrorKind::Serialization,
            Error::Other(_) => ErrorKind::Other,
        }
    }

    /// The message that the error carries.
    pub open spec fn detail(self) -> Seq<char> {
        match self {
            Error::Connection(m) => m@,
            Error::Authentication(m) => m@,
            Error::Session(m) => m@,
            Error::Database(m) => m@,
            Error::Secret(m) => m@,
            Error::Transfer(m) => m@,
            Error::Kubernetes(m) => m@,
            Error::Config(m) => m@,
            Error::Io(m) => m@,
            Error::Serialization(m) => m@,
            Error::Other(m) => m@,
        }
    }

    /// What stands before the message when the error is shown.
    pub open spec fn prefix(self) -> Seq<char> {
        match self {
            Error::Connection(_) => "Connection error: "@,
            Error::Authentication(_) => "Authentication failed: "@,
            Error::Session(_) => "Session error: "@,
            Error::Database(_) => "Database error: "@,
            Error::Secret(_) => "Secret error: "@,
            Error::Transfer(_) => "Transfer error: "@,
            Error::Kubernetes(_) => "Kubernetes error: "@,
            Error::Config(_) => "Configuration error: "@,
            Error::Io(_) => "IO error: "@,
            Error::Serialization(_) => "Serialization error: "@,
            Error::Other(_) => ""@,
        }
    }

    /// The text shown for the error: the kind's prefix, then the message.
    pub open spec fn text(self) -> Seq<char> {
        self.prefix() + self.detail()
    }

    /// The text shown for the error.
    pub fn to_string(&self) -> (r: String)
        ensures
            r@ == self.text(),
    {
        let (prefix, detail) = match self {
            Error::Connection(m) => ("Connection error: ", m),
            Error::Authentication(m) => ("Authentication failed: ", m),
            Error::Session(m) => ("Session error: ", m),
            Error::Database(m) => ("Database error: ", m),
            Error::Secret(m) => ("Secret error: ", m),
            Error::Transfer(m) => ("Transfer error: ", m),
            Error::Kubernetes(m) => ("Kubernetes error: ", m),
            Error::Config(m) => ("Configuration error: ", m),
            Error::Io(m) => ("IO error: ", m),
            Error::Serialization(m) => ("Serialization error: ", m),
            Error::Other(m) => ("", m),
        };
        let mut r = prefix.to_owned();
        r.append(detail.as_str());
        r
    }
}

} // verus!
