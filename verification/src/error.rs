//! Failures of a connection, which of them mean that the connection is gone,
//! and the shape in which the host sees them.

use vstd::prelude::*;
use vstd::string::*;
use crate::text::{str_contains, text_contains};

verus! {

/// The kind of a transport failure.
#[derive(Clone, Copy, Debug, PartialEq, Eq, Structural)]
pub enum IoKind {
    ConnectionRefused,
    ConnectionReset,
    ConnectionAborted,
    NotConnected,
    TimedOut,
    BrokenPipe,
    UnexpectedEof,
    /// Any other kind of transport failure.
    Other,
}

/// A failure of an operation on a connection.
#[derive(Clone, Debug, PartialEq, Eq)]
pub enum Failure {
    /// No connection is open. Raised before anything is sent.
    NotConnected,
    /// A transaction was to begin and no connection was there. Raised
    /// before anything is sent.
    Closed,
    /// The transport failed.
    Io { kind: IoKind, message: String },
    /// The secure transport failed; `detail` is what the transport itself said.
    Tls { detail: String, message: String },
    /// The database server reported an error.
    Database { number: u16, sqlstate: Option<String>, message: String },
    /// Any other failure.
    Other { message: String },
}

/// What the host is told of a failure.
#[derive(Clone, Debug, PartialEq, Eq)]
pub struct ErrorInfo {
    pub message: String,
    pub code: Option<u16>,
    pub sqlstate: Option<String>,
}

/// Whether a server's error number says that the connection is gone: the
/// server cannot be reached, has gone away, or the connection was lost.
pub open spec fn is_lost_connection_code(number: u16) -> bool {
    number == 2002 || number == 2003 || number == 2006 || number == 2013 || number == 2055
}

/// Whether a secure transport's message says that the connection is gone.
pub open spec fn is_lost_connection_message(detail: Seq<char>) -> bool {
    text_contains(detail, "handshake failed"@) || text_contains(detail, "connection closed"@)
        || text_contains(detail, "unexpected EOF"@)
}

impl IoKind {
    /// Whether a transport failure of this kind means that the connection
    /// is gone: it was refused, reset or aborted, it is not connected, it
    /// timed out, the pipe broke, or the stream ended early.
    pub open spec fn is_lost_connection(self) -> bool {
        match self {
            IoKind::ConnectionRefused
            | IoKind::ConnectionReset
            | IoKind::ConnectionAborted
            | IoKind::NotConnected
            | IoKind::TimedOut
            | IoKind::BrokenPipe
            | IoKind::UnexpectedEof => true,
            IoKind::Other => false,
        }
    }
}

impl Failure {
    /// Whether the failure is transient: the connection is gone and
    /// connecting anew may help.
    pub open spec fn is_transient(self) -> bool {
        match self {
            Failure::Io { kind, .. } => kind.is_lost_connection(),
            Failure::Tls { detail, .. } => is_lost_connection_message(detail@),
            Failure::Database { number, .. } => is_lost_connection_code(number),
            _ => false,
        }
    }

    /// The text that describes the failure.
    pub open spec fn message_text(self) -> Seq<char> {
        match self {
            Failure::NotConnected => "connection is not open"@,
            Failure::Closed => "connection is closed"@,
            Failure::Io { message, .. } => message@,
            Failure::Tls { message, .. } => message@,
            Failure::Database { message, .. } => message@,
            Failure::Other { message } => message@,
        }
    }

    /// The server's error number, where the server reported the failure.
    pub open spec fn code(self) -> Option<u16> {
        match self {
            Failure::Database { number, .. } => Some(number),
            _ => None,
        }
    }

    /// The server's SQLSTATE, where the server reported the failure and gave one.
    pub open spec fn sqlstate(self) -> Option<String> {
        match self {
            Failure::Database { sqlstate, .. } => sqlstate,
            _ => None,
        }
    }

    /// The text that describes the failure.
    pub fn message(&self) -> (text: String)
        ensures
            text@ == self.message_text(),
    {
        match self {
            Failure::NotConnected => String::from_str("connection is not open"),
            Failure::Closed => String::from_str("connection is closed"),
            Failure::Io { message, .. } => message.clone(),
            Failure::Tls { message, .. } => message.clone(),
            Failure::Database { message, .. } => message.clone(),
            Failure::Other { message } => message.clone(),
        }
    }
}

/// Whether a failure of a query is transient, so that the connection has to be
/// checked and, if it is gone, opened anew.
pub fn should_reconnect(e: &Failure) -> (transient: bool)
    ensures
        transient == e.is_transient(),
{
    match e {
        Failure::Io { kind, .. } => match kind {
            IoKind::ConnectionRefused => true,
            IoKind::ConnectionReset => true,
            IoKind::ConnectionAborted => true,
            IoKind::NotConnected => true,
            IoKind::TimedOut => true,
            IoKind::BrokenPipe => true,
            IoKind::UnexpectedEof => true,
            IoKind::Other => false,
        },
        Failure::Tls { detail, .. } => {
            let text = detail.as_str();
            str_contains(text, "handshake failed") || str_contains(text, "connection closed")
                || str_contains(text, "unexpected EOF")
        },
        Failure::Database { number, .. } => {
            *number == 2002 || *number == 2003 || *number == 2006 || *number == 2013 || *number
                == 2055
        },
        _ => false,
    }
}

/// What the host is told of a failure: its message and, where the server
/// reported it, the server's error number and SQLSTATE.
pub fn handle_error(e: &Failure) -> (info: ErrorInfo)
    ensures
        info.message@ == e.message_text(),
        info.code == e.code(),
        info.sqlstate == e.sqlstate(),
{
    match e {
        Failure::Database { number, sqlstate, message } => {
            let state = match sqlstate {
                Some(s) => Some(s.clone()),
                None => None,
            };
            ErrorInfo { message: message.clone(), code: Some(*number), sqlstate: state }
        },
        _ => ErrorInfo { message: e.message(), code: None, sqlstate: None },
    }
}

} // verus!
