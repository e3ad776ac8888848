//! The lifecycle of one connection.

use vstd::prelude::*;

verus! {

/// Where a connection stands in its lifecycle.
#[derive(Clone, Copy, Debug, PartialEq, Eq, Structural)]
pub enum State {
    /// A connection is open.
    Connected,
    /// An attempt to open a connection is under way.
    Connecting,
    /// No connection is open: none was opened yet, or an attempt failed, or
    /// the connection was lost.
    NotConnected,
    /// The connection was closed on request.
    Disconnected,
    /// A failure that only a new attempt to connect can mend. The host knows
    /// this state by its number; the actor of a connection never enters it.
    Error,
}

impl State {
    /// The number under which the host knows this state.
    pub open spec fn code(self) -> nat {
        match self {
            State::Connected => 0,
            State::Connecting => 1,
            State::NotConnected => 2,
            State::Disconnected => 3,
            State::Error => 4,
        }
    }

    /// The state in words.
    pub open spec fn label(self) -> Seq<char> {
        match self {
            State::Connected => "Connected"@,
            State::Connecting => "Connecting"@,
            State::NotConnected => "Not Connected"@,
            State::Disconnected => "Disconnected"@,
            State::Error => "Error"@,
        }
    }

    /// The name under which the host finds this state's number.
    pub open spec fn key(self) -> Seq<char> {
        match self {
            State::Connected => "CONNECTED"@,
            State::Connecting => "CONNECTING"@,
            State::NotConnected => "NOT_CONNECTED"@,
            State::Disconnected => "DISCONNECTED"@,
            State::Error => "ERROR"@,
        }
    }

    /// The state in words, as it is shown to a reader.
    pub fn name(self) -> (text: &'static str)
        ensures
            text@ == self.label(),
    {
        match self {
            State::Connected => "Connected",
            State::Connecting => "Connecting",
            State::NotConnected => "Not Connected",
            State::Disconnected => "Disconnected",
            State::Error => "Error",
        }
    }

    /// The name under which the host finds this state's number.
    pub fn export_name(self) -> (text: &'static str)
        ensures
            text@ == self.key(),
    {
        match self {
            State::Connected => "CONNECTED",
            State::Connecting => "CONNECTING",
            State::NotConnected => "NOT_CONNECTED",
            State::Disconnected => "DISCONNECTED",
            State::Error => "ERROR",
        }
    }

    /// The number under which the host knows this state.
    pub fn to_usize(self) -> (n: usize)
        ensures
            n == self.code(),
    {
        match self {
            State::Connected => 0,
            State::Connecting => 1,
            State::NotConnected => 2,
            State::Disconnected => 3,
            State::Error => 4,
        }
    }
}

/// Two states have the same number only if they are the same state.
pub proof fn state_numbers_are_distinct(a: State, b: State)
    ensures
        a.code() == b.code() <==> a == b,
        a.code() <= 4,
{
}

} // verus!
