//! Failures of the channel multiplexer that carries every remote channel.

use vstd::prelude::*;
use crate::text::{concat, decimal, push_decimal};

verus! {

/// Sending over a multiplexed channel failed.
#[derive(Clone, Copy, Debug, PartialEq, Eq, Structural)]
pub enum SendError {
    /// The multiplexer terminated.
    ChMux,
    /// The remote endpoint closed its receiver.
    Closed {
        /// Whether the remote endpoint still processes what was already sent.
        gracefully: bool,
    },
}

impl SendError {
    /// Whether the remote receiver explicitly closed the channel.
    pub open spec fn spec_is_closed(self) -> bool {
        self == (SendError::Closed { gracefully: true })
    }

    /// Returns `true` if the remote receiver explicitly closed the channel.
    pub fn is_closed(&self) -> (r: bool)
        ensures
            r == self.spec_is_closed(),
    {
        matches!(self, SendError::Closed { gracefully: true })
    }

    /// Returns `true` if the channel can no longer transfer values.
    ///
    /// Nothing can be transferred once the multiplexer terminated or the
    /// receiver is gone, so this holds of every error.
    pub fn is_disconnected(&self) -> (r: bool)
        ensures
            r,
    {
        true
    }

    /// The message shown to users.
    pub open spec fn text(self) -> Seq<char> {
        match self {
            SendError::ChMux => "multiplexer terminated"@,
            SendError::Closed { gracefully: true } =>
                "remote endpoint closed channel but still processes sent messages"@,
            SendError::Closed { gracefully: false } => "remote endpoint closed channel"@,
        }
    }

    /// Returns the message shown to users.
    pub fn message(&self) -> (r: String)
        ensures
            r@ == self.text(),
    {
        String::from_str(
            match self {
                SendError::ChMux => "multiplexer terminated",
                SendError::Closed { gracefully: true } =>
                    "remote endpoint closed channel but still processes sent messages",
                SendError::Closed { gracefully: false } => "remote endpoint closed channel",
            },
        )
    }
}

/// Receiving over a multiplexed channel failed.
#[derive(Clone, Copy, Debug, PartialEq, Eq, Structural)]
pub enum RecvError {
    /// The multiplexer terminated.
    ChMux,
    /// The remote endpoint rejected the port that was opened ahead of its acceptance.
    Rejected {
        /// Whether the remote endpoint had no port left.
        no_ports: bool,
    },
    /// A message exceeds the maximum data size.
    ExceedsMaxDataSize(usize),
    /// A message holds more ports than allowed.
    ExceedsMaxPortCount(usize),
}

impl RecvError {
    /// Whether the connection was rejected or failed.
    pub open spec fn spec_is_disconnected(self) -> bool {
        self is ChMux || self is Rejected
    }

    /// Returns whether the connection was rejected or failed.
    pub fn is_disconnected(&self) -> (r: bool)
        ensures
            r == self.spec_is_disconnected(),
    {
        matches!(self, RecvError::ChMux | RecvError::Rejected { .. })
    }

    /// Returns whether no further receive operation can succeed.
    pub fn is_final(&self) -> (r: bool)
        ensures
            r == self.spec_is_disconnected(),
    {
        self.is_disconnected()
    }

    /// The message shown to users.
    pub open spec fn text(self) -> Seq<char> {
        match self {
            RecvError::ChMux => "multiplexer terminated"@,
            RecvError::Rejected { no_ports: true } => "all remote ports are in use"@,
            RecvError::Rejected { no_ports: false } => "connection has been rejected"@,
            RecvError::ExceedsMaxDataSize(max) =>
                "data exceeds maximum allowed size of "@ + decimal(max as nat) + " bytes"@,
            RecvError::ExceedsMaxPortCount(max) =>
                "port message exceeds maximum allowed port count of "@ + decimal(max as nat),
        }
    }

    /// Returns the message shown to users.
    pub fn message(&self) -> (r: String)
        ensures
            r@ == self.text(),
    {
        match self {
            RecvError::ChMux => String::from_str("multiplexer terminated"),
            RecvError::Rejected { no_ports: true } => String::from_str("all remote ports are in use"),
            RecvError::Rejected { no_ports: false } => String::from_str(
                "connection has been rejected",
            ),
            RecvError::ExceedsMaxDataSize(max) => {
                let mut out = String::from_str("data exceeds maximum allowed size of ");
                push_decimal(&mut out, *max as u64);
                out.append(" bytes");
                out
            },
            RecvError::ExceedsMaxPortCount(max) => {
                let mut out = String::from_str(
                    "port message exceeds maximum allowed port count of ",
                );
                push_decimal(&mut out, *max as u64);
                out
            },
        }
    }
}

/// Receiving a chunk of a streamed message failed.
#[derive(Clone, Copy, Debug, PartialEq, Eq, Structural)]
pub enum RecvChunkError {
    /// The remote endpoint cancelled the transmission of the message.
    Cancelled,
    /// The multiplexer terminated.
    ChMux,
}

/// Opening a port to the remote endpoint failed.
#[derive(Clone, Copy, Debug, PartialEq, Eq, Structural)]
pub enum ConnectError {
    /// All local ports are in use.
    LocalPortsExhausted,
    /// All remote ports are in use.
    RemotePortsExhausted,
    /// Too many connection requests are pending.
    TooManyPendingConnectionRequests,
    /// The remote endpoint rejected the connection.
    Rejected,
    /// The multiplexer terminated.
    ChMux,
}

impl ConnectError {
    /// The message shown to users.
    pub open spec fn text(self) -> Seq<char> {
        match self {
            ConnectError::LocalPortsExhausted => "all local ports are in use"@,
            ConnectError::RemotePortsExhausted => "all remote ports are in use"@,
            ConnectError::TooManyPendingConnectionRequests =>
                "too many connection requests are pending"@,
            ConnectError::Rejected => "connection has been rejected"@,
            ConnectError::ChMux => "multiplexer error"@,
        }
    }

    /// Returns the message shown to users.
    pub fn message(&self) -> (r: String)
        ensures
            r@ == self.text(),
    {
        String::from_str(
            match self {
                ConnectError::LocalPortsExhausted => "all local ports are in use",
                ConnectError::RemotePortsExhausted => "all remote ports are in use",
                ConnectError::TooManyPendingConnectionRequests =>
                    "too many connection requests are pending",
                ConnectError::Rejected => "connection has been rejected",
                ConnectError::ChMux => "multiplexer error",
            },
        )
    }
}

/// Accepting a port of the remote endpoint failed.
#[derive(Clone, Copy, Debug, PartialEq, Eq, Structural)]
pub enum ListenerError {
    /// All local ports are in use.
    LocalPortsExhausted,
    /// The multiplexer terminated.
    MultiplexerError,
}

impl ListenerError {
    /// The message shown to users.
    pub open spec fn text(self) -> Seq<char> {
        match self {
            ListenerError::LocalPortsExhausted => "all local ports are in use"@,
            ListenerError::MultiplexerError => "multiplexer error"@,
        }
    }

    /// Returns the message shown to users.
    pub fn message(&self) -> (r: String)
        ensures
            r@ == self.text(),
    {
        String::from_str(
            match self {
                ListenerError::LocalPortsExhausted => "all local ports are in use",
                ListenerError::MultiplexerError => "multiplexer error",
            },
        )
    }
}

/// A channel was closed by its receiver only where the receiver still processes what was sent,
/// and no failure to send leaves the channel usable.
pub proof fn law_class_of_multiplexer_failure(
    sent: SendError,
    received: RecvError,
    closed: bool,
    gone: bool,
    disconnected: bool,
    last: bool,
)
    requires
        call_ensures(SendError::is_closed, (&sent,), closed),
        call_ensures(SendError::is_disconnected, (&sent,), gone),
        call_ensures(RecvError::is_disconnected, (&received,), disconnected),
        call_ensures(RecvError::is_final, (&received,), last),
    ensures
        closed <==> (sent matches SendError::Closed { gracefully } && gracefully),
        gone,
        disconnected == last,
        received is ChMux || received is Rejected ==> disconnected,
        received is ExceedsMaxDataSize || received is ExceedsMaxPortCount ==> !disconnected,
{
}

} // verus!
