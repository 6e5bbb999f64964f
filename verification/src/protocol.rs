//! Identifiers and codes of the tunnel protocol.

use vstd::prelude::*;
use vstd::string::*;

use crate::names::TunnelId;
use crate::text::{decimal, decimal_text};

verus! {

/// A process-local identifier of one Agent session. Zero is no session.
#[derive(Debug, Clone, Copy, PartialEq, Eq, PartialOrd, Ord, Hash, Structural)]
pub struct TransportSessionId {
    pub value: u64,
}

impl TransportSessionId {
    /// The identifier with that number, which may not be zero.
    pub fn new(value: u64) -> (id: Option<TransportSessionId>)
        ensures
            id == (if value == 0 { None } else { Some(TransportSessionId { value }) }),
    {
        if value == 0 {
            None
        } else {
            Some(TransportSessionId { value })
        }
    }

    /// The number that is no session.
    pub fn invalid() -> (id: TransportSessionId)
        ensures
            id.value == 0,
    {
        TransportSessionId { value: 0 }
    }

    /// Whether this is no session.
    pub fn is_invalid(self) -> (invalid: bool)
        ensures
            invalid == (self.value == 0),
    {
        self.value == 0
    }

    /// The identifier's number.
    pub fn get(self) -> (value: u64)
        ensures
            value == self.value,
    {
        self.value
    }
}

/// The identifier of one stream within a session. Zero is no stream.
#[derive(Debug, Clone, Copy, PartialEq, Eq, Structural)]
pub struct StreamId {
    pub value: u32,
}

impl StreamId {
    /// The identifier with that number, which may not be zero.
    pub fn new(value: u32) -> (id: Option<StreamId>)
        ensures
            id == (if value == 0 { None } else { Some(StreamId { value }) }),
    {
        if value == 0 {
            None
        } else {
            Some(StreamId { value })
        }
    }

    /// The identifier's number.
    pub fn get(self) -> (value: u32)
        ensures
            value == self.value,
    {
        self.value
    }
}

/// Why a stream is reset: one of the reasons that this side gives, or the code of
/// another one.
#[derive(Debug, Clone, Copy, PartialEq, Eq, Structural)]
pub enum StreamResetCode {
    FlowControlExceeded,
    UnknownStream,
    ProtocolViolation,
    OpenTimeout,
    IoFailure,
    IdleTimeout,
    Other(u16),
}

/// The kinds of frames.
#[derive(Debug, Clone, Copy, PartialEq, Eq, Structural)]
pub enum FrameType {
    Hello,
    Register,
    Registered,
    Ping,
    Pong,
    OpenStream,
    Data,
    EndStream,
    ResetStream,
    Error,
}

/// Why an ingress connection could not be routed to a stream.
#[derive(Debug, PartialEq, Eq)]
pub enum RouteError {
    RuntimeDraining,
    SessionNotFound(TransportSessionId),
    TunnelNotConnected(TunnelId),
    SessionBusy(TransportSessionId),
    SessionClosing(TransportSessionId),
    CapacityExceeded(TransportSessionId),
    StreamIdExhausted(TransportSessionId),
    StreamRejected(StreamResetCode),
    OpenTimeout(StreamId),
}

impl RouteError {
    /// The text shown to an operator, where `name` is how the session or the reset
    /// code is written.
    pub open spec fn text(self, name: Seq<char>) -> Seq<char> {
        match self {
            RouteError::RuntimeDraining => "Edge runtime is draining"@,
            RouteError::SessionNotFound(_) => "transport session "@ + name + " was not found"@,
            RouteError::TunnelNotConnected(tunnel) => "tunnel "@ + tunnel@ + " is not connected"@,
            RouteError::SessionBusy(_) => "transport session "@ + name + " command queue is full"@,
            RouteError::SessionClosing(_) => "transport session "@ + name + " is closing"@,
            RouteError::CapacityExceeded(_) => "transport session "@ + name + " reached stream capacity"@,
            RouteError::StreamIdExhausted(_) => "transport session "@ + name + " exhausted stream IDs"@,
            RouteError::StreamRejected(_) => "Agent rejected stream: "@ + name,
            RouteError::OpenTimeout(stream) => "stream "@ + decimal(stream.value as nat) + " open timed out"@,
        }
    }

    /// The text shown to an operator, where `name` is how the session or the reset
    /// code is written.
    pub fn message(&self, name: &str) -> (message: String)
        ensures
            message@ == self.text(name@),
    {
        match self {
            RouteError::RuntimeDraining => "Edge runtime is draining".to_owned(),
            RouteError::SessionNotFound(_) => "transport session ".to_owned().concat(name).concat(" was not found"),
            RouteError::TunnelNotConnected(tunnel) => "tunnel ".to_owned().concat(tunnel.as_str()).concat(" is not connected"),
            RouteError::SessionBusy(_) => "transport session ".to_owned().concat(name).concat(" command queue is full"),
            RouteError::SessionClosing(_) => "transport session ".to_owned().concat(name).concat(" is closing"),
            RouteError::CapacityExceeded(_) => "transport session ".to_owned().concat(name).concat(" reached stream capacity"),
            RouteError::StreamIdExhausted(_) => "transport session ".to_owned().concat(name).concat(" exhausted stream IDs"),
            RouteError::StreamRejected(_) => "Agent rejected stream: ".to_owned().concat(name),
            RouteError::OpenTimeout(stream) => {
                let number: String = decimal_text(stream.value as u64);
                "stream ".to_owned().concat(number.as_str()).concat(" open timed out")
            },
        }
    }
}

} // verus!
