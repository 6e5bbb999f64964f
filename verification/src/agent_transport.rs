//! The Agent control transport: its bounds, its session identities and its
//! handshake.

use vstd::prelude::*;
use vstd::string::*;

use crate::clock::{Duration, Instant};
use crate::net::{IpAddr, SocketAddr};
use crate::protocol::{FrameType, TransportSessionId};

verus! {

pub const DEFAULT_AGENT_LISTEN_ADDR: &'static str = "127.0.0.1:7100";

pub const DEFAULT_MAX_AGENT_SESSIONS: usize = 50;

/// How long a handshake may take by default, in nanoseconds: ten seconds.
pub const DEFAULT_HANDSHAKE_TIMEOUT: u128 = 10_000_000_000;

/// The bytes of a HELLO frame's payload.
pub const HELLO_PAYLOAD_SIZE: usize = 1;

/// The configuration of the Agent listener.
#[derive(Debug, Clone, Copy, PartialEq, Eq, Structural)]
pub struct AgentListenerConfig {
    pub listen_addr: SocketAddr,
    pub max_agent_sessions: usize,
    pub handshake_timeout: Duration,
}

/// What `validate` finds wrong first.
pub open spec fn agent_listener_fault(c: AgentListenerConfig) -> Option<AgentListenerConfigError> {
    if c.max_agent_sessions == 0 {
        Some(AgentListenerConfigError::ZeroMaxSessions)
    } else if c.handshake_timeout.nanos == 0 {
        Some(AgentListenerConfigError::ZeroHandshakeTimeout)
    } else {
        None
    }
}

/// A port of the system's choice on `127.0.0.1`, with the default bounds.
pub open spec fn default_agent_listener() -> AgentListenerConfig {
    AgentListenerConfig {
        listen_addr: SocketAddr { ip: IpAddr::V4(0x7f00_0001), port: 0 },
        max_agent_sessions: DEFAULT_MAX_AGENT_SESSIONS,
        handshake_timeout: Duration { nanos: DEFAULT_HANDSHAKE_TIMEOUT },
    }
}

impl AgentListenerConfig {
    /// A port of the system's choice on `127.0.0.1`, with the default bounds.
    pub fn dev_defaults() -> (config: AgentListenerConfig)
        ensures
            config == default_agent_listener(),
            agent_listener_fault(config) is None,
    {
        AgentListenerConfig {
            listen_addr: SocketAddr::new(IpAddr::v4(127, 0, 0, 1), 0),
            max_agent_sessions: DEFAULT_MAX_AGENT_SESSIONS,
            handshake_timeout: Duration { nanos: DEFAULT_HANDSHAKE_TIMEOUT },
        }
    }

    /// Checks every bound; the first one broken is reported.
    pub fn validate(&self) -> (result: Result<(), AgentListenerConfigError>)
        ensures
            result == (match agent_listener_fault(*self) {
                Some(fault) => Err(fault),
                None => Ok(()),
            }),
    {
        if self.max_agent_sessions == 0 {
            return Err(AgentListenerConfigError::ZeroMaxSessions);
        }
        if self.handshake_timeout.is_zero() {
            return Err(AgentListenerConfigError::ZeroHandshakeTimeout);
        }
        Ok(())
    }
}

/// A bound of the listener that does not hold.
#[derive(Debug, Clone, Copy, PartialEq, Eq, Structural)]
pub enum AgentListenerConfigError {
    ZeroMaxSessions,
    ZeroHandshakeTimeout,
}

impl AgentListenerConfigError {
    /// The text shown to an operator.
    pub open spec fn text(self) -> Seq<char> {
        match self {
            AgentListenerConfigError::ZeroMaxSessions =>
                "max_agent_sessions must be greater than zero"@,
            AgentListenerConfigError::ZeroHandshakeTimeout =>
                "handshake_timeout must be greater than zero"@,
        }
    }

    /// The text shown to an operator.
    pub fn message(self) -> (message: &'static str)
        ensures
            message@ == self.text(),
    {
        match self {
            AgentListenerConfigError::ZeroMaxSessions =>
                "max_agent_sessions must be greater than zero",
            AgentListenerConfigError::ZeroHandshakeTimeout =>
                "handshake_timeout must be greater than zero",
        }
    }
}

/// Hands out session identities: 1, 2, 3 and so on. Zero is never handed out.
#[derive(Debug)]
pub struct TransportSessionIdAllocator {
    pub counter: u64,
}

impl Default for TransportSessionIdAllocator {
    fn default() -> (allocator: TransportSessionIdAllocator)
        ensures
            allocator.counter == 0,
    {
        TransportSessionIdAllocator { counter: 0 }
    }
}

/// The identity after `counter` identities, or nothing where that would be zero.
pub open spec fn next_session(counter: u64) -> Option<TransportSessionId> {
    if counter == u64::MAX {
        None
    } else {
        Some(TransportSessionId { value: (counter + 1) as u64 })
    }
}

impl TransportSessionIdAllocator {
    /// An allocator whose first identity is 1.
    pub fn new() -> (allocator: TransportSessionIdAllocator)
        ensures
            allocator.counter == 0,
    {
        TransportSessionIdAllocator { counter: 0 }
    }

    /// The next identity, larger by one than the last; nothing where the numbers
    /// wrap around to zero.
    pub fn next_id(&mut self) -> (id: Option<TransportSessionId>)
        ensures
            id == next_session(old(self).counter),
            final(self).counter == (match id {
                Some(id) => id.value,
                None => 0,
            }),
    {
        self.counter = if self.counter == u64::MAX { 0 } else { self.counter + 1 };
        TransportSessionId::new(self.counter)
    }
}

/// Identities that are handed out grow, and are never zero.
pub proof fn session_ids_grow(earlier: u64, later: u64)
    requires
        earlier < later < u64::MAX,
    ensures
        next_session(earlier) is Some && next_session(later) is Some,
        0 < next_session(earlier)->0.value < next_session(later)->0.value,
{
}

/// How far a handshake has come.
#[derive(Debug, Clone, Copy, PartialEq, Eq, Structural)]
pub enum HandshakeState {
    AwaitHello,
    AwaitRegister,
    Established,
    Closed,
}

impl HandshakeState {
    /// The state's name.
    pub open spec fn text(self) -> Seq<char> {
        match self {
            HandshakeState::AwaitHello => "await_hello"@,
            HandshakeState::AwaitRegister => "await_register"@,
            HandshakeState::Established => "established"@,
            HandshakeState::Closed => "closed"@,
        }
    }

    /// The state's name.
    pub fn as_str(self) -> (name: &'static str)
        ensures
            name@ == self.text(),
    {
        match self {
            HandshakeState::AwaitHello => "await_hello",
            HandshakeState::AwaitRegister => "await_register",
            HandshakeState::Established => "established",
            HandshakeState::Closed => "closed",
        }
    }

    /// How the state is written in an error.
    pub open spec fn label(self) -> Seq<char> {
        match self {
            HandshakeState::AwaitHello => "AwaitHello"@,
            HandshakeState::AwaitRegister => "AwaitRegister"@,
            HandshakeState::Established => "Established"@,
            HandshakeState::Closed => "Closed"@,
        }
    }

    /// How the state is written in an error.
    pub fn name(self) -> (name: &'static str)
        ensures
            name@ == self.label(),
    {
        match self {
            HandshakeState::AwaitHello => "AwaitHello",
            HandshakeState::AwaitRegister => "AwaitRegister",
            HandshakeState::Established => "Established",
            HandshakeState::Closed => "Closed",
        }
    }
}

/// How an Agent broke the protocol.
#[derive(Debug, Clone, Copy, PartialEq, Eq, Structural)]
pub enum ProtocolViolation {
    ExpectedHello,
    HelloPayloadLength,
    UnknownHelloRole,
    ExpectedRegister,
    RegisterPayload,
    SessionIdExhausted,
    UnsolicitedPong,
    AgentError,
    UnexpectedFrame,
}

impl ProtocolViolation {
    /// The text under which the violation is logged.
    pub open spec fn text(self) -> Seq<char> {
        match self {
            ProtocolViolation::ExpectedHello => "expected HELLO first"@,
            ProtocolViolation::HelloPayloadLength => "invalid HELLO payload length"@,
            ProtocolViolation::UnknownHelloRole => "unknown HELLO role"@,
            ProtocolViolation::ExpectedRegister => "expected REGISTER as second frame"@,
            ProtocolViolation::RegisterPayload => "REGISTER payload must be empty"@,
            ProtocolViolation::SessionIdExhausted => "session ID allocator exhausted"@,
            ProtocolViolation::UnsolicitedPong => "unsolicited PONG"@,
            ProtocolViolation::AgentError => "Agent sent ERROR"@,
            ProtocolViolation::UnexpectedFrame => "unexpected established-session frame"@,
        }
    }

    /// The text under which the violation is logged.
    pub fn as_str(self) -> (text: &'static str)
        ensures
            text@ == self.text(),
    {
        match self {
            ProtocolViolation::ExpectedHello => "expected HELLO first",
            ProtocolViolation::HelloPayloadLength => "invalid HELLO payload length",
            ProtocolViolation::UnknownHelloRole => "unknown HELLO role",
            ProtocolViolation::ExpectedRegister => "expected REGISTER as second frame",
            ProtocolViolation::RegisterPayload => "REGISTER payload must be empty",
            ProtocolViolation::SessionIdExhausted => "session ID allocator exhausted",
            ProtocolViolation::UnsolicitedPong => "unsolicited PONG",
            ProtocolViolation::AgentError => "Agent sent ERROR",
            ProtocolViolation::UnexpectedFrame => "unexpected established-session frame",
        }
    }
}

/// Why a session with an Agent failed.
#[derive(Debug, Clone, Copy, PartialEq, Eq, Structural)]
pub enum AgentTransportError {
    HandshakeTimeout { state: HandshakeState },
    ProtocolViolation { reason: ProtocolViolation },
    ProtocolDecode,
    UnexpectedEof { state: HandshakeState },
    SessionIo,
    InvalidHeartbeatPayload { frame_type: FrameType },
    HeartbeatSequenceMismatch { expected: u64, got: u64 },
    HeartbeatTimeout { sequence: u64 },
    HeartbeatSequenceExhausted,
}

impl AgentTransportError {
    /// The text shown to an operator, where `source` is the text of the cause outside;
    /// nothing is said of a heartbeat here.
    pub open spec fn text(self, source: Seq<char>) -> Seq<char> {
        match self {
            AgentTransportError::HandshakeTimeout { state } => "handshake timeout in state "@
                + state.label(),
            AgentTransportError::ProtocolViolation { reason } => "protocol violation: "@
                + reason.text(),
            AgentTransportError::ProtocolDecode => "protocol decode error: "@ + source,
            AgentTransportError::UnexpectedEof { state } => "unexpected EOF in state "@
                + state.label(),
            AgentTransportError::SessionIo => "session I/O error: "@ + source,
            _ => source,
        }
    }

    /// The text shown to an operator, where `source` is the text of the cause outside.
    pub fn message(self, source: &str) -> (message: String)
        ensures
            message@ == self.text(source@),
    {
        match self {
            AgentTransportError::HandshakeTimeout { state } => {
                "handshake timeout in state ".to_owned().concat(state.name())
            },
            AgentTransportError::ProtocolViolation { reason } => {
                "protocol violation: ".to_owned().concat(reason.as_str())
            },
            AgentTransportError::ProtocolDecode => {
                "protocol decode error: ".to_owned().concat(source)
            },
            AgentTransportError::UnexpectedEof { state } => {
                "unexpected EOF in state ".to_owned().concat(state.name())
            },
            AgentTransportError::SessionIo => "session I/O error: ".to_owned().concat(source),
            _ => source.to_owned(),
        }
    }
}

/// An established session.
#[derive(Debug, Clone, Copy, PartialEq, Eq, Structural)]
pub struct AgentSession {
    pub session_id: TransportSessionId,
    pub peer_addr: SocketAddr,
    pub established_at: Instant,
}

/// What an Agent is told about a handshake that it broke.
#[derive(Debug, Clone, Copy, PartialEq, Eq, Structural)]
pub enum HandshakeErrorCode {
    UnexpectedFrame,
    InvalidHello,
    InvalidRegister,
}

/// What came from an Agent during its handshake.
#[derive(Debug)]
pub enum HandshakeEvent {
    Frame { frame_type: FrameType, payload: Vec<u8> },
    EndOfInput,
    Undecodable,
    TimedOut,
}

/// What is done next in a handshake.
#[derive(Debug, Clone, Copy, PartialEq, Eq, Structural)]
pub enum HandshakeStep {
    /// Wait for the next frame.
    Await,
    /// Tell the Agent what was wrong, and close.
    Reject { code: HandshakeErrorCode, error: AgentTransportError },
    /// Close.
    Fail(AgentTransportError),
    /// Tell the Agent its session's identity.
    Register(TransportSessionId),
}

/// A handshake.
#[derive(Debug, Clone, Copy, PartialEq, Eq, Structural)]
pub struct Handshake {
    pub state: HandshakeState,
}

/// The step that rejects a violation.
pub open spec fn rejecting(code: HandshakeErrorCode, reason: ProtocolViolation) -> HandshakeStep {
    HandshakeStep::Reject { code, error: AgentTransportError::ProtocolViolation { reason } }
}

/// What a frame leads to: HELLO comes first, with the Agent's role and nothing
/// else, then REGISTER, with nothing.
pub open spec fn frame_step(
    state: HandshakeState,
    frame_type: FrameType,
    payload: Seq<u8>,
    agent_role: u8,
    counter: u64,
) -> HandshakeStep {
    match state {
        HandshakeState::AwaitHello => if frame_type != FrameType::Hello {
            rejecting(HandshakeErrorCode::UnexpectedFrame, ProtocolViolation::ExpectedHello)
        } else if payload.len() != HELLO_PAYLOAD_SIZE {
            rejecting(HandshakeErrorCode::InvalidHello, ProtocolViolation::HelloPayloadLength)
        } else if payload[0] != agent_role {
            rejecting(HandshakeErrorCode::InvalidHello, ProtocolViolation::UnknownHelloRole)
        } else {
            HandshakeStep::Await
        },
        _ => if frame_type != FrameType::Register {
            rejecting(HandshakeErrorCode::UnexpectedFrame, ProtocolViolation::ExpectedRegister)
        } else if payload.len() > 0 {
            rejecting(HandshakeErrorCode::InvalidRegister, ProtocolViolation::RegisterPayload)
        } else {
            match next_session(counter) {
                Some(id) => HandshakeStep::Register(id),
                None => HandshakeStep::Fail(
                    AgentTransportError::ProtocolViolation {
                        reason: ProtocolViolation::SessionIdExhausted,
                    },
                ),
            }
        },
    }
}

/// What an event leads to.
pub open spec fn handshake_step(
    state: HandshakeState,
    event: HandshakeEvent,
    agent_role: u8,
    counter: u64,
) -> HandshakeStep {
    match event {
        HandshakeEvent::Frame { frame_type, payload } => frame_step(
            state,
            frame_type,
            payload@,
            agent_role,
            counter,
        ),
        HandshakeEvent::EndOfInput => HandshakeStep::Fail(
            AgentTransportError::UnexpectedEof { state },
        ),
        HandshakeEvent::Undecodable => HandshakeStep::Fail(AgentTransportError::ProtocolDecode),
        HandshakeEvent::TimedOut => HandshakeStep::Fail(
            AgentTransportError::HandshakeTimeout { state },
        ),
    }
}

/// The state after a step.
pub open spec fn state_after(step: HandshakeStep) -> HandshakeState {
    match step {
        HandshakeStep::Await => HandshakeState::AwaitRegister,
        HandshakeStep::Register(_) => HandshakeState::Established,
        _ => HandshakeState::Closed,
    }
}

impl Handshake {
    /// A handshake in which nothing has come yet.
    pub fn start() -> (handshake: Handshake)
        ensures
            handshake.state == HandshakeState::AwaitHello,
    {
        Handshake { state: HandshakeState::AwaitHello }
    }

    fn reject(&mut self, code: HandshakeErrorCode, reason: ProtocolViolation) -> (step:
        HandshakeStep)
        ensures
            step == rejecting(code, reason),
            final(self).state == HandshakeState::Closed,
    {
        self.state = HandshakeState::Closed;
        HandshakeStep::Reject { code, error: AgentTransportError::ProtocolViolation { reason } }
    }

    /// Takes what came, and says what is done next. An identity is taken only for
    /// a complete handshake.
    pub fn perform_handshake(
        &mut self,
        event: HandshakeEvent,
        agent_role: u8,
        session_ids: &mut TransportSessionIdAllocator,
    ) -> (step: HandshakeStep)
        requires
            old(self).state == HandshakeState::AwaitHello || old(self).state
                == HandshakeState::AwaitRegister,
        ensures
            step == handshake_step(old(self).state, event, agent_role, old(session_ids).counter),
            final(self).state == state_after(step),
            final(session_ids).counter == (match step {
                HandshakeStep::Register(id) => id.value,
                HandshakeStep::Fail(
                    AgentTransportError::ProtocolViolation { .. },
                ) => 0,
                _ => old(session_ids).counter,
            }),
    {
        let (frame_type, payload): (FrameType, Vec<u8>) = match event {
            HandshakeEvent::Frame { frame_type, payload } => (frame_type, payload),
            HandshakeEvent::EndOfInput => {
                let state: HandshakeState = self.state;
                self.state = HandshakeState::Closed;
                return HandshakeStep::Fail(AgentTransportError::UnexpectedEof { state });
            },
            HandshakeEvent::Undecodable => {
                self.state = HandshakeState::Closed;
                return HandshakeStep::Fail(AgentTransportError::ProtocolDecode);
            },
            HandshakeEvent::TimedOut => {
                let state: HandshakeState = self.state;
                self.state = HandshakeState::Closed;
                return HandshakeStep::Fail(AgentTransportError::HandshakeTimeout { state });
            },
        };
        if self.state == HandshakeState::AwaitHello {
            if frame_type != FrameType::Hello {
                return self.reject(
                    HandshakeErrorCode::UnexpectedFrame,
                    ProtocolViolation::ExpectedHello,
                );
            }
            if payload.len() != HELLO_PAYLOAD_SIZE {
                return self.reject(
                    HandshakeErrorCode::InvalidHello,
                    ProtocolViolation::HelloPayloadLength,
                );
            }
            if payload[0] != agent_role {
                return self.reject(
                    HandshakeErrorCode::InvalidHello,
                    ProtocolViolation::UnknownHelloRole,
                );
            }
            self.state = HandshakeState::AwaitRegister;
            return HandshakeStep::Await;
        }
        if frame_type != FrameType::Register {
            return self.reject(
                HandshakeErrorCode::UnexpectedFrame,
                ProtocolViolation::ExpectedRegister,
            );
        }
        if payload.len() > 0 {
            return self.reject(
                HandshakeErrorCode::InvalidRegister,
                ProtocolViolation::RegisterPayload,
            );
        }
        match session_ids.next_id() {
            Some(id) => {
                self.state = HandshakeState::Established;
                HandshakeStep::Register(id)
            },
            None => {
                self.state = HandshakeState::Closed;
                HandshakeStep::Fail(
                    AgentTransportError::ProtocolViolation {
                        reason: ProtocolViolation::SessionIdExhausted,
                    },
                )
            },
        }
    }
}

/// The number that bytes write, the most significant first.
pub open spec fn big_endian(bytes: Seq<u8>) -> nat
    decreases bytes.len(),
{
    if bytes.len() == 0 {
        0
    } else {
        big_endian(bytes.drop_last()) * 256 + bytes.last() as nat
    }
}

/// The payload that tells an Agent its session's identity: eight bytes, the most
/// significant first.
pub fn registered_payload(id: TransportSessionId) -> (payload: Vec<u8>)
    ensures
        payload@.len() == 8,
        big_endian(payload@) == id.value,
{
    proof {
        reveal_with_fuel(pow256, 9);
    }
    be_bytes(id.value, 8)
}

/// 256 to the power of `k`.
pub open spec fn pow256(k: nat) -> nat
    decreases k,
{
    if k == 0 { 1 } else { 256 * pow256((k - 1) as nat) }
}

/// The lowest `count` bytes of a number, the most significant first.
fn be_bytes(value: u64, count: usize) -> (bytes: Vec<u8>)
    requires
        count <= 8,
        value < pow256(count as nat),
    ensures
        bytes@.len() == count,
        big_endian(bytes@) == value,
    decreases count,
{
    if count == 0 {
        return Vec::new();
    }
    let mut bytes: Vec<u8> = be_bytes(value / 256, count - 1);
    let ghost front: Seq<u8> = bytes@;
    bytes.push((value % 256) as u8);
    proof {
        assert(bytes@.drop_last() =~= front);
    }
    bytes
}

/// A session is established only by a HELLO with the Agent's role and a REGISTER
/// with nothing, in that order: no other frame, and neither of them twice.
pub proof fn handshakes_follow_one_order(
    state: HandshakeState,
    event: HandshakeEvent,
    agent_role: u8,
    counter: u64,
)
    requires
        state == HandshakeState::AwaitHello || state == HandshakeState::AwaitRegister,
    ensures
        handshake_step(state, event, agent_role, counter) == HandshakeStep::Await ==> state
            == HandshakeState::AwaitHello && (event matches HandshakeEvent::Frame {
            frame_type,
            payload,
        } && frame_type == FrameType::Hello && payload@ == seq![agent_role]),
        handshake_step(state, event, agent_role, counter) is Register ==> state
            == HandshakeState::AwaitRegister && (event matches HandshakeEvent::Frame {
            frame_type,
            payload,
        } && frame_type == FrameType::Register && payload@.len() == 0),
{
    if let HandshakeEvent::Frame { frame_type, payload } = event {
        if payload@.len() == 1 && payload@[0] == agent_role {
            assert(payload@ =~= seq![agent_role]);
        }
    }
}

/// A bound listener for Agents that are only registered: how many sessions are open,
/// and which identities they have.
#[derive(Debug)]
pub struct AgentTransportListener {
    pub config: AgentListenerConfig,
    pub local_addr: SocketAddr,
    pub session_ids: TransportSessionIdAllocator,
    pub open_sessions: usize,
}

/// Why the listener could not be bound.
#[derive(Debug)]
pub enum AgentListenerBindError {
    InvalidConfig(AgentListenerConfigError),
    Bind(std::io::Error),
}

impl AgentTransportListener {
    /// No more sessions are open than may be.
    pub open spec fn wf(self) -> bool {
        &&& agent_listener_fault(self.config) is None
        &&& self.open_sessions <= self.config.max_agent_sessions
    }

    /// Takes the listener that was bound for a configuration, or the reason why none
    /// was.
    pub fn bind(config: AgentListenerConfig, bound: Result<SocketAddr, std::io::Error>) -> (result:
        Result<AgentTransportListener, AgentListenerBindError>)
        ensures
            match result {
                Err(AgentListenerBindError::InvalidConfig(fault)) => agent_listener_fault(config)
                    == Some(fault),
                Err(AgentListenerBindError::Bind(error)) => agent_listener_fault(config) is None
                    && bound == Err::<SocketAddr, std::io::Error>(error),
                Ok(listener) => {
                    &&& bound == Ok::<SocketAddr, std::io::Error>(listener.local_addr)
                    &&& listener.wf()
                    &&& listener.config == config
                    &&& listener.session_ids.counter == 0
                    &&& listener.open_sessions == 0
                },
            },
    {
        match config.validate() {
            Ok(()) => {},
            Err(error) => return Err(AgentListenerBindError::InvalidConfig(error)),
        }
        match bound {
            Err(error) => Err(AgentListenerBindError::Bind(error)),
            Ok(local_addr) => Ok(
                AgentTransportListener {
                    config,
                    local_addr,
                    session_ids: TransportSessionIdAllocator::new(),
                    open_sessions: 0,
                },
            ),
        }
    }

    /// Where the listener is bound.
    pub fn local_addr(&self) -> (address: SocketAddr)
        ensures
            address == self.local_addr,
    {
        self.local_addr
    }

    /// Takes a new connection, unless as many sessions are open as may be.
    pub fn accept(&mut self) -> (served: bool)
        requires
            old(self).wf(),
        ensures
            final(self).wf(),
            served == (old(self).open_sessions < old(self).config.max_agent_sessions),
            *final(self) == (AgentTransportListener {
                open_sessions: if served {
                    (old(self).open_sessions + 1) as usize
                } else {
                    old(self).open_sessions
                },
                ..*old(self)
            }),
    {
        if self.open_sessions < self.config.max_agent_sessions {
            self.open_sessions = self.open_sessions + 1;
            true
        } else {
            false
        }
    }

    /// Notes that a connection ended that was taken.
    pub fn session_ended(&mut self)
        requires
            old(self).wf(),
            old(self).open_sessions > 0,
        ensures
            final(self).wf(),
            *final(self) == (AgentTransportListener {
                open_sessions: (old(self).open_sessions - 1) as usize,
                ..*old(self)
            }),
    {
        self.open_sessions = self.open_sessions - 1;
    }
}

/// An Agent that says HELLO with its role and then REGISTERs gets a session, whose
/// identity is one more than the last and never zero.
pub proof fn good_handshakes_get_a_session(agent_role: u8, payload: Vec<u8>, counter: u64)
    ensures
        payload@ == seq![agent_role] ==> handshake_step(
            HandshakeState::AwaitHello,
            HandshakeEvent::Frame { frame_type: FrameType::Hello, payload },
            agent_role,
            counter,
        ) == HandshakeStep::Await,
        payload@.len() == 0 && counter < u64::MAX ==> (handshake_step(
            HandshakeState::AwaitRegister,
            HandshakeEvent::Frame { frame_type: FrameType::Register, payload },
            agent_role,
            counter,
        ) matches HandshakeStep::Register(id) && id.value == counter + 1),
        state_after(HandshakeStep::Await) == HandshakeState::AwaitRegister,
{
}

/// A handshake that is broken off or not held in time fails, and says in which state.
pub proof fn broken_handshakes_fail(state: HandshakeState, agent_role: u8, counter: u64)
    ensures
        handshake_step(state, HandshakeEvent::TimedOut, agent_role, counter)
            == HandshakeStep::Fail(AgentTransportError::HandshakeTimeout { state }),
        handshake_step(state, HandshakeEvent::EndOfInput, agent_role, counter)
            == HandshakeStep::Fail(AgentTransportError::UnexpectedEof { state }),
        handshake_step(state, HandshakeEvent::Undecodable, agent_role, counter)
            == HandshakeStep::Fail(AgentTransportError::ProtocolDecode),
{
}

} // verus!
