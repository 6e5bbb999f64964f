//! The TCP echo server, relay and forwarder: their bounds, the identity and
//! lifecycle of a connection, and the shared idle deadline of a relay.

use vstd::prelude::*;
use vstd::string::*;

use crate::clock::{saturated_u64, Duration, Instant, NANOS_PER_MILLI};
use crate::net::{IpAddr, SocketAddr};
use crate::text::{decimal, push_decimal, push_wide_decimal};

verus! {

/// The error of `std::io`.
#[verifier::external_type_specification]
#[verifier::external_body]
pub struct ExIoError(std::io::Error);

/// `Display` of `std::io::Error` writes what went wrong.
#[verifier::external_body]
pub(crate) fn io_error_text(error: &std::io::Error) -> String {
    error.to_string()
}

/// `Semaphore::MAX_PERMITS` of tokio is the largest `usize` shifted right by
/// three bits.
#[verifier::external_body]
pub(crate) fn max_permits() -> (permits: usize)
    ensures
        permits == usize::MAX / 8,
{
    tokio::sync::Semaphore::MAX_PERMITS
}

pub const DEFAULT_BIND_ADDR: &'static str = "127.0.0.1:7000";

pub const DEFAULT_UPSTREAM_ADDR: &'static str = "127.0.0.1:8000";

pub const DEFAULT_MAX_CONNECTIONS: usize = 100;

pub const DEFAULT_ECHO_MAX_CONNECTIONS: usize = 100;

/// How long dialing the upstream may take by default, in nanoseconds: five seconds.
pub const DEFAULT_CONNECT_TIMEOUT: u128 = 5_000_000_000;

/// How long a relay may stay idle by default, in nanoseconds: a minute.
pub const DEFAULT_RELAY_IDLE_TIMEOUT: u128 = 60_000_000_000;

/// The shortest relay idle timeout, in nanoseconds: a millisecond.
pub const MIN_RELAY_IDLE_TIMEOUT: u128 = 1_000_000;

/// The longest relay idle timeout, in nanoseconds: an hour.
pub const MAX_RELAY_IDLE_TIMEOUT: u128 = 3_600_000_000_000;

/// How many bytes one direction of a relay holds at a time.
pub const READ_BUFFER_SIZE: usize = 8 * 1024;

/// The bounds of the echo server.
#[derive(Debug, Clone, Copy, PartialEq, Eq, Structural)]
pub struct EchoConfig {
    pub max_connections: usize,
    pub idle_timeout: Duration,
}

/// The echo server's default bounds.
pub open spec fn default_echo() -> EchoConfig {
    EchoConfig {
        max_connections: DEFAULT_ECHO_MAX_CONNECTIONS,
        idle_timeout: Duration { nanos: DEFAULT_RELAY_IDLE_TIMEOUT },
    }
}

impl Default for EchoConfig {
    fn default() -> (config: EchoConfig)
        ensures
            config == default_echo(),
    {
        EchoConfig {
            max_connections: DEFAULT_ECHO_MAX_CONNECTIONS,
            idle_timeout: Duration { nanos: DEFAULT_RELAY_IDLE_TIMEOUT },
        }
    }
}

/// What `validate` finds wrong first.
pub open spec fn echo_fault(c: EchoConfig) -> Option<EchoConfigError> {
    if c.max_connections == 0 {
        Some(EchoConfigError::ZeroMaxConnections)
    } else if c.max_connections > usize::MAX / 8 {
        Some(EchoConfigError::TooManyConnections)
    } else if c.idle_timeout.nanos < MIN_RELAY_IDLE_TIMEOUT {
        Some(EchoConfigError::IdleTimeoutTooSmall)
    } else if c.idle_timeout.nanos > MAX_RELAY_IDLE_TIMEOUT {
        Some(EchoConfigError::IdleTimeoutTooLarge)
    } else {
        None
    }
}

impl EchoConfig {
    /// Checks every bound; the first one broken is reported.
    pub fn validate(&self) -> (result: Result<(), EchoConfigError>)
        ensures
            result == (match echo_fault(*self) {
                Some(fault) => Err(fault),
                None => Ok(()),
            }),
    {
        if self.max_connections == 0 {
            return Err(EchoConfigError::ZeroMaxConnections);
        }
        if self.max_connections > max_permits() {
            return Err(EchoConfigError::TooManyConnections);
        }
        if self.idle_timeout.nanos < MIN_RELAY_IDLE_TIMEOUT {
            return Err(EchoConfigError::IdleTimeoutTooSmall);
        }
        if self.idle_timeout.nanos > MAX_RELAY_IDLE_TIMEOUT {
            return Err(EchoConfigError::IdleTimeoutTooLarge);
        }
        Ok(())
    }
}

/// A bound of the echo server that does not hold.
#[derive(Debug, Clone, Copy, PartialEq, Eq, Structural)]
pub enum EchoConfigError {
    ZeroMaxConnections,
    TooManyConnections,
    IdleTimeoutTooSmall,
    IdleTimeoutTooLarge,
}

impl EchoConfigError {
    /// The text shown to an operator.
    pub open spec fn text(self) -> Seq<char> {
        match self {
            EchoConfigError::ZeroMaxConnections =>
                "echo max_connections must be greater than zero"@,
            EchoConfigError::TooManyConnections =>
                "echo max_connections exceeds the semaphore limit"@,
            EchoConfigError::IdleTimeoutTooSmall =>
                "echo idle_timeout must be at least 1 millisecond"@,
            EchoConfigError::IdleTimeoutTooLarge =>
                "echo idle_timeout must not exceed 3600000 milliseconds"@,
        }
    }

    /// The text shown to an operator.
    pub fn message(self) -> (message: &'static str)
        ensures
            message@ == self.text(),
    {
        match self {
            EchoConfigError::ZeroMaxConnections =>
                "echo max_connections must be greater than zero",
            EchoConfigError::TooManyConnections =>
                "echo max_connections exceeds the semaphore limit",
            EchoConfigError::IdleTimeoutTooSmall =>
                "echo idle_timeout must be at least 1 millisecond",
            EchoConfigError::IdleTimeoutTooLarge =>
                "echo idle_timeout must not exceed 3600000 milliseconds",
        }
    }
}

/// What the echo server does next with a connection.
#[derive(Debug, Clone, Copy, PartialEq, Eq, Structural)]
pub enum EchoStep {
    /// Write the bytes read back.
    WriteBack(usize),
    /// Wait again, for a whole idle timeout.
    ResetIdle,
    /// Drop the connection.
    Close,
}

/// What happened on an echo connection.
#[derive(Debug, Clone, Copy, PartialEq, Eq, Structural)]
pub enum EchoEvent {
    Read(usize),
    ReadFailed,
    Written,
    WriteFailed,
    Idle,
}

/// What an echo connection's event leads to.
pub open spec fn echo_step(event: EchoEvent) -> EchoStep {
    match event {
        EchoEvent::Read(count) => if count == 0 {
            EchoStep::Close
        } else {
            EchoStep::WriteBack(count)
        },
        EchoEvent::Written => EchoStep::ResetIdle,
        _ => EchoStep::Close,
    }
}

/// Decides what the echo server does next: bytes that were read are written back,
/// a whole write starts the idle timeout anew, and everything else ends the
/// connection.
pub fn handle_echo_event(event: EchoEvent) -> (step: EchoStep)
    ensures
        step == echo_step(event),
{
    match event {
        EchoEvent::Read(count) => {
            if count == 0 {
                EchoStep::Close
            } else {
                EchoStep::WriteBack(count)
            }
        },
        EchoEvent::Written => EchoStep::ResetIdle,
        EchoEvent::ReadFailed | EchoEvent::WriteFailed | EchoEvent::Idle => EchoStep::Close,
    }
}

/// The bytes that a relay passed on in each direction.
#[derive(Debug, Clone, Copy, PartialEq, Eq, Structural)]
pub struct RelayStats {
    pub bytes_downstream_to_upstream: u64,
    pub bytes_upstream_to_downstream: u64,
}

impl Default for RelayStats {
    fn default() -> (stats: RelayStats)
        ensures
            stats.bytes_downstream_to_upstream == 0,
            stats.bytes_upstream_to_downstream == 0,
    {
        RelayStats { bytes_downstream_to_upstream: 0, bytes_upstream_to_downstream: 0 }
    }
}

/// A side of a relay.
#[derive(Debug, Clone, Copy, PartialEq, Eq, Structural)]
pub enum RelayDirection {
    Downstream,
    Upstream,
}

impl RelayDirection {
    /// The side's name.
    pub open spec fn text(self) -> Seq<char> {
        match self {
            RelayDirection::Downstream => "downstream"@,
            RelayDirection::Upstream => "upstream"@,
        }
    }

    /// The side's name.
    pub fn as_str(self) -> (name: &'static str)
        ensures
            name@ == self.text(),
    {
        match self {
            RelayDirection::Downstream => "downstream",
            RelayDirection::Upstream => "upstream",
        }
    }

    /// The other side.
    pub open spec fn spec_other(self) -> RelayDirection {
        match self {
            RelayDirection::Downstream => RelayDirection::Upstream,
            RelayDirection::Upstream => RelayDirection::Downstream,
        }
    }

    /// The other side.
    pub fn other(self) -> (other: RelayDirection)
        ensures
            other == self.spec_other(),
    {
        match self {
            RelayDirection::Downstream => RelayDirection::Upstream,
            RelayDirection::Upstream => RelayDirection::Downstream,
        }
    }
}

/// Why a relay failed.
#[derive(Debug)]
pub enum RelayError {
    UpstreamConnect { upstream: SocketAddr, source: std::io::Error },
    Copy { from: RelayDirection, to: RelayDirection, source: std::io::Error },
    IdleTimeout { idle_timeout: Duration },
}

/// The text of an idle timeout.
pub open spec fn idle_text(idle_timeout: Duration) -> Seq<char> {
    "relay idle timeout after "@ + decimal((idle_timeout.nanos / NANOS_PER_MILLI) as nat) + " ms"@
}

fn idle_message(idle_timeout: Duration) -> (message: String)
    ensures
        message@ == idle_text(idle_timeout),
{
    let mut message: String = "relay idle timeout after ".to_owned();
    push_wide_decimal(&mut message, idle_timeout.as_millis());
    message.append(" ms");
    message
}

impl RelayError {
    /// The text of the error, where `source` is the text of its cause and
    /// `address` how the upstream's address is written.
    pub open spec fn text(self, address: Seq<char>, source: Seq<char>) -> Seq<char> {
        match self {
            RelayError::UpstreamConnect { .. } => "upstream connect to "@ + address + " failed: "@
                + source,
            RelayError::Copy { from, to, .. } => "copy "@ + from.text() + " -> "@ + to.text()
                + " failed: "@ + source,
            RelayError::IdleTimeout { idle_timeout } => idle_text(idle_timeout),
        }
    }

    /// The text of the error, where `source` is the text of its cause and
    /// `address` how the upstream's address is written.
    pub fn describe(&self, address: &str, source: &str) -> (message: String)
        ensures
            message@ == self.text(address@, source@),
    {
        match self {
            RelayError::UpstreamConnect { .. } => {
                let mut message: String = "upstream connect to ".to_owned();
                message.append(address);
                message.append(" failed: ");
                message.append(source);
                message
            },
            RelayError::Copy { from, to, .. } => {
                let mut message: String = "copy ".to_owned();
                message.append(from.as_str());
                message.append(" -> ");
                message.append(to.as_str());
                message.append(" failed: ");
                message.append(source);
                message
            },
            RelayError::IdleTimeout { idle_timeout } => idle_message(*idle_timeout),
        }
    }

    /// The text of the error with that of its cause.
    pub fn message(&self, address: &str) -> (message: String)
        ensures
            exists|source: Seq<char>| message@ == #[trigger] self.text(address@, source),
    {
        let source: String = match self {
            RelayError::UpstreamConnect { source, .. } => io_error_text(source),
            RelayError::Copy { source, .. } => io_error_text(source),
            RelayError::IdleTimeout { .. } => String::new(),
        };
        self.describe(address, source.as_str())
    }
}

/// A relay's course: until when it may stay idle, and the bytes that each
/// direction passed on, once it has ended.
#[derive(Debug, Clone, Copy, PartialEq, Eq, Structural)]
pub struct RelayProgress {
    pub idle_timeout: Duration,
    pub deadline: Instant,
    pub downstream_bytes: Option<u64>,
    pub upstream_bytes: Option<u64>,
}

/// What happened on a relay.
#[derive(Debug, Clone, Copy, PartialEq, Eq, Structural)]
pub enum RelayEvent {
    /// Bytes were written in full at that moment.
    Activity(Instant),
    /// The deadline has passed.
    Idle,
    /// The bytes that one side sent are through, so many in all.
    Ended { from: RelayDirection, bytes: u64 },
    /// Passing on what one side sent failed.
    Failed { from: RelayDirection },
}

/// Where a relay stands.
#[derive(Debug, Clone, Copy, PartialEq, Eq, Structural)]
pub enum RelayStep {
    /// It goes on, idle until its deadline at most.
    Wait,
    /// Both directions have ended.
    Completed(RelayStats),
    /// Nothing moved for too long.
    IdleTimeout,
    /// Passing on what one side sent failed.
    CopyFailed { from: RelayDirection, to: RelayDirection },
}

/// Whether the moment an idle timeout after `from` can be counted.
pub open spec fn deadline_fits(from: Instant, idle_timeout: Duration) -> bool {
    from.nanos + idle_timeout.nanos <= u128::MAX
}

/// The moment an idle timeout after `from`.
pub open spec fn deadline_after(from: Instant, idle_timeout: Duration) -> Instant {
    Instant { nanos: (from.nanos + idle_timeout.nanos) as u128 }
}

/// What becomes of a relay. Activity moves the deadline, unless it came too late
/// itself.
pub open spec fn relay_step(relay: RelayProgress, event: RelayEvent) -> (RelayProgress, RelayStep) {
    match event {
        RelayEvent::Activity(at) => if at.nanos > relay.deadline.nanos {
            (relay, RelayStep::IdleTimeout)
        } else {
            (
                RelayProgress { deadline: deadline_after(at, relay.idle_timeout), ..relay },
                RelayStep::Wait,
            )
        },
        RelayEvent::Idle => (relay, RelayStep::IdleTimeout),
        RelayEvent::Failed { from } => (
            relay,
            RelayStep::CopyFailed { from, to: from.spec_other() },
        ),
        RelayEvent::Ended { from, bytes } => {
            let after = match from {
                RelayDirection::Downstream => RelayProgress {
                    downstream_bytes: Some(bytes),
                    ..relay
                },
                RelayDirection::Upstream => RelayProgress { upstream_bytes: Some(bytes), ..relay },
            };
            (
                after,
                match (after.downstream_bytes, after.upstream_bytes) {
                    (Some(down), Some(up)) => RelayStep::Completed(
                        RelayStats {
                            bytes_downstream_to_upstream: down,
                            bytes_upstream_to_downstream: up,
                        },
                    ),
                    _ => RelayStep::Wait,
                },
            )
        },
    }
}

impl RelayProgress {
    /// A relay that starts at that moment.
    pub fn start(started: Instant, idle_timeout: Duration) -> (relay: RelayProgress)
        requires
            deadline_fits(started, idle_timeout),
        ensures
            relay == (RelayProgress {
                idle_timeout,
                deadline: deadline_after(started, idle_timeout),
                downstream_bytes: None,
                upstream_bytes: None,
            }),
    {
        RelayProgress {
            idle_timeout,
            deadline: Instant { nanos: started.nanos + idle_timeout.nanos },
            downstream_bytes: None,
            upstream_bytes: None,
        }
    }

    /// Takes what happened, and says where the relay stands.
    pub fn step(&mut self, event: RelayEvent) -> (step: RelayStep)
        requires
            event matches RelayEvent::Activity(at) ==> deadline_fits(at, old(self).idle_timeout),
        ensures
            (*final(self), step) == relay_step(*old(self), event),
    {
        match event {
            RelayEvent::Activity(at) => {
                if at.nanos > self.deadline.nanos {
                    return RelayStep::IdleTimeout;
                }
                self.deadline = Instant { nanos: at.nanos + self.idle_timeout.nanos };
                RelayStep::Wait
            },
            RelayEvent::Idle => RelayStep::IdleTimeout,
            RelayEvent::Failed { from } => RelayStep::CopyFailed { from, to: from.other() },
            RelayEvent::Ended { from, bytes } => {
                match from {
                    RelayDirection::Downstream => {
                        self.downstream_bytes = Some(bytes);
                    },
                    RelayDirection::Upstream => {
                        self.upstream_bytes = Some(bytes);
                    },
                }
                match (self.downstream_bytes, self.upstream_bytes) {
                    (Some(down), Some(up)) => RelayStep::Completed(
                        RelayStats {
                            bytes_downstream_to_upstream: down,
                            bytes_upstream_to_downstream: up,
                        },
                    ),
                    _ => RelayStep::Wait,
                }
            },
        }
    }
}

/// One direction of a relay: the bytes that it has passed on.
#[derive(Debug, Clone, Copy, PartialEq, Eq, Structural)]
pub struct CopyProgress {
    pub transferred: u64,
}

/// What one direction of a relay does next.
#[derive(Debug, Clone, Copy, PartialEq, Eq, Structural)]
pub enum CopyStep {
    /// Write the bytes read.
    Write(usize),
    /// Nothing more will come: close the other side's input.
    ShutDown,
}

impl CopyProgress {
    /// A direction that has passed nothing on.
    pub fn start() -> (copy: CopyProgress)
        ensures
            copy.transferred == 0,
    {
        CopyProgress { transferred: 0 }
    }

    /// Takes the number of bytes read; none means the end.
    pub fn read(&self, count: usize) -> (step: CopyStep)
        ensures
            step == (if count == 0 { CopyStep::ShutDown } else { CopyStep::Write(count) }),
    {
        if count == 0 {
            CopyStep::ShutDown
        } else {
            CopyStep::Write(count)
        }
    }

    /// Counts bytes that were written in full.
    pub fn written(&mut self, count: usize)
        ensures
            final(self).transferred == saturated_u64((old(self).transferred + count) as nat),
    {
        self.transferred = self.transferred.saturating_add(count as u64);
    }
}

/// Activity before the deadline keeps a relay running, for a whole idle timeout
/// from that moment; silence until the deadline ends it.
pub proof fn activity_extends_the_deadline(relay: RelayProgress, at: Instant)
    requires
        at.nanos <= relay.deadline.nanos,
        deadline_fits(at, relay.idle_timeout),
    ensures
        relay_step(relay, RelayEvent::Activity(at)).1 == RelayStep::Wait,
        relay_step(relay, RelayEvent::Activity(at)).0.deadline.nanos == at.nanos
            + relay.idle_timeout.nanos,
        relay_step(relay, RelayEvent::Idle).1 == RelayStep::IdleTimeout,
{
}

/// Hands out connection identities: 1, 2, 3 and so on.
#[derive(Debug)]
pub struct ConnectionIdAllocator {
    pub next: u64,
}

impl Default for ConnectionIdAllocator {
    fn default() -> (allocator: ConnectionIdAllocator)
        ensures
            allocator.next == 0,
    {
        ConnectionIdAllocator { next: 0 }
    }
}

impl ConnectionIdAllocator {
    /// An allocator whose first identity is 1.
    pub fn new() -> (allocator: ConnectionIdAllocator)
        ensures
            allocator.next == 0,
    {
        ConnectionIdAllocator { next: 0 }
    }

    /// The next identity, larger by one than the last.
    pub fn next_id(&mut self) -> (id: ConnectionId)
        requires
            old(self).next < u64::MAX,
        ensures
            id.0 == old(self).next + 1,
            final(self).next == id.0,
    {
        self.next = self.next + 1;
        ConnectionId(self.next)
    }
}

/// The identity of one connection within the process.
#[derive(Debug, Clone, Copy, PartialEq, Eq, Hash, Structural)]
pub struct ConnectionId(pub u64);

impl ConnectionId {
    /// How the identity is written.
    pub fn to_string(&self) -> (text: String)
        ensures
            text@ == "conn#"@ + decimal(self.0 as nat),
    {
        let mut text: String = "conn#".to_owned();
        push_decimal(&mut text, self.0);
        text
    }
}

/// The bounds and addresses of a forwarder.
#[derive(Debug, Clone, Copy, PartialEq, Eq, Structural)]
pub struct ForwardConfig {
    pub listen_addr: SocketAddr,
    pub upstream_addr: SocketAddr,
    pub max_connections: usize,
    pub connect_timeout: Duration,
    pub relay_idle_timeout: Duration,
}

/// `127.0.0.1` with that port.
pub open spec fn loopback_addr(port: u16) -> SocketAddr {
    SocketAddr { ip: IpAddr::V4(0x7f00_0001), port }
}

/// What `validate` finds wrong first.
pub open spec fn forward_config_fault(c: ForwardConfig) -> Option<ForwardConfigError> {
    if c.max_connections == 0 {
        Some(ForwardConfigError::ZeroMaxConnections)
    } else if c.connect_timeout.nanos == 0 {
        Some(ForwardConfigError::ZeroConnectTimeout)
    } else if c.relay_idle_timeout.nanos < MIN_RELAY_IDLE_TIMEOUT {
        Some(ForwardConfigError::RelayIdleTimeoutTooSmall)
    } else if c.relay_idle_timeout.nanos > MAX_RELAY_IDLE_TIMEOUT {
        Some(ForwardConfigError::RelayIdleTimeoutTooLarge)
    } else {
        None
    }
}

impl ForwardConfig {
    /// From `127.0.0.1:7000` to `127.0.0.1:8000`, with the default bounds.
    pub fn dev_defaults() -> (config: ForwardConfig)
        ensures
            config == (ForwardConfig {
                listen_addr: loopback_addr(7000),
                upstream_addr: loopback_addr(8000),
                max_connections: DEFAULT_MAX_CONNECTIONS,
                connect_timeout: Duration { nanos: DEFAULT_CONNECT_TIMEOUT },
                relay_idle_timeout: Duration { nanos: DEFAULT_RELAY_IDLE_TIMEOUT },
            }),
            forward_config_fault(config) is None,
    {
        ForwardConfig {
            listen_addr: SocketAddr::new(IpAddr::v4(127, 0, 0, 1), 7000),
            upstream_addr: SocketAddr::new(IpAddr::v4(127, 0, 0, 1), 8000),
            max_connections: DEFAULT_MAX_CONNECTIONS,
            connect_timeout: Duration { nanos: DEFAULT_CONNECT_TIMEOUT },
            relay_idle_timeout: Duration { nanos: DEFAULT_RELAY_IDLE_TIMEOUT },
        }
    }

    /// Checks every bound; the first one broken is reported.
    pub fn validate(&self) -> (result: Result<(), ForwardConfigError>)
        ensures
            result == (match forward_config_fault(*self) {
                Some(fault) => Err(fault),
                None => Ok(()),
            }),
    {
        if self.max_connections == 0 {
            return Err(ForwardConfigError::ZeroMaxConnections);
        }
        if self.connect_timeout.is_zero() {
            return Err(ForwardConfigError::ZeroConnectTimeout);
        }
        if self.relay_idle_timeout.nanos < MIN_RELAY_IDLE_TIMEOUT {
            return Err(ForwardConfigError::RelayIdleTimeoutTooSmall);
        }
        if self.relay_idle_timeout.nanos > MAX_RELAY_IDLE_TIMEOUT {
            return Err(ForwardConfigError::RelayIdleTimeoutTooLarge);
        }
        Ok(())
    }
}

/// A bound of the forwarder that does not hold.
#[derive(Debug, Clone, Copy, PartialEq, Eq, Structural)]
pub enum ForwardConfigError {
    ZeroMaxConnections,
    ZeroConnectTimeout,
    RelayIdleTimeoutTooSmall,
    RelayIdleTimeoutTooLarge,
}

impl ForwardConfigError {
    /// The text shown to an operator.
    pub open spec fn text(self) -> Seq<char> {
        match self {
            ForwardConfigError::ZeroMaxConnections =>
                "max_connections must be greater than zero"@,
            ForwardConfigError::ZeroConnectTimeout =>
                "connect_timeout must be greater than zero"@,
            ForwardConfigError::RelayIdleTimeoutTooSmall =>
                "relay_idle_timeout must be at least 1 millisecond"@,
            ForwardConfigError::RelayIdleTimeoutTooLarge =>
                "relay_idle_timeout must not exceed 3600000 milliseconds"@,
        }
    }

    /// The text shown to an operator.
    pub fn message(self) -> (message: &'static str)
        ensures
            message@ == self.text(),
    {
        match self {
            ForwardConfigError::ZeroMaxConnections =>
                "max_connections must be greater than zero",
            ForwardConfigError::ZeroConnectTimeout =>
                "connect_timeout must be greater than zero",
            ForwardConfigError::RelayIdleTimeoutTooSmall =>
                "relay_idle_timeout must be at least 1 millisecond",
            ForwardConfigError::RelayIdleTimeoutTooLarge =>
                "relay_idle_timeout must not exceed 3600000 milliseconds",
        }
    }
}

/// How far a forwarded connection has come.
#[derive(Debug, Clone, Copy, PartialEq, Eq, Structural)]
pub enum ConnectionLifecycle {
    Accepted,
    CapacityRejected,
    ConnectingUpstream,
    UpstreamConnectFailed,
    UpstreamConnectTimeout,
    Relaying,
    RelayIoFailed,
    RelayIdleTimeout,
    Closed,
}

impl ConnectionLifecycle {
    /// The phase's name.
    pub open spec fn text(self) -> Seq<char> {
        match self {
            ConnectionLifecycle::Accepted => "accepted"@,
            ConnectionLifecycle::CapacityRejected => "capacity_rejected"@,
            ConnectionLifecycle::ConnectingUpstream => "connecting_upstream"@,
            ConnectionLifecycle::UpstreamConnectFailed => "upstream_connect_failed"@,
            ConnectionLifecycle::UpstreamConnectTimeout => "upstream_connect_timeout"@,
            ConnectionLifecycle::Relaying => "relaying"@,
            ConnectionLifecycle::RelayIoFailed => "relay_io_failed"@,
            ConnectionLifecycle::RelayIdleTimeout => "relay_idle_timeout"@,
            ConnectionLifecycle::Closed => "closed"@,
        }
    }

    /// The phase's name.
    pub fn as_str(self) -> (name: &'static str)
        ensures
            name@ == self.text(),
    {
        match self {
            ConnectionLifecycle::Accepted => "accepted",
            ConnectionLifecycle::CapacityRejected => "capacity_rejected",
            ConnectionLifecycle::ConnectingUpstream => "connecting_upstream",
            ConnectionLifecycle::UpstreamConnectFailed => "upstream_connect_failed",
            ConnectionLifecycle::UpstreamConnectTimeout => "upstream_connect_timeout",
            ConnectionLifecycle::Relaying => "relaying",
            ConnectionLifecycle::RelayIoFailed => "relay_io_failed",
            ConnectionLifecycle::RelayIdleTimeout => "relay_idle_timeout",
            ConnectionLifecycle::Closed => "closed",
        }
    }
}

/// Why a forwarded connection failed.
#[derive(Debug)]
pub enum ForwardError {
    CapacityExhausted,
    UpstreamConnect { source: std::io::Error },
    UpstreamConnectTimeout,
    RelayIo { from: RelayDirection, to: RelayDirection, source: std::io::Error },
    RelayIdleTimeout { idle_timeout: Duration },
}

impl ForwardError {
    /// The phase in which the connection failed.
    pub open spec fn spec_phase(self) -> ConnectionLifecycle {
        match self {
            ForwardError::CapacityExhausted => ConnectionLifecycle::CapacityRejected,
            ForwardError::UpstreamConnect { .. } => ConnectionLifecycle::UpstreamConnectFailed,
            ForwardError::UpstreamConnectTimeout => ConnectionLifecycle::UpstreamConnectTimeout,
            ForwardError::RelayIo { .. } => ConnectionLifecycle::RelayIoFailed,
            ForwardError::RelayIdleTimeout { .. } => ConnectionLifecycle::RelayIdleTimeout,
        }
    }

    /// The error's category: the name of the phase, but for exhausted capacity.
    pub fn category(&self) -> (category: &'static str)
        ensures
            category@ == (if self is CapacityExhausted {
                "capacity_exhausted"@
            } else {
                self.spec_phase().text()
            }),
    {
        match self {
            ForwardError::CapacityExhausted => "capacity_exhausted",
            ForwardError::UpstreamConnect { .. } => "upstream_connect_failed",
            ForwardError::UpstreamConnectTimeout => "upstream_connect_timeout",
            ForwardError::RelayIo { .. } => "relay_io_failed",
            ForwardError::RelayIdleTimeout { .. } => "relay_idle_timeout",
        }
    }

    /// The phase in which the connection failed.
    pub fn phase(&self) -> (phase: ConnectionLifecycle)
        ensures
            phase == self.spec_phase(),
    {
        match self {
            ForwardError::CapacityExhausted => ConnectionLifecycle::CapacityRejected,
            ForwardError::UpstreamConnect { .. } => ConnectionLifecycle::UpstreamConnectFailed,
            ForwardError::UpstreamConnectTimeout => ConnectionLifecycle::UpstreamConnectTimeout,
            ForwardError::RelayIo { .. } => ConnectionLifecycle::RelayIoFailed,
            ForwardError::RelayIdleTimeout { .. } => ConnectionLifecycle::RelayIdleTimeout,
        }
    }

    /// The text of the error, where `source` is the text of its cause.
    pub open spec fn text(self, source: Seq<char>) -> Seq<char> {
        match self {
            ForwardError::CapacityExhausted =>
                "forwarder at max_connections; connection rejected"@,
            ForwardError::UpstreamConnect { .. } => "upstream connect failed: "@ + source,
            ForwardError::UpstreamConnectTimeout => "upstream connect timed out"@,
            ForwardError::RelayIo { from, to, .. } => "relay I/O failed ("@ + from.text() + " -> "@
                + to.text() + "): "@ + source,
            ForwardError::RelayIdleTimeout { idle_timeout } => idle_text(idle_timeout),
        }
    }

    /// The text of the error, where `source` is the text of its cause.
    pub fn describe(&self, source: &str) -> (message: String)
        ensures
            message@ == self.text(source@),
    {
        match self {
            ForwardError::CapacityExhausted =>
                "forwarder at max_connections; connection rejected".to_owned(),
            ForwardError::UpstreamConnect { .. } => "upstream connect failed: ".to_owned().concat(
                source,
            ),
            ForwardError::UpstreamConnectTimeout => "upstream connect timed out".to_owned(),
            ForwardError::RelayIo { from, to, .. } => {
                let mut message: String = "relay I/O failed (".to_owned();
                message.append(from.as_str());
                message.append(" -> ");
                message.append(to.as_str());
                message.append("): ");
                message.append(source);
                message
            },
            ForwardError::RelayIdleTimeout { idle_timeout } => idle_message(*idle_timeout),
        }
    }

    /// The text of the error with that of its cause.
    pub fn message(&self) -> (message: String)
        ensures
            exists|source: Seq<char>| message@ == #[trigger] self.text(source),
    {
        let source: String = match self {
            ForwardError::UpstreamConnect { source } => io_error_text(source),
            ForwardError::RelayIo { source, .. } => io_error_text(source),
            _ => String::new(),
        };
        self.describe(source.as_str())
    }
}

/// How one forwarded connection ended.
#[derive(Debug)]
pub struct ConnectionOutcome {
    pub connection_id: ConnectionId,
    pub peer: SocketAddr,
    pub upstream: SocketAddr,
    pub outcome: Result<RelayStats, ForwardError>,
    pub duration: Duration,
}

impl ConnectionOutcome {
    /// The last phase that the connection reached.
    pub fn final_phase(&self) -> (phase: ConnectionLifecycle)
        ensures
            phase == (match self.outcome {
                Ok(_) => ConnectionLifecycle::Closed,
                Err(error) => error.spec_phase(),
            }),
    {
        match &self.outcome {
            Ok(_) => ConnectionLifecycle::Closed,
            Err(error) => error.phase(),
        }
    }
}

/// The forwarder's error for a relay's.
pub fn forward_from_relay(error: RelayError) -> (forward: ForwardError)
    ensures
        forward == relay_failure(error),
        forward == (match error {
            RelayError::UpstreamConnect { source, .. } => ForwardError::UpstreamConnect { source },
            RelayError::Copy { from, to, source } => ForwardError::RelayIo { from, to, source },
            RelayError::IdleTimeout { idle_timeout } => ForwardError::RelayIdleTimeout {
                idle_timeout,
            },
        }),
{
    match error {
        RelayError::UpstreamConnect { source, .. } => ForwardError::UpstreamConnect { source },
        RelayError::Copy { from, to, source } => ForwardError::RelayIo { from, to, source },
        RelayError::IdleTimeout { idle_timeout } => ForwardError::RelayIdleTimeout {
            idle_timeout,
        },
    }
}

/// How dialing the upstream ended.
#[derive(Debug)]
pub enum DialOutcome {
    Connected,
    Failed(std::io::Error),
    TimedOut,
}

/// What becomes of a connection whose upstream was dialed: nothing to report yet
/// where it answered, and the error else.
pub fn forward_after_dial(dial: DialOutcome) -> (error: Option<ForwardError>)
    ensures
        error == dial_failure(dial),
        error == (match dial {
            DialOutcome::Connected => None,
            DialOutcome::Failed(source) => Some(ForwardError::UpstreamConnect { source }),
            DialOutcome::TimedOut => Some(ForwardError::UpstreamConnectTimeout),
        }),
{
    match dial {
        DialOutcome::Connected => None,
        DialOutcome::Failed(source) => Some(ForwardError::UpstreamConnect { source }),
        DialOutcome::TimedOut => Some(ForwardError::UpstreamConnectTimeout),
    }
}

/// Forwards connections, no more than a limit at a time.
#[derive(Debug)]
pub struct Forwarder {
    pub config: ForwardConfig,
    pub active: usize,
    pub ids: ConnectionIdAllocator,
}

/// Which identity the next connection gets, whether it runs, and how many run then.
pub open spec fn accepting(forwarder: Forwarder) -> (int, bool, int) {
    if forwarder.active < forwarder.config.max_connections {
        (forwarder.ids.next + 1, true, forwarder.active + 1)
    } else {
        (forwarder.ids.next + 1, false, forwarder.active as int)
    }
}

/// The forwarder's error for a relay's.
pub open spec fn relay_failure(error: RelayError) -> ForwardError {
    match error {
        RelayError::UpstreamConnect { source, .. } => ForwardError::UpstreamConnect { source },
        RelayError::Copy { from, to, source } => ForwardError::RelayIo { from, to, source },
        RelayError::IdleTimeout { idle_timeout } => ForwardError::RelayIdleTimeout { idle_timeout },
    }
}

/// The error of an upstream that was dialed, if one is to be reported.
pub open spec fn dial_failure(dial: DialOutcome) -> Option<ForwardError> {
    match dial {
        DialOutcome::Connected => None,
        DialOutcome::Failed(source) => Some(ForwardError::UpstreamConnect { source }),
        DialOutcome::TimedOut => Some(ForwardError::UpstreamConnectTimeout),
    }
}

impl Forwarder {
    /// No more connections run than the configuration allows, and the
    /// configuration is valid.
    pub open spec fn wf(self) -> bool {
        &&& forward_config_fault(self.config) is None
        &&& self.active <= self.config.max_connections
    }

    /// A forwarder that forwards nothing yet.
    pub fn new(config: ForwardConfig) -> (result: Result<Forwarder, ForwardConfigError>)
        ensures
            match (result, forward_config_fault(config)) {
                (Ok(forwarder), None) => forwarder.wf() && forwarder.config == config
                    && forwarder.active == 0 && forwarder.ids.next == 0,
                (Err(error), Some(fault)) => error == fault,
                _ => false,
            },
    {
        match config.validate() {
            Err(error) => Err(error),
            Ok(()) => Ok(Forwarder { config, active: 0, ids: ConnectionIdAllocator::new() }),
        }
    }

    /// The forwarder's configuration.
    pub fn config(&self) -> (config: &ForwardConfig)
        ensures
            *config == self.config,
    {
        &self.config
    }

    /// How many connections more may run.
    pub fn available_permits(&self) -> (permits: usize)
        requires
            self.wf(),
        ensures
            permits == self.config.max_connections - self.active,
    {
        self.config.max_connections - self.active
    }

    /// Takes an accepted connection: it gets an identity, and it runs where there
    /// is room.
    pub fn accept(&mut self) -> (accepted: (ConnectionId, Result<(), ForwardError>))
        requires
            old(self).wf(),
            old(self).ids.next < u64::MAX,
        ensures
            (accepted.0.0 as int, accepted.1 is Ok, final(self).active as int) == accepting(
                *old(self),
            ),
            final(self).wf(),
            final(self).config == old(self).config,
            accepted.0.0 == old(self).ids.next + 1,
            final(self).ids.next == accepted.0.0,
            match accepted.1 {
                Ok(()) => old(self).active < old(self).config.max_connections && final(self).active
                    == old(self).active + 1,
                Err(error) => error is CapacityExhausted && old(self).active
                    == old(self).config.max_connections && final(self).active == old(self).active,
            },
    {
        let id: ConnectionId = self.ids.next_id();
        if self.active < self.config.max_connections {
            self.active = self.active + 1;
            (id, Ok(()))
        } else {
            (id, Err(ForwardError::CapacityExhausted))
        }
    }

    /// Makes room for another connection.
    pub fn release(&mut self)
        requires
            old(self).wf(),
            old(self).active > 0,
        ensures
            final(self).wf(),
            final(self).config == old(self).config,
            final(self).ids == old(self).ids,
            final(self).active == old(self).active - 1,
    {
        self.active = self.active - 1;
    }
}

/// An echo connection gets back just the bytes that it sent; a write in full starts its
/// idle time anew, and its end, a failure or silence drops it.
pub proof fn echoes_give_back_what_came(count: usize)
    ensures
        count > 0 ==> echo_step(EchoEvent::Read(count)) == EchoStep::WriteBack(count),
        echo_step(EchoEvent::Read(0)) == EchoStep::Close,
        echo_step(EchoEvent::Written) == EchoStep::ResetIdle,
        echo_step(EchoEvent::ReadFailed) == EchoStep::Close,
        echo_step(EchoEvent::WriteFailed) == EchoStep::Close,
        echo_step(EchoEvent::Idle) == EchoStep::Close,
{
}

/// A relay is complete once both directions have ended, in whichever order, and reports
/// the bytes that each of them passed on.
pub proof fn relays_report_both_directions(relay: RelayProgress, down: u64, up: u64)
    requires
        relay.downstream_bytes is None,
        relay.upstream_bytes is None,
    ensures
        ({
            let downstream = RelayEvent::Ended { from: RelayDirection::Downstream, bytes: down };
            let upstream = RelayEvent::Ended { from: RelayDirection::Upstream, bytes: up };
            let stats = RelayStats {
                bytes_downstream_to_upstream: down,
                bytes_upstream_to_downstream: up,
            };
            &&& relay_step(relay, downstream).1 == RelayStep::Wait
            &&& relay_step(relay, upstream).1 == RelayStep::Wait
            &&& relay_step(relay_step(relay, downstream).0, upstream).1 == RelayStep::Completed(
                stats,
            )
            &&& relay_step(relay_step(relay, upstream).0, downstream).1 == RelayStep::Completed(
                stats,
            )
            &&& relay_step(relay, downstream).0.deadline == relay.deadline
        }),
{
}

/// A relay ends early only for a failure, which it names by its direction, or for silence
/// beyond its deadline.
pub proof fn relays_end_early_for_a_reason(relay: RelayProgress, at: Instant)
    ensures
        relay_step(relay, RelayEvent::Idle).1 == RelayStep::IdleTimeout,
        at.nanos > relay.deadline.nanos ==> relay_step(relay, RelayEvent::Activity(at)).1
            == RelayStep::IdleTimeout,
        at.nanos <= relay.deadline.nanos ==> relay_step(relay, RelayEvent::Activity(at)).1
            == RelayStep::Wait,
        relay_step(relay, RelayEvent::Failed { from: RelayDirection::Downstream }).1 == (
        RelayStep::CopyFailed { from: RelayDirection::Downstream, to: RelayDirection::Upstream }),
        relay_step(relay, RelayEvent::Failed { from: RelayDirection::Upstream }).1 == (
        RelayStep::CopyFailed { from: RelayDirection::Upstream, to: RelayDirection::Downstream }),
{
}

/// Echo servers pass with at least one connection, no more than an eighth of what can
/// be counted, and an idle time from a millisecond to an hour.
pub proof fn echo_servers_pass_within_their_bounds(c: EchoConfig)
    ensures
        echo_fault(c) is None <==> {
            &&& 1 <= c.max_connections <= usize::MAX / 8
            &&& 1_000_000 <= c.idle_timeout.nanos <= 3600 * 1_000_000_000
        },
        echo_fault(c) == Some(EchoConfigError::ZeroMaxConnections) <==> c.max_connections == 0,
        echo_fault(c) == Some(EchoConfigError::TooManyConnections) ==> c.max_connections > usize::MAX
            / 8,
        echo_fault(c) == Some(EchoConfigError::IdleTimeoutTooSmall) ==> c.idle_timeout.nanos
            < 1_000_000,
        echo_fault(c) == Some(EchoConfigError::IdleTimeoutTooLarge) ==> c.idle_timeout.nanos
            > 3600 * 1_000_000_000,
{
}

/// Forwarders pass with at least one connection, some time to connect, and an idle
/// time from a millisecond to an hour.
pub proof fn forwarders_pass_within_their_bounds(c: ForwardConfig)
    ensures
        forward_config_fault(c) is None <==> {
            &&& c.max_connections > 0
            &&& c.connect_timeout.nanos > 0
            &&& 1_000_000 <= c.relay_idle_timeout.nanos <= 3600 * 1_000_000_000
        },
        forward_config_fault(c) == Some(ForwardConfigError::ZeroMaxConnections) <==>
            c.max_connections == 0,
        forward_config_fault(c) == Some(ForwardConfigError::ZeroConnectTimeout) ==>
            c.connect_timeout.nanos == 0,
        forward_config_fault(c) == Some(ForwardConfigError::RelayIdleTimeoutTooSmall) ==>
            c.relay_idle_timeout.nanos < 1_000_000,
        forward_config_fault(c) == Some(ForwardConfigError::RelayIdleTimeoutTooLarge) ==>
            c.relay_idle_timeout.nanos > 3600 * 1_000_000_000,
{
}

/// A connection runs exactly while there is room, each under an identity of its own, one
/// above the last.
pub proof fn connections_run_while_there_is_room(forwarder: Forwarder)
    requires
        forwarder.wf(),
    ensures
        ({
            let (id, runs, active) = accepting(forwarder);
            &&& id - forwarder.ids.next == 1
            &&& runs <==> forwarder.config.max_connections - forwarder.active > 0
            &&& active - forwarder.active == (if runs {
                1int
            } else {
                0int
            })
        }),
{
}

/// An upstream that cannot be reached and a relay that breaks or idles are told apart, and
/// what is reported of each is what happened.
pub proof fn failures_are_told_apart(
    address: SocketAddr,
    from: RelayDirection,
    to: RelayDirection,
    idle_timeout: Duration,
    source: std::io::Error,
)
    ensures
        dial_failure(DialOutcome::Connected) is None,
        dial_failure(DialOutcome::TimedOut) is Some,
        dial_failure(DialOutcome::TimedOut)->0 is UpstreamConnectTimeout,
        dial_failure(DialOutcome::Failed(source)) is Some,
        dial_failure(DialOutcome::Failed(source))->0 is UpstreamConnect,
        dial_failure(DialOutcome::Failed(source))->0->UpstreamConnect_source == source,
        ({
            let broken = relay_failure(RelayError::Copy { from, to, source });
            &&& broken is RelayIo
            &&& broken->RelayIo_from == from
            &&& broken->RelayIo_to == to
            &&& broken->RelayIo_source == source
        }),
        relay_failure(RelayError::IdleTimeout { idle_timeout }) is RelayIdleTimeout,
        relay_failure(RelayError::IdleTimeout { idle_timeout })->idle_timeout == idle_timeout,
{
}

} // verus!
