//! Session registry, routing, and bounded concurrent streams.

use vstd::prelude::*;
use vstd::string::*;

use crate::agent_transport::{
    agent_listener_fault, default_agent_listener, AgentListenerConfig, AgentListenerConfigError,
};
use crate::clock::{Duration, NANOS_PER_SEC};
use crate::net::{loopback_ip, SocketAddr};

verus! {

/// The most bytes that a DATA frame carries.
pub const MULTIPLEXED_DATA_PAYLOAD_SIZE: usize = 16 * 1024;

/// How Agents reach the listener.
#[derive(Debug, Clone, Copy, PartialEq, Eq, Structural)]
pub enum EdgeTransportSecurity {
    PlaintextLoopback,
    MutualTls,
}

/// What Agents are authorized by.
#[derive(Debug, Clone, Copy, PartialEq, Eq, Structural)]
pub enum EdgeRegistrationPolicy {
    LoopbackDevelopment,
    MutualTls,
}

/// The bounds of the sessions with Agents and of their streams.
#[derive(Debug, Clone, Copy, PartialEq, Eq, Structural)]
pub struct MultiplexedEdgeConfig {
    pub agent_listener: AgentListenerConfig,
    pub security: EdgeTransportSecurity,
    pub registration: EdgeRegistrationPolicy,
    pub max_streams_per_session: usize,
    pub session_command_capacity: usize,
    pub per_stream_queue_capacity: usize,
    pub control_queue_capacity: usize,
    pub data_queue_capacity: usize,
    pub stream_open_timeout: Duration,
    pub stream_idle_timeout: Duration,
}

/// The development configuration.
pub open spec fn default_multiplex() -> MultiplexedEdgeConfig {
    MultiplexedEdgeConfig {
        agent_listener: default_agent_listener(),
        security: EdgeTransportSecurity::PlaintextLoopback,
        registration: EdgeRegistrationPolicy::LoopbackDevelopment,
        max_streams_per_session: 32,
        session_command_capacity: 64,
        per_stream_queue_capacity: 8,
        control_queue_capacity: 32,
        data_queue_capacity: 128,
        stream_open_timeout: Duration { nanos: (5 * NANOS_PER_SEC) as u128 },
        stream_idle_timeout: Duration { nanos: (60 * NANOS_PER_SEC) as u128 },
    }
}

/// What `validate` finds wrong first.
pub open spec fn multiplex_fault(c: MultiplexedEdgeConfig) -> Option<MultiplexedEdgeConfigError> {
    if agent_listener_fault(c.agent_listener) is Some {
        Some(
            MultiplexedEdgeConfigError::AgentListener(agent_listener_fault(c.agent_listener)->0),
        )
    } else if c.security is PlaintextLoopback && !loopback_ip(c.agent_listener.listen_addr.ip) {
        Some(MultiplexedEdgeConfigError::NonLoopbackAgentListener(c.agent_listener.listen_addr))
    } else if c.security is MutualTls != c.registration is MutualTls {
        Some(MultiplexedEdgeConfigError::SecurityRegistrationMismatch)
    } else if c.max_streams_per_session == 0 {
        Some(MultiplexedEdgeConfigError::ZeroMaxStreams)
    } else if c.session_command_capacity == 0 {
        Some(MultiplexedEdgeConfigError::ZeroSessionCommandQueue)
    } else if c.per_stream_queue_capacity == 0 {
        Some(MultiplexedEdgeConfigError::ZeroPerStreamQueue)
    } else if c.control_queue_capacity == 0 {
        Some(MultiplexedEdgeConfigError::ZeroControlQueue)
    } else if c.data_queue_capacity == 0 {
        Some(MultiplexedEdgeConfigError::ZeroDataQueue)
    } else if c.stream_open_timeout.nanos == 0 {
        Some(MultiplexedEdgeConfigError::ZeroOpenTimeout)
    } else if c.stream_idle_timeout.nanos == 0 {
        Some(MultiplexedEdgeConfigError::ZeroIdleTimeout)
    } else {
        None
    }
}

impl MultiplexedEdgeConfig {
    /// The development configuration.
    pub fn dev_defaults() -> (config: MultiplexedEdgeConfig)
        ensures
            config == default_multiplex(),
            multiplex_fault(config) is None,
    {
        MultiplexedEdgeConfig {
            agent_listener: AgentListenerConfig::dev_defaults(),
            security: EdgeTransportSecurity::PlaintextLoopback,
            registration: EdgeRegistrationPolicy::LoopbackDevelopment,
            max_streams_per_session: 32,
            session_command_capacity: 64,
            per_stream_queue_capacity: 8,
            control_queue_capacity: 32,
            data_queue_capacity: 128,
            stream_open_timeout: Duration::from_secs(5),
            stream_idle_timeout: Duration::from_secs(60),
        }
    }

    /// Checks every bound; the first one broken is reported.
    pub fn validate(&self) -> (result: Result<(), MultiplexedEdgeConfigError>)
        ensures
            result == (match multiplex_fault(*self) {
                Some(fault) => Err(fault),
                None => Ok(()),
            }),
    {
        match self.agent_listener.validate() {
            Ok(()) => {},
            Err(error) => return Err(MultiplexedEdgeConfigError::AgentListener(error)),
        }
        if self.security == EdgeTransportSecurity::PlaintextLoopback
            && !self.agent_listener.listen_addr.ip().is_loopback() {
            return Err(
                MultiplexedEdgeConfigError::NonLoopbackAgentListener(
                    self.agent_listener.listen_addr,
                ),
            );
        }
        let tls: bool = self.security == EdgeTransportSecurity::MutualTls;
        let certificates: bool = self.registration == EdgeRegistrationPolicy::MutualTls;
        if tls != certificates {
            return Err(MultiplexedEdgeConfigError::SecurityRegistrationMismatch);
        }
        if self.max_streams_per_session == 0 {
            return Err(MultiplexedEdgeConfigError::ZeroMaxStreams);
        }
        if self.session_command_capacity == 0 {
            return Err(MultiplexedEdgeConfigError::ZeroSessionCommandQueue);
        }
        if self.per_stream_queue_capacity == 0 {
            return Err(MultiplexedEdgeConfigError::ZeroPerStreamQueue);
        }
        if self.control_queue_capacity == 0 {
            return Err(MultiplexedEdgeConfigError::ZeroControlQueue);
        }
        if self.data_queue_capacity == 0 {
            return Err(MultiplexedEdgeConfigError::ZeroDataQueue);
        }
        if self.stream_open_timeout.is_zero() {
            return Err(MultiplexedEdgeConfigError::ZeroOpenTimeout);
        }
        if self.stream_idle_timeout.is_zero() {
            return Err(MultiplexedEdgeConfigError::ZeroIdleTimeout);
        }
        Ok(())
    }
}

/// A bound that does not hold.
#[derive(Debug, Clone, Copy, PartialEq, Eq, Structural)]
pub enum MultiplexedEdgeConfigError {
    AgentListener(AgentListenerConfigError),
    NonLoopbackAgentListener(SocketAddr),
    SecurityRegistrationMismatch,
    ZeroMaxStreams,
    ZeroSessionCommandQueue,
    ZeroPerStreamQueue,
    ZeroControlQueue,
    ZeroDataQueue,
    ZeroOpenTimeout,
    ZeroIdleTimeout,
}

impl MultiplexedEdgeConfigError {
    /// The text shown to an operator, where `listener` is how the listener's
    /// address is written.
    pub open spec fn text(self, listener: Seq<char>) -> Seq<char> {
        match self {
            MultiplexedEdgeConfigError::AgentListener(error) =>
                "invalid Agent listener config: "@ + error.text(),
            MultiplexedEdgeConfigError::NonLoopbackAgentListener(_) =>
                "Agent listener must use a loopback address, got "@ + listener,
            MultiplexedEdgeConfigError::SecurityRegistrationMismatch =>
                "mutual TLS transport requires certificate-bound registration authorization"@,
            MultiplexedEdgeConfigError::ZeroMaxStreams =>
                "max_streams_per_session must be greater than zero"@,
            MultiplexedEdgeConfigError::ZeroSessionCommandQueue =>
                "session_command_capacity must be greater than zero"@,
            MultiplexedEdgeConfigError::ZeroPerStreamQueue =>
                "per_stream_queue_capacity must be greater than zero"@,
            MultiplexedEdgeConfigError::ZeroControlQueue =>
                "control_queue_capacity must be greater than zero"@,
            MultiplexedEdgeConfigError::ZeroDataQueue =>
                "data_queue_capacity must be greater than zero"@,
            MultiplexedEdgeConfigError::ZeroOpenTimeout =>
                "stream_open_timeout must be greater than zero"@,
            MultiplexedEdgeConfigError::ZeroIdleTimeout =>
                "stream_idle_timeout must be greater than zero"@,
        }
    }

    /// The text shown to an operator, where `listener` is how the listener's
    /// address is written.
    pub fn message(self, listener: &str) -> (message: String)
        ensures
            message@ == self.text(listener@),
    {
        let fixed: &str = match self {
            MultiplexedEdgeConfigError::AgentListener(error) => {
                return "invalid Agent listener config: ".to_owned().concat(error.message());
            },
            MultiplexedEdgeConfigError::NonLoopbackAgentListener(_) => {
                return "Agent listener must use a loopback address, got ".to_owned().concat(
                    listener,
                );
            },
            MultiplexedEdgeConfigError::SecurityRegistrationMismatch =>
                "mutual TLS transport requires certificate-bound registration authorization",
            MultiplexedEdgeConfigError::ZeroMaxStreams =>
                "max_streams_per_session must be greater than zero",
            MultiplexedEdgeConfigError::ZeroSessionCommandQueue =>
                "session_command_capacity must be greater than zero",
            MultiplexedEdgeConfigError::ZeroPerStreamQueue =>
                "per_stream_queue_capacity must be greater than zero",
            MultiplexedEdgeConfigError::ZeroControlQueue =>
                "control_queue_capacity must be greater than zero",
            MultiplexedEdgeConfigError::ZeroDataQueue =>
                "data_queue_capacity must be greater than zero",
            MultiplexedEdgeConfigError::ZeroOpenTimeout =>
                "stream_open_timeout must be greater than zero",
            MultiplexedEdgeConfigError::ZeroIdleTimeout =>
                "stream_idle_timeout must be greater than zero",
        };
        fixed.to_owned()
    }
}

/// Whether the cached authorization state has a live producer.
#[derive(Debug, Clone, Copy, PartialEq, Eq, Structural)]
pub enum AuthorizationSourceStatus {
    Static,
    Live,
    Stale,
}

/// The authorization that sessions are held to: where it comes from, its version,
/// and how many sessions it has ended.
#[derive(Debug, Clone, Copy, PartialEq, Eq, Structural)]
pub struct EdgeAuthorizationStatus {
    pub version: Option<u64>,
    pub source: AuthorizationSourceStatus,
    pub revoked_sessions: u64,
}

/// How far the source of authorization snapshots can be relied on.
#[derive(Debug, Clone, Copy, PartialEq, Eq, Structural)]
pub enum SnapshotSourceHealth {
    Live,
    Stale,
}

/// The status with which a runtime starts: static, unless snapshots keep coming.
pub fn initial_authorization(
    version: Option<u64>,
    health: Option<SnapshotSourceHealth>,
    has_live_updates: bool,
) -> (status: EdgeAuthorizationStatus)
    ensures
        status == (EdgeAuthorizationStatus {
            version,
            source: match health {
                Some(health) => if has_live_updates {
                    source_of(health)
                } else {
                    AuthorizationSourceStatus::Static
                },
                None => AuthorizationSourceStatus::Static,
            },
            revoked_sessions: 0,
        }),
{
    let source: AuthorizationSourceStatus = match health {
        Some(health) => if has_live_updates {
            snapshot_source(health)
        } else {
            AuthorizationSourceStatus::Static
        },
        None => AuthorizationSourceStatus::Static,
    };
    EdgeAuthorizationStatus { version, source, revoked_sessions: 0 }
}

/// The status of a source with that health.
pub open spec fn source_of(health: SnapshotSourceHealth) -> AuthorizationSourceStatus {
    match health {
        SnapshotSourceHealth::Live => AuthorizationSourceStatus::Live,
        SnapshotSourceHealth::Stale => AuthorizationSourceStatus::Stale,
    }
}

/// The status of a source with that health.
pub fn snapshot_source(health: SnapshotSourceHealth) -> (source: AuthorizationSourceStatus)
    ensures
        source == source_of(health),
{
    match health {
        SnapshotSourceHealth::Live => AuthorizationSourceStatus::Live,
        SnapshotSourceHealth::Stale => AuthorizationSourceStatus::Stale,
    }
}

impl EdgeAuthorizationStatus {
    /// Notes that the source of snapshots has closed; the last one stays in force.
    pub fn mark_snapshot_source_stale(&mut self)
        ensures
            *final(self) == (EdgeAuthorizationStatus {
                source: AuthorizationSourceStatus::Stale,
                ..*old(self)
            }),
    {
        self.source = AuthorizationSourceStatus::Stale;
    }
}

/// Plaintext never leaves the machine, and certificates are asked for just where
/// the transport carries them.
pub proof fn valid_transport_is_secured(c: MultiplexedEdgeConfig)
    requires
        multiplex_fault(c) is None,
    ensures
        !loopback_ip(c.agent_listener.listen_addr.ip) ==> c.security is MutualTls,
        c.security is MutualTls <==> c.registration is MutualTls,
{
}

/// The transport passes exactly where plaintext stays on loopback, certificates are
/// asked for just where they are carried, and nothing is without room or time.
pub proof fn transports_pass_within_their_bounds(c: MultiplexedEdgeConfig)
    ensures
        multiplex_fault(c) is None <==> {
            &&& c.agent_listener.max_agent_sessions > 0
            &&& c.agent_listener.handshake_timeout.nanos > 0
            &&& c.security is MutualTls || loopback_ip(c.agent_listener.listen_addr.ip)
            &&& c.security is MutualTls <==> c.registration is MutualTls
            &&& c.max_streams_per_session > 0
            &&& c.session_command_capacity > 0
            &&& c.per_stream_queue_capacity > 0
            &&& c.control_queue_capacity > 0
            &&& c.data_queue_capacity > 0
            &&& c.stream_open_timeout.nanos > 0
            &&& c.stream_idle_timeout.nanos > 0
        },
{
}

/// A fault of the transport names what is wrong.
pub proof fn transport_faults_name_what_is_wrong(c: MultiplexedEdgeConfig)
    requires
        multiplex_fault(c) is Some,
    ensures
        match multiplex_fault(c)->0 {
            MultiplexedEdgeConfigError::AgentListener(AgentListenerConfigError::ZeroMaxSessions) =>
                c.agent_listener.max_agent_sessions == 0,
            MultiplexedEdgeConfigError::AgentListener(
                AgentListenerConfigError::ZeroHandshakeTimeout,
            ) => c.agent_listener.handshake_timeout.nanos == 0,
            MultiplexedEdgeConfigError::NonLoopbackAgentListener(address) => address
                == c.agent_listener.listen_addr && !loopback_ip(address.ip)
                && c.security is PlaintextLoopback,
            MultiplexedEdgeConfigError::SecurityRegistrationMismatch => c.security is MutualTls
                <==> c.registration is LoopbackDevelopment,
            MultiplexedEdgeConfigError::ZeroMaxStreams => c.max_streams_per_session == 0,
            MultiplexedEdgeConfigError::ZeroSessionCommandQueue => c.session_command_capacity == 0,
            MultiplexedEdgeConfigError::ZeroPerStreamQueue => c.per_stream_queue_capacity == 0,
            MultiplexedEdgeConfigError::ZeroControlQueue => c.control_queue_capacity == 0,
            MultiplexedEdgeConfigError::ZeroDataQueue => c.data_queue_capacity == 0,
            MultiplexedEdgeConfigError::ZeroOpenTimeout => c.stream_open_timeout.nanos == 0,
            MultiplexedEdgeConfigError::ZeroIdleTimeout => c.stream_idle_timeout.nanos == 0,
        },
{
}

/// A source of snapshots is shown as what it is, and never as if there were none.
pub proof fn sources_are_shown_as_they_are(health: SnapshotSourceHealth)
    ensures
        source_of(health) is Live <==> health is Live,
        source_of(health) is Stale <==> health is Stale,
        !(source_of(health) is Static),
{
}

} // verus!
