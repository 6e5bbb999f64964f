//! The listener for Agents: which connections it takes, what becomes of each, and how
//! it ends.

use vstd::prelude::*;

use crate::agent_transport::TransportSessionIdAllocator;
use crate::bytes::same_bytes;
use crate::clock::saturated_u64;
use crate::multiplex::{
    initial_authorization, multiplex_fault, snapshot_source, source_of, AuthorizationSourceStatus,
    EdgeAuthorizationStatus, EdgeTransportSecurity, MultiplexedEdgeConfig,
    MultiplexedEdgeConfigError, SnapshotSourceHealth,
};
use crate::net::SocketAddr;
use crate::protocol::TransportSessionId;
use crate::router::{
    keeps_authorization, loses_authorization, session_ids, EdgeSessionRouter, LiveSession,
    TunnelBinding,
};

verus! {

/// Why the listener could not start.
#[derive(Debug)]
pub enum TransportStartError {
    InvalidConfig(MultiplexedEdgeConfigError),
    Bind(std::io::Error),
}

/// What happened at the listener.
#[derive(Debug)]
pub enum TransportEvent {
    ShutdownRequested,
    /// An Agent connected.
    Accepted,
    AcceptFailed(std::io::Error),
    /// A new snapshot of authorizations, its source's health, and the sessions whose
    /// certificate, Agent and tunnel it grants.
    SnapshotChanged {
        version: u64,
        health: SnapshotSourceHealth,
        granted: Vec<TransportSessionId>,
    },
    /// No more snapshots will come.
    SnapshotsClosed,
    /// A connection ended that was served.
    ConnectionEnded,
}

/// What is to be done at the listener.
#[derive(Debug)]
pub enum TransportStep {
    /// Wait for what happens next.
    Wait,
    /// Serve the connection.
    Serve,
    /// Close the connection unanswered.
    Close,
    /// End those sessions.
    Revoke(Vec<TransportSessionId>),
    /// Close the listener and drain those sessions.
    Drain(Vec<TransportSessionId>),
    /// Give up.
    Fail(std::io::Error),
}

/// A bound listener for Agents, with the sessions that it serves.
#[derive(Debug)]
pub struct MultiplexedEdgeRuntime {
    pub config: MultiplexedEdgeConfig,
    pub local_addr: SocketAddr,
    pub router: EdgeSessionRouter,
    pub session_ids: TransportSessionIdAllocator,
    pub open_connections: usize,
    /// Whether snapshots of authorizations are waited for.
    pub snapshots_open: bool,
}

/// How many connections of Agents are open after what happened at the listener, and
/// whether a connection that came is served.
pub open spec fn agents_after(runtime: MultiplexedEdgeRuntime, event: TransportEvent) -> (
    int,
    bool,
) {
    match event {
        TransportEvent::Accepted => if runtime.open_connections
            < runtime.config.agent_listener.max_agent_sessions {
            (runtime.open_connections + 1, true)
        } else {
            (runtime.open_connections as int, false)
        },
        TransportEvent::ConnectionEnded => (
            if runtime.open_connections == 0 {
                0
            } else {
                runtime.open_connections - 1
            },
            false,
        ),
        _ => (runtime.open_connections as int, false),
    }
}

/// What an Agent's connection comes to over a transport secured like that.
pub open spec fn secured(handshake: Option<TlsHandshakeEnd>, protocol: Seq<u8>) -> Result<
    bool,
    AgentRejection,
> {
    match handshake {
        None => Ok(false),
        Some(TlsHandshakeEnd::Failed) => Err(AgentRejection::NotAuthenticated),
        Some(TlsHandshakeEnd::TimedOut) => Err(AgentRejection::TlsTimeout),
        Some(TlsHandshakeEnd::Established { protocol: agreed, certified }) => if agreed is Some
            && agreed->0@ == protocol {
            Ok(certified)
        } else {
            Err(AgentRejection::WrongProtocol)
        },
    }
}

impl MultiplexedEdgeRuntime {
    /// The configuration is valid, the registry is in order, and no more connections
    /// are open than may be.
    pub open spec fn wf(self) -> bool {
        &&& multiplex_fault(self.config) is None
        &&& self.router.wf()
        &&& self.open_connections <= self.config.agent_listener.max_agent_sessions
    }

    /// Takes the listener that was bound for a configuration, or the reason why none
    /// was, with what the registration policy knows of snapshots.
    pub fn bind(
        config: MultiplexedEdgeConfig,
        bound: Result<SocketAddr, std::io::Error>,
        version: Option<u64>,
        health: Option<SnapshotSourceHealth>,
        has_live_updates: bool,
    ) -> (result: Result<MultiplexedEdgeRuntime, TransportStartError>)
        ensures
            match result {
                Err(TransportStartError::InvalidConfig(fault)) => multiplex_fault(config) == Some(
                    fault,
                ),
                Err(TransportStartError::Bind(error)) => multiplex_fault(config) is None && bound
                    == Err::<SocketAddr, std::io::Error>(error),
                Ok(runtime) => {
                    &&& multiplex_fault(config) is None
                    &&& bound == Ok::<SocketAddr, std::io::Error>(runtime.local_addr)
                    &&& runtime.wf()
                    &&& runtime.config == config
                    &&& runtime.router.sessions@.len() == 0
                    &&& runtime.router.tunnels@.len() == 0
                    &&& runtime.router.accepting_streams
                    &&& runtime.router.authorization == (EdgeAuthorizationStatus {
                        version,
                        source: match health {
                            Some(health) => if has_live_updates {
                                source_of(health)
                            } else {
                                AuthorizationSourceStatus::Static
                            },
                            None => AuthorizationSourceStatus::Static,
                        },
                        revoked_sessions: 0,
                    })
                    &&& runtime.session_ids.counter == 0
                    &&& runtime.open_connections == 0
                    &&& runtime.snapshots_open == has_live_updates
                },
            },
    {
        match config.validate() {
            Ok(()) => {},
            Err(error) => return Err(TransportStartError::InvalidConfig(error)),
        }
        let local_addr: SocketAddr = match bound {
            Ok(address) => address,
            Err(error) => return Err(TransportStartError::Bind(error)),
        };
        let authorization: EdgeAuthorizationStatus = initial_authorization(
            version,
            health,
            has_live_updates,
        );
        Ok(
            MultiplexedEdgeRuntime {
                config,
                local_addr,
                router: EdgeSessionRouter::new(authorization),
                session_ids: TransportSessionIdAllocator::new(),
                open_connections: 0,
                snapshots_open: has_live_updates,
            },
        )
    }

    /// Where the listener is bound.
    pub fn agent_addr(&self) -> (address: SocketAddr)
        ensures
            address == self.local_addr,
    {
        self.local_addr
    }

    /// Takes what happened at the listener. A connection is served while fewer are open
    /// than may be; a snapshot ends every session that it does not grant; and on
    /// shutdown no stream is opened any more.
    pub fn step(&mut self, event: TransportEvent) -> (step: TransportStep)
        requires
            old(self).wf(),
        ensures
            (final(self).open_connections as int, step is Serve) == agents_after(*old(self), event),
            final(self).wf(),
            final(self).config == old(self).config,
            final(self).local_addr == old(self).local_addr,
            final(self).session_ids == old(self).session_ids,
            final(self).snapshots_open == (old(self).snapshots_open && !(event
                is SnapshotsClosed)),
            final(self).open_connections == (match event {
                TransportEvent::Accepted => if old(self).open_connections < old(
                    self,
                ).config.agent_listener.max_agent_sessions {
                    old(self).open_connections + 1
                } else {
                    old(self).open_connections as int
                },
                TransportEvent::ConnectionEnded => if old(self).open_connections == 0 {
                    0
                } else {
                    old(self).open_connections - 1
                },
                _ => old(self).open_connections as int,
            }),
            match event {
                TransportEvent::ShutdownRequested => {
                    &&& step matches TransportStep::Drain(ids) && ids@ == session_ids(
                        old(self).router.sessions@,
                    )
                    &&& !final(self).router.accepting_streams
                    &&& final(self).router.sessions == old(self).router.sessions
                    &&& final(self).router.tunnels == old(self).router.tunnels
                    &&& final(self).router.authorization == old(self).router.authorization
                },
                TransportEvent::Accepted => {
                    &&& step is Serve <==> old(self).open_connections < old(
                        self,
                    ).config.agent_listener.max_agent_sessions
                    &&& step is Serve || step is Close
                    &&& final(self).router == old(self).router
                },
                TransportEvent::AcceptFailed(error) => {
                    &&& step == TransportStep::Fail(error)
                    &&& final(self).router == old(self).router
                },
                TransportEvent::SnapshotChanged { version, health, granted } => {
                    &&& step is Revoke
                    &&& final(self).router.accepting_streams == old(self).router.accepting_streams
                    &&& final(self).router.authorization == (EdgeAuthorizationStatus {
                        version: Some(version),
                        source: source_of(health),
                        revoked_sessions: saturated_u64(
                            (old(self).router.authorization.revoked_sessions
                                + step->Revoke_0@.len()) as nat,
                        ) as u64,
                    })
                    &&& step->Revoke_0@.no_duplicates()
                    &&& forall|id: TransportSessionId| #[trigger]
                        step->Revoke_0@.contains(id) <==> loses_authorization(
                            old(self).router.sessions@,
                            old(self).router.sessions@.len() as int,
                            granted@,
                            id,
                        )
                    &&& forall|session: LiveSession| #[trigger]
                        final(self).router.sessions@.contains(session) <==> old(
                            self,
                        ).router.sessions@.contains(session) && keeps_authorization(
                            session,
                            granted@,
                        )
                    &&& forall|binding: TunnelBinding| #[trigger]
                        final(self).router.tunnels@.contains(binding) <==> old(
                            self,
                        ).router.tunnels@.contains(binding) && !step->Revoke_0@.contains(
                            binding.session_id,
                        )
                },
                TransportEvent::SnapshotsClosed => {
                    &&& step is Wait
                    &&& final(self).router == (EdgeSessionRouter {
                        authorization: EdgeAuthorizationStatus {
                            source: AuthorizationSourceStatus::Stale,
                            ..old(self).router.authorization
                        },
                        ..old(self).router
                    })
                },
                TransportEvent::ConnectionEnded => {
                    &&& step is Wait
                    &&& final(self).router == old(self).router
                },
            },
    {
        match event {
            TransportEvent::ShutdownRequested => TransportStep::Drain(self.router.begin_drain()),
            TransportEvent::Accepted => {
                if self.open_connections < self.config.agent_listener.max_agent_sessions {
                    self.open_connections = self.open_connections + 1;
                    TransportStep::Serve
                } else {
                    TransportStep::Close
                }
            },
            TransportEvent::AcceptFailed(error) => TransportStep::Fail(error),
            TransportEvent::SnapshotChanged { version, health, granted } => {
                let revoked: Vec<TransportSessionId> =
                    self.router.reconcile_authorization_snapshot(
                    version,
                    snapshot_source(health),
                    &granted,
                );
                TransportStep::Revoke(revoked)
            },
            TransportEvent::SnapshotsClosed => {
                self.snapshots_open = false;
                self.router.authorization.mark_snapshot_source_stale();
                TransportStep::Wait
            },
            TransportEvent::ConnectionEnded => {
                if self.open_connections > 0 {
                    self.open_connections = self.open_connections - 1;
                }
                TransportStep::Wait
            },
        }
    }
}

/// How the TLS handshake with an Agent ended.
#[derive(Debug)]
pub enum TlsHandshakeEnd {
    /// It is done: the protocol that was agreed on, and whether the Agent showed a
    /// certificate.
    Established { protocol: Option<Vec<u8>>, certified: bool },
    Failed,
    TimedOut,
}

/// Why a connection of an Agent is closed before it has a session.
#[derive(Debug, Clone, Copy, PartialEq, Eq, Structural)]
pub enum AgentRejection {
    /// TLS did not agree on the tunnel's protocol.
    WrongProtocol,
    NotAuthenticated,
    TlsTimeout,
}

/// Whether an Agent that connected shows a certificate, once the transport is secured:
/// over TLS only an Agent that speaks the tunnel's protocol goes on.
pub fn secure_transport(
    security: EdgeTransportSecurity,
    handshake: Option<TlsHandshakeEnd>,
    protocol: &[u8],
) -> (result: Result<bool, AgentRejection>)
    requires
        security is MutualTls <==> handshake is Some,
    ensures
        result == secured(handshake, protocol@),
        result == (match handshake {
            None => Ok(false),
            Some(TlsHandshakeEnd::Failed) => Err(AgentRejection::NotAuthenticated),
            Some(TlsHandshakeEnd::TimedOut) => Err(AgentRejection::TlsTimeout),
            Some(TlsHandshakeEnd::Established { protocol: agreed, certified }) => if agreed
                is Some && agreed->0@ == protocol@ {
                Ok(certified)
            } else {
                Err(AgentRejection::WrongProtocol)
            },
        }),
{
    match handshake {
        None => Ok(false),
        Some(TlsHandshakeEnd::Failed) => Err(AgentRejection::NotAuthenticated),
        Some(TlsHandshakeEnd::TimedOut) => Err(AgentRejection::TlsTimeout),
        Some(TlsHandshakeEnd::Established { protocol: agreed, certified }) => {
            let right: bool = match &agreed {
                Some(name) => same_bytes(name.as_slice(), protocol),
                None => false,
            };
            if right {
                Ok(certified)
            } else {
                Err(AgentRejection::WrongProtocol)
            }
        },
    }
}

/// Which of two queues of frames are still open.
#[derive(Debug, Clone, Copy, PartialEq, Eq, Structural)]
pub struct FrameWriter {
    pub control_open: bool,
    pub data_open: bool,
}

/// What a queue of frames gave.
#[derive(Debug, Clone, Copy, PartialEq, Eq, Structural)]
pub enum QueueEvent {
    /// A control frame waits, whether or not data waits too.
    Control,
    /// No control frame waits, and a data frame does.
    Data,
    ControlClosed,
    DataClosed,
}

/// What is written next.
#[derive(Debug, Clone, Copy, PartialEq, Eq, Structural)]
pub enum WriterStep {
    WriteControl,
    WriteData,
    Wait,
    /// Nothing more will come: end the connection.
    Shutdown,
}

/// What the queues give leads to.
pub open spec fn writer_leads_to(writer: FrameWriter, event: QueueEvent) -> (
    FrameWriter,
    WriterStep,
) {
    let after = FrameWriter {
        control_open: writer.control_open && !(event is ControlClosed),
        data_open: writer.data_open && !(event is DataClosed),
    };
    (
        after,
        if !after.control_open && !after.data_open {
            WriterStep::Shutdown
        } else if event is Control && writer.control_open {
            WriterStep::WriteControl
        } else if event is Data && writer.data_open {
            WriterStep::WriteData
        } else {
            WriterStep::Wait
        },
    )
}

impl FrameWriter {
    /// A writer to whom both queues are open.
    pub fn start() -> (writer: FrameWriter)
        ensures
            writer.control_open && writer.data_open,
    {
        FrameWriter { control_open: true, data_open: true }
    }

    /// Takes what the queues gave. Control frames go before data, and the connection
    /// ends once both queues have closed.
    pub fn step(&mut self, event: QueueEvent) -> (step: WriterStep)
        ensures
            (*final(self), step) == writer_leads_to(*old(self), event),
            final(self).control_open == (old(self).control_open && !(event is ControlClosed)),
            final(self).data_open == (old(self).data_open && !(event is DataClosed)),
            step == (if !final(self).control_open && !final(self).data_open {
                WriterStep::Shutdown
            } else if event is Control && old(self).control_open {
                WriterStep::WriteControl
            } else if event is Data && old(self).data_open {
                WriterStep::WriteData
            } else {
                WriterStep::Wait
            }),
    {
        match event {
            QueueEvent::ControlClosed => {
                self.control_open = false;
            },
            QueueEvent::DataClosed => {
                self.data_open = false;
            },
            _ => {},
        }
        if !self.control_open && !self.data_open {
            return WriterStep::Shutdown;
        }
        if event == QueueEvent::Control && self.control_open {
            return WriterStep::WriteControl;
        }
        if event == QueueEvent::Data && self.data_open {
            return WriterStep::WriteData;
        }
        WriterStep::Wait
    }
}

/// Every frame that an open queue gives is written, control frames as control frames and
/// data as data; a queue that closes stays closed, and the connection ends just once both
/// have.
pub proof fn queued_frames_are_written(writer: FrameWriter, event: QueueEvent)
    ensures
        writer.control_open ==> writer_leads_to(writer, QueueEvent::Control) == (
            writer,
            WriterStep::WriteControl,
        ),
        writer.data_open ==> writer_leads_to(writer, QueueEvent::Data) == (
            writer,
            WriterStep::WriteData,
        ),
        writer_leads_to(writer, event).1 == WriterStep::Shutdown <==> !writer_leads_to(
            writer,
            event,
        ).0.control_open && !writer_leads_to(writer, event).0.data_open,
        !writer_leads_to(writer, QueueEvent::ControlClosed).0.control_open,
        writer_leads_to(writer, QueueEvent::ControlClosed).0.data_open == writer.data_open,
        !writer_leads_to(writer, QueueEvent::DataClosed).0.data_open,
        writer_leads_to(writer, QueueEvent::DataClosed).0.control_open == writer.control_open,
{
}

/// Agents are served exactly while fewer are connected than may be; each that comes takes
/// one place, and gives it back when its connection ends.
pub proof fn agents_are_served_while_there_is_room(
    runtime: MultiplexedEdgeRuntime,
    event: TransportEvent,
)
    requires
        runtime.wf(),
        runtime.open_connections > 0,
    ensures
        ({
            let (open, served) = agents_after(runtime, event);
            let room = runtime.config.agent_listener.max_agent_sessions - runtime.open_connections;
            &&& served <==> event is Accepted && room > 0
            &&& open - runtime.open_connections == (if served {
                1int
            } else if event is ConnectionEnded {
                -1int
            } else {
                0int
            })
        }),
{
}

/// Over TLS only an Agent whose handshake succeeded with the tunnel's protocol goes on, and
/// counts as certified just where it showed a certificate; without TLS none does.
pub proof fn agents_are_who_their_handshake_says(
    agreed: Option<Vec<u8>>,
    certified: bool,
    protocol: Seq<u8>,
)
    ensures
        secured(None, protocol) is Ok && !secured(None, protocol)->Ok_0,
        secured(Some(TlsHandshakeEnd::Failed), protocol) is Err,
        secured(Some(TlsHandshakeEnd::Failed), protocol)->Err_0 is NotAuthenticated,
        secured(Some(TlsHandshakeEnd::TimedOut), protocol) is Err,
        secured(Some(TlsHandshakeEnd::TimedOut), protocol)->Err_0 is TlsTimeout,
        ({
            let end = secured(
                Some(TlsHandshakeEnd::Established { protocol: agreed, certified }),
                protocol,
            );
            let right = agreed matches Some(name) && name@ == protocol;
            &&& end is Ok <==> right
            &&& end is Ok ==> end->Ok_0 == certified
            &&& end is Err ==> end->Err_0 is WrongProtocol
        }),
{
}

} // verus!
