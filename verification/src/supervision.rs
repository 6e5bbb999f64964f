//! Supervision of a running edge: its tasks, their order of stopping, and what the
//! process reports in the end.

use vstd::prelude::*;
use vstd::string::*;

use crate::forward::io_error_text;
use crate::http_runtime::HttpIngressError;
use crate::http_status::HttpIngressOutcome;
use crate::multiplex::{source_of, AuthorizationSourceStatus, SnapshotSourceHealth};
use crate::multiplex_runtime::{MultiplexedEdgeRuntime, TransportStartError};
use crate::names::TunnelId;
use crate::net::SocketAddr;
use crate::operations::{EdgeOperationsError, EdgeOperationsOutcome};
use crate::protocol::TransportSessionId;
use crate::raw_ingress::RawIngressRouteError;
use crate::router::EdgeSessionRouter;
use crate::runtime::{runtime_fault, EdgeRuntimeConfig, EdgeRuntimeConfigError};
use crate::shutdown::RuntimeShutdownOutcome;

verus! {

/// How an edge ended, stage by stage.
#[derive(Debug, Clone, Copy, PartialEq, Eq, Structural)]
pub struct EdgeRuntimeOutcome {
    pub agent_addr: SocketAddr,
    pub raw_addr: Option<SocketAddr>,
    pub agent_sessions_seen: u64,
    pub route_generations: u64,
    pub successful_recoveries: u64,
    pub raw_routes: RuntimeShutdownOutcome,
    pub https_ingress: Option<HttpIngressOutcome>,
    pub operations: Option<EdgeOperationsOutcome>,
    pub agent_sessions: RuntimeShutdownOutcome,
}

/// Whether a stage had to be aborted.
pub open spec fn some_stage_forced(outcome: EdgeRuntimeOutcome) -> bool {
    ||| outcome.raw_routes is Forced
    ||| outcome.https_ingress matches Some(https) && https.shutdown is Forced
    ||| outcome.operations matches Some(operations) && operations.shutdown is Forced
    ||| outcome.agent_sessions is Forced
}

impl EdgeRuntimeOutcome {
    /// Whether a stage had to be aborted.
    pub fn was_forced(self) -> (forced: bool)
        ensures
            forced == some_stage_forced(self),
    {
        let https: bool = match self.https_ingress {
            Some(https) => https.was_forced(),
            None => false,
        };
        let operations: bool = match self.operations {
            Some(operations) => operations.was_forced(),
            None => false,
        };
        self.raw_routes.was_forced() || https || operations || self.agent_sessions.was_forced()
    }
}

/// Why an edge could not start or keep running.
#[derive(Debug)]
pub enum EdgeRuntimeError {
    InvalidConfig(EdgeRuntimeConfigError),
    Bind(std::io::Error),
    RouteStartup(RawIngressRouteError),
    RouteRecovery(RawIngressRouteError),
    Transport(std::io::Error),
    TransportTask(String),
    TransportStopped,
    RouteShutdown(RawIngressRouteError),
    HttpsStartup(HttpIngressError),
    Https(HttpIngressError),
    HttpsTask(String),
    HttpsStopped,
    OperationsStartup(EdgeOperationsError),
    Operations(EdgeOperationsError),
    OperationsTask(String),
    OperationsStopped,
    OperationsStartupRollback { startup: EdgeOperationsError, cleanup: RawIngressRouteError },
    StartupRollback { startup: RawIngressRouteError, cleanup: Box<EdgeRuntimeError> },
}

impl EdgeRuntimeError {
    /// The text of the error, where `source` is the text of its cause, and
    /// `cleanup` that of a failure to clean up after it.
    pub open spec fn text(self, source: Seq<char>, cleanup: Seq<char>) -> Seq<char> {
        match self {
            EdgeRuntimeError::InvalidConfig(_) => "invalid Edge runtime config: "@ + source,
            EdgeRuntimeError::Bind(_) => "Edge listener bind failed: "@ + source,
            EdgeRuntimeError::RouteStartup(_) => "raw route startup failed: "@ + source,
            EdgeRuntimeError::RouteRecovery(_) => "raw route recovery failed: "@ + source,
            EdgeRuntimeError::Transport(_) => "Edge transport failed: "@ + source,
            EdgeRuntimeError::TransportTask(error) => "Edge transport task failed: "@ + error@,
            EdgeRuntimeError::TransportStopped => "Edge transport stopped unexpectedly"@,
            EdgeRuntimeError::RouteShutdown(_) => "raw route shutdown failed: "@ + source,
            EdgeRuntimeError::HttpsStartup(_) => "HTTPS ingress startup failed: "@ + source,
            EdgeRuntimeError::Https(_) => "HTTPS ingress failed: "@ + source,
            EdgeRuntimeError::HttpsTask(error) => "HTTPS ingress task failed: "@ + error@,
            EdgeRuntimeError::HttpsStopped => "HTTPS ingress stopped unexpectedly"@,
            EdgeRuntimeError::OperationsStartup(_) => "operations endpoint startup failed: "@
                + source,
            EdgeRuntimeError::Operations(_) => "operations endpoint failed: "@ + source,
            EdgeRuntimeError::OperationsTask(error) => "operations endpoint task failed: "@
                + error@,
            EdgeRuntimeError::OperationsStopped => "operations endpoint stopped unexpectedly"@,
            EdgeRuntimeError::OperationsStartupRollback { .. } =>
                "operations endpoint startup failed ("@ + source
                + ") and raw-route rollback also failed ("@ + cleanup + ")"@,
            EdgeRuntimeError::StartupRollback { .. } => "raw route startup failed ("@ + source
                + ") and rollback also failed ("@ + cleanup + ")"@,
        }
    }

    /// The text of the error, where `source` is the text of its cause, and
    /// `cleanup` that of a failure to clean up after it.
    pub fn describe(&self, source: &str, cleanup: &str) -> (message: String)
        ensures
            message@ == self.text(source@, cleanup@),
    {
        let prefix: &str = match self {
            EdgeRuntimeError::TransportStopped => {
                return "Edge transport stopped unexpectedly".to_owned();
            },
            EdgeRuntimeError::HttpsStopped => {
                return "HTTPS ingress stopped unexpectedly".to_owned();
            },
            EdgeRuntimeError::OperationsStopped => {
                return "operations endpoint stopped unexpectedly".to_owned();
            },
            EdgeRuntimeError::TransportTask(error) => {
                return "Edge transport task failed: ".to_owned().concat(error.as_str());
            },
            EdgeRuntimeError::HttpsTask(error) => {
                return "HTTPS ingress task failed: ".to_owned().concat(error.as_str());
            },
            EdgeRuntimeError::OperationsTask(error) => {
                return "operations endpoint task failed: ".to_owned().concat(error.as_str());
            },
            EdgeRuntimeError::OperationsStartupRollback { .. } => {
                return "operations endpoint startup failed (".to_owned().concat(source).concat(
                    ") and raw-route rollback also failed (",
                ).concat(cleanup).concat(")");
            },
            EdgeRuntimeError::StartupRollback { .. } => {
                return "raw route startup failed (".to_owned().concat(source).concat(
                    ") and rollback also failed (",
                ).concat(cleanup).concat(")");
            },
            EdgeRuntimeError::InvalidConfig(_) => "invalid Edge runtime config: ",
            EdgeRuntimeError::Bind(_) => "Edge listener bind failed: ",
            EdgeRuntimeError::RouteStartup(_) => "raw route startup failed: ",
            EdgeRuntimeError::RouteRecovery(_) => "raw route recovery failed: ",
            EdgeRuntimeError::Transport(_) => "Edge transport failed: ",
            EdgeRuntimeError::RouteShutdown(_) => "raw route shutdown failed: ",
            EdgeRuntimeError::HttpsStartup(_) => "HTTPS ingress startup failed: ",
            EdgeRuntimeError::Https(_) => "HTTPS ingress failed: ",
            EdgeRuntimeError::OperationsStartup(_) => "operations endpoint startup failed: ",
            EdgeRuntimeError::Operations(_) => "operations endpoint failed: ",
        };
        prefix.to_owned().concat(source)
    }

    /// The text of the error's cause, where `name` is how the address or session that
    /// it concerns is written, unless the system's own text is part of it.
    pub open spec fn known_source(self, name: Seq<char>) -> Option<Seq<char>> {
        match self {
            EdgeRuntimeError::InvalidConfig(error) => Some(error.text(name)),
            EdgeRuntimeError::Bind(_) | EdgeRuntimeError::Transport(_) => None,
            EdgeRuntimeError::RouteStartup(error) | EdgeRuntimeError::RouteRecovery(error)
            | EdgeRuntimeError::RouteShutdown(error) => known_route_text(error, name),
            EdgeRuntimeError::HttpsStartup(error) | EdgeRuntimeError::Https(error) => if error
                is InvalidConfig {
                Some(error.text(name))
            } else {
                None
            },
            EdgeRuntimeError::OperationsStartup(error) | EdgeRuntimeError::Operations(error) =>
                known_operations_text(error),
            EdgeRuntimeError::OperationsStartupRollback { startup, .. } => known_operations_text(
                startup,
            ),
            EdgeRuntimeError::StartupRollback { startup, .. } => known_route_text(startup, name),
            _ => Some(Seq::empty()),
        }
    }

    /// The text of the failure to clean up after the error, if there was one, unless
    /// the system's own text is part of it.
    pub open spec fn known_cleanup(self, name: Seq<char>) -> Option<Seq<char>>
        decreases self, 0int,
    {
        match self {
            EdgeRuntimeError::OperationsStartupRollback { cleanup, .. } => known_route_text(
                cleanup,
                name,
            ),
            EdgeRuntimeError::StartupRollback { cleanup, .. } => (*cleanup).known_text(name),
            _ => Some(Seq::empty()),
        }
    }

    /// The text of the error with those of its causes, unless the system's own text is
    /// part of it.
    pub open spec fn known_text(self, name: Seq<char>) -> Option<Seq<char>>
        decreases self, 1int,
    {
        match (self.known_source(name), self.known_cleanup(name)) {
            (Some(source), Some(cleanup)) => Some(self.text(source, cleanup)),
            _ => None,
        }
    }

    /// The text of the error with those of its causes, where `name` is how the
    /// address or session that it concerns is written.
    pub fn message(&self, name: &str) -> (message: String)
        ensures
            self.known_text(name@) matches Some(text) ==> message@ == text,
            exists|source: Seq<char>, cleanup: Seq<char>|
                message@ == #[trigger] self.text(source, cleanup),
        decreases self,
    {
        let source: String = match self {
            EdgeRuntimeError::InvalidConfig(error) => error.message(name),
            EdgeRuntimeError::Bind(error) | EdgeRuntimeError::Transport(error) => io_error_text(
                error,
            ),
            EdgeRuntimeError::RouteStartup(error) => error.message(name),
            EdgeRuntimeError::RouteRecovery(error) => error.message(name),
            EdgeRuntimeError::RouteShutdown(error) => error.message(name),
            EdgeRuntimeError::HttpsStartup(error) => error.message(name),
            EdgeRuntimeError::Https(error) => error.message(name),
            EdgeRuntimeError::OperationsStartup(error) => error.message(),
            EdgeRuntimeError::Operations(error) => error.message(),
            EdgeRuntimeError::OperationsStartupRollback { startup, .. } => startup.message(),
            EdgeRuntimeError::StartupRollback { startup, .. } => startup.message(name),
            _ => String::new(),
        };
        let cleanup: String = match self {
            EdgeRuntimeError::OperationsStartupRollback { cleanup, .. } => cleanup.message(name),
            EdgeRuntimeError::StartupRollback { cleanup, .. } => cleanup.message(name),
            _ => String::new(),
        };
        self.describe(source.as_str(), cleanup.as_str())
    }
}

/// The text of a route's error, unless the system's own text is part of it.
pub open spec fn known_route_text(error: RawIngressRouteError, name: Seq<char>) -> Option<
    Seq<char>,
> {
    if error is Bind {
        None
    } else {
        Some(error.text(name))
    }
}

/// The text of the operations endpoint's error, unless the system's own text is part
/// of it.
pub open spec fn known_operations_text(error: EdgeOperationsError) -> Option<Seq<char>> {
    if error is InvalidConfig {
        Some(error.text(Seq::empty()))
    } else {
        None
    }
}

/// How a task ended: with what it returned, or with the reason why it could not
/// finish.
pub type TransportResult = Result<Result<RuntimeShutdownOutcome, std::io::Error>, String>;

pub type HttpsResult = Result<Result<HttpIngressOutcome, HttpIngressError>, String>;

pub type OperationsResult = Result<Result<EdgeOperationsOutcome, EdgeOperationsError>, String>;

/// What the transport's task left, once it was told to stop.
pub open spec fn transport_outcome(result: TransportResult) -> Result<
    RuntimeShutdownOutcome,
    EdgeRuntimeError,
> {
    match result {
        Ok(Ok(outcome)) => Ok(outcome),
        Ok(Err(error)) => Err(EdgeRuntimeError::Transport(error)),
        Err(error) => Err(EdgeRuntimeError::TransportTask(error)),
    }
}

/// What the HTTPS ingress's task left, once it was told to stop.
pub open spec fn https_outcome(result: HttpsResult) -> Result<
    HttpIngressOutcome,
    EdgeRuntimeError,
> {
    match result {
        Ok(Ok(outcome)) => Ok(outcome),
        Ok(Err(error)) => Err(EdgeRuntimeError::Https(error)),
        Err(error) => Err(EdgeRuntimeError::HttpsTask(error)),
    }
}

/// What the operations endpoint's task left, once it was told to stop.
pub open spec fn operations_outcome(result: OperationsResult) -> Result<
    EdgeOperationsOutcome,
    EdgeRuntimeError,
> {
    match result {
        Ok(Ok(outcome)) => Ok(outcome),
        Ok(Err(error)) => Err(EdgeRuntimeError::Operations(error)),
        Err(error) => Err(EdgeRuntimeError::OperationsTask(error)),
    }
}

/// What the transport's task left, once it was told to stop.
pub fn await_transport(result: TransportResult) -> (outcome: Result<
    RuntimeShutdownOutcome,
    EdgeRuntimeError,
>)
    ensures
        outcome == transport_outcome(result),
{
    match result {
        Ok(Ok(outcome)) => Ok(outcome),
        Ok(Err(error)) => Err(EdgeRuntimeError::Transport(error)),
        Err(error) => Err(EdgeRuntimeError::TransportTask(error)),
    }
}

/// What the HTTPS ingress's task left, once it was told to stop.
pub fn await_https(result: HttpsResult) -> (outcome: Result<HttpIngressOutcome, EdgeRuntimeError>)
    ensures
        outcome == https_outcome(result),
{
    match result {
        Ok(Ok(outcome)) => Ok(outcome),
        Ok(Err(error)) => Err(EdgeRuntimeError::Https(error)),
        Err(error) => Err(EdgeRuntimeError::HttpsTask(error)),
    }
}

/// What the operations endpoint's task left, once it was told to stop.
pub fn await_operations(result: OperationsResult) -> (outcome: Result<
    EdgeOperationsOutcome,
    EdgeRuntimeError,
>)
    ensures
        outcome == operations_outcome(result),
{
    match result {
        Ok(Ok(outcome)) => Ok(outcome),
        Ok(Err(error)) => Err(EdgeRuntimeError::Operations(error)),
        Err(error) => Err(EdgeRuntimeError::OperationsTask(error)),
    }
}

/// Why the transport ended though nobody told it to.
pub fn unexpected_transport_result(result: TransportResult) -> (error: EdgeRuntimeError)
    ensures
        error == (match transport_outcome(result) {
            Ok(_) => EdgeRuntimeError::TransportStopped,
            Err(error) => error,
        }),
{
    match await_transport(result) {
        Ok(_) => EdgeRuntimeError::TransportStopped,
        Err(error) => error,
    }
}

/// Why the HTTPS ingress ended though nobody told it to.
pub fn unexpected_https_result(result: HttpsResult) -> (error: EdgeRuntimeError)
    ensures
        error == (match https_outcome(result) {
            Ok(_) => EdgeRuntimeError::HttpsStopped,
            Err(error) => error,
        }),
{
    match await_https(result) {
        Ok(_) => EdgeRuntimeError::HttpsStopped,
        Err(error) => error,
    }
}

/// Why the operations endpoint ended though nobody told it to.
pub fn unexpected_operations_result(result: OperationsResult) -> (error: EdgeRuntimeError)
    ensures
        error == (match operations_outcome(result) {
            Ok(_) => EdgeRuntimeError::OperationsStopped,
            Err(error) => error,
        }),
{
    match await_operations(result) {
        Ok(_) => EdgeRuntimeError::OperationsStopped,
        Err(error) => error,
    }
}

/// Why an edge could not start whose operations endpoint could not be bound after
/// its raw route was, where `cleanup` says how removing the route went.
pub fn operations_startup_failure(
    startup: EdgeOperationsError,
    cleanup: Result<RuntimeShutdownOutcome, RawIngressRouteError>,
) -> (error: EdgeRuntimeError)
    ensures
        error == (match cleanup {
            Ok(_) => EdgeRuntimeError::OperationsStartup(startup),
            Err(cleanup) => EdgeRuntimeError::OperationsStartupRollback { startup, cleanup },
        }),
{
    match cleanup {
        Ok(_) => EdgeRuntimeError::OperationsStartup(startup),
        Err(cleanup) => EdgeRuntimeError::OperationsStartupRollback { startup, cleanup },
    }
}

/// What is known of the session that serves the edge's tunnel.
#[derive(Debug)]
pub struct TunnelWatch {
    pub tunnel_id: TunnelId,
    pub current_session: Option<TransportSessionId>,
    pub agent_sessions_seen: u64,
}

/// What changed about a tunnel.
#[derive(Debug, Clone, Copy, PartialEq, Eq, Structural)]
pub enum TunnelChange {
    Unchanged,
    Connected(TransportSessionId),
    Disconnected,
}

/// The session that serves a tunnel, by the first entry for it.
pub open spec fn session_of(
    tunnels: Seq<(TunnelId, TransportSessionId)>,
    tunnel: Seq<char>,
) -> Option<TransportSessionId>
    decreases tunnels.len(),
{
    if tunnels.len() == 0 {
        None
    } else if tunnels[0].0@ == tunnel {
        Some(tunnels[0].1)
    } else {
        session_of(tunnels.drop_first(), tunnel)
    }
}

/// The session that serves a tunnel, by the first entry for it.
pub fn find_session(
    tunnels: &Vec<(TunnelId, TransportSessionId)>,
    tunnel: &TunnelId,
) -> (session: Option<TransportSessionId>)
    ensures
        session == session_of(tunnels@, tunnel@),
{
    let mut i: usize = 0;
    assert(tunnels@.skip(0) =~= tunnels@);
    while i < tunnels.len()
        invariant
            i <= tunnels@.len(),
            session_of(tunnels@, tunnel@) == session_of(tunnels@.skip(i as int), tunnel@),
        decreases tunnels@.len() - i,
    {
        if tunnels[i].0.same(tunnel) {
            return Some(tunnels[i].1);
        }
        assert(tunnels@.skip(i as int).drop_first() =~= tunnels@.skip(i + 1));
        i = i + 1;
    }
    None
}

/// One more, or as many as can be counted.
pub open spec fn counted(n: u64) -> u64 {
    if n == u64::MAX {
        n
    } else {
        (n + 1) as u64
    }
}

/// What a watch makes of the tunnels that are connected now, and how many sessions it has
/// seen afterwards.
pub open spec fn watch_leads_to(
    watch: TunnelWatch,
    tunnels: Seq<(TunnelId, TransportSessionId)>,
) -> (TunnelChange, u64) {
    let current = session_of(tunnels, watch.tunnel_id@);
    if current == watch.current_session {
        (TunnelChange::Unchanged, watch.agent_sessions_seen)
    } else {
        match current {
            Some(session) => (
                TunnelChange::Connected(session),
                counted(watch.agent_sessions_seen),
            ),
            None => (TunnelChange::Disconnected, watch.agent_sessions_seen),
        }
    }
}

impl TunnelWatch {
    /// A watch over a tunnel that no session serves yet.
    pub fn start(tunnel_id: TunnelId) -> (watch: TunnelWatch)
        ensures
            watch == (TunnelWatch { tunnel_id, current_session: None, agent_sessions_seen: 0 }),
    {
        TunnelWatch { tunnel_id, current_session: None, agent_sessions_seen: 0 }
    }

    /// Takes the tunnels that are connected now. Each session that comes to serve
    /// the tunnel is counted once.
    pub fn tunnels_changed(&mut self, tunnels: &Vec<(TunnelId, TransportSessionId)>) -> (change:
        TunnelChange)
        ensures
            (change, final(self).agent_sessions_seen) == watch_leads_to(*old(self), tunnels@),
            final(self).tunnel_id == old(self).tunnel_id,
            final(self).current_session == session_of(tunnels@, old(self).tunnel_id@),
            change == (if final(self).current_session == old(self).current_session {
                TunnelChange::Unchanged
            } else {
                match final(self).current_session {
                    Some(session) => TunnelChange::Connected(session),
                    None => TunnelChange::Disconnected,
                }
            }),
            final(self).agent_sessions_seen == (if change is Connected {
                counted(old(self).agent_sessions_seen)
            } else {
                old(self).agent_sessions_seen
            }),
    {
        let next: Option<TransportSessionId> = find_session(tunnels, &self.tunnel_id);
        let same: bool = match (next, self.current_session) {
            (Some(next), Some(current)) => next == current,
            (None, None) => true,
            _ => false,
        };
        if same {
            return TunnelChange::Unchanged;
        }
        self.current_session = next;
        match next {
            Some(session) => {
                self.agent_sessions_seen = self.agent_sessions_seen.saturating_add(1);
                TunnelChange::Connected(session)
            },
            None => TunnelChange::Disconnected,
        }
    }
}

/// A bound edge, ready for its one Agent.
#[derive(Debug)]
pub struct EdgeRuntime {
    pub config: EdgeRuntimeConfig,
    pub transport: MultiplexedEdgeRuntime,
}

/// What comes of binding an edge, where `bound` is where its listener for Agents was
/// bound, or why it was not.
pub open spec fn edge_bound(
    config: EdgeRuntimeConfig,
    bound: Result<SocketAddr, std::io::Error>,
    version: Option<u64>,
    health: Option<SnapshotSourceHealth>,
    result: Result<EdgeRuntime, EdgeRuntimeError>,
) -> bool {
    match result {
        Err(EdgeRuntimeError::InvalidConfig(fault)) => runtime_fault(config) == Some(fault),
        Err(EdgeRuntimeError::Bind(error)) => runtime_fault(config) is None && bound == Err::<
            SocketAddr,
            std::io::Error,
        >(error),
        Err(_) => false,
        Ok(edge) => {
            &&& runtime_fault(config) is None
            &&& bound == Ok::<SocketAddr, std::io::Error>(edge.transport.local_addr)
            &&& edge.config == config
            &&& edge.transport.wf()
            &&& edge.transport.config == config.multiplex
            &&& edge.transport.open_connections == 0
            &&& edge.transport.snapshots_open == config.grants.live_updates
            &&& edge.transport.session_ids.counter == 0
            &&& edge.transport.router.accepting_streams
            &&& edge.transport.router.sessions@.len() == 0
            &&& edge.transport.router.tunnels@.len() == 0
            &&& edge.transport.router.authorization.revoked_sessions == 0
            &&& edge.transport.router.authorization.version == version
            &&& edge.transport.router.authorization.source == (match health {
                Some(health) => if config.grants.live_updates {
                    source_of(health)
                } else {
                    AuthorizationSourceStatus::Static
                },
                None => AuthorizationSourceStatus::Static,
            })
        },
    }
}

impl EdgeRuntime {
    /// Takes the listener for Agents that was bound for a configuration, or the reason
    /// why none was, with the version and the health of the snapshots that its policy
    /// follows, if it follows any.
    pub fn bind(
        config: EdgeRuntimeConfig,
        bound: Result<SocketAddr, std::io::Error>,
        version: Option<u64>,
        health: Option<SnapshotSourceHealth>,
    ) -> (result: Result<EdgeRuntime, EdgeRuntimeError>)
        ensures
            edge_bound(config, bound, version, health, result),
    {
        match config.validate() {
            Ok(()) => {},
            Err(error) => return Err(EdgeRuntimeError::InvalidConfig(error)),
        }
        match MultiplexedEdgeRuntime::bind(
            config.multiplex,
            bound,
            version,
            health,
            config.grants.live_updates,
        ) {
            Ok(transport) => Ok(EdgeRuntime { config, transport }),
            Err(TransportStartError::InvalidConfig(error)) => Err(
                EdgeRuntimeError::InvalidConfig(EdgeRuntimeConfigError::Multiplex(error)),
            ),
            Err(TransportStartError::Bind(error)) => Err(EdgeRuntimeError::Bind(error)),
        }
    }

    /// Where Agents connect.
    pub fn agent_addr(&self) -> (address: SocketAddr)
        ensures
            address == self.transport.local_addr,
    {
        self.transport.local_addr
    }

    /// The registry of sessions and tunnels.
    pub fn router(&self) -> (router: &EdgeSessionRouter)
        ensures
            *router == self.transport.router,
    {
        &self.transport.router
    }

    /// The edge once its ingress is bound: the HTTPS ingress where one is configured,
    /// else a raw listener at `raw_addr`.
    pub fn start(&self, raw_addr: Option<SocketAddr>) -> (supervisor: EdgeSupervisor)
        requires
            raw_addr is None <==> self.config.https_ingress is Some,
        ensures
            supervisor == (EdgeSupervisor {
                agent_addr: self.transport.local_addr,
                raw_addr,
                has_operations: self.config.operations is Some,
                watch: TunnelWatch {
                    tunnel_id: self.config.tunnel_id,
                    current_session: None,
                    agent_sessions_seen: 0,
                },
            }),
    {
        EdgeSupervisor::start(
            self.transport.local_addr,
            raw_addr,
            self.config.operations.is_some(),
            self.config.tunnel_id.clone(),
        )
    }
}

/// Why a running edge stops.
#[derive(Debug)]
pub enum StopCause {
    Requested,
    /// The Agents' transport ended by itself.
    TransportEnded(TransportResult),
    /// The HTTPS ingress ended by itself.
    HttpsEnded(HttpsResult),
    /// The operations endpoint ended by itself.
    OperationsEnded(OperationsResult),
    /// Nobody reports the connected tunnels any more.
    TunnelsClosed,
}

/// A part of the edge that is told to stop and waited for, or told that the edge is
/// draining.
#[derive(Debug, Clone, Copy, PartialEq, Eq, Structural)]
pub enum StopAction {
    /// Show the edge as draining.
    MarkDraining,
    StopRoutes,
    StopHttps,
    StopOperations,
    StopTransport,
}

/// What the parts of the edge reported that were told to stop.
#[derive(Debug)]
pub struct StopReports {
    pub routes: Option<Result<RuntimeShutdownOutcome, RawIngressRouteError>>,
    pub https: Option<HttpsResult>,
    /// Nothing where there is no operations endpoint.
    pub operations: Option<OperationsResult>,
    pub transport: Option<TransportResult>,
}

/// A running edge: its addresses, and the tunnel that it watches. It has a raw
/// listener or an HTTPS one.
#[derive(Debug)]
pub struct EdgeSupervisor {
    pub agent_addr: SocketAddr,
    /// Where the raw listener is bound; nothing where HTTPS takes its place.
    pub raw_addr: Option<SocketAddr>,
    /// Whether it has an operations endpoint.
    pub has_operations: bool,
    pub watch: TunnelWatch,
}

/// What stops, and in which order. New traffic stops before the endpoint that
/// reports on it, and the Agents' transport last.
pub open spec fn stop_plan(https: bool, cause: StopCause) -> Seq<StopAction> {
    let ingress = if https {
        StopAction::StopHttps
    } else {
        StopAction::StopRoutes
    };
    match cause {
        StopCause::Requested => seq![
            StopAction::MarkDraining,
            ingress,
            StopAction::StopOperations,
            StopAction::StopTransport,
        ],
        StopCause::TransportEnded(_) => seq![
            StopAction::MarkDraining,
            ingress,
            StopAction::StopOperations,
        ],
        StopCause::HttpsEnded(_) => seq![
            StopAction::MarkDraining,
            StopAction::StopOperations,
            StopAction::StopTransport,
        ],
        StopCause::OperationsEnded(_) => seq![ingress, StopAction::StopTransport],
        StopCause::TunnelsClosed => seq![],
    }
}

/// What the endpoint left, where there was one.
pub open spec fn endpoint_outcome(result: Option<OperationsResult>) -> Result<
    Option<EdgeOperationsOutcome>,
    EdgeRuntimeError,
> {
    match result {
        None => Ok(None),
        Some(result) => match operations_outcome(result) {
            Ok(outcome) => Ok(Some(outcome)),
            Err(error) => Err(error),
        },
    }
}

/// What the endpoint left, where there was one.
pub fn shutdown_operations(result: Option<OperationsResult>) -> (outcome: Result<
    Option<EdgeOperationsOutcome>,
    EdgeRuntimeError,
>)
    ensures
        outcome == endpoint_outcome(result),
{
    match result {
        None => Ok(None),
        Some(result) => match await_operations(result) {
            Ok(outcome) => Ok(Some(outcome)),
            Err(error) => Err(error),
        },
    }
}

/// The failure that an event by itself stands for.
pub open spec fn cause_error(cause: StopCause) -> EdgeRuntimeError {
    match cause {
        StopCause::Requested | StopCause::TunnelsClosed => EdgeRuntimeError::TransportStopped,
        StopCause::TransportEnded(result) => match transport_outcome(result) {
            Ok(_) => EdgeRuntimeError::TransportStopped,
            Err(error) => error,
        },
        StopCause::HttpsEnded(result) => match https_outcome(result) {
            Ok(_) => EdgeRuntimeError::HttpsStopped,
            Err(error) => error,
        },
        StopCause::OperationsEnded(result) => match operations_outcome(result) {
            Ok(_) => EdgeRuntimeError::OperationsStopped,
            Err(error) => error,
        },
    }
}

/// The routes' failure to stop comes first, where they were told to.
pub open spec fn routes_fault(reports: StopReports) -> Option<EdgeRuntimeError> {
    match reports.routes {
        Some(Err(error)) => Some(EdgeRuntimeError::RouteShutdown(error)),
        _ => None,
    }
}

/// Everyone reported who was told to stop, and nobody whom the edge does not have.
pub open spec fn all_reported(
    https: bool,
    has_operations: bool,
    cause: StopCause,
    reports: StopReports,
) -> bool {
    &&& reports.routes is Some <==> stop_plan(https, cause).contains(StopAction::StopRoutes)
    &&& reports.https is Some <==> stop_plan(https, cause).contains(StopAction::StopHttps)
    &&& reports.operations is Some <==> has_operations && stop_plan(https, cause).contains(
        StopAction::StopOperations,
    )
    &&& reports.transport is Some <==> stop_plan(https, cause).contains(StopAction::StopTransport)
}

impl EdgeSupervisor {
    /// Whether the edge has an HTTPS listener.
    pub open spec fn https(self) -> bool {
        self.raw_addr is None
    }

    /// Whether the edge can stop for that cause.
    pub open spec fn may_stop_for(self, cause: StopCause) -> bool {
        &&& cause is HttpsEnded ==> self.https()
        &&& cause is OperationsEnded ==> self.has_operations
    }

    /// A running edge whose tunnel no session serves yet.
    pub fn start(
        agent_addr: SocketAddr,
        raw_addr: Option<SocketAddr>,
        has_operations: bool,
        tunnel_id: TunnelId,
    ) -> (supervisor: EdgeSupervisor)
        ensures
            supervisor == (EdgeSupervisor {
                agent_addr,
                raw_addr,
                has_operations,
                watch: TunnelWatch { tunnel_id, current_session: None, agent_sessions_seen: 0 },
            }),
    {
        EdgeSupervisor {
            agent_addr,
            raw_addr,
            has_operations,
            watch: TunnelWatch::start(tunnel_id),
        }
    }

    /// What is to be stopped, and in which order.
    pub fn begin_stop(&self, cause: &StopCause) -> (plan: Vec<StopAction>)
        requires
            self.may_stop_for(*cause),
        ensures
            plan@ == stop_plan(self.https(), *cause),
    {
        let ingress: StopAction = if self.raw_addr.is_none() {
            StopAction::StopHttps
        } else {
            StopAction::StopRoutes
        };
        let mut plan: Vec<StopAction> = Vec::new();
        match cause {
            StopCause::Requested => {
                plan.push(StopAction::MarkDraining);
                plan.push(ingress);
                plan.push(StopAction::StopOperations);
                plan.push(StopAction::StopTransport);
            },
            StopCause::TransportEnded(_) => {
                plan.push(StopAction::MarkDraining);
                plan.push(ingress);
                plan.push(StopAction::StopOperations);
            },
            StopCause::HttpsEnded(_) => {
                plan.push(StopAction::MarkDraining);
                plan.push(StopAction::StopOperations);
                plan.push(StopAction::StopTransport);
            },
            StopCause::OperationsEnded(_) => {
                plan.push(ingress);
                plan.push(StopAction::StopTransport);
            },
            StopCause::TunnelsClosed => {},
        }
        assert(plan@ =~= stop_plan(self.https(), *cause));
        plan
    }

    /// What an edge comes to that was asked to stop.
    pub open spec fn requested_stop(self, reports: StopReports) -> Result<
        EdgeRuntimeOutcome,
        EdgeRuntimeError,
    > {
        let ingress_fault = if self.https() {
            match https_outcome(reports.https->0) {
                Ok(_) => None,
                Err(error) => Some(error),
            }
        } else {
            routes_fault(reports)
        };
        let operations = endpoint_outcome(reports.operations);
        let transport = transport_outcome(reports.transport->0);
        if ingress_fault is Some {
            Err(ingress_fault->0)
        } else if operations is Err {
            Err(operations->Err_0)
        } else if transport is Err {
            Err(transport->Err_0)
        } else {
            Ok(
                EdgeRuntimeOutcome {
                    agent_addr: self.agent_addr,
                    raw_addr: self.raw_addr,
                    agent_sessions_seen: self.watch.agent_sessions_seen,
                    route_generations: 1,
                    successful_recoveries: if self.watch.agent_sessions_seen == 0 {
                        0
                    } else {
                        (self.watch.agent_sessions_seen - 1) as u64
                    },
                    raw_routes: if self.https() {
                        RuntimeShutdownOutcome::Drained { completed_tasks: 0 }
                    } else {
                        reports.routes->0->Ok_0
                    },
                    https_ingress: if self.https() {
                        Some(https_outcome(reports.https->0)->Ok_0)
                    } else {
                        None
                    },
                    operations: operations->Ok_0,
                    agent_sessions: transport->Ok_0,
                },
            )
        }
    }

    /// What an edge comes to that stopped for that cause, by the reports of its
    /// parts.
    pub open spec fn stop_result(self, cause: StopCause, reports: StopReports) -> Result<
        EdgeRuntimeOutcome,
        EdgeRuntimeError,
    > {
        match cause {
            StopCause::Requested => self.requested_stop(reports),
            StopCause::TransportEnded(_) => if self.https() {
                Err(cause_error(cause))
            } else if routes_fault(reports) is Some {
                Err(routes_fault(reports)->0)
            } else if endpoint_outcome(reports.operations) is Err {
                Err(endpoint_outcome(reports.operations)->Err_0)
            } else {
                Err(cause_error(cause))
            },
            StopCause::OperationsEnded(_) => if !self.https() && routes_fault(reports) is Some {
                Err(routes_fault(reports)->0)
            } else {
                Err(cause_error(cause))
            },
            StopCause::HttpsEnded(_) | StopCause::TunnelsClosed => Err(cause_error(cause)),
        }
    }

    fn outcome(
        &self,
        raw_routes: RuntimeShutdownOutcome,
        https_ingress: Option<HttpIngressOutcome>,
        operations: Option<EdgeOperationsOutcome>,
        agent_sessions: RuntimeShutdownOutcome,
    ) -> (outcome: EdgeRuntimeOutcome)
        ensures
            outcome == (EdgeRuntimeOutcome {
                agent_addr: self.agent_addr,
                raw_addr: self.raw_addr,
                agent_sessions_seen: self.watch.agent_sessions_seen,
                route_generations: 1,
                successful_recoveries: if self.watch.agent_sessions_seen == 0 {
                    0
                } else {
                    (self.watch.agent_sessions_seen - 1) as u64
                },
                raw_routes,
                https_ingress,
                operations,
                agent_sessions,
            }),
    {
        EdgeRuntimeOutcome {
            agent_addr: self.agent_addr,
            raw_addr: self.raw_addr,
            agent_sessions_seen: self.watch.agent_sessions_seen,
            route_generations: 1,
            successful_recoveries: self.watch.agent_sessions_seen.saturating_sub(1),
            raw_routes,
            https_ingress,
            operations,
            agent_sessions,
        }
    }

    /// What an edge with a raw listener comes to that was asked to stop.
    pub fn shutdown_components(&self, reports: StopReports) -> (result: Result<
        EdgeRuntimeOutcome,
        EdgeRuntimeError,
    >)
        requires
            !self.https(),
            all_reported(false, self.has_operations, StopCause::Requested, reports),
        ensures
            result == self.requested_stop(reports),
    {
        proof {
            lemma_requested_plan();
        }
        let raw_routes: RuntimeShutdownOutcome = match reports.routes.unwrap() {
            Ok(outcome) => outcome,
            Err(error) => return Err(EdgeRuntimeError::RouteShutdown(error)),
        };
        let operations: Option<EdgeOperationsOutcome> = match shutdown_operations(
            reports.operations,
        ) {
            Ok(outcome) => outcome,
            Err(error) => return Err(error),
        };
        match await_transport(reports.transport.unwrap()) {
            Ok(agent_sessions) => Ok(self.outcome(raw_routes, None, operations, agent_sessions)),
            Err(error) => Err(error),
        }
    }

    fn shutdown_https(&self, reports: StopReports) -> (result: Result<
        EdgeRuntimeOutcome,
        EdgeRuntimeError,
    >)
        requires
            self.https(),
            all_reported(true, self.has_operations, StopCause::Requested, reports),
        ensures
            result == self.requested_stop(reports),
    {
        proof {
            lemma_requested_plan();
        }
        let https: HttpIngressOutcome = match await_https(reports.https.unwrap()) {
            Ok(outcome) => outcome,
            Err(error) => return Err(error),
        };
        let operations: Option<EdgeOperationsOutcome> = match shutdown_operations(
            reports.operations,
        ) {
            Ok(outcome) => outcome,
            Err(error) => return Err(error),
        };
        match await_transport(reports.transport.unwrap()) {
            Ok(agent_sessions) => Ok(
                self.outcome(
                    RuntimeShutdownOutcome::Drained { completed_tasks: 0 },
                    Some(https),
                    operations,
                    agent_sessions,
                ),
            ),
            Err(error) => Err(error),
        }
    }

    /// What an edge comes to that stopped for that cause, once everyone reported who
    /// was told to stop.
    pub fn finish_stop(&self, cause: StopCause, reports: StopReports) -> (result: Result<
        EdgeRuntimeOutcome,
        EdgeRuntimeError,
    >)
        requires
            self.may_stop_for(cause),
            all_reported(self.https(), self.has_operations, cause, reports),
        ensures
            result == self.stop_result(cause, reports),
    {
        match cause {
            StopCause::Requested => if self.raw_addr.is_none() {
                self.shutdown_https(reports)
            } else {
                self.shutdown_components(reports)
            },
            StopCause::TransportEnded(ended) => {
                let error: EdgeRuntimeError = unexpected_transport_result(ended);
                if self.raw_addr.is_none() {
                    return Err(error);
                }
                match reports.routes {
                    Some(Err(error)) => return Err(EdgeRuntimeError::RouteShutdown(error)),
                    _ => {},
                }
                match shutdown_operations(reports.operations) {
                    Err(error) => return Err(error),
                    Ok(_) => {},
                }
                Err(error)
            },
            StopCause::HttpsEnded(ended) => Err(unexpected_https_result(ended)),
            StopCause::OperationsEnded(ended) => {
                let error: EdgeRuntimeError = unexpected_operations_result(ended);
                if self.raw_addr.is_none() {
                    return Err(error);
                }
                match reports.routes {
                    Some(Err(error)) => return Err(EdgeRuntimeError::RouteShutdown(error)),
                    _ => {},
                }
                Err(error)
            },
            StopCause::TunnelsClosed => Err(EdgeRuntimeError::TransportStopped),
        }
    }
}

proof fn lemma_requested_plan()
    ensures
        stop_plan(false, StopCause::Requested).contains(StopAction::StopRoutes),
        stop_plan(true, StopCause::Requested).contains(StopAction::StopHttps),
        forall|https: bool|
            (#[trigger] stop_plan(https, StopCause::Requested)).contains(StopAction::StopTransport),
{
    assert(stop_plan(false, StopCause::Requested)[1] is StopRoutes);
    assert(stop_plan(true, StopCause::Requested)[1] is StopHttps);
    assert forall|https: bool|
        (#[trigger] stop_plan(https, StopCause::Requested)).contains(
            StopAction::StopTransport,
        ) by {
        assert(stop_plan(https, StopCause::Requested)[3] is StopTransport);
    }
}

/// An edge succeeds only where it was asked to stop, and reports as many
/// recoveries as sessions came after the first.
pub proof fn only_requested_stops_succeed(
    supervisor: EdgeSupervisor,
    cause: StopCause,
    reports: StopReports,
)
    ensures
        supervisor.stop_result(cause, reports) matches Ok(outcome) ==> {
            &&& cause is Requested
            &&& outcome.successful_recoveries + 1 == outcome.agent_sessions_seen
                || outcome.agent_sessions_seen == 0 && outcome.successful_recoveries == 0
        },
{
}

/// Whatever stops the edge, traffic stops before the endpoint that reports on it,
/// the Agents' transport stops last, and an edge that still shows its readiness
/// shows itself as draining first.
pub proof fn edges_stop_in_order(https: bool, cause: StopCause, i: int, j: int)
    requires
        0 <= i < j < stop_plan(https, cause).len(),
    ensures
        !(stop_plan(https, cause)[i] is StopTransport),
        !(stop_plan(https, cause)[j] is MarkDraining),
        stop_plan(https, cause)[j] is StopRoutes || stop_plan(https, cause)[j] is StopHttps
            ==> stop_plan(https, cause)[i] is MarkDraining,
        stop_plan(https, cause).contains(StopAction::StopOperations) ==> stop_plan(https, cause)[0]
            is MarkDraining,
{
    let plan = stop_plan(https, cause);
    if plan.contains(StopAction::StopOperations) {
        let at = choose|k: int| 0 <= k < plan.len() && plan[k] == StopAction::StopOperations;
        assert(plan[at] is StopOperations);
    }
}

/// An edge that was asked to stop and succeeds says what its operations endpoint did
/// just where it has one.
pub proof fn endpoints_are_accounted_for(supervisor: EdgeSupervisor, reports: StopReports)
    requires
        all_reported(
            supervisor.https(),
            supervisor.has_operations,
            StopCause::Requested,
            reports,
        ),
    ensures
        supervisor.stop_result(StopCause::Requested, reports) matches Ok(outcome) ==> (
        outcome.operations is Some <==> supervisor.has_operations),
{
    assert(stop_plan(supervisor.https(), StopCause::Requested)[2] is StopOperations);
}

/// An edge that was asked to stop, and whose parts all stopped well, reports what each of
/// them reported.
pub proof fn stops_report_every_part(supervisor: EdgeSupervisor, reports: StopReports)
    requires
        all_reported(
            supervisor.https(),
            supervisor.has_operations,
            StopCause::Requested,
            reports,
        ),
        supervisor.https() ==> reports.https->0 is Ok && reports.https->0->Ok_0 is Ok,
        !supervisor.https() ==> reports.routes->0 is Ok,
        reports.operations is Some ==> reports.operations->0 is Ok && reports.operations->0->Ok_0
            is Ok,
        reports.transport->0 is Ok && reports.transport->0->Ok_0 is Ok,
    ensures
        supervisor.stop_result(StopCause::Requested, reports) matches Ok(outcome) && {
            &&& outcome.agent_addr == supervisor.agent_addr
            &&& outcome.raw_addr == supervisor.raw_addr
            &&& outcome.agent_sessions_seen == supervisor.watch.agent_sessions_seen
            &&& supervisor.https() ==> outcome.https_ingress == Some(
                reports.https->0->Ok_0->Ok_0,
            )
            &&& !supervisor.https() ==> outcome.raw_routes == reports.routes->0->Ok_0
                && outcome.https_ingress is None
            &&& outcome.agent_sessions == reports.transport->0->Ok_0->Ok_0
            &&& reports.operations is Some ==> outcome.operations == Some(
                reports.operations->0->Ok_0->Ok_0,
            )
        },
{
}

/// A part that failed to stop is reported, the ingress before the operations endpoint, and
/// that before the Agents' transport; and a part that ended by itself is a failure even
/// where it ended well.
pub proof fn failures_to_stop_are_reported(
    supervisor: EdgeSupervisor,
    cause: StopCause,
    reports: StopReports,
)
    requires
        all_reported(supervisor.https(), supervisor.has_operations, cause, reports),
        supervisor.may_stop_for(cause),
    ensures
        cause is Requested && !supervisor.https() && reports.routes->0 is Err
            ==> supervisor.stop_result(cause, reports) is Err,
        cause is Requested && supervisor.https() && (reports.https->0 is Err
            || reports.https->0->Ok_0 is Err) ==> supervisor.stop_result(cause, reports) is Err,
        cause is Requested && (reports.transport->0 is Err || reports.transport->0->Ok_0 is Err)
            ==> supervisor.stop_result(cause, reports) is Err,
        cause is Requested && reports.operations is Some && (reports.operations->0 is Err
            || reports.operations->0->Ok_0 is Err) ==> supervisor.stop_result(cause, reports)
            is Err,
        !(cause is Requested) ==> supervisor.stop_result(cause, reports) is Err,
        cause is HttpsEnded && cause->HttpsEnded_0 is Ok && cause->HttpsEnded_0->Ok_0 is Ok
            ==> supervisor.stop_result(cause, reports) == Err::<EdgeRuntimeOutcome, _>(
            EdgeRuntimeError::HttpsStopped,
        ),
        cause is TunnelsClosed ==> supervisor.stop_result(cause, reports) == Err::<
            EdgeRuntimeOutcome,
            _,
        >(EdgeRuntimeError::TransportStopped),
{
}

/// A run counts as forced where any of its parts was.
pub proof fn forced_parts_force_the_run(outcome: EdgeRuntimeOutcome)
    ensures
        some_stage_forced(outcome) <==> outcome.raw_routes is Forced || outcome.agent_sessions
            is Forced || (outcome.https_ingress matches Some(https) && https.shutdown is Forced) || (
        outcome.operations matches Some(operations) && operations.shutdown is Forced),
{
}

/// The edge follows the session of its own tunnel: the first binding under its name, and
/// none where nobody serves it.
pub proof fn the_own_tunnel_is_followed(
    tunnels: Seq<(TunnelId, TransportSessionId)>,
    tunnel: Seq<char>,
)
    ensures
        session_of(tunnels, tunnel) is Some <==> exists|i: int|
            0 <= i < tunnels.len() && (#[trigger] tunnels[i]).0@ == tunnel,
        session_of(tunnels, tunnel) matches Some(session) ==> exists|i: int|
            0 <= i < tunnels.len() && (#[trigger] tunnels[i]).0@ == tunnel && tunnels[i].1
                == session,
    decreases tunnels.len(),
{
    if tunnels.len() > 0 {
        let rest = tunnels.drop_first();
        the_own_tunnel_is_followed(rest, tunnel);
        assert(tunnels[0].0@ == tunnel || tunnels[0].0@ != tunnel);
        if exists|i: int| 0 <= i < tunnels.len() && (#[trigger] tunnels[i]).0@ == tunnel {
            let i: int = choose|i: int|
                0 <= i < tunnels.len() && (#[trigger] tunnels[i]).0@ == tunnel;
            if i > 0 {
                assert(rest[i - 1].0@ == tunnel);
            }
        }
        if tunnels[0].0@ != tunnel && session_of(rest, tunnel) is Some {
            let i: int = choose|i: int|
                0 <= i < rest.len() && (#[trigger] rest[i]).0@ == tunnel && rest[i].1
                    == session_of(rest, tunnel)->0;
            assert(tunnels[i + 1].0@ == tunnel && tunnels[i + 1].1 == session_of(rest, tunnel)->0);
        }
    }
}

/// A session that comes to serve the tunnel is announced and counted once: not while it
/// stays, and again when another takes its place; a tunnel that is served no more is
/// announced as such, and nothing is counted.
pub proof fn sessions_are_announced_once(
    watch: TunnelWatch,
    tunnels: Seq<(TunnelId, TransportSessionId)>,
)
    requires
        watch.agent_sessions_seen < u64::MAX,
    ensures
        ({
            let now = session_of(tunnels, watch.tunnel_id@);
            let (change, seen) = watch_leads_to(watch, tunnels);
            &&& change is Unchanged <==> now == watch.current_session
            &&& change is Connected <==> now is Some && now != watch.current_session
            &&& change is Disconnected <==> now is None && watch.current_session is Some
            &&& change is Connected ==> now == Some(change->Connected_0)
            &&& seen - watch.agent_sessions_seen == (if change is Connected {
                1int
            } else {
                0int
            })
        }),
{
}

/// What an edge tells to stop depends on what ended: everything where it was asked to, and
/// what still runs where a part ended by itself; the endpoint is told, and the edge marked
/// as draining, unless it was the endpoint that ended.
pub proof fn what_still_runs_is_stopped(https: bool, cause: StopCause)
    ensures
        ({
            let plan = stop_plan(https, cause);
            let ran = !(cause is TunnelsClosed);
            &&& plan.contains(StopAction::StopTransport) <==> ran && !(cause is TransportEnded)
            &&& plan.contains(StopAction::StopHttps) <==> ran && https && !(cause is HttpsEnded)
            &&& plan.contains(StopAction::StopRoutes) <==> ran && !https && !(cause is HttpsEnded)
            &&& plan.contains(StopAction::StopOperations) <==> ran && !(cause is OperationsEnded)
            &&& plan.contains(StopAction::MarkDraining) <==> ran && !(cause is OperationsEnded)
            &&& plan.no_duplicates()
        }),
{
    let plan = stop_plan(https, cause);
    let ingress = if https {
        StopAction::StopHttps
    } else {
        StopAction::StopRoutes
    };
    match cause {
        StopCause::Requested => {
            assert(plan[0] is MarkDraining && plan[1] == ingress && plan[2] is StopOperations
                && plan[3] is StopTransport);
        },
        StopCause::TransportEnded(_) => {
            assert(plan[0] is MarkDraining && plan[1] == ingress && plan[2] is StopOperations);
        },
        StopCause::HttpsEnded(_) => {
            assert(plan[0] is MarkDraining && plan[1] is StopOperations && plan[2]
                is StopTransport);
        },
        StopCause::OperationsEnded(_) => {
            assert(plan[0] == ingress && plan[1] is StopTransport);
        },
        StopCause::TunnelsClosed => {},
    }
}

} // verus!
