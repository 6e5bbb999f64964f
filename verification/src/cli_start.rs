//! The configurations with which the process starts, and the code with which it ends.

use vstd::prelude::*;
use vstd::string::*;

use crate::agent_transport::{default_agent_listener, AgentListenerConfig};
use crate::cli::ParsedArgs;
use crate::cli_plan::{AuthorizationSource, HttpsPlan, TlsLoadError, TransportPlan};
use crate::http_config::{
    http_ingress_fault, ConnectIngressConfig, Http2IngressConfig, HttpIngressConfig,
    SignedAccessIngressConfig, WebSocketIngressConfig,
};
use crate::http_routes::{HttpHostRouteSource, HttpHostRoutes};
use crate::http_tls::PublicTlsConfig;
use crate::multiplex::{
    default_multiplex, EdgeRegistrationPolicy, EdgeTransportSecurity, MultiplexedEdgeConfig,
};
use crate::names::TunnelId;
use crate::operations::{EdgeOperationsConfig, MIN_OPERATIONS_HEADER_BYTES};
use crate::raw_ingress::RawIngressExposurePolicy;
use crate::runtime::{EdgeRuntimeConfig, RegistrationGrants};
use crate::shutdown::RuntimeShutdownConfig;
use crate::snapshot_runtime::{SnapshotAwareEdgeRuntimeError, SnapshotAwareEdgeRuntimeOutcome};
use crate::supervision::{some_stage_forced, EdgeRuntimeError, EdgeRuntimeOutcome};

verus! {

pub const EXIT_SUCCESS: u8 = 0;

pub const EXIT_FAILURE: u8 = 1;

/// The code for a command line or a configuration that cannot be used.
pub const EXIT_USAGE: u8 = 2;

/// How many bytes a request may have in flight to its tunnel.
pub const DUPLEX_CAPACITY: usize = 64 * 1024;

/// The HTTPS ingress that a command line asks for, where `key_count` is how many keys
/// were loaded from its key ring, if it asks for one.
pub open spec fn https_config_of(
    p: ParsedArgs,
    plan: HttpsPlan,
    tls: PublicTlsConfig,
    key_count: Option<usize>,
    routes: HttpHostRoutes,
) -> HttpIngressConfig {
    HttpIngressConfig {
        listen_addr: plan.listen_addr,
        routes,
        tls,
        exposure: plan.exposure,
        max_concurrent_connections: p.max_http_connections,
        max_header_bytes: p.max_http_header_bytes,
        max_headers: p.max_http_headers,
        max_request_body_bytes: p.max_http_request_body_bytes,
        max_requests_per_connection: p.max_http_requests_per_connection,
        http2: if p.enable_http2 {
            Some(
                Http2IngressConfig {
                    max_concurrent_streams: p.max_http2_concurrent_streams,
                    keep_alive_interval: p.http2_keep_alive_interval,
                    keep_alive_timeout: p.http2_keep_alive_timeout,
                },
            )
        } else {
            None
        },
        websocket: if p.enable_websocket_upgrade || p.enable_http2_websocket {
            Some(
                WebSocketIngressConfig {
                    enable_http1: p.enable_websocket_upgrade,
                    enable_http2: p.enable_http2_websocket,
                    max_concurrent_sessions: p.max_websocket_sessions,
                    idle_timeout: p.websocket_idle_timeout,
                },
            )
        } else {
            None
        },
        connect: if p.enable_connect || p.enable_http2_connect {
            Some(
                ConnectIngressConfig {
                    enable_http1: p.enable_connect,
                    enable_http2: p.enable_http2_connect,
                    max_concurrent_sessions: p.max_connect_sessions,
                    idle_timeout: p.connect_idle_timeout,
                    authority_port: p.connect_authority_port,
                },
            )
        } else {
            None
        },
        signed_access: match (plan.key_ring, key_count) {
            (Some(_), Some(key_count)) => Some(
                SignedAccessIngressConfig {
                    key_count,
                    maximum_ttl: p.signed_access_maximum_ttl,
                    clock_skew: p.signed_access_clock_skew,
                },
            ),
            _ => None,
        },
        request_rate_limit: plan.request_rate_limit,
        header_read_timeout: p.http_header_timeout,
        request_timeout: p.http_request_timeout,
        duplex_capacity: DUPLEX_CAPACITY,
        shutdown: RuntimeShutdownConfig { drain_timeout: p.drain_timeout },
    }
}

/// The routes with which the ingress starts: the one hostname that was named, or none
/// until the route service has been heard.
pub open spec fn first_routes(p: ParsedArgs, routes: HttpHostRoutes) -> bool {
    match p.https_host {
        Some(hostname) => routes.source is Static && routes@ == seq![(hostname@, p.tunnel_id@)],
        None => routes@.len() == 0 && (routes.source matches HttpHostRouteSource::Dynamic(catalog)
            && catalog.version == 1 && catalog.health is Expired && catalog.routes@.len() == 0),
    }
}

/// The HTTPS ingress that a command line asks for, where `key_count` is how many keys
/// were loaded from its key ring, if it asks for one. An ingress that asks for signed
/// access never starts without its keys.
pub fn https_configuration(
    parsed: &ParsedArgs,
    plan: &HttpsPlan,
    tls: PublicTlsConfig,
    key_count: Option<usize>,
) -> (result: Result<HttpIngressConfig, TlsLoadError>)
    ensures
        match result {
            Ok(config) => {
                &&& config.signed_access is Some <==> plan.key_ring is Some
                &&& config == https_config_of(*parsed, *plan, tls, key_count, config.routes)
                &&& first_routes(*parsed, config.routes)
                &&& http_ingress_fault(config) is None
            },
            Err(TlsLoadError::InvalidSignedAccessKeyRing) => plan.key_ring is Some && key_count
                is None,
            Err(TlsLoadError::InvalidHttpIngress(fault)) => !(plan.key_ring is Some && key_count
                is None) && forall|routes: HttpHostRoutes|
                http_ingress_fault(
                    #[trigger] https_config_of(*parsed, *plan, tls, key_count, routes),
                ) == Some(fault),
            Err(_) => false,
        },
{
    let routes: HttpHostRoutes = match &parsed.https_host {
        Some(hostname) => HttpHostRoutes::single(hostname.clone(), parsed.tunnel_id.clone()),
        None => HttpHostRoutes::dynamic_unavailable(),
    };
    let http2: Option<Http2IngressConfig> = if parsed.enable_http2 {
        Some(
            Http2IngressConfig {
                max_concurrent_streams: parsed.max_http2_concurrent_streams,
                keep_alive_interval: parsed.http2_keep_alive_interval,
                keep_alive_timeout: parsed.http2_keep_alive_timeout,
            },
        )
    } else {
        None
    };
    let websocket: Option<WebSocketIngressConfig> = if parsed.enable_websocket_upgrade
        || parsed.enable_http2_websocket {
        Some(
            WebSocketIngressConfig {
                enable_http1: parsed.enable_websocket_upgrade,
                enable_http2: parsed.enable_http2_websocket,
                max_concurrent_sessions: parsed.max_websocket_sessions,
                idle_timeout: parsed.websocket_idle_timeout,
            },
        )
    } else {
        None
    };
    let connect: Option<ConnectIngressConfig> = if parsed.enable_connect
        || parsed.enable_http2_connect {
        Some(
            ConnectIngressConfig {
                enable_http1: parsed.enable_connect,
                enable_http2: parsed.enable_http2_connect,
                max_concurrent_sessions: parsed.max_connect_sessions,
                idle_timeout: parsed.connect_idle_timeout,
                authority_port: parsed.connect_authority_port,
            },
        )
    } else {
        None
    };
    let signed_access: Option<SignedAccessIngressConfig> = if plan.key_ring.is_some() {
        match key_count {
            Some(key_count) => Some(
                SignedAccessIngressConfig {
                    key_count,
                    maximum_ttl: parsed.signed_access_maximum_ttl,
                    clock_skew: parsed.signed_access_clock_skew,
                },
            ),
            None => return Err(TlsLoadError::InvalidSignedAccessKeyRing),
        }
    } else {
        None
    };
    let config = HttpIngressConfig {
        listen_addr: plan.listen_addr,
        routes,
        tls,
        exposure: plan.exposure,
        max_concurrent_connections: parsed.max_http_connections,
        max_header_bytes: parsed.max_http_header_bytes,
        max_headers: parsed.max_http_headers,
        max_request_body_bytes: parsed.max_http_request_body_bytes,
        max_requests_per_connection: parsed.max_http_requests_per_connection,
        http2,
        websocket,
        connect,
        signed_access,
        request_rate_limit: plan.request_rate_limit,
        header_read_timeout: parsed.http_header_timeout,
        request_timeout: parsed.http_request_timeout,
        duplex_capacity: DUPLEX_CAPACITY,
        shutdown: RuntimeShutdownConfig::new(parsed.drain_timeout),
    };
    match config.validate() {
        Ok(()) => Ok(config),
        Err(error) => {
            assert forall|other: HttpHostRoutes|
                http_ingress_fault(
                    #[trigger] https_config_of(*parsed, *plan, tls, key_count, other),
                ) == Some(error) by {
                assert(config == https_config_of(*parsed, *plan, tls, key_count, config.routes));
            }
            Err(TlsLoadError::InvalidHttpIngress(error))
        },
    }
}

/// The operations endpoint that a command line asks for, if it does.
pub open spec fn operations_of(p: ParsedArgs) -> Option<EdgeOperationsConfig> {
    match p.ops_listen {
        None => None,
        Some(listen_addr) => Some(
            EdgeOperationsConfig {
                listen_addr,
                max_concurrent_connections: p.max_ops_connections,
                max_header_bytes: MIN_OPERATIONS_HEADER_BYTES,
                max_headers: 16,
                header_read_timeout: p.ops_header_timeout,
                request_timeout: p.ops_request_timeout,
                shutdown: RuntimeShutdownConfig { drain_timeout: p.drain_timeout },
            },
        ),
    }
}

/// The transport that a command line asks for, before anything was read.
pub open spec fn transport_of(p: ParsedArgs) -> MultiplexedEdgeConfig {
    MultiplexedEdgeConfig {
        agent_listener: AgentListenerConfig {
            listen_addr: p.agent_listen,
            max_agent_sessions: p.max_agent_sessions,
            ..default_agent_listener()
        },
        max_streams_per_session: p.max_streams,
        ..default_multiplex()
    }
}

/// The edge that a command line asks for, before anything was read: its Agents come
/// without TLS, and its one tunnel is the one that was named.
pub fn edge_configuration(parsed: &ParsedArgs, raw_exposure: RawIngressExposurePolicy) -> (config:
    EdgeRuntimeConfig)
    ensures
        config.multiplex == transport_of(*parsed),
        config.multiplex == (MultiplexedEdgeConfig {
            agent_listener: AgentListenerConfig {
                listen_addr: parsed.agent_listen,
                max_agent_sessions: parsed.max_agent_sessions,
                ..default_agent_listener()
            },
            max_streams_per_session: parsed.max_streams,
            ..default_multiplex()
        }),
        config.raw_listen_addr == parsed.raw_listen,
        config.tunnel_id == parsed.tunnel_id,
        config.max_raw_connections == parsed.max_raw_connections,
        config.raw_exposure == raw_exposure,
        config.https_ingress is None,
        config.shutdown == (RuntimeShutdownConfig { drain_timeout: parsed.drain_timeout }),
        config.operations == operations_of(*parsed),
        config.grants.tunnels@ == seq![parsed.tunnel_id],
        !config.grants.live_updates,
        !config.grants.dynamic_snapshots,
{
    let mut config: EdgeRuntimeConfig = EdgeRuntimeConfig::dev_defaults();
    config.multiplex.agent_listener.listen_addr = parsed.agent_listen;
    config.multiplex.max_streams_per_session = parsed.max_streams;
    config.multiplex.agent_listener.max_agent_sessions = parsed.max_agent_sessions;
    config.raw_listen_addr = parsed.raw_listen;
    config.tunnel_id = parsed.tunnel_id.clone();
    config.max_raw_connections = parsed.max_raw_connections;
    config.raw_exposure = raw_exposure;
    config.shutdown = RuntimeShutdownConfig::new(parsed.drain_timeout);
    config.operations = match parsed.ops_listen {
        None => None,
        Some(listen_addr) => {
            let mut operations: EdgeOperationsConfig = EdgeOperationsConfig::loopback(listen_addr);
            operations.max_concurrent_connections = parsed.max_ops_connections;
            operations.header_read_timeout = parsed.ops_header_timeout;
            operations.request_timeout = parsed.ops_request_timeout;
            operations.shutdown = config.shutdown;
            Some(operations)
        },
    };
    let mut tunnels: Vec<TunnelId> = Vec::new();
    tunnels.push(parsed.tunnel_id.clone());
    assert(tunnels@ =~= seq![parsed.tunnel_id]);
    config.grants = RegistrationGrants { tunnels, live_updates: false, dynamic_snapshots: false };
    config
}

/// Whether an edge whose authorization is fixed may start: not with routes that come
/// from a service.
pub fn may_start(plan: &TransportPlan, follows_route_service: bool) -> (yes: bool)
    ensures
        yes == !(follows_route_service && !(plan matches TransportPlan::MutualTls {
            authorization: AuthorizationSource::Snapshots,
            ..
        })),
{
    match plan {
        TransportPlan::MutualTls { authorization: AuthorizationSource::Snapshots, .. } => true,
        _ => !follows_route_service,
    }
}

/// The transport and the policy that a plan leads to.
pub fn planned_security(plan: &TransportPlan) -> (security: (
    EdgeTransportSecurity,
    EdgeRegistrationPolicy,
))
    ensures
        plan is Plaintext ==> security == (
            EdgeTransportSecurity::PlaintextLoopback,
            EdgeRegistrationPolicy::LoopbackDevelopment,
        ),
        plan is MutualTls ==> security == (
            EdgeTransportSecurity::MutualTls,
            EdgeRegistrationPolicy::MutualTls,
        ),
{
    match plan {
        TransportPlan::Plaintext => (
            EdgeTransportSecurity::PlaintextLoopback,
            EdgeRegistrationPolicy::LoopbackDevelopment,
        ),
        TransportPlan::MutualTls { .. } => (
            EdgeTransportSecurity::MutualTls,
            EdgeRegistrationPolicy::MutualTls,
        ),
    }
}

/// The code of an edge that could not start for that reason.
pub open spec fn start_code(error: EdgeRuntimeError) -> u8 {
    if error is InvalidConfig {
        EXIT_USAGE
    } else {
        EXIT_FAILURE
    }
}

/// The code of an edge that could not start.
pub fn edge_start_error(error: &EdgeRuntimeError) -> (code: u8)
    ensures
        code == start_code(*error),
        code == (if error is InvalidConfig {
            EXIT_USAGE
        } else {
            EXIT_FAILURE
        }),
{
    match error {
        EdgeRuntimeError::InvalidConfig(_) => EXIT_USAGE,
        _ => EXIT_FAILURE,
    }
}

/// The code of an edge that could not start from the snapshot service.
pub fn snapshot_start_error(error: &SnapshotAwareEdgeRuntimeError) -> (code: u8)
    ensures
        code == (if error is Edge && error->Edge_0 is InvalidConfig {
            EXIT_USAGE
        } else {
            EXIT_FAILURE
        }),
{
    match error {
        SnapshotAwareEdgeRuntimeError::Edge(error) => edge_start_error(error),
        _ => EXIT_FAILURE,
    }
}

/// The code of an edge that ended like that.
pub open spec fn end_code(result: Result<EdgeRuntimeOutcome, EdgeRuntimeError>) -> u8 {
    if result is Ok && !some_stage_forced(result->Ok_0) {
        EXIT_SUCCESS
    } else {
        EXIT_FAILURE
    }
}

/// The code of an edge that ended: success only where every stage drained in time.
pub fn edge_exit_code(result: &Result<EdgeRuntimeOutcome, EdgeRuntimeError>) -> (code: u8)
    ensures
        code == end_code(*result),
        code == (if result is Ok && !some_stage_forced(result->Ok_0) {
            EXIT_SUCCESS
        } else {
            EXIT_FAILURE
        }),
{
    match result {
        Ok(outcome) => if outcome.was_forced() {
            EXIT_FAILURE
        } else {
            EXIT_SUCCESS
        },
        Err(_) => EXIT_FAILURE,
    }
}

/// The code of an edge that ended and followed the snapshot service.
pub fn snapshot_edge_exit_code(
    result: &Result<SnapshotAwareEdgeRuntimeOutcome, SnapshotAwareEdgeRuntimeError>,
) -> (code: u8)
    ensures
        code == (if result is Ok && !some_stage_forced(result->Ok_0.edge) {
            EXIT_SUCCESS
        } else {
            EXIT_FAILURE
        }),
{
    match result {
        Ok(outcome) => if outcome.was_forced() {
            EXIT_FAILURE
        } else {
            EXIT_SUCCESS
        },
        Err(_) => EXIT_FAILURE,
    }
}

/// A reloader that failed, by the text of its failure.
#[derive(Debug)]
pub enum TlsReloadSupervisorError {
    Edge(String),
    Snapshot(String),
    Public(String),
    HttpsRoute(String),
    Task,
}

impl TlsReloadSupervisorError {
    /// The text shown to an operator.
    pub open spec fn text(self) -> Seq<char> {
        match self {
            TlsReloadSupervisorError::Edge(error) => "Agent-facing TLS reload failed: "@ + error@,
            TlsReloadSupervisorError::Snapshot(error) => "snapshot-client TLS reload failed: "@
                + error@,
            TlsReloadSupervisorError::Public(error) => "public TLS reload failed: "@ + error@,
            TlsReloadSupervisorError::HttpsRoute(error) => "HTTPS route-client TLS reload failed: "@
                + error@,
            TlsReloadSupervisorError::Task => "TLS reload task stopped unexpectedly"@,
        }
    }

    /// The text shown to an operator.
    pub fn message(&self) -> (message: String)
        ensures
            message@ == self.text(),
    {
        match self {
            TlsReloadSupervisorError::Edge(error) => {
                "Agent-facing TLS reload failed: ".to_owned().concat(error.as_str())
            },
            TlsReloadSupervisorError::Snapshot(error) => {
                "snapshot-client TLS reload failed: ".to_owned().concat(error.as_str())
            },
            TlsReloadSupervisorError::Public(error) => {
                "public TLS reload failed: ".to_owned().concat(error.as_str())
            },
            TlsReloadSupervisorError::HttpsRoute(error) => {
                "HTTPS route-client TLS reload failed: ".to_owned().concat(error.as_str())
            },
            TlsReloadSupervisorError::Task => "TLS reload task stopped unexpectedly".to_owned(),
        }
    }
}

/// What ended the reloaders.
#[derive(Debug)]
pub enum ReloadersEnd {
    /// The process stops.
    ShutdownRequested,
    /// A reloader returned, well or with its failure.
    Returned(Result<(), TlsReloadSupervisorError>),
    /// A reloader could not finish.
    Aborted,
}

/// What the reloaders come to.
pub fn reloaders_result(end: ReloadersEnd) -> (result: Result<(), TlsReloadSupervisorError>)
    ensures
        result == (match end {
            ReloadersEnd::ShutdownRequested => Ok(()),
            ReloadersEnd::Returned(result) => result,
            ReloadersEnd::Aborted => Err(TlsReloadSupervisorError::Task),
        }),
{
    match end {
        ReloadersEnd::ShutdownRequested => Ok(()),
        ReloadersEnd::Returned(result) => result,
        ReloadersEnd::Aborted => Err(TlsReloadSupervisorError::Task),
    }
}

/// The code of a process whose reloaders ended before it.
pub fn tls_reload_exit_code(result: &Result<(), TlsReloadSupervisorError>) -> (code: u8)
    ensures
        code == (if result is Ok {
            EXIT_SUCCESS
        } else {
            EXIT_FAILURE
        }),
{
    match result {
        Ok(()) => EXIT_SUCCESS,
        Err(_) => EXIT_FAILURE,
    }
}

/// The ingress is configured by the flags that name its bounds, and everything that must
/// be asked for is off where it was not.
pub proof fn flags_configure_the_ingress(
    p: ParsedArgs,
    plan: HttpsPlan,
    tls: PublicTlsConfig,
    key_count: Option<usize>,
    routes: HttpHostRoutes,
)
    ensures
        ({
            let c = https_config_of(p, plan, tls, key_count, routes);
            &&& c.listen_addr == plan.listen_addr
            &&& c.routes == routes
            &&& c.tls == tls
            &&& c.exposure == plan.exposure
            &&& c.max_concurrent_connections == p.max_http_connections
            &&& c.max_header_bytes == p.max_http_header_bytes
            &&& c.max_headers == p.max_http_headers
            &&& c.max_request_body_bytes == p.max_http_request_body_bytes
            &&& c.max_requests_per_connection == p.max_http_requests_per_connection
            &&& c.header_read_timeout == p.http_header_timeout
            &&& c.request_timeout == p.http_request_timeout
            &&& c.request_rate_limit == plan.request_rate_limit
            &&& c.shutdown.drain_timeout == p.drain_timeout
            &&& c.http2 is Some <==> p.enable_http2
            &&& c.websocket is Some <==> p.enable_websocket_upgrade || p.enable_http2_websocket
            &&& c.websocket is Some ==> c.websocket->0.enable_http1 == p.enable_websocket_upgrade
                && c.websocket->0.enable_http2 == p.enable_http2_websocket
                && c.websocket->0.max_concurrent_sessions == p.max_websocket_sessions
                && c.websocket->0.idle_timeout == p.websocket_idle_timeout
            &&& c.connect is Some <==> p.enable_connect || p.enable_http2_connect
            &&& c.connect is Some ==> c.connect->0.enable_http1 == p.enable_connect
                && c.connect->0.enable_http2 == p.enable_http2_connect
                && c.connect->0.max_concurrent_sessions == p.max_connect_sessions
                && c.connect->0.idle_timeout == p.connect_idle_timeout
                && c.connect->0.authority_port == p.connect_authority_port
            &&& c.http2 is Some ==> c.http2->0.max_concurrent_streams
                == p.max_http2_concurrent_streams && c.http2->0.keep_alive_interval
                == p.http2_keep_alive_interval && c.http2->0.keep_alive_timeout
                == p.http2_keep_alive_timeout
            &&& plan.key_ring is Some && key_count is Some ==> c.signed_access is Some
                && c.signed_access->0.key_count == key_count->0 && c.signed_access->0.maximum_ttl
                == p.signed_access_maximum_ttl && c.signed_access->0.clock_skew
                == p.signed_access_clock_skew
            &&& plan.key_ring is None ==> c.signed_access is None
        }),
{
}

/// An operations endpoint runs just where one is asked for, at the address that was named.
pub proof fn operations_run_where_asked(p: ParsedArgs)
    ensures
        operations_of(p) is Some <==> p.ops_listen is Some,
        operations_of(p) matches Some(operations) ==> Some(operations.listen_addr) == p.ops_listen
            && operations.max_concurrent_connections == p.max_ops_connections
            && operations.header_read_timeout == p.ops_header_timeout
            && operations.request_timeout == p.ops_request_timeout,
{
}

/// The process ends with nothing to report exactly where the edge ended well and every
/// stage drained in time.
pub proof fn codes_tell_how_the_edge_ended(
    result: Result<EdgeRuntimeOutcome, EdgeRuntimeError>,
    error: EdgeRuntimeError,
)
    ensures
        end_code(result) == 0 <==> result is Ok && !some_stage_forced(result->Ok_0),
        start_code(error) == 2 <==> error is InvalidConfig,
        start_code(error) != 0,
{
}

/// The transport listens where it is told to, for as many Agents and streams as it is told,
/// without TLS until certificates were read; everything else has its usual value.
pub proof fn transports_listen_as_asked(p: ParsedArgs)
    ensures
        ({
            let c = transport_of(p);
            &&& c.agent_listener.listen_addr == p.agent_listen
            &&& c.agent_listener.max_agent_sessions == p.max_agent_sessions
            &&& c.agent_listener.handshake_timeout.nanos == 10 * 1_000_000_000
            &&& c.max_streams_per_session == p.max_streams
            &&& c.security is PlaintextLoopback
            &&& c.registration is LoopbackDevelopment
            &&& c.session_command_capacity == 64
            &&& c.per_stream_queue_capacity == 8
            &&& c.control_queue_capacity == 32
            &&& c.data_queue_capacity == 128
            &&& c.stream_open_timeout.nanos == 5 * 1_000_000_000
            &&& c.stream_idle_timeout.nanos == 60 * 1_000_000_000
        }),
        operations_of(p) matches Some(operations) ==> operations.max_header_bytes == 8192
            && operations.max_headers == 16 && operations.shutdown.drain_timeout == p.drain_timeout,
{
}

} // verus!
