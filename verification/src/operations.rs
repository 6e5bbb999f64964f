//! The operations endpoint: its bounds, its requests and its answers.

use vstd::prelude::*;
use vstd::string::*;
use vstd::utf8::encode_utf8;

use crate::bytes::{copy_of, is_text, same_bytes};
use crate::clock::{Duration, NANOS_PER_SEC};
use crate::forward::io_error_text;
use crate::history_page::{
    page_answers, page_json, query_asked, render_request_history, HistoryPage,
    RequestHistoryQuery,
};
use crate::http_headers::{empty_headers, header_fields, insert_header, no_fields, plain_name};
use crate::http_rejection::{
    BAD_REQUEST, METHOD_NOT_ALLOWED, NOT_FOUND, OK, SERVICE_UNAVAILABLE,
};
use crate::http_response::LocalResponse;
use crate::http_routes::{
    leads_to, HttpHostRouteSource, HttpHostRoutes, HttpsRouteSourceHealth,
};
use crate::http_status::{bump, bumped, enter, entered, leave, left, HttpIngressStatus};
use crate::metrics::{
    metric_rows, page_text, render_metrics, EdgeMetricSnapshot, IngressMetricSnapshot,
    MultiplexTelemetrySnapshot, OperationsCounterSnapshot, ProcessLoggingSnapshot,
};
use crate::multiplex::EdgeAuthorizationStatus;
use crate::names::TunnelId;
use crate::net::{loopback_ip, SocketAddr};
use crate::request_history::RequestHistorySnapshot;
use crate::shutdown::{
    default_shutdown, RuntimeShutdownConfig, RuntimeShutdownOutcome,
};

verus! {

pub const MIN_OPERATIONS_HEADER_BYTES: usize = 8 * 1024;

pub const MAX_OPERATIONS_HEADER_BYTES: usize = 64 * 1024;

pub const MAX_OPERATIONS_HEADERS: usize = 128;

pub const MAX_OPERATIONS_CONNECTIONS: usize = 1_024;

/// The configuration of the operations endpoint.
#[derive(Debug, Clone, Copy, PartialEq, Eq, Structural)]
pub struct EdgeOperationsConfig {
    pub listen_addr: SocketAddr,
    pub max_concurrent_connections: usize,
    pub max_header_bytes: usize,
    pub max_headers: usize,
    pub header_read_timeout: Duration,
    pub request_timeout: Duration,
    pub shutdown: RuntimeShutdownConfig,
}

/// What `validate` finds wrong first.
pub open spec fn operations_fault(c: EdgeOperationsConfig) -> Option<EdgeOperationsConfigError> {
    if !loopback_ip(c.listen_addr.ip) {
        Some(EdgeOperationsConfigError::NonLoopbackListener)
    } else if !(1 <= c.max_concurrent_connections <= MAX_OPERATIONS_CONNECTIONS) {
        Some(EdgeOperationsConfigError::InvalidConnectionLimit)
    } else if !(MIN_OPERATIONS_HEADER_BYTES <= c.max_header_bytes <= MAX_OPERATIONS_HEADER_BYTES) {
        Some(EdgeOperationsConfigError::InvalidHeaderBytes)
    } else if !(1 <= c.max_headers <= MAX_OPERATIONS_HEADERS) {
        Some(EdgeOperationsConfigError::InvalidHeaderCount)
    } else if c.header_read_timeout.nanos == 0 {
        Some(EdgeOperationsConfigError::ZeroHeaderTimeout)
    } else if c.request_timeout.nanos == 0 {
        Some(EdgeOperationsConfigError::ZeroRequestTimeout)
    } else if c.shutdown.drain_timeout.nanos == 0 {
        Some(EdgeOperationsConfigError::ZeroDrainTimeout)
    } else {
        None
    }
}

impl EdgeOperationsConfig {
    /// The default bounds, at that address.
    pub fn loopback(listen_addr: SocketAddr) -> (config: EdgeOperationsConfig)
        ensures
            config == (EdgeOperationsConfig {
                listen_addr,
                max_concurrent_connections: 8,
                max_header_bytes: MIN_OPERATIONS_HEADER_BYTES,
                max_headers: 16,
                header_read_timeout: Duration { nanos: (2 * NANOS_PER_SEC) as u128 },
                request_timeout: Duration { nanos: (5 * NANOS_PER_SEC) as u128 },
                shutdown: default_shutdown(),
            }),
            operations_fault(config) is None <==> loopback_ip(listen_addr.ip),
    {
        EdgeOperationsConfig {
            listen_addr,
            max_concurrent_connections: 8,
            max_header_bytes: MIN_OPERATIONS_HEADER_BYTES,
            max_headers: 16,
            header_read_timeout: Duration::from_secs(2),
            request_timeout: Duration::from_secs(5),
            shutdown: RuntimeShutdownConfig::default(),
        }
    }

    /// Checks every bound; the first one broken is reported.
    pub fn validate(self) -> (result: Result<(), EdgeOperationsConfigError>)
        ensures
            result == (match operations_fault(self) {
                Some(fault) => Err(fault),
                None => Ok(()),
            }),
    {
        if !self.listen_addr.ip().is_loopback() {
            return Err(EdgeOperationsConfigError::NonLoopbackListener);
        }
        if self.max_concurrent_connections == 0 || self.max_concurrent_connections
            > MAX_OPERATIONS_CONNECTIONS {
            return Err(EdgeOperationsConfigError::InvalidConnectionLimit);
        }
        if self.max_header_bytes < MIN_OPERATIONS_HEADER_BYTES || self.max_header_bytes
            > MAX_OPERATIONS_HEADER_BYTES {
            return Err(EdgeOperationsConfigError::InvalidHeaderBytes);
        }
        if self.max_headers == 0 || self.max_headers > MAX_OPERATIONS_HEADERS {
            return Err(EdgeOperationsConfigError::InvalidHeaderCount);
        }
        if self.header_read_timeout.is_zero() {
            return Err(EdgeOperationsConfigError::ZeroHeaderTimeout);
        }
        if self.request_timeout.is_zero() {
            return Err(EdgeOperationsConfigError::ZeroRequestTimeout);
        }
        if self.shutdown.drain_timeout.is_zero() {
            return Err(EdgeOperationsConfigError::ZeroDrainTimeout);
        }
        Ok(())
    }
}

/// A bound of the endpoint that does not hold.
#[derive(Debug, Clone, Copy, PartialEq, Eq, Structural)]
pub enum EdgeOperationsConfigError {
    NonLoopbackListener,
    InvalidConnectionLimit,
    InvalidHeaderBytes,
    InvalidHeaderCount,
    ZeroHeaderTimeout,
    ZeroRequestTimeout,
    ZeroDrainTimeout,
}

impl EdgeOperationsConfigError {
    /// The text shown to an operator.
    pub open spec fn text(self) -> Seq<char> {
        match self {
            EdgeOperationsConfigError::NonLoopbackListener =>
                "operations listener must use a loopback address"@,
            EdgeOperationsConfigError::InvalidConnectionLimit =>
                "operations connection limit must be between 1 and 1024"@,
            EdgeOperationsConfigError::InvalidHeaderBytes =>
                "operations header bytes must be between 8192 and 65536"@,
            EdgeOperationsConfigError::InvalidHeaderCount =>
                "operations header count must be between 1 and 128"@,
            EdgeOperationsConfigError::ZeroHeaderTimeout =>
                "operations header timeout must be greater than zero"@,
            EdgeOperationsConfigError::ZeroRequestTimeout =>
                "operations request timeout must be greater than zero"@,
            EdgeOperationsConfigError::ZeroDrainTimeout =>
                "operations drain timeout must be greater than zero"@,
        }
    }

    /// The text shown to an operator.
    pub fn message(self) -> (message: &'static str)
        ensures
            message@ == self.text(),
    {
        match self {
            EdgeOperationsConfigError::NonLoopbackListener =>
                "operations listener must use a loopback address",
            EdgeOperationsConfigError::InvalidConnectionLimit =>
                "operations connection limit must be between 1 and 1024",
            EdgeOperationsConfigError::InvalidHeaderBytes =>
                "operations header bytes must be between 8192 and 65536",
            EdgeOperationsConfigError::InvalidHeaderCount =>
                "operations header count must be between 1 and 128",
            EdgeOperationsConfigError::ZeroHeaderTimeout =>
                "operations header timeout must be greater than zero",
            EdgeOperationsConfigError::ZeroRequestTimeout =>
                "operations request timeout must be greater than zero",
            EdgeOperationsConfigError::ZeroDrainTimeout =>
                "operations drain timeout must be greater than zero",
        }
    }
}

/// What the endpoint did, once it has stopped.
#[derive(Debug, Clone, Copy, PartialEq, Eq, Structural)]
pub struct EdgeOperationsOutcome {
    pub local_addr: SocketAddr,
    pub accepted_connections: u64,
    pub completed_requests: u64,
    pub rejected_requests: u64,
    pub capacity_rejections: u64,
    pub shutdown: RuntimeShutdownOutcome,
}

impl EdgeOperationsOutcome {
    /// The outcome of a run that left those counters.
    pub fn new(
        local_addr: SocketAddr,
        counters: OperationsCounterSnapshot,
        shutdown: RuntimeShutdownOutcome,
    ) -> (outcome: EdgeOperationsOutcome)
        ensures
            outcome == (EdgeOperationsOutcome {
                local_addr,
                accepted_connections: counters.accepted_connections,
                completed_requests: counters.completed_requests,
                rejected_requests: counters.rejected_requests,
                capacity_rejections: counters.capacity_rejections,
                shutdown,
            }),
    {
        EdgeOperationsOutcome {
            local_addr,
            accepted_connections: counters.accepted_connections,
            completed_requests: counters.completed_requests,
            rejected_requests: counters.rejected_requests,
            capacity_rejections: counters.capacity_rejections,
            shutdown,
        }
    }

    /// Whether connections had to be aborted.
    pub fn was_forced(self) -> (forced: bool)
        ensures
            forced == self.shutdown is Forced,
    {
        self.shutdown.was_forced()
    }
}

/// Why the endpoint failed.
#[derive(Debug)]
pub enum EdgeOperationsError {
    InvalidConfig(EdgeOperationsConfigError),
    Bind(std::io::Error),
    Accept(std::io::Error),
}

impl EdgeOperationsError {
    /// The text of the error, where `source` is the text of its cause.
    pub open spec fn text(self, source: Seq<char>) -> Seq<char> {
        match self {
            EdgeOperationsError::InvalidConfig(error) => "invalid operations config: "@
                + error.text(),
            EdgeOperationsError::Bind(_) => "operations listener bind failed: "@ + source,
            EdgeOperationsError::Accept(_) => "operations listener accept failed: "@ + source,
        }
    }

    /// The text of the error, where `source` is the text of its cause.
    pub fn describe(&self, source: &str) -> (message: String)
        ensures
            message@ == self.text(source@),
    {
        match self {
            EdgeOperationsError::InvalidConfig(error) => {
                "invalid operations config: ".to_owned().concat(error.message())
            },
            EdgeOperationsError::Bind(_) => {
                "operations listener bind failed: ".to_owned().concat(source)
            },
            EdgeOperationsError::Accept(_) => {
                "operations listener accept failed: ".to_owned().concat(source)
            },
        }
    }

    /// The text of the error with that of its cause.
    pub fn message(&self) -> (message: String)
        ensures
            exists|source: Seq<char>| message@ == #[trigger] self.text(source),
    {
        let source: String = match self {
            EdgeOperationsError::InvalidConfig(_) => String::new(),
            EdgeOperationsError::Bind(error) => io_error_text(error),
            EdgeOperationsError::Accept(error) => io_error_text(error),
        };
        self.describe(source.as_str())
    }
}

/// Whether the edge is draining.
#[derive(Debug, Clone, Copy, PartialEq, Eq, Structural)]
pub struct EdgeOperationsControl {
    pub draining: bool,
}

impl EdgeOperationsControl {
    /// Notes that the edge drains; it never stops to.
    pub fn begin_draining(&mut self)
        ensures
            final(self).draining,
    {
        self.draining = true;
    }
}

/// Receives a new connection, where `permit_free` says whether one of those that
/// may be open at a time is free. Says whether it is served.
pub fn admit_operations_connection(
    permit_free: bool,
    counters: &mut OperationsCounterSnapshot,
) -> (served: bool)
    ensures
        served == permit_free,
        *final(counters) == (if permit_free {
            OperationsCounterSnapshot {
                accepted_connections: bumped(old(counters).accepted_connections),
                active_connections: entered(old(counters).active_connections),
                ..*old(counters)
            }
        } else {
            OperationsCounterSnapshot {
                capacity_rejections: bumped(old(counters).capacity_rejections),
                ..*old(counters)
            }
        }),
{
    if !permit_free {
        counters.capacity_rejections = bump(counters.capacity_rejections);
        return false;
    }
    counters.accepted_connections = bump(counters.accepted_connections);
    counters.active_connections = enter(counters.active_connections);
    true
}

/// Counts a connection that has ended.
pub fn release_operations_connection(counters: &mut OperationsCounterSnapshot)
    ensures
        *final(counters) == (OperationsCounterSnapshot {
            active_connections: left(old(counters).active_connections),
            ..*old(counters)
        }),
{
    counters.active_connections = leave(counters.active_connections);
}

/// What readiness and the tunnel's connection are judged by: the routes of HTTPS
/// ingress, or nothing for raw ingress.
pub open spec fn follows_catalog(routes: Option<HttpHostRoutes>) -> bool {
    routes matches Some(routes) && routes.source is Dynamic
}

/// Whether a tunnel is among those that are connected.
pub open spec fn is_connected(connected_tunnels: Seq<TunnelId>, tunnel: Seq<char>) -> bool {
    exists|i: int| 0 <= i < connected_tunnels.len() && (#[trigger] connected_tunnels[i])@ == tunnel
}

/// Whether a tunnel is among those that are connected.
pub fn tunnel_is_connected(connected_tunnels: &Vec<TunnelId>, tunnel_id: &TunnelId) -> (yes: bool)
    ensures
        yes == is_connected(connected_tunnels@, tunnel_id@),
{
    let mut i: usize = 0;
    while i < connected_tunnels.len()
        invariant
            i <= connected_tunnels@.len(),
            forall|k: int| 0 <= k < i ==> (#[trigger] connected_tunnels@[k])@ != tunnel_id@,
        decreases connected_tunnels@.len() - i,
    {
        if connected_tunnels[i].same(tunnel_id) {
            return true;
        }
        i = i + 1;
    }
    false
}

/// Whether traffic would be served: never while draining; with routes from a
/// catalog while its source has not expired; else while the configured
/// tunnel is connected.
pub open spec fn ready(
    draining: bool,
    routes: Option<HttpHostRoutes>,
    connected_tunnels: Seq<TunnelId>,
    tunnel: Seq<char>,
) -> bool {
    if draining {
        false
    } else {
        match routes {
            Some(routes) => match routes.source {
                HttpHostRouteSource::Dynamic(catalog) => !(catalog.health is Expired),
                HttpHostRouteSource::Static(_) => is_connected(connected_tunnels, tunnel),
            },
            None => is_connected(connected_tunnels, tunnel),
        }
    }
}

/// Whether traffic would be served, where the edge is configured for a tunnel and those
/// tunnels are connected.
pub fn ingress_ready(
    draining: bool,
    routes: &Option<HttpHostRoutes>,
    connected_tunnels: &Vec<TunnelId>,
    tunnel_id: &TunnelId,
) -> (yes: bool)
    ensures
        yes == ready(draining, *routes, connected_tunnels@, tunnel_id@),
{
    if draining {
        return false;
    }
    match routes {
        Some(routes) => match routes.dynamic_source_health() {
            Some(health) => health != HttpsRouteSourceHealth::Expired,
            None => tunnel_is_connected(connected_tunnels, tunnel_id),
        },
        None => tunnel_is_connected(connected_tunnels, tunnel_id),
    }
}

/// Whether some connected tunnel is served: with routes from a catalog any that
/// they lead to, else the configured one.
pub open spec fn some_tunnel_connected(
    routes: Option<HttpHostRoutes>,
    connected_tunnels: Seq<TunnelId>,
    tunnel: Seq<char>,
) -> bool {
    if follows_catalog(routes) {
        exists|i: int|
            0 <= i < connected_tunnels.len() && leads_to(
                routes->0@,
                (#[trigger] connected_tunnels[i])@,
            )
    } else {
        is_connected(connected_tunnels, tunnel)
    }
}

/// Whether some connected tunnel is served, where the edge is configured for a tunnel.
pub fn ingress_tunnel_connected(
    routes: &Option<HttpHostRoutes>,
    connected_tunnels: &Vec<TunnelId>,
    tunnel_id: &TunnelId,
) -> (yes: bool)
    ensures
        yes == some_tunnel_connected(*routes, connected_tunnels@, tunnel_id@),
{
    match routes {
        None => tunnel_is_connected(connected_tunnels, tunnel_id),
        Some(table) => {
            if !table.is_dynamic() {
                return tunnel_is_connected(connected_tunnels, tunnel_id);
            }
            let mut i: usize = 0;
            while i < connected_tunnels.len()
                invariant
                    i <= connected_tunnels@.len(),
                    *routes == Some(*table),
                    table.source is Dynamic,
                    forall|k: int|
                        0 <= k < i ==> !leads_to(table@, (#[trigger] connected_tunnels@[k])@),
                decreases connected_tunnels@.len() - i,
            {
                if table.contains_tunnel(&connected_tunnels[i]) {
                    return true;
                }
                i = i + 1;
            }
            false
        },
    }
}

/// Puts together what the metrics page shows.
pub fn collect_metrics(
    draining: bool,
    routes: &Option<HttpHostRoutes>,
    connected_tunnels: &Vec<TunnelId>,
    tunnel_id: &TunnelId,
    authorization: EdgeAuthorizationStatus,
    logging: ProcessLoggingSnapshot,
    transport: MultiplexTelemetrySnapshot,
    operations: OperationsCounterSnapshot,
    ingress: IngressMetricSnapshot,
) -> (snapshot: EdgeMetricSnapshot)
    ensures
        snapshot == (EdgeMetricSnapshot {
            ready: ready(draining, *routes, connected_tunnels@, tunnel_id@),
            tunnel_connected: some_tunnel_connected(*routes, connected_tunnels@, tunnel_id@),
            authorization_source: authorization.source,
            authorization_version: match authorization.version {
                Some(version) => version,
                None => 0,
            },
            revoked_sessions: authorization.revoked_sessions,
            logging,
            transport,
            operations,
            ingress,
        }),
{
    EdgeMetricSnapshot {
        ready: ingress_ready(draining, routes, connected_tunnels, tunnel_id),
        tunnel_connected: ingress_tunnel_connected(routes, connected_tunnels, tunnel_id),
        authorization_source: authorization.source,
        authorization_version: match authorization.version {
            Some(version) => version,
            None => 0,
        },
        revoked_sessions: authorization.revoked_sessions,
        logging,
        transport,
        operations,
        ingress,
    }
}

/// The HTTPS ingress as the metrics page shows it.
pub fn https_metric_snapshot(
    status: HttpIngressStatus,
    routes: &HttpHostRoutes,
    request_history: Option<RequestHistorySnapshot>,
) -> (snapshot: IngressMetricSnapshot)
    ensures
        snapshot == (IngressMetricSnapshot::Https {
            status,
            route_health: match routes.source {
                HttpHostRouteSource::Static(_) => None,
                HttpHostRouteSource::Dynamic(catalog) => Some(catalog.health),
            },
            route_version: match routes.source {
                HttpHostRouteSource::Static(_) => 0,
                HttpHostRouteSource::Dynamic(catalog) => catalog.version,
            },
            route_count: routes@.len() as usize,
            request_history,
        }),
{
    IngressMetricSnapshot::Https {
        status,
        route_health: routes.dynamic_source_health(),
        route_version: match routes.dynamic_catalog_version() {
            Some(version) => version,
            None => 0,
        },
        route_count: routes.len(),
        request_history,
    }
}

/// What a request to the endpoint asks for.
#[derive(Debug, Clone, Copy, PartialEq, Eq, Structural)]
pub enum OperationsRequest {
    MethodNotAllowed,
    Health,
    Readiness,
    Metrics,
    History(RequestHistoryQuery),
    InvalidHistoryQuery,
    HistoryUnavailable,
    NotFound,
}

/// What a request to the endpoint asks for, where the history is kept or not.
pub open spec fn asked(
    method: Seq<u8>,
    path: Seq<u8>,
    query: Option<Seq<char>>,
    keeps_history: bool,
) -> OperationsRequest {
    if method != "GET".spec_bytes() && method != "HEAD".spec_bytes() {
        OperationsRequest::MethodNotAllowed
    } else if path == "/healthz".spec_bytes() {
        OperationsRequest::Health
    } else if path == "/readyz".spec_bytes() {
        OperationsRequest::Readiness
    } else if path == "/metrics".spec_bytes() {
        OperationsRequest::Metrics
    } else if path == "/requests".spec_bytes() {
        if !keeps_history {
            OperationsRequest::HistoryUnavailable
        } else {
            match query_asked(query) {
                Some(query) => OperationsRequest::History(query),
                None => OperationsRequest::InvalidHistoryQuery,
            }
        }
    } else {
        OperationsRequest::NotFound
    }
}

/// What a request to the endpoint asks for, where the history is kept or not.
pub fn read_operations_request(
    method: &[u8],
    path: &[u8],
    query: Option<&str>,
    keeps_history: bool,
) -> (request: OperationsRequest)
    ensures
        request == asked(
            method@,
            path@,
            match query {
                Some(text) => Some(text@),
                None => None,
            },
            keeps_history,
        ),
{
    if !same_bytes(method, "GET".as_bytes()) && !same_bytes(method, "HEAD".as_bytes()) {
        return OperationsRequest::MethodNotAllowed;
    }
    if same_bytes(path, "/healthz".as_bytes()) {
        OperationsRequest::Health
    } else if same_bytes(path, "/readyz".as_bytes()) {
        OperationsRequest::Readiness
    } else if same_bytes(path, "/metrics".as_bytes()) {
        OperationsRequest::Metrics
    } else if same_bytes(path, "/requests".as_bytes()) {
        if !keeps_history {
            return OperationsRequest::HistoryUnavailable;
        }
        match RequestHistoryQuery::parse(query) {
            Ok(query) => OperationsRequest::History(query),
            Err(_) => OperationsRequest::InvalidHistoryQuery,
        }
    } else {
        OperationsRequest::NotFound
    }
}

/// The fields of every answer: its type, that no cache may keep it, and that the
/// connection closes.
pub open spec fn answer_fields(content_type: Seq<u8>) -> Map<Seq<u8>, Seq<Seq<u8>>> {
    no_fields().insert("content-type".spec_bytes(), seq![content_type]).insert(
        "cache-control".spec_bytes(),
        seq!["no-store".spec_bytes()],
    ).insert("connection".spec_bytes(), seq!["close".spec_bytes()])
}

/// Makes an answer.
pub fn response(status: u16, content_type: &[u8], body: &str) -> (answer: LocalResponse)
    requires
        is_text(content_type@),
    ensures
        answer.status == status,
        answer.body@ == encode_utf8(body@),
        header_fields(answer.headers) == answer_fields(content_type@),
{
    proof {
        reveal_strlit("content-type");
        reveal_strlit("cache-control");
        reveal_strlit("connection");
        reveal_strlit("no-store");
        reveal_strlit("close");
        is_ascii_spec_bytes("content-type");
        is_ascii_spec_bytes("cache-control");
        is_ascii_spec_bytes("connection");
        is_ascii_spec_bytes("no-store");
        is_ascii_spec_bytes("close");
        assert(plain_name("content-type".spec_bytes()));
        assert(plain_name("cache-control".spec_bytes()));
        assert(plain_name("connection".spec_bytes()));
        assert(is_text("no-store".spec_bytes()));
        assert(is_text("close".spec_bytes()));
    }
    let mut headers: hyper::HeaderMap = empty_headers();
    insert_header(&mut headers, "content-type".as_bytes(), content_type);
    insert_header(&mut headers, "cache-control".as_bytes(), "no-store".as_bytes());
    insert_header(&mut headers, "connection".as_bytes(), "close".as_bytes());
    LocalResponse { status, headers, body: copy_of(body.as_bytes()) }
}

/// The type of plain text.
pub open spec fn plain_type() -> Seq<u8> {
    "text/plain; charset=utf-8".spec_bytes()
}

/// The type of the metrics page.
pub open spec fn metrics_type() -> Seq<u8> {
    "text/plain; version=0.0.4; charset=utf-8".spec_bytes()
}

/// The type of the history page.
pub open spec fn history_type() -> Seq<u8> {
    "application/json; charset=utf-8".spec_bytes()
}

/// What the body of an answer holds: nothing, where only the head was asked for.
pub open spec fn shown(body: Seq<char>, head: bool) -> Seq<u8> {
    if head { encode_utf8(""@) } else { encode_utf8(body) }
}

/// An answer in plain text.
pub fn plain_response(status: u16, body: &str, head: bool) -> (answer: LocalResponse)
    ensures
        answer.status == status,
        answer.body@ == shown(body@, head),
        header_fields(answer.headers) == answer_fields(plain_type()),
{
    proof {
        reveal_strlit("text/plain; charset=utf-8");
        is_ascii_spec_bytes("text/plain; charset=utf-8");
        assert(is_text(plain_type()));
    }
    response(
        status,
        "text/plain; charset=utf-8".as_bytes(),
        if head {
            ""
        } else {
            body
        },
    )
}

/// The answer that is the metrics page.
pub fn metrics_response(body: &str, head: bool) -> (answer: LocalResponse)
    ensures
        answer.status == OK,
        answer.body@ == shown(body@, head),
        header_fields(answer.headers) == answer_fields(metrics_type()),
{
    proof {
        reveal_strlit("text/plain; version=0.0.4; charset=utf-8");
        is_ascii_spec_bytes("text/plain; version=0.0.4; charset=utf-8");
        assert(is_text(metrics_type()));
    }
    response(
        OK,
        "text/plain; version=0.0.4; charset=utf-8".as_bytes(),
        if head {
            ""
        } else {
            body
        },
    )
}

/// The page of a history that a query asks for.
pub open spec fn is_history_page(
    text: Seq<char>,
    snapshot: RequestHistorySnapshot,
    query: RequestHistoryQuery,
) -> bool {
    exists|page: HistoryPage| #[trigger]
        page_answers(snapshot, query, page) && text == page_json(page)
}

/// The answer that is a page of the history.
pub fn request_history_response(
    snapshot: &RequestHistorySnapshot,
    query: RequestHistoryQuery,
    head: bool,
) -> (answer: LocalResponse)
    ensures
        answer.status == OK,
        exists|text: Seq<char>|
            #[trigger] is_history_page(text, *snapshot, query) && answer.body@ == shown(text, head),
        header_fields(answer.headers) == answer_fields(history_type()),
{
    proof {
        reveal_strlit("application/json; charset=utf-8");
        is_ascii_spec_bytes("application/json; charset=utf-8");
        assert(is_text(history_type()));
    }
    let body: String = render_request_history(snapshot, query);
    proof {
        assert(is_history_page(body@, *snapshot, query));
    }
    response(
        OK,
        "application/json; charset=utf-8".as_bytes(),
        if head {
            ""
        } else {
            body.as_str()
        },
    )
}

/// Whether a request counts as rejected.
pub open spec fn counts_as_rejected(request: OperationsRequest) -> bool {
    request is MethodNotAllowed || request is InvalidHistoryQuery || request is NotFound
}

/// The status and the text of an answer in plain text.
pub open spec fn plain_answer(request: OperationsRequest, is_ready: bool) -> (u16, Seq<char>) {
    match request {
        OperationsRequest::MethodNotAllowed => (METHOD_NOT_ALLOWED, "method not allowed\n"@),
        OperationsRequest::Health => (OK, "ok\n"@),
        OperationsRequest::Readiness => if is_ready {
            (OK, "ready\n"@)
        } else {
            (SERVICE_UNAVAILABLE, "not ready\n"@)
        },
        OperationsRequest::InvalidHistoryQuery => (
            BAD_REQUEST,
            "invalid request history query\n"@,
        ),
        _ => (NOT_FOUND, "not found\n"@),
    }
}

/// Answers a request that was read. `snapshot` is what the metrics page shows, and
/// says whether the edge is ready; `history` is there where it is kept.
pub fn serve_request(
    request: OperationsRequest,
    head: bool,
    snapshot: &EdgeMetricSnapshot,
    history: &Option<RequestHistorySnapshot>,
    counters: &mut OperationsCounterSnapshot,
) -> (answer: LocalResponse)
    requires
        request is History ==> *history is Some,
    ensures
        *final(counters) == (OperationsCounterSnapshot {
            rejected_requests: if counts_as_rejected(request) {
                bumped(old(counters).rejected_requests)
            } else {
                old(counters).rejected_requests
            },
            completed_requests: bumped(old(counters).completed_requests),
            ..*old(counters)
        }),
        match request {
            OperationsRequest::Metrics => answer.status == OK && answer.body@ == shown(
                page_text(metric_rows(*snapshot)),
                head,
            ) && header_fields(answer.headers) == answer_fields(metrics_type()),
            OperationsRequest::History(query) => answer.status == OK && header_fields(
                answer.headers,
            ) == answer_fields(history_type()) && exists|text: Seq<char>|
                #[trigger] is_history_page(text, (*history)->0, query) && answer.body@ == shown(
                    text,
                    head,
                ),
            _ => {
                let (status, text) = plain_answer(request, snapshot.ready);
                answer.status == status && answer.body@ == shown(text, head) && header_fields(
                    answer.headers,
                ) == answer_fields(plain_type())
            },
        },
{
    let answer: LocalResponse = match request {
        OperationsRequest::MethodNotAllowed => {
            counters.rejected_requests = bump(counters.rejected_requests);
            plain_response(METHOD_NOT_ALLOWED, "method not allowed\n", head)
        },
        OperationsRequest::Health => plain_response(OK, "ok\n", head),
        OperationsRequest::Readiness => {
            if snapshot.ready {
                plain_response(OK, "ready\n", head)
            } else {
                plain_response(SERVICE_UNAVAILABLE, "not ready\n", head)
            }
        },
        OperationsRequest::Metrics => {
            let page: String = render_metrics(snapshot);
            metrics_response(page.as_str(), head)
        },
        OperationsRequest::History(query) => match history {
            Some(history) => request_history_response(history, query, head),
            None => plain_response(NOT_FOUND, "not found\n", head),
        },
        OperationsRequest::InvalidHistoryQuery => {
            counters.rejected_requests = bump(counters.rejected_requests);
            plain_response(BAD_REQUEST, "invalid request history query\n", head)
        },
        OperationsRequest::HistoryUnavailable => plain_response(NOT_FOUND, "not found\n", head),
        OperationsRequest::NotFound => {
            counters.rejected_requests = bump(counters.rejected_requests);
            plain_response(NOT_FOUND, "not found\n", head)
        },
    };
    counters.completed_requests = bump(counters.completed_requests);
    answer
}

/// Once the edge drains it is never ready, whatever its routes and sessions.
pub proof fn draining_is_never_ready(
    routes: Option<HttpHostRoutes>,
    connected_tunnels: Seq<TunnelId>,
    tunnel: Seq<char>,
)
    ensures
        !ready(true, routes, connected_tunnels, tunnel),
{
}

/// An edge whose routes follow no catalog is ready, and shows its tunnel as connected,
/// just while its own tunnel is connected and it does not drain; other tunnels make no
/// difference.
pub proof fn readiness_follows_the_configured_tunnel(
    draining: bool,
    routes: Option<HttpHostRoutes>,
    connected_tunnels: Seq<TunnelId>,
    other: TunnelId,
    tunnel: Seq<char>,
)
    requires
        !follows_catalog(routes),
    ensures
        ready(draining, routes, connected_tunnels, tunnel) <==> !draining && is_connected(
            connected_tunnels,
            tunnel,
        ),
        some_tunnel_connected(routes, connected_tunnels, tunnel) <==> is_connected(
            connected_tunnels,
            tunnel,
        ),
        other@ != tunnel ==> ready(draining, routes, connected_tunnels.push(other), tunnel)
            == ready(draining, routes, connected_tunnels, tunnel),
{
    let more = connected_tunnels.push(other);
    if is_connected(connected_tunnels, tunnel) {
        let at: int = choose|i: int|
            0 <= i < connected_tunnels.len() && (#[trigger] connected_tunnels[i])@ == tunnel;
        assert(more[at]@ == tunnel);
    }
    if other@ != tunnel && is_connected(more, tunnel) {
        let at: int = choose|i: int| 0 <= i < more.len() && (#[trigger] more[i])@ == tunnel;
        assert(connected_tunnels[at] == more[at]);
    }
}

/// The endpoint answers reads of its four pages, and nothing else: by its path each page
/// is found, whatever is asked beside it, and no other method is allowed anywhere.
pub proof fn pages_are_found_by_their_path(
    method: Seq<u8>,
    query: Option<Seq<char>>,
    keeps_history: bool,
    path: Seq<u8>,
)
    ensures
        method != "GET".spec_bytes() && method != "HEAD".spec_bytes() ==> asked(
            method,
            path,
            query,
            keeps_history,
        ) is MethodNotAllowed,
        method == "GET".spec_bytes() || method == "HEAD".spec_bytes() ==> {
            &&& asked(method, "/healthz".spec_bytes(), query, keeps_history) is Health
            &&& asked(method, "/readyz".spec_bytes(), query, keeps_history) is Readiness
            &&& asked(method, "/metrics".spec_bytes(), query, keeps_history) is Metrics
            &&& !keeps_history ==> asked(method, "/requests".spec_bytes(), query, keeps_history)
                is HistoryUnavailable
            &&& keeps_history ==> asked(method, "/requests".spec_bytes(), query, keeps_history) == (
            match query_asked(query) {
                Some(query) => OperationsRequest::History(query),
                None => OperationsRequest::InvalidHistoryQuery,
            })
            &&& path != "/healthz".spec_bytes() && path != "/readyz".spec_bytes() && path
                != "/metrics".spec_bytes() && path != "/requests".spec_bytes() ==> asked(
                method,
                path,
                query,
                keeps_history,
            ) is NotFound
        },
{
    reveal_strlit("GET");
    is_ascii_spec_bytes("GET");
    reveal_strlit("HEAD");
    is_ascii_spec_bytes("HEAD");
    reveal_strlit("/healthz");
    is_ascii_spec_bytes("/healthz");
    reveal_strlit("/readyz");
    is_ascii_spec_bytes("/readyz");
    reveal_strlit("/metrics");
    is_ascii_spec_bytes("/metrics");
    reveal_strlit("/requests");
    is_ascii_spec_bytes("/requests");
    assert("/healthz".spec_bytes()[1] == 104);
    assert("/metrics".spec_bytes()[1] == 109);
    assert("/readyz".spec_bytes().len() == 7);
    assert("/requests".spec_bytes().len() == 9);
}

/// An edge that lives says so, and says that it is ready just where it is.
pub proof fn probes_tell_the_truth(is_ready: bool)
    ensures
        plain_answer(OperationsRequest::Health, is_ready) == (200u16, "ok\n"@),
        is_ready ==> plain_answer(OperationsRequest::Readiness, is_ready) == (200u16, "ready\n"@),
        !is_ready ==> plain_answer(OperationsRequest::Readiness, is_ready) == (
            503u16,
            "not ready\n"@,
        ),
        plain_answer(OperationsRequest::MethodNotAllowed, is_ready).0 == 405,
        plain_answer(OperationsRequest::NotFound, is_ready).0 == 404,
        plain_answer(OperationsRequest::HistoryUnavailable, is_ready).0 == 404,
        plain_answer(OperationsRequest::InvalidHistoryQuery, is_ready).0 == 400,
        counts_as_rejected(OperationsRequest::MethodNotAllowed),
        counts_as_rejected(OperationsRequest::NotFound),
        counts_as_rejected(OperationsRequest::InvalidHistoryQuery),
        !counts_as_rejected(OperationsRequest::Health),
        !counts_as_rejected(OperationsRequest::Readiness),
        !counts_as_rejected(OperationsRequest::Metrics),
        !counts_as_rejected(OperationsRequest::HistoryUnavailable),
{
}

/// A HEAD is answered without the body that a GET gets, and no answer may be cached.
pub proof fn answers_are_not_cached(content_type: Seq<u8>, body: Seq<char>)
    ensures
        shown(body, true).len() == 0,
        shown(body, false) == encode_utf8(body),
        answer_fields(content_type).dom().contains("cache-control".spec_bytes()),
        answer_fields(content_type)["cache-control".spec_bytes()] == seq!["no-store".spec_bytes()],
        answer_fields(content_type).dom().contains("content-type".spec_bytes()),
        answer_fields(content_type)["content-type".spec_bytes()] == seq![content_type],
        answer_fields(content_type)["connection".spec_bytes()] == seq!["close".spec_bytes()],
{
    reveal_strlit("");
    reveal_strlit("cache-control");
    reveal_strlit("content-type");
    reveal_strlit("connection");
    is_ascii_spec_bytes("cache-control");
    is_ascii_spec_bytes("content-type");
    is_ascii_spec_bytes("connection");
    assert(""@ =~= Seq::<char>::empty());
}

/// The endpoint passes exactly on a loopback address, with 1 to 1024 connections,
/// headers of 8 to 64 KiB in 1 to 128 fields, and some time for each of its steps.
pub proof fn endpoints_pass_within_their_bounds(c: EdgeOperationsConfig)
    ensures
        operations_fault(c) is None <==> {
            &&& loopback_ip(c.listen_addr.ip)
            &&& 1 <= c.max_concurrent_connections <= 1024
            &&& 8192 <= c.max_header_bytes <= 65_536
            &&& 1 <= c.max_headers <= 128
            &&& c.header_read_timeout.nanos > 0
            &&& c.request_timeout.nanos > 0
            &&& c.shutdown.drain_timeout.nanos > 0
        },
{
}

/// A fault of the endpoint names what is wrong.
pub proof fn endpoint_faults_name_what_is_wrong(c: EdgeOperationsConfig)
    requires
        operations_fault(c) is Some,
    ensures
        match operations_fault(c)->0 {
            EdgeOperationsConfigError::NonLoopbackListener => !loopback_ip(c.listen_addr.ip),
            EdgeOperationsConfigError::InvalidConnectionLimit => c.max_concurrent_connections == 0
                || c.max_concurrent_connections > 1024,
            EdgeOperationsConfigError::InvalidHeaderBytes => c.max_header_bytes < 8192
                || c.max_header_bytes > 65_536,
            EdgeOperationsConfigError::InvalidHeaderCount => c.max_headers == 0 || c.max_headers
                > 128,
            EdgeOperationsConfigError::ZeroHeaderTimeout => c.header_read_timeout.nanos == 0,
            EdgeOperationsConfigError::ZeroRequestTimeout => c.request_timeout.nanos == 0,
            EdgeOperationsConfigError::ZeroDrainTimeout => c.shutdown.drain_timeout.nanos == 0,
        },
{
}

/// An edge whose routes follow a catalog is ready while the catalog can be relied on, be it
/// live or stale, whichever tunnels are connected; and it shows a tunnel as connected where
/// some tunnel is that its routes lead to.
pub proof fn readiness_follows_the_catalog(
    draining: bool,
    routes: HttpHostRoutes,
    connected_tunnels: Seq<TunnelId>,
    tunnel: Seq<char>,
    at: int,
)
    requires
        routes.source is Dynamic,
    ensures
        ready(draining, Some(routes), connected_tunnels, tunnel) <==> !draining && (
        routes.source->Dynamic_0.health is Live || routes.source->Dynamic_0.health is Stale),
        0 <= at < connected_tunnels.len() && leads_to(routes@, connected_tunnels[at]@)
            ==> some_tunnel_connected(Some(routes), connected_tunnels, tunnel),
        connected_tunnels.len() == 0 ==> !some_tunnel_connected(
            Some(routes),
            connected_tunnels,
            tunnel,
        ),
{
    if 0 <= at < connected_tunnels.len() && leads_to(routes@, connected_tunnels[at]@) {
        assert(leads_to(routes@, connected_tunnels[at]@));
    }
}

/// The pages say of what type they are.
pub proof fn pages_have_their_types()
    ensures
        plain_type() == "text/plain; charset=utf-8".spec_bytes(),
        metrics_type() == "text/plain; version=0.0.4; charset=utf-8".spec_bytes(),
        history_type() == "application/json; charset=utf-8".spec_bytes(),
{
}

} // verus!
