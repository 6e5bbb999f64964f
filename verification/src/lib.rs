//! The public edge of a TCP and HTTPS tunnel: what it accepts, whom it serves, how it
//! routes, and what it reports.

pub mod admission;
pub mod agent_transport;
pub mod bytes;
pub mod cli;
pub mod cli_flags;
pub mod cli_plan;
pub mod cli_start;
pub mod clock;
pub mod edge_session;
pub mod forward;
pub mod history_page;
pub mod http_config;
pub mod http_connection;
pub mod http_counting;
pub mod http_headers;
pub mod http_prepare;
pub mod http_proxy;
pub mod http_rate_limit;
pub mod http_rejection;
pub mod http_request;
pub mod http_response;
pub mod http_routes;
pub mod http_runtime;
pub mod http_sanitize;
pub mod http_status;
pub mod http_target;
pub mod http_tls;
pub mod http_websocket;
pub mod ingress_stream;
pub mod metrics;
pub mod multiplex;
pub mod multiplex_runtime;
pub mod names;
pub mod net;
pub mod operations;
pub mod operations_runtime;
pub mod protocol;
pub mod raw_ingress;
pub mod request_history;
pub mod router;
pub mod runtime;
pub mod shutdown;
pub mod snapshot_runtime;
pub mod supervision;
pub mod text;
pub mod text_order;

pub use forward::{
    ConnectionId, ConnectionIdAllocator, ConnectionLifecycle, ConnectionOutcome, EchoConfig,
    EchoConfigError, ForwardConfig, ForwardConfigError, ForwardError, Forwarder, RelayDirection,
    RelayError, RelayStats,
};
pub use http_config::{
    ConnectIngressConfig, Http2IngressConfig, HttpIngressConfig, HttpIngressConfigError,
    HttpIngressExposurePolicy, SignedAccessIngressConfig, WebSocketIngressConfig,
    MAX_CONNECT_SESSIONS, MAX_HTTP2_CONCURRENT_STREAMS, MAX_HTTP_HEADER_BYTES,
    MAX_HTTP_REQUESTS_PER_CONNECTION, MAX_SIGNED_ACCESS_CLOCK_SKEW, MAX_SIGNED_ACCESS_TTL,
    MAX_WEBSOCKET_SESSIONS, MIN_HTTP_HEADER_BYTES,
};
pub use http_rate_limit::{
    HttpRequestRateLimitConfig, HttpRequestRateLimitConfigError, MAX_HTTP_RATE_LIMIT_IDLE,
    MAX_HTTP_RATE_LIMIT_PEERS, MAX_HTTP_REQUESTS_PER_SECOND, MAX_HTTP_REQUEST_BURST,
    MIN_HTTP_RATE_LIMIT_IDLE,
};
pub use http_routes::{HttpHostRoutes, HttpHostRoutesError, MAX_HTTP_HOST_ROUTES};
pub use http_runtime::{HttpIngressError, HttpIngressRuntime};
pub use http_status::{HttpIngressOutcome, HttpIngressStatus, HttpIngressStatusHandle};
pub use http_tls::{
    PublicHttpProtocolPolicy, PublicTlsConfig, PublicTlsConfigError, PublicTlsReloadBootstrapError,
    PublicTlsReloadConfig, PUBLIC_HTTP1_ALPN, PUBLIC_HTTP2_ALPN,
};
pub use ingress_stream::{RoutedStream, RoutedStreamCloseReason};
pub use multiplex::{
    AuthorizationSourceStatus, EdgeAuthorizationStatus, EdgeRegistrationPolicy,
    EdgeTransportSecurity, MultiplexedEdgeConfig, MultiplexedEdgeConfigError,
};
pub use multiplex_runtime::MultiplexedEdgeRuntime;
pub use names::HttpHostname;
pub use operations::{
    EdgeOperationsConfig, EdgeOperationsConfigError, EdgeOperationsError, EdgeOperationsOutcome,
    MAX_OPERATIONS_CONNECTIONS, MAX_OPERATIONS_HEADERS, MAX_OPERATIONS_HEADER_BYTES,
    MIN_OPERATIONS_HEADER_BYTES,
};
pub use protocol::RouteError;
pub use raw_ingress::{
    RawIngressConfigError, RawIngressExposurePolicy, RawIngressManagerConfig, RawIngressRoute,
    RawIngressRouteConfig, RawIngressRouteError, RawIngressRouteId, RawIngressRouteManager,
    RawIngressRouteState, RawIngressRouteStatus, RawIngressRouteTarget,
};
pub use request_history::{MAX_REQUEST_HISTORY_ENTRIES, MAX_REQUEST_HISTORY_RESPONSE_BYTES};
pub use router::EdgeSessionRouter;
pub use runtime::{EdgeRuntimeConfig, EdgeRuntimeConfigError};
pub use shutdown::{RuntimeShutdownConfig, RuntimeShutdownConfigError, RuntimeShutdownOutcome};
pub use snapshot_runtime::{
    SnapshotAwareEdgeRuntime, SnapshotAwareEdgeRuntimeError, SnapshotAwareEdgeRuntimeOutcome,
};
pub use supervision::{EdgeRuntime, EdgeRuntimeError, EdgeRuntimeOutcome};
