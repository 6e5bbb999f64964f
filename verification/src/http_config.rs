//! The bounds and switches of the HTTPS ingress.

use vstd::prelude::*;
use vstd::string::*;

use crate::clock::{Duration, NANOS_PER_SEC};
use crate::http_rate_limit::{
    rate_limit_fault, HttpRequestRateLimitConfig, HttpRequestRateLimitConfigError,
};
use crate::http_routes::{same_source, HttpHostRoutes};
use crate::http_tls::{PublicHttpProtocolPolicy, PublicTlsConfig};
use crate::net::{loopback_ip, SocketAddr};
use crate::shutdown::RuntimeShutdownConfig;

verus! {

pub const MIN_HTTP_HEADER_BYTES: usize = 8 * 1024;

pub const MAX_HTTP_HEADER_BYTES: usize = 1024 * 1024;

/// The most header fields that a configuration may allow.
pub const MAX_HTTP_HEADERS: usize = 1024;

pub const MAX_HTTP_REQUESTS_PER_CONNECTION: usize = 1024;

pub const MAX_HTTP2_CONCURRENT_STREAMS: u32 = 128;

pub const MAX_WEBSOCKET_SESSIONS: usize = 1024;

pub const MAX_CONNECT_SESSIONS: usize = 1024;

/// The longest life of a signed URL, in nanoseconds: seven days.
pub const MAX_SIGNED_ACCESS_TTL: u128 = 604_800_000_000_000;

/// The most clock skew that signed URLs may tolerate, in nanoseconds: five minutes.
pub const MAX_SIGNED_ACCESS_CLOCK_SKEW: u128 = 300_000_000_000;

/// The most bytes that may wait between the ingress and a tunnel stream.
pub const MAX_DUPLEX_CAPACITY: usize = 1024 * 1024;

/// The bounds of HTTP/2 connections.
#[derive(Debug, Clone, Copy, PartialEq, Eq, Structural)]
pub struct Http2IngressConfig {
    pub max_concurrent_streams: u32,
    pub keep_alive_interval: Duration,
    pub keep_alive_timeout: Duration,
}

impl Default for Http2IngressConfig {
    fn default() -> (config: Http2IngressConfig)
        ensures
            config.max_concurrent_streams == 32,
            config.keep_alive_interval.nanos == 30 * NANOS_PER_SEC,
            config.keep_alive_timeout.nanos == 10 * NANOS_PER_SEC,
    {
        Http2IngressConfig {
            max_concurrent_streams: 32,
            keep_alive_interval: Duration::from_secs(30),
            keep_alive_timeout: Duration::from_secs(10),
        }
    }
}

/// Which protocols may carry WebSocket sessions, how many, and for how long idle.
#[derive(Debug, Clone, Copy, PartialEq, Eq, Structural)]
pub struct WebSocketIngressConfig {
    pub enable_http1: bool,
    pub enable_http2: bool,
    pub max_concurrent_sessions: usize,
    pub idle_timeout: Duration,
}

impl Default for WebSocketIngressConfig {
    fn default() -> (config: WebSocketIngressConfig)
        ensures
            config.enable_http1 && !config.enable_http2,
            config.max_concurrent_sessions == 32,
            config.idle_timeout.nanos == 60 * NANOS_PER_SEC,
    {
        WebSocketIngressConfig {
            enable_http1: true,
            enable_http2: false,
            max_concurrent_sessions: 32,
            idle_timeout: Duration::from_secs(60),
        }
    }
}

/// Which protocols may carry CONNECT sessions, how many, for how long idle, and
/// which port an authority must name.
#[derive(Debug, Clone, Copy, PartialEq, Eq, Structural)]
pub struct ConnectIngressConfig {
    pub enable_http1: bool,
    pub enable_http2: bool,
    pub max_concurrent_sessions: usize,
    pub idle_timeout: Duration,
    pub authority_port: u16,
}

impl Default for ConnectIngressConfig {
    fn default() -> (config: ConnectIngressConfig)
        ensures
            config.enable_http1 && !config.enable_http2,
            config.max_concurrent_sessions == 32,
            config.idle_timeout.nanos == 60 * NANOS_PER_SEC,
            config.authority_port == 443,
    {
        ConnectIngressConfig {
            enable_http1: true,
            enable_http2: false,
            max_concurrent_sessions: 32,
            idle_timeout: Duration::from_secs(60),
            authority_port: 443,
        }
    }
}

/// The policy for signed URLs: how many keys the ring holds, how long a
/// signature may live and how far clocks may differ.
#[derive(Debug, Clone, Copy, PartialEq, Eq, Structural)]
pub struct SignedAccessIngressConfig {
    pub key_count: usize,
    pub maximum_ttl: Duration,
    pub clock_skew: Duration,
}

/// Who may reach the listener.
#[derive(Debug, Clone, Copy, PartialEq, Eq, Structural)]
pub enum HttpIngressExposurePolicy {
    LoopbackOnly,
    Public { max_connections_per_ip: usize },
}

impl Default for HttpIngressExposurePolicy {
    fn default() -> (policy: HttpIngressExposurePolicy)
        ensures
            policy is LoopbackOnly,
    {
        HttpIngressExposurePolicy::LoopbackOnly
    }
}

/// The configuration of the HTTPS ingress.
#[derive(Debug)]
pub struct HttpIngressConfig {
    pub listen_addr: SocketAddr,
    pub routes: HttpHostRoutes,
    pub tls: PublicTlsConfig,
    pub exposure: HttpIngressExposurePolicy,
    pub max_concurrent_connections: usize,
    pub max_header_bytes: usize,
    pub max_headers: usize,
    pub max_request_body_bytes: usize,
    pub max_requests_per_connection: usize,
    pub http2: Option<Http2IngressConfig>,
    pub websocket: Option<WebSocketIngressConfig>,
    pub connect: Option<ConnectIngressConfig>,
    pub signed_access: Option<SignedAccessIngressConfig>,
    pub request_rate_limit: HttpRequestRateLimitConfig,
    pub header_read_timeout: Duration,
    pub request_timeout: Duration,
    pub duplex_capacity: usize,
    pub shutdown: RuntimeShutdownConfig,
}

impl Clone for HttpIngressConfig {
    fn clone(&self) -> (copy: HttpIngressConfig)
        ensures
            copy == (HttpIngressConfig { routes: copy.routes, ..*self }),
            same_source(copy.routes.source, self.routes.source),
            copy.routes@ == self.routes@,
    {
        HttpIngressConfig {
            listen_addr: self.listen_addr,
            routes: self.routes.clone(),
            tls: self.tls,
            exposure: self.exposure,
            max_concurrent_connections: self.max_concurrent_connections,
            max_header_bytes: self.max_header_bytes,
            max_headers: self.max_headers,
            max_request_body_bytes: self.max_request_body_bytes,
            max_requests_per_connection: self.max_requests_per_connection,
            http2: self.http2,
            websocket: self.websocket,
            connect: self.connect,
            signed_access: self.signed_access,
            request_rate_limit: self.request_rate_limit,
            header_read_timeout: self.header_read_timeout,
            request_timeout: self.request_timeout,
            duplex_capacity: self.duplex_capacity,
            shutdown: self.shutdown,
        }
    }
}

/// What is wrong with the listener's exposure.
pub open spec fn exposure_fault(c: HttpIngressConfig) -> Option<HttpIngressConfigError> {
    match c.exposure {
        HttpIngressExposurePolicy::LoopbackOnly => if !loopback_ip(c.listen_addr.ip) {
            Some(HttpIngressConfigError::NonLoopbackListener(c.listen_addr))
        } else {
            None
        },
        HttpIngressExposurePolicy::Public { max_connections_per_ip } => if max_connections_per_ip
            == 0 {
            Some(HttpIngressConfigError::ZeroConnectionsPerIp)
        } else if max_connections_per_ip > c.max_concurrent_connections {
            Some(HttpIngressConfigError::PerIpExceedsGlobal)
        } else {
            None
        },
    }
}

/// What is wrong with the sizes of a request.
pub open spec fn request_bound_fault(c: HttpIngressConfig) -> Option<HttpIngressConfigError> {
    if !(MIN_HTTP_HEADER_BYTES <= c.max_header_bytes <= MAX_HTTP_HEADER_BYTES) {
        Some(HttpIngressConfigError::InvalidHeaderBytes)
    } else if !(1 <= c.max_headers <= MAX_HTTP_HEADERS) {
        Some(HttpIngressConfigError::InvalidHeaderCount)
    } else if c.max_request_body_bytes == 0 {
        Some(HttpIngressConfigError::ZeroRequestBodyBytes)
    } else if !(1 <= c.max_requests_per_connection <= MAX_HTTP_REQUESTS_PER_CONNECTION) {
        Some(HttpIngressConfigError::InvalidRequestsPerConnection)
    } else {
        None
    }
}

/// What is wrong with HTTP/2: it must be configured exactly where TLS offers it.
pub open spec fn http2_fault(c: HttpIngressConfig) -> Option<HttpIngressConfigError> {
    match c.http2 {
        None => if c.tls.protocols is Http1Only {
            None
        } else {
            Some(HttpIngressConfigError::Http2TlsPolicyMismatch)
        },
        Some(http2) => if c.tls.protocols is Http1Only {
            Some(HttpIngressConfigError::Http2TlsPolicyMismatch)
        } else if !(1 <= http2.max_concurrent_streams <= MAX_HTTP2_CONCURRENT_STREAMS) {
            Some(HttpIngressConfigError::InvalidHttp2ConcurrentStreams)
        } else if http2.keep_alive_interval.nanos == 0 {
            Some(HttpIngressConfigError::ZeroHttp2KeepAliveInterval)
        } else if http2.keep_alive_timeout.nanos == 0 {
            Some(HttpIngressConfigError::ZeroHttp2KeepAliveTimeout)
        } else {
            None
        },
    }
}

/// What is wrong with WebSocket ingress.
pub open spec fn websocket_fault(c: HttpIngressConfig) -> Option<HttpIngressConfigError> {
    match c.websocket {
        None => None,
        Some(websocket) => if !websocket.enable_http1 && !websocket.enable_http2 {
            Some(HttpIngressConfigError::WebSocketProtocolsDisabled)
        } else if websocket.enable_http2 && c.http2 is None {
            Some(HttpIngressConfigError::Http2WebSocketWithoutHttp2)
        } else if !(1 <= websocket.max_concurrent_sessions <= MAX_WEBSOCKET_SESSIONS) {
            Some(HttpIngressConfigError::InvalidWebSocketSessionLimit)
        } else if websocket.max_concurrent_sessions > c.max_concurrent_connections {
            Some(HttpIngressConfigError::WebSocketSessionsExceedConnections)
        } else if websocket.idle_timeout.nanos == 0 {
            Some(HttpIngressConfigError::ZeroWebSocketIdleTimeout)
        } else {
            None
        },
    }
}

/// What is wrong with CONNECT ingress.
pub open spec fn connect_fault(c: HttpIngressConfig) -> Option<HttpIngressConfigError> {
    match c.connect {
        None => None,
        Some(connect) => if !connect.enable_http1 && !connect.enable_http2 {
            Some(HttpIngressConfigError::ConnectProtocolsDisabled)
        } else if connect.enable_http2 && c.http2 is None {
            Some(HttpIngressConfigError::Http2ConnectWithoutHttp2)
        } else if !(1 <= connect.max_concurrent_sessions <= MAX_CONNECT_SESSIONS) {
            Some(HttpIngressConfigError::InvalidConnectSessionLimit)
        } else if connect.max_concurrent_sessions > c.max_concurrent_connections {
            Some(HttpIngressConfigError::ConnectSessionsExceedConnections)
        } else if connect.idle_timeout.nanos == 0 {
            Some(HttpIngressConfigError::ZeroConnectIdleTimeout)
        } else if connect.authority_port == 0 {
            Some(HttpIngressConfigError::ZeroConnectAuthorityPort)
        } else {
            None
        },
    }
}

/// What is wrong with signed access.
pub open spec fn signed_access_fault(c: HttpIngressConfig) -> Option<HttpIngressConfigError> {
    match c.signed_access {
        None => None,
        Some(policy) => if policy.key_count == 0 {
            Some(HttpIngressConfigError::EmptySignedAccessKeyRing)
        } else if policy.maximum_ttl.nanos == 0 {
            Some(HttpIngressConfigError::ZeroSignedAccessMaximumTtl)
        } else if policy.maximum_ttl.nanos > MAX_SIGNED_ACCESS_TTL {
            Some(HttpIngressConfigError::SignedAccessMaximumTtlTooLarge)
        } else if policy.clock_skew.nanos > MAX_SIGNED_ACCESS_CLOCK_SKEW {
            Some(HttpIngressConfigError::SignedAccessClockSkewTooLarge)
        } else if policy.maximum_ttl.nanos % NANOS_PER_SEC != 0 || policy.clock_skew.nanos
            % NANOS_PER_SEC != 0 {
            Some(HttpIngressConfigError::SubsecondSignedAccessPolicy)
        } else if c.connect is Some {
            Some(HttpIngressConfigError::SignedAccessWithConnect)
        } else {
            None
        },
    }
}

/// What is wrong with the request rate, the buffers and the deadlines.
pub open spec fn deadline_fault(c: HttpIngressConfig) -> Option<HttpIngressConfigError> {
    if rate_limit_fault(c.request_rate_limit) is Some {
        Some(
            HttpIngressConfigError::InvalidRequestRateLimit(
                rate_limit_fault(c.request_rate_limit)->0,
            ),
        )
    } else if !(1 <= c.duplex_capacity <= MAX_DUPLEX_CAPACITY) {
        Some(HttpIngressConfigError::InvalidDuplexCapacity)
    } else if c.header_read_timeout.nanos == 0 {
        Some(HttpIngressConfigError::ZeroHeaderTimeout)
    } else if c.request_timeout.nanos == 0 {
        Some(HttpIngressConfigError::ZeroRequestTimeout)
    } else if c.shutdown.drain_timeout.nanos == 0 {
        Some(HttpIngressConfigError::ZeroDrainTimeout)
    } else {
        None
    }
}

/// The first fault, the groups taken in order.
pub open spec fn http_ingress_fault(c: HttpIngressConfig) -> Option<HttpIngressConfigError> {
    if c.max_concurrent_connections == 0 {
        Some(HttpIngressConfigError::ZeroConnections)
    } else if c.max_concurrent_connections > u32::MAX {
        Some(HttpIngressConfigError::ConnectionLimitTooLarge)
    } else if exposure_fault(c) is Some {
        exposure_fault(c)
    } else if request_bound_fault(c) is Some {
        request_bound_fault(c)
    } else if http2_fault(c) is Some {
        http2_fault(c)
    } else if websocket_fault(c) is Some {
        websocket_fault(c)
    } else if connect_fault(c) is Some {
        connect_fault(c)
    } else if signed_access_fault(c) is Some {
        signed_access_fault(c)
    } else {
        deadline_fault(c)
    }
}

impl HttpIngressConfig {
    /// Checks every bound; the first one broken is reported.
    pub fn validate(&self) -> (result: Result<(), HttpIngressConfigError>)
        ensures
            result == (match http_ingress_fault(*self) {
                Some(fault) => Err(fault),
                None => Ok(()),
            }),
    {
        if self.max_concurrent_connections == 0 {
            return Err(HttpIngressConfigError::ZeroConnections);
        }
        if self.max_concurrent_connections > u32::MAX as usize {
            return Err(HttpIngressConfigError::ConnectionLimitTooLarge);
        }
        match self.exposure {
            HttpIngressExposurePolicy::LoopbackOnly => {
                if !self.listen_addr.ip().is_loopback() {
                    return Err(HttpIngressConfigError::NonLoopbackListener(self.listen_addr));
                }
            },
            HttpIngressExposurePolicy::Public { max_connections_per_ip } => {
                if max_connections_per_ip == 0 {
                    return Err(HttpIngressConfigError::ZeroConnectionsPerIp);
                }
                if max_connections_per_ip > self.max_concurrent_connections {
                    return Err(HttpIngressConfigError::PerIpExceedsGlobal);
                }
            },
        }
        if self.max_header_bytes < MIN_HTTP_HEADER_BYTES || self.max_header_bytes
            > MAX_HTTP_HEADER_BYTES {
            return Err(HttpIngressConfigError::InvalidHeaderBytes);
        }
        if self.max_headers == 0 || self.max_headers > MAX_HTTP_HEADERS {
            return Err(HttpIngressConfigError::InvalidHeaderCount);
        }
        if self.max_request_body_bytes == 0 {
            return Err(HttpIngressConfigError::ZeroRequestBodyBytes);
        }
        if self.max_requests_per_connection < 1 || self.max_requests_per_connection
            > MAX_HTTP_REQUESTS_PER_CONNECTION {
            return Err(HttpIngressConfigError::InvalidRequestsPerConnection);
        }
        match (self.http2, self.tls.protocols) {
            (None, PublicHttpProtocolPolicy::Http1Only) => {},
            (Some(http2), PublicHttpProtocolPolicy::Http1AndHttp2) => {
                if http2.max_concurrent_streams == 0 || http2.max_concurrent_streams
                    > MAX_HTTP2_CONCURRENT_STREAMS {
                    return Err(HttpIngressConfigError::InvalidHttp2ConcurrentStreams);
                }
                if http2.keep_alive_interval.is_zero() {
                    return Err(HttpIngressConfigError::ZeroHttp2KeepAliveInterval);
                }
                if http2.keep_alive_timeout.is_zero() {
                    return Err(HttpIngressConfigError::ZeroHttp2KeepAliveTimeout);
                }
            },
            _ => return Err(HttpIngressConfigError::Http2TlsPolicyMismatch),
        }
        if let Some(websocket) = self.websocket {
            if !websocket.enable_http1 && !websocket.enable_http2 {
                return Err(HttpIngressConfigError::WebSocketProtocolsDisabled);
            }
            if websocket.enable_http2 && self.http2.is_none() {
                return Err(HttpIngressConfigError::Http2WebSocketWithoutHttp2);
            }
            if websocket.max_concurrent_sessions == 0 || websocket.max_concurrent_sessions
                > MAX_WEBSOCKET_SESSIONS {
                return Err(HttpIngressConfigError::InvalidWebSocketSessionLimit);
            }
            if websocket.max_concurrent_sessions > self.max_concurrent_connections {
                return Err(HttpIngressConfigError::WebSocketSessionsExceedConnections);
            }
            if websocket.idle_timeout.is_zero() {
                return Err(HttpIngressConfigError::ZeroWebSocketIdleTimeout);
            }
        }
        if let Some(connect) = self.connect {
            if !connect.enable_http1 && !connect.enable_http2 {
                return Err(HttpIngressConfigError::ConnectProtocolsDisabled);
            }
            if connect.enable_http2 && self.http2.is_none() {
                return Err(HttpIngressConfigError::Http2ConnectWithoutHttp2);
            }
            if connect.max_concurrent_sessions == 0 || connect.max_concurrent_sessions
                > MAX_CONNECT_SESSIONS {
                return Err(HttpIngressConfigError::InvalidConnectSessionLimit);
            }
            if connect.max_concurrent_sessions > self.max_concurrent_connections {
                return Err(HttpIngressConfigError::ConnectSessionsExceedConnections);
            }
            if connect.idle_timeout.is_zero() {
                return Err(HttpIngressConfigError::ZeroConnectIdleTimeout);
            }
            if connect.authority_port == 0 {
                return Err(HttpIngressConfigError::ZeroConnectAuthorityPort);
            }
        }
        if let Some(signed_access) = self.signed_access {
            if signed_access.key_count == 0 {
                return Err(HttpIngressConfigError::EmptySignedAccessKeyRing);
            }
            if signed_access.maximum_ttl.is_zero() {
                return Err(HttpIngressConfigError::ZeroSignedAccessMaximumTtl);
            }
            if signed_access.maximum_ttl.nanos > MAX_SIGNED_ACCESS_TTL {
                return Err(HttpIngressConfigError::SignedAccessMaximumTtlTooLarge);
            }
            if signed_access.clock_skew.nanos > MAX_SIGNED_ACCESS_CLOCK_SKEW {
                return Err(HttpIngressConfigError::SignedAccessClockSkewTooLarge);
            }
            if signed_access.maximum_ttl.nanos % NANOS_PER_SEC != 0 || signed_access.clock_skew.nanos
                % NANOS_PER_SEC != 0 {
                return Err(HttpIngressConfigError::SubsecondSignedAccessPolicy);
            }
            if self.connect.is_some() {
                return Err(HttpIngressConfigError::SignedAccessWithConnect);
            }
        }
        match self.request_rate_limit.validate() {
            Ok(()) => {},
            Err(error) => return Err(HttpIngressConfigError::InvalidRequestRateLimit(error)),
        }
        if self.duplex_capacity == 0 || self.duplex_capacity > MAX_DUPLEX_CAPACITY {
            return Err(HttpIngressConfigError::InvalidDuplexCapacity);
        }
        if self.header_read_timeout.is_zero() {
            return Err(HttpIngressConfigError::ZeroHeaderTimeout);
        }
        if self.request_timeout.is_zero() {
            return Err(HttpIngressConfigError::ZeroRequestTimeout);
        }
        match self.shutdown.validate() {
            Ok(()) => Ok(()),
            Err(_) => Err(HttpIngressConfigError::ZeroDrainTimeout),
        }
    }
}

/// A bound of the configuration that does not hold.
#[derive(Debug, Clone, Copy, PartialEq, Eq, Structural)]
pub enum HttpIngressConfigError {
    NonLoopbackListener(SocketAddr),
    InvalidRequestRateLimit(HttpRequestRateLimitConfigError),
    ZeroConnections,
    ConnectionLimitTooLarge,
    ZeroConnectionsPerIp,
    PerIpExceedsGlobal,
    InvalidHeaderBytes,
    InvalidHeaderCount,
    ZeroRequestBodyBytes,
    InvalidRequestsPerConnection,
    InvalidHttp2ConcurrentStreams,
    ZeroHttp2KeepAliveInterval,
    ZeroHttp2KeepAliveTimeout,
    Http2TlsPolicyMismatch,
    WebSocketProtocolsDisabled,
    Http2WebSocketWithoutHttp2,
    InvalidWebSocketSessionLimit,
    WebSocketSessionsExceedConnections,
    ZeroWebSocketIdleTimeout,
    ConnectProtocolsDisabled,
    Http2ConnectWithoutHttp2,
    InvalidConnectSessionLimit,
    ConnectSessionsExceedConnections,
    ZeroConnectIdleTimeout,
    ZeroConnectAuthorityPort,
    EmptySignedAccessKeyRing,
    ZeroSignedAccessMaximumTtl,
    SignedAccessMaximumTtlTooLarge,
    SignedAccessClockSkewTooLarge,
    SubsecondSignedAccessPolicy,
    SignedAccessWithConnect,
    InvalidDuplexCapacity,
    ZeroHeaderTimeout,
    ZeroRequestTimeout,
    ZeroDrainTimeout,
}

impl HttpIngressConfigError {
    /// The text shown to an operator, where `listener` is how the listener's
    /// address is written.
    pub open spec fn text(self, listener: Seq<char>) -> Seq<char> {
        match self {
            HttpIngressConfigError::NonLoopbackListener(_) =>
                "HTTPS ingress listener must be loopback, got "@ + listener,
            HttpIngressConfigError::InvalidRequestRateLimit(error) =>
                "invalid HTTP request rate limit: "@ + error.text(),
            HttpIngressConfigError::ZeroConnections =>
                "max HTTP connections must be greater than zero"@,
            HttpIngressConfigError::ConnectionLimitTooLarge =>
                "max HTTP connections must fit in u32"@,
            HttpIngressConfigError::ZeroConnectionsPerIp =>
                "max HTTP connections per IP must be greater than zero"@,
            HttpIngressConfigError::PerIpExceedsGlobal =>
                "max HTTP connections per IP cannot exceed the global limit"@,
            HttpIngressConfigError::InvalidHeaderBytes =>
                "max HTTP header bytes must be between 8192 and 1048576"@,
            HttpIngressConfigError::InvalidHeaderCount =>
                "max HTTP headers must be between 1 and 1024"@,
            HttpIngressConfigError::ZeroRequestBodyBytes =>
                "max HTTP request body bytes must be greater than zero"@,
            HttpIngressConfigError::InvalidRequestsPerConnection =>
                "max HTTP requests per connection must be between 1 and 1024"@,
            HttpIngressConfigError::InvalidHttp2ConcurrentStreams =>
                "max HTTP/2 concurrent streams must be between 1 and 128"@,
            HttpIngressConfigError::ZeroHttp2KeepAliveInterval =>
                "HTTP/2 keep-alive interval must be greater than zero"@,
            HttpIngressConfigError::ZeroHttp2KeepAliveTimeout =>
                "HTTP/2 keep-alive timeout must be greater than zero"@,
            HttpIngressConfigError::Http2TlsPolicyMismatch =>
                "HTTP/2 ingress and public TLS protocol policies must match"@,
            HttpIngressConfigError::WebSocketProtocolsDisabled =>
                "WebSocket ingress must enable HTTP/1.1 or HTTP/2"@,
            HttpIngressConfigError::Http2WebSocketWithoutHttp2 =>
                "HTTP/2 WebSocket requires HTTP/2 ingress"@,
            HttpIngressConfigError::InvalidWebSocketSessionLimit =>
                "max WebSocket sessions must be between 1 and 1024"@,
            HttpIngressConfigError::WebSocketSessionsExceedConnections =>
                "max WebSocket sessions cannot exceed max HTTP connections"@,
            HttpIngressConfigError::ZeroWebSocketIdleTimeout =>
                "WebSocket idle timeout must be greater than zero"@,
            HttpIngressConfigError::ConnectProtocolsDisabled =>
                "CONNECT ingress must enable HTTP/1.1 or HTTP/2"@,
            HttpIngressConfigError::Http2ConnectWithoutHttp2 =>
                "HTTP/2 CONNECT requires HTTP/2 ingress"@,
            HttpIngressConfigError::InvalidConnectSessionLimit =>
                "max CONNECT sessions must be between 1 and 1024"@,
            HttpIngressConfigError::ConnectSessionsExceedConnections =>
                "max CONNECT sessions cannot exceed max HTTP connections"@,
            HttpIngressConfigError::ZeroConnectIdleTimeout =>
                "CONNECT idle timeout must be greater than zero"@,
            HttpIngressConfigError::ZeroConnectAuthorityPort =>
                "CONNECT authority port must be greater than zero"@,
            HttpIngressConfigError::EmptySignedAccessKeyRing =>
                "signed-access public-key ring must not be empty"@,
            HttpIngressConfigError::ZeroSignedAccessMaximumTtl =>
                "signed-access maximum TTL must be greater than zero"@,
            HttpIngressConfigError::SignedAccessMaximumTtlTooLarge =>
                "signed-access maximum TTL cannot exceed seven days"@,
            HttpIngressConfigError::SignedAccessClockSkewTooLarge =>
                "signed-access clock skew cannot exceed five minutes"@,
            HttpIngressConfigError::SubsecondSignedAccessPolicy =>
                "signed-access TTL and clock skew must use whole seconds"@,
            HttpIngressConfigError::SignedAccessWithConnect =>
                "signed-access URLs cannot be combined with CONNECT ingress"@,
            HttpIngressConfigError::InvalidDuplexCapacity =>
                "HTTP duplex capacity must be between 1 and 1048576 bytes"@,
            HttpIngressConfigError::ZeroHeaderTimeout =>
                "HTTP header timeout must be greater than zero"@,
            HttpIngressConfigError::ZeroRequestTimeout =>
                "HTTP request timeout must be greater than zero"@,
            HttpIngressConfigError::ZeroDrainTimeout =>
                "HTTP drain timeout must be greater than zero"@,
        }
    }

    /// The text shown to an operator, where `listener` is how the listener's
    /// address is written.
    pub fn message(self, listener: &str) -> (message: String)
        ensures
            message@ == self.text(listener@),
    {
        let fixed: &str = match self {
            HttpIngressConfigError::NonLoopbackListener(_) => {
                return "HTTPS ingress listener must be loopback, got ".to_owned().concat(listener);
            },
            HttpIngressConfigError::InvalidRequestRateLimit(error) => {
                return "invalid HTTP request rate limit: ".to_owned().concat(error.message());
            },
            HttpIngressConfigError::ZeroConnections =>
                "max HTTP connections must be greater than zero",
            HttpIngressConfigError::ConnectionLimitTooLarge =>
                "max HTTP connections must fit in u32",
            HttpIngressConfigError::ZeroConnectionsPerIp =>
                "max HTTP connections per IP must be greater than zero",
            HttpIngressConfigError::PerIpExceedsGlobal =>
                "max HTTP connections per IP cannot exceed the global limit",
            HttpIngressConfigError::InvalidHeaderBytes =>
                "max HTTP header bytes must be between 8192 and 1048576",
            HttpIngressConfigError::InvalidHeaderCount =>
                "max HTTP headers must be between 1 and 1024",
            HttpIngressConfigError::ZeroRequestBodyBytes =>
                "max HTTP request body bytes must be greater than zero",
            HttpIngressConfigError::InvalidRequestsPerConnection =>
                "max HTTP requests per connection must be between 1 and 1024",
            HttpIngressConfigError::InvalidHttp2ConcurrentStreams =>
                "max HTTP/2 concurrent streams must be between 1 and 128",
            HttpIngressConfigError::ZeroHttp2KeepAliveInterval =>
                "HTTP/2 keep-alive interval must be greater than zero",
            HttpIngressConfigError::ZeroHttp2KeepAliveTimeout =>
                "HTTP/2 keep-alive timeout must be greater than zero",
            HttpIngressConfigError::Http2TlsPolicyMismatch =>
                "HTTP/2 ingress and public TLS protocol policies must match",
            HttpIngressConfigError::WebSocketProtocolsDisabled =>
                "WebSocket ingress must enable HTTP/1.1 or HTTP/2",
            HttpIngressConfigError::Http2WebSocketWithoutHttp2 =>
                "HTTP/2 WebSocket requires HTTP/2 ingress",
            HttpIngressConfigError::InvalidWebSocketSessionLimit =>
                "max WebSocket sessions must be between 1 and 1024",
            HttpIngressConfigError::WebSocketSessionsExceedConnections =>
                "max WebSocket sessions cannot exceed max HTTP connections",
            HttpIngressConfigError::ZeroWebSocketIdleTimeout =>
                "WebSocket idle timeout must be greater than zero",
            HttpIngressConfigError::ConnectProtocolsDisabled =>
                "CONNECT ingress must enable HTTP/1.1 or HTTP/2",
            HttpIngressConfigError::Http2ConnectWithoutHttp2 =>
                "HTTP/2 CONNECT requires HTTP/2 ingress",
            HttpIngressConfigError::InvalidConnectSessionLimit =>
                "max CONNECT sessions must be between 1 and 1024",
            HttpIngressConfigError::ConnectSessionsExceedConnections =>
                "max CONNECT sessions cannot exceed max HTTP connections",
            HttpIngressConfigError::ZeroConnectIdleTimeout =>
                "CONNECT idle timeout must be greater than zero",
            HttpIngressConfigError::ZeroConnectAuthorityPort =>
                "CONNECT authority port must be greater than zero",
            HttpIngressConfigError::EmptySignedAccessKeyRing =>
                "signed-access public-key ring must not be empty",
            HttpIngressConfigError::ZeroSignedAccessMaximumTtl =>
                "signed-access maximum TTL must be greater than zero",
            HttpIngressConfigError::SignedAccessMaximumTtlTooLarge =>
                "signed-access maximum TTL cannot exceed seven days",
            HttpIngressConfigError::SignedAccessClockSkewTooLarge =>
                "signed-access clock skew cannot exceed five minutes",
            HttpIngressConfigError::SubsecondSignedAccessPolicy =>
                "signed-access TTL and clock skew must use whole seconds",
            HttpIngressConfigError::SignedAccessWithConnect =>
                "signed-access URLs cannot be combined with CONNECT ingress",
            HttpIngressConfigError::InvalidDuplexCapacity =>
                "HTTP duplex capacity must be between 1 and 1048576 bytes",
            HttpIngressConfigError::ZeroHeaderTimeout =>
                "HTTP header timeout must be greater than zero",
            HttpIngressConfigError::ZeroRequestTimeout =>
                "HTTP request timeout must be greater than zero",
            HttpIngressConfigError::ZeroDrainTimeout =>
                "HTTP drain timeout must be greater than zero",
        };
        fixed.to_owned()
    }
}

/// A configuration that passes opens the listener beyond loopback only with a
/// bound for each source, and never combines signed URLs with CONNECT.
pub proof fn valid_ingress_is_bounded(c: HttpIngressConfig)
    requires
        http_ingress_fault(c) is None,
    ensures
        !loopback_ip(c.listen_addr.ip) ==> c.exposure is Public && 1
            <= c.exposure->max_connections_per_ip <= c.max_concurrent_connections,
        c.signed_access is Some ==> c.connect is None,
        c.max_headers <= MAX_HTTP_HEADERS,
        c.websocket is Some ==> c.websocket->0.max_concurrent_sessions
            <= c.max_concurrent_connections,
        c.connect is Some ==> c.connect->0.max_concurrent_sessions <= c.max_concurrent_connections,
{
}

/// A listener passes on any address where each source is bounded by no more than the
/// whole, and on a loopback address without such a bound.
pub proof fn listeners_pass_on_loopback_or_bounded(c: HttpIngressConfig)
    ensures
        exposure_fault(c) is None <==> {
            ||| c.exposure is LoopbackOnly && loopback_ip(c.listen_addr.ip)
            ||| c.exposure is Public && 1 <= c.exposure->max_connections_per_ip
                <= c.max_concurrent_connections
        },
{
}

/// Every part of a configuration that passes is within its bounds, and a
/// configuration whose parts all are passes.
pub proof fn ingress_passes_within_its_bounds(c: HttpIngressConfig)
    ensures
        http_ingress_fault(c) is None <==> {
            &&& 1 <= c.max_concurrent_connections <= 0xffff_ffff
            &&& exposure_fault(c) is None
            &&& 8192 <= c.max_header_bytes <= 1_048_576
            &&& 1 <= c.max_headers <= 1024
            &&& 1 <= c.max_request_body_bytes
            &&& 1 <= c.max_requests_per_connection <= 1024
            &&& http2_fault(c) is None
            &&& websocket_fault(c) is None
            &&& connect_fault(c) is None
            &&& signed_access_fault(c) is None
            &&& rate_limit_fault(c.request_rate_limit) is None
            &&& 1 <= c.duplex_capacity <= 1_048_576
            &&& c.header_read_timeout.nanos > 0
            &&& c.request_timeout.nanos > 0
            &&& c.shutdown.drain_timeout.nanos > 0
        },
{
}

/// HTTP/2 passes exactly where it is configured and TLS offers it, with 1 to 128
/// streams and keep-alive times, or is neither configured nor offered.
pub proof fn http2_passes_where_tls_offers_it(c: HttpIngressConfig)
    ensures
        http2_fault(c) is None <==> (match c.http2 {
            None => c.tls.protocols == PublicHttpProtocolPolicy::Http1Only,
            Some(http2) => {
                &&& c.tls.protocols != PublicHttpProtocolPolicy::Http1Only
                &&& 1 <= http2.max_concurrent_streams <= 128
                &&& http2.keep_alive_interval.nanos > 0
                &&& http2.keep_alive_timeout.nanos > 0
            },
        }),
{
}

/// WebSocket ingress passes exactly where it serves some protocol that the listener
/// speaks, with 1 to 1024 sessions that all find a connection, and an idle time.
pub proof fn websockets_pass_within_their_bounds(c: HttpIngressConfig)
    ensures
        websocket_fault(c) is None <==> (c.websocket matches Some(websocket) ==> {
            &&& websocket.enable_http1 || websocket.enable_http2
            &&& websocket.enable_http2 ==> c.http2 is Some
            &&& 1 <= websocket.max_concurrent_sessions <= 1024
            &&& websocket.max_concurrent_sessions <= c.max_concurrent_connections
            &&& websocket.idle_timeout.nanos > 0
        }),
{
}

/// CONNECT ingress passes exactly where it serves some protocol that the listener
/// speaks, with 1 to 1024 sessions that all find a connection, an idle time and a port.
pub proof fn connects_pass_within_their_bounds(c: HttpIngressConfig)
    ensures
        connect_fault(c) is None <==> (c.connect matches Some(connect) ==> {
            &&& connect.enable_http1 || connect.enable_http2
            &&& connect.enable_http2 ==> c.http2 is Some
            &&& 1 <= connect.max_concurrent_sessions <= 1024
            &&& connect.max_concurrent_sessions <= c.max_concurrent_connections
            &&& connect.idle_timeout.nanos > 0
            &&& connect.authority_port > 0
        }),
{
}

/// Signed access passes exactly where it has a key, signatures live for whole seconds
/// up to seven days, clocks differ by whole seconds up to five minutes, and CONNECT is
/// off.
pub proof fn signed_access_passes_within_its_bounds(c: HttpIngressConfig)
    ensures
        signed_access_fault(c) is None <==> (c.signed_access matches Some(policy) ==> {
            &&& policy.key_count > 0
            &&& 0 < policy.maximum_ttl.nanos <= 604_800 * 1_000_000_000
            &&& policy.maximum_ttl.nanos % 1_000_000_000 == 0
            &&& policy.clock_skew.nanos <= 300 * 1_000_000_000
            &&& policy.clock_skew.nanos % 1_000_000_000 == 0
            &&& c.connect is None
        }),
{
}

/// A fault of the listener, its sizes or its deadlines names what is wrong.
pub proof fn listener_faults_name_what_is_wrong(c: HttpIngressConfig)
    requires
        http_ingress_fault(c) is Some,
    ensures
        match http_ingress_fault(c)->0 {
            HttpIngressConfigError::NonLoopbackListener(address) => address == c.listen_addr
                && c.exposure is LoopbackOnly,
            HttpIngressConfigError::ZeroConnections => c.max_concurrent_connections == 0,
            HttpIngressConfigError::ConnectionLimitTooLarge => c.max_concurrent_connections
                > 0xffff_ffff,
            HttpIngressConfigError::ZeroConnectionsPerIp => c.exposure is Public
                && c.exposure->max_connections_per_ip == 0,
            HttpIngressConfigError::PerIpExceedsGlobal => c.exposure is Public
                && c.exposure->max_connections_per_ip > c.max_concurrent_connections,
            HttpIngressConfigError::InvalidHeaderBytes => c.max_header_bytes < 8192
                || c.max_header_bytes > 1_048_576,
            HttpIngressConfigError::InvalidHeaderCount => c.max_headers == 0 || c.max_headers
                > 1024,
            HttpIngressConfigError::ZeroRequestBodyBytes => c.max_request_body_bytes == 0,
            HttpIngressConfigError::InvalidRequestsPerConnection => c.max_requests_per_connection
                == 0 || c.max_requests_per_connection > 1024,
            HttpIngressConfigError::InvalidRequestRateLimit(fault) => rate_limit_fault(
                c.request_rate_limit,
            ) == Some(fault),
            HttpIngressConfigError::InvalidDuplexCapacity => c.duplex_capacity == 0
                || c.duplex_capacity > 1_048_576,
            HttpIngressConfigError::ZeroHeaderTimeout => c.header_read_timeout.nanos == 0,
            HttpIngressConfigError::ZeroRequestTimeout => c.request_timeout.nanos == 0,
            HttpIngressConfigError::ZeroDrainTimeout => c.shutdown.drain_timeout.nanos == 0,
            _ => http2_fault(c) is Some || websocket_fault(c) is Some || connect_fault(c) is Some
                || signed_access_fault(c) is Some,
        },
{
}

/// A fault of HTTP/2, of sessions or of signed access names what is wrong.
pub proof fn session_faults_name_what_is_wrong(c: HttpIngressConfig)
    requires
        http_ingress_fault(c) is Some,
    ensures
        match http_ingress_fault(c)->0 {
            HttpIngressConfigError::Http2TlsPolicyMismatch => c.http2 is Some <==> c.tls.protocols
                == PublicHttpProtocolPolicy::Http1Only,
            HttpIngressConfigError::InvalidHttp2ConcurrentStreams => c.http2 is Some && (
            c.http2->0.max_concurrent_streams == 0 || c.http2->0.max_concurrent_streams > 128),
            HttpIngressConfigError::ZeroHttp2KeepAliveInterval => c.http2 is Some
                && c.http2->0.keep_alive_interval.nanos == 0,
            HttpIngressConfigError::ZeroHttp2KeepAliveTimeout => c.http2 is Some
                && c.http2->0.keep_alive_timeout.nanos == 0,
            HttpIngressConfigError::WebSocketProtocolsDisabled => c.websocket is Some
                && !c.websocket->0.enable_http1 && !c.websocket->0.enable_http2,
            HttpIngressConfigError::Http2WebSocketWithoutHttp2 => c.websocket is Some
                && c.websocket->0.enable_http2 && c.http2 is None,
            HttpIngressConfigError::InvalidWebSocketSessionLimit => c.websocket is Some && (
            c.websocket->0.max_concurrent_sessions == 0 || c.websocket->0.max_concurrent_sessions
                > 1024),
            HttpIngressConfigError::WebSocketSessionsExceedConnections => c.websocket is Some
                && c.websocket->0.max_concurrent_sessions > c.max_concurrent_connections,
            HttpIngressConfigError::ZeroWebSocketIdleTimeout => c.websocket is Some
                && c.websocket->0.idle_timeout.nanos == 0,
            HttpIngressConfigError::ConnectProtocolsDisabled => c.connect is Some
                && !c.connect->0.enable_http1 && !c.connect->0.enable_http2,
            HttpIngressConfigError::Http2ConnectWithoutHttp2 => c.connect is Some
                && c.connect->0.enable_http2 && c.http2 is None,
            HttpIngressConfigError::InvalidConnectSessionLimit => c.connect is Some && (
            c.connect->0.max_concurrent_sessions == 0 || c.connect->0.max_concurrent_sessions
                > 1024),
            HttpIngressConfigError::ConnectSessionsExceedConnections => c.connect is Some
                && c.connect->0.max_concurrent_sessions > c.max_concurrent_connections,
            HttpIngressConfigError::ZeroConnectIdleTimeout => c.connect is Some
                && c.connect->0.idle_timeout.nanos == 0,
            HttpIngressConfigError::ZeroConnectAuthorityPort => c.connect is Some
                && c.connect->0.authority_port == 0,
            HttpIngressConfigError::EmptySignedAccessKeyRing => c.signed_access is Some
                && c.signed_access->0.key_count == 0,
            HttpIngressConfigError::ZeroSignedAccessMaximumTtl => c.signed_access is Some
                && c.signed_access->0.maximum_ttl.nanos == 0,
            HttpIngressConfigError::SignedAccessMaximumTtlTooLarge => c.signed_access is Some
                && c.signed_access->0.maximum_ttl.nanos > 604_800 * 1_000_000_000,
            HttpIngressConfigError::SignedAccessClockSkewTooLarge => c.signed_access is Some
                && c.signed_access->0.clock_skew.nanos > 300 * 1_000_000_000,
            HttpIngressConfigError::SubsecondSignedAccessPolicy => c.signed_access is Some && (
            c.signed_access->0.maximum_ttl.nanos % 1_000_000_000 != 0
                || c.signed_access->0.clock_skew.nanos % 1_000_000_000 != 0),
            HttpIngressConfigError::SignedAccessWithConnect => c.signed_access is Some
                && c.connect is Some,
            _ => true,
        },
{
}

} // verus!
