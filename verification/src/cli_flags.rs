//! The flags of the command line: how each is written, what kind of value it takes,
//! and which group of options it belongs to.

use vstd::prelude::*;

use crate::text::same_text;

verus! {

/// A flag that takes no value.
#[derive(Debug, Clone, Copy, PartialEq, Eq, Structural)]
pub enum SwitchFlag {
    Help,
    AllowPublicRawIngress,
    AllowPublicHttpsIngress,
    EnableHttp2,
    EnableWebsocketUpgrade,
    EnableHttp2Websocket,
    EnableConnect,
    EnableHttp2Connect,
    RequireSignedAccess,
}

/// A flag that takes a socket address.
#[derive(Debug, Clone, Copy, PartialEq, Eq, Structural)]
pub enum AddressFlag {
    AgentListen,
    RawListen,
    HttpsListen,
    HttpsRouteServer,
    OpsListen,
    SnapshotServer,
}

/// A flag that takes a number.
#[derive(Debug, Clone, Copy, PartialEq, Eq, Structural)]
pub enum NumberFlag {
    MaxStreams,
    MaxAgentSessions,
    MaxRawConnections,
    MaxRawConnectionsPerIp,
    HttpsRouteMaxStaleMs,
    MaxHttpConnections,
    MaxHttpConnectionsPerIp,
    MaxHttpHeaderBytes,
    MaxHttpHeaders,
    MaxHttpRequestBodyBytes,
    MaxHttpRequestsPerConnection,
    MaxHttp2ConcurrentStreams,
    Http2KeepaliveIntervalMs,
    Http2KeepaliveTimeoutMs,
    MaxWebsocketSessions,
    WebsocketIdleTimeoutMs,
    MaxConnectSessions,
    ConnectIdleTimeoutMs,
    ConnectAuthorityPort,
    SignedAccessReloadIntervalMs,
    SignedAccessMaxTtlSeconds,
    SignedAccessClockSkewSeconds,
    HttpRequestsPerSecond,
    HttpRequestBurst,
    HttpRequestsPerIpPerSecond,
    HttpRequestBurstPerIp,
    MaxHttpRateLimitPeers,
    HttpRateLimitIdleMs,
    HttpHeaderTimeoutMs,
    HttpRequestTimeoutMs,
    MaxOpsConnections,
    OpsHeaderTimeoutMs,
    OpsRequestTimeoutMs,
    DrainTimeoutMs,
    TlsHandshakeTimeoutMs,
    SnapshotConnectTimeoutMs,
    SnapshotHandshakeTimeoutMs,
    SnapshotSubscribeTimeoutMs,
    SnapshotReconnectInitialMs,
    SnapshotReconnectMaxMs,
    SnapshotCacheMaxStaleMs,
    TlsReloadIntervalMs,
    TlsExpiryWarningMs,
}

/// A flag that takes a path or another text as it is.
#[derive(Debug, Clone, Copy, PartialEq, Eq, Structural)]
pub enum TextFlag {
    HttpsRouteTlsReloadManifest,
    PublicTlsCert,
    PublicTlsKey,
    PublicTlsReloadManifest,
    SignedAccessKeyring,
    SignedAccessKeyringReloadManifest,
    TlsCert,
    TlsKey,
    TlsClientCa,
    AuthorizedClientCert,
    TlsReloadManifest,
    SnapshotCa,
    SnapshotClientCert,
    SnapshotClientKey,
    SnapshotServerName,
    SnapshotCacheDir,
    SnapshotTlsReloadManifest,
}

/// A flag, by the kind of value it takes.
#[derive(Debug, Clone, Copy, PartialEq, Eq, Structural)]
pub enum Flag {
    Switch(SwitchFlag),
    Address(AddressFlag),
    Number(NumberFlag),
    Text(TextFlag),
    AgentId,
    TunnelId,
    HttpsHost,
}

/// The flag without a value that a text writes, if it writes one.
pub open spec fn switch_flag(text: Seq<char>) -> Option<SwitchFlag> {
    if text == "--help"@ || text == "-h"@ {
        Some(SwitchFlag::Help)
    } else if text == "--allow-public-raw-ingress"@ {
        Some(SwitchFlag::AllowPublicRawIngress)
    } else if text == "--allow-public-https-ingress"@ {
        Some(SwitchFlag::AllowPublicHttpsIngress)
    } else if text == "--enable-http2"@ {
        Some(SwitchFlag::EnableHttp2)
    } else if text == "--enable-websocket-upgrade"@ {
        Some(SwitchFlag::EnableWebsocketUpgrade)
    } else if text == "--enable-http2-websocket"@ {
        Some(SwitchFlag::EnableHttp2Websocket)
    } else if text == "--enable-connect"@ {
        Some(SwitchFlag::EnableConnect)
    } else if text == "--enable-http2-connect"@ {
        Some(SwitchFlag::EnableHttp2Connect)
    } else if text == "--require-signed-access"@ {
        Some(SwitchFlag::RequireSignedAccess)
    } else {
        None
    }
}

/// The flag without a value that a text writes, if it writes one.
pub fn read_switch_flag(text: &str) -> (flag: Option<SwitchFlag>)
    ensures
        flag == switch_flag(text@),
{
    if same_text(text, "--help") || same_text(text, "-h") {
        Some(SwitchFlag::Help)
    } else if same_text(text, "--allow-public-raw-ingress") {
        Some(SwitchFlag::AllowPublicRawIngress)
    } else if same_text(text, "--allow-public-https-ingress") {
        Some(SwitchFlag::AllowPublicHttpsIngress)
    } else if same_text(text, "--enable-http2") {
        Some(SwitchFlag::EnableHttp2)
    } else if same_text(text, "--enable-websocket-upgrade") {
        Some(SwitchFlag::EnableWebsocketUpgrade)
    } else if same_text(text, "--enable-http2-websocket") {
        Some(SwitchFlag::EnableHttp2Websocket)
    } else if same_text(text, "--enable-connect") {
        Some(SwitchFlag::EnableConnect)
    } else if same_text(text, "--enable-http2-connect") {
        Some(SwitchFlag::EnableHttp2Connect)
    } else if same_text(text, "--require-signed-access") {
        Some(SwitchFlag::RequireSignedAccess)
    } else {
        None
    }
}

/// The flag with an address that a text writes, if it writes one.
pub open spec fn address_flag(text: Seq<char>) -> Option<AddressFlag> {
    if text == "--agent-listen"@ {
        Some(AddressFlag::AgentListen)
    } else if text == "--raw-listen"@ {
        Some(AddressFlag::RawListen)
    } else if text == "--https-listen"@ {
        Some(AddressFlag::HttpsListen)
    } else if text == "--https-route-server"@ {
        Some(AddressFlag::HttpsRouteServer)
    } else if text == "--ops-listen"@ {
        Some(AddressFlag::OpsListen)
    } else if text == "--snapshot-server"@ {
        Some(AddressFlag::SnapshotServer)
    } else {
        None
    }
}

/// The flag with an address that a text writes, if it writes one.
pub fn read_address_flag(text: &str) -> (flag: Option<AddressFlag>)
    ensures
        flag == address_flag(text@),
{
    if same_text(text, "--agent-listen") {
        Some(AddressFlag::AgentListen)
    } else if same_text(text, "--raw-listen") {
        Some(AddressFlag::RawListen)
    } else if same_text(text, "--https-listen") {
        Some(AddressFlag::HttpsListen)
    } else if same_text(text, "--https-route-server") {
        Some(AddressFlag::HttpsRouteServer)
    } else if same_text(text, "--ops-listen") {
        Some(AddressFlag::OpsListen)
    } else if same_text(text, "--snapshot-server") {
        Some(AddressFlag::SnapshotServer)
    } else {
        None
    }
}

/// The flag with a number that a text writes, if it writes one.
pub open spec fn number_flag(text: Seq<char>) -> Option<NumberFlag> {
    if text == "--max-streams"@ {
        Some(NumberFlag::MaxStreams)
    } else if text == "--max-agent-sessions"@ {
        Some(NumberFlag::MaxAgentSessions)
    } else if text == "--max-raw-connections"@ {
        Some(NumberFlag::MaxRawConnections)
    } else if text == "--max-raw-connections-per-ip"@ {
        Some(NumberFlag::MaxRawConnectionsPerIp)
    } else if text == "--https-route-max-stale-ms"@ {
        Some(NumberFlag::HttpsRouteMaxStaleMs)
    } else if text == "--max-http-connections"@ {
        Some(NumberFlag::MaxHttpConnections)
    } else if text == "--max-http-connections-per-ip"@ {
        Some(NumberFlag::MaxHttpConnectionsPerIp)
    } else if text == "--max-http-header-bytes"@ {
        Some(NumberFlag::MaxHttpHeaderBytes)
    } else if text == "--max-http-headers"@ {
        Some(NumberFlag::MaxHttpHeaders)
    } else if text == "--max-http-request-body-bytes"@ {
        Some(NumberFlag::MaxHttpRequestBodyBytes)
    } else if text == "--max-http-requests-per-connection"@ {
        Some(NumberFlag::MaxHttpRequestsPerConnection)
    } else if text == "--max-http2-concurrent-streams"@ {
        Some(NumberFlag::MaxHttp2ConcurrentStreams)
    } else if text == "--http2-keepalive-interval-ms"@ {
        Some(NumberFlag::Http2KeepaliveIntervalMs)
    } else if text == "--http2-keepalive-timeout-ms"@ {
        Some(NumberFlag::Http2KeepaliveTimeoutMs)
    } else if text == "--max-websocket-sessions"@ {
        Some(NumberFlag::MaxWebsocketSessions)
    } else if text == "--websocket-idle-timeout-ms"@ {
        Some(NumberFlag::WebsocketIdleTimeoutMs)
    } else if text == "--max-connect-sessions"@ {
        Some(NumberFlag::MaxConnectSessions)
    } else if text == "--connect-idle-timeout-ms"@ {
        Some(NumberFlag::ConnectIdleTimeoutMs)
    } else if text == "--connect-authority-port"@ {
        Some(NumberFlag::ConnectAuthorityPort)
    } else if text == "--signed-access-reload-interval-ms"@ {
        Some(NumberFlag::SignedAccessReloadIntervalMs)
    } else if text == "--signed-access-max-ttl-seconds"@ {
        Some(NumberFlag::SignedAccessMaxTtlSeconds)
    } else if text == "--signed-access-clock-skew-seconds"@ {
        Some(NumberFlag::SignedAccessClockSkewSeconds)
    } else if text == "--http-requests-per-second"@ {
        Some(NumberFlag::HttpRequestsPerSecond)
    } else if text == "--http-request-burst"@ {
        Some(NumberFlag::HttpRequestBurst)
    } else if text == "--http-requests-per-ip-per-second"@ {
        Some(NumberFlag::HttpRequestsPerIpPerSecond)
    } else if text == "--http-request-burst-per-ip"@ {
        Some(NumberFlag::HttpRequestBurstPerIp)
    } else if text == "--max-http-rate-limit-peers"@ {
        Some(NumberFlag::MaxHttpRateLimitPeers)
    } else if text == "--http-rate-limit-idle-ms"@ {
        Some(NumberFlag::HttpRateLimitIdleMs)
    } else if text == "--http-header-timeout-ms"@ {
        Some(NumberFlag::HttpHeaderTimeoutMs)
    } else if text == "--http-request-timeout-ms"@ {
        Some(NumberFlag::HttpRequestTimeoutMs)
    } else if text == "--max-ops-connections"@ {
        Some(NumberFlag::MaxOpsConnections)
    } else if text == "--ops-header-timeout-ms"@ {
        Some(NumberFlag::OpsHeaderTimeoutMs)
    } else if text == "--ops-request-timeout-ms"@ {
        Some(NumberFlag::OpsRequestTimeoutMs)
    } else if text == "--drain-timeout-ms"@ {
        Some(NumberFlag::DrainTimeoutMs)
    } else if text == "--tls-handshake-timeout-ms"@ {
        Some(NumberFlag::TlsHandshakeTimeoutMs)
    } else if text == "--snapshot-connect-timeout-ms"@ {
        Some(NumberFlag::SnapshotConnectTimeoutMs)
    } else if text == "--snapshot-handshake-timeout-ms"@ {
        Some(NumberFlag::SnapshotHandshakeTimeoutMs)
    } else if text == "--snapshot-subscribe-timeout-ms"@ {
        Some(NumberFlag::SnapshotSubscribeTimeoutMs)
    } else if text == "--snapshot-reconnect-initial-ms"@ {
        Some(NumberFlag::SnapshotReconnectInitialMs)
    } else if text == "--snapshot-reconnect-max-ms"@ {
        Some(NumberFlag::SnapshotReconnectMaxMs)
    } else if text == "--snapshot-cache-max-stale-ms"@ {
        Some(NumberFlag::SnapshotCacheMaxStaleMs)
    } else if text == "--tls-reload-interval-ms"@ {
        Some(NumberFlag::TlsReloadIntervalMs)
    } else if text == "--tls-expiry-warning-ms"@ {
        Some(NumberFlag::TlsExpiryWarningMs)
    } else {
        None
    }
}

/// The flag with a number that a text writes, if it writes one.
pub fn read_number_flag(text: &str) -> (flag: Option<NumberFlag>)
    ensures
        flag == number_flag(text@),
{
    if same_text(text, "--max-streams") {
        Some(NumberFlag::MaxStreams)
    } else if same_text(text, "--max-agent-sessions") {
        Some(NumberFlag::MaxAgentSessions)
    } else if same_text(text, "--max-raw-connections") {
        Some(NumberFlag::MaxRawConnections)
    } else if same_text(text, "--max-raw-connections-per-ip") {
        Some(NumberFlag::MaxRawConnectionsPerIp)
    } else if same_text(text, "--https-route-max-stale-ms") {
        Some(NumberFlag::HttpsRouteMaxStaleMs)
    } else if same_text(text, "--max-http-connections") {
        Some(NumberFlag::MaxHttpConnections)
    } else if same_text(text, "--max-http-connections-per-ip") {
        Some(NumberFlag::MaxHttpConnectionsPerIp)
    } else if same_text(text, "--max-http-header-bytes") {
        Some(NumberFlag::MaxHttpHeaderBytes)
    } else if same_text(text, "--max-http-headers") {
        Some(NumberFlag::MaxHttpHeaders)
    } else if same_text(text, "--max-http-request-body-bytes") {
        Some(NumberFlag::MaxHttpRequestBodyBytes)
    } else if same_text(text, "--max-http-requests-per-connection") {
        Some(NumberFlag::MaxHttpRequestsPerConnection)
    } else if same_text(text, "--max-http2-concurrent-streams") {
        Some(NumberFlag::MaxHttp2ConcurrentStreams)
    } else if same_text(text, "--http2-keepalive-interval-ms") {
        Some(NumberFlag::Http2KeepaliveIntervalMs)
    } else if same_text(text, "--http2-keepalive-timeout-ms") {
        Some(NumberFlag::Http2KeepaliveTimeoutMs)
    } else if same_text(text, "--max-websocket-sessions") {
        Some(NumberFlag::MaxWebsocketSessions)
    } else if same_text(text, "--websocket-idle-timeout-ms") {
        Some(NumberFlag::WebsocketIdleTimeoutMs)
    } else if same_text(text, "--max-connect-sessions") {
        Some(NumberFlag::MaxConnectSessions)
    } else if same_text(text, "--connect-idle-timeout-ms") {
        Some(NumberFlag::ConnectIdleTimeoutMs)
    } else if same_text(text, "--connect-authority-port") {
        Some(NumberFlag::ConnectAuthorityPort)
    } else if same_text(text, "--signed-access-reload-interval-ms") {
        Some(NumberFlag::SignedAccessReloadIntervalMs)
    } else if same_text(text, "--signed-access-max-ttl-seconds") {
        Some(NumberFlag::SignedAccessMaxTtlSeconds)
    } else if same_text(text, "--signed-access-clock-skew-seconds") {
        Some(NumberFlag::SignedAccessClockSkewSeconds)
    } else if same_text(text, "--http-requests-per-second") {
        Some(NumberFlag::HttpRequestsPerSecond)
    } else if same_text(text, "--http-request-burst") {
        Some(NumberFlag::HttpRequestBurst)
    } else if same_text(text, "--http-requests-per-ip-per-second") {
        Some(NumberFlag::HttpRequestsPerIpPerSecond)
    } else if same_text(text, "--http-request-burst-per-ip") {
        Some(NumberFlag::HttpRequestBurstPerIp)
    } else if same_text(text, "--max-http-rate-limit-peers") {
        Some(NumberFlag::MaxHttpRateLimitPeers)
    } else if same_text(text, "--http-rate-limit-idle-ms") {
        Some(NumberFlag::HttpRateLimitIdleMs)
    } else if same_text(text, "--http-header-timeout-ms") {
        Some(NumberFlag::HttpHeaderTimeoutMs)
    } else if same_text(text, "--http-request-timeout-ms") {
        Some(NumberFlag::HttpRequestTimeoutMs)
    } else if same_text(text, "--max-ops-connections") {
        Some(NumberFlag::MaxOpsConnections)
    } else if same_text(text, "--ops-header-timeout-ms") {
        Some(NumberFlag::OpsHeaderTimeoutMs)
    } else if same_text(text, "--ops-request-timeout-ms") {
        Some(NumberFlag::OpsRequestTimeoutMs)
    } else if same_text(text, "--drain-timeout-ms") {
        Some(NumberFlag::DrainTimeoutMs)
    } else if same_text(text, "--tls-handshake-timeout-ms") {
        Some(NumberFlag::TlsHandshakeTimeoutMs)
    } else if same_text(text, "--snapshot-connect-timeout-ms") {
        Some(NumberFlag::SnapshotConnectTimeoutMs)
    } else if same_text(text, "--snapshot-handshake-timeout-ms") {
        Some(NumberFlag::SnapshotHandshakeTimeoutMs)
    } else if same_text(text, "--snapshot-subscribe-timeout-ms") {
        Some(NumberFlag::SnapshotSubscribeTimeoutMs)
    } else if same_text(text, "--snapshot-reconnect-initial-ms") {
        Some(NumberFlag::SnapshotReconnectInitialMs)
    } else if same_text(text, "--snapshot-reconnect-max-ms") {
        Some(NumberFlag::SnapshotReconnectMaxMs)
    } else if same_text(text, "--snapshot-cache-max-stale-ms") {
        Some(NumberFlag::SnapshotCacheMaxStaleMs)
    } else if same_text(text, "--tls-reload-interval-ms") {
        Some(NumberFlag::TlsReloadIntervalMs)
    } else if same_text(text, "--tls-expiry-warning-ms") {
        Some(NumberFlag::TlsExpiryWarningMs)
    } else {
        None
    }
}

/// The flag with a text that a text writes, if it writes one.
pub open spec fn text_flag(text: Seq<char>) -> Option<TextFlag> {
    if text == "--https-route-tls-reload-manifest"@ {
        Some(TextFlag::HttpsRouteTlsReloadManifest)
    } else if text == "--public-tls-cert"@ {
        Some(TextFlag::PublicTlsCert)
    } else if text == "--public-tls-key"@ {
        Some(TextFlag::PublicTlsKey)
    } else if text == "--public-tls-reload-manifest"@ {
        Some(TextFlag::PublicTlsReloadManifest)
    } else if text == "--signed-access-keyring"@ {
        Some(TextFlag::SignedAccessKeyring)
    } else if text == "--signed-access-keyring-reload-manifest"@ {
        Some(TextFlag::SignedAccessKeyringReloadManifest)
    } else if text == "--tls-cert"@ {
        Some(TextFlag::TlsCert)
    } else if text == "--tls-key"@ {
        Some(TextFlag::TlsKey)
    } else if text == "--tls-client-ca"@ {
        Some(TextFlag::TlsClientCa)
    } else if text == "--authorized-client-cert"@ {
        Some(TextFlag::AuthorizedClientCert)
    } else if text == "--tls-reload-manifest"@ {
        Some(TextFlag::TlsReloadManifest)
    } else if text == "--snapshot-ca"@ {
        Some(TextFlag::SnapshotCa)
    } else if text == "--snapshot-client-cert"@ {
        Some(TextFlag::SnapshotClientCert)
    } else if text == "--snapshot-client-key"@ {
        Some(TextFlag::SnapshotClientKey)
    } else if text == "--snapshot-server-name"@ {
        Some(TextFlag::SnapshotServerName)
    } else if text == "--snapshot-cache-dir"@ {
        Some(TextFlag::SnapshotCacheDir)
    } else if text == "--snapshot-tls-reload-manifest"@ {
        Some(TextFlag::SnapshotTlsReloadManifest)
    } else {
        None
    }
}

/// The flag with a text that a text writes, if it writes one.
pub fn read_text_flag(text: &str) -> (flag: Option<TextFlag>)
    ensures
        flag == text_flag(text@),
{
    if same_text(text, "--https-route-tls-reload-manifest") {
        Some(TextFlag::HttpsRouteTlsReloadManifest)
    } else if same_text(text, "--public-tls-cert") {
        Some(TextFlag::PublicTlsCert)
    } else if same_text(text, "--public-tls-key") {
        Some(TextFlag::PublicTlsKey)
    } else if same_text(text, "--public-tls-reload-manifest") {
        Some(TextFlag::PublicTlsReloadManifest)
    } else if same_text(text, "--signed-access-keyring") {
        Some(TextFlag::SignedAccessKeyring)
    } else if same_text(text, "--signed-access-keyring-reload-manifest") {
        Some(TextFlag::SignedAccessKeyringReloadManifest)
    } else if same_text(text, "--tls-cert") {
        Some(TextFlag::TlsCert)
    } else if same_text(text, "--tls-key") {
        Some(TextFlag::TlsKey)
    } else if same_text(text, "--tls-client-ca") {
        Some(TextFlag::TlsClientCa)
    } else if same_text(text, "--authorized-client-cert") {
        Some(TextFlag::AuthorizedClientCert)
    } else if same_text(text, "--tls-reload-manifest") {
        Some(TextFlag::TlsReloadManifest)
    } else if same_text(text, "--snapshot-ca") {
        Some(TextFlag::SnapshotCa)
    } else if same_text(text, "--snapshot-client-cert") {
        Some(TextFlag::SnapshotClientCert)
    } else if same_text(text, "--snapshot-client-key") {
        Some(TextFlag::SnapshotClientKey)
    } else if same_text(text, "--snapshot-server-name") {
        Some(TextFlag::SnapshotServerName)
    } else if same_text(text, "--snapshot-cache-dir") {
        Some(TextFlag::SnapshotCacheDir)
    } else if same_text(text, "--snapshot-tls-reload-manifest") {
        Some(TextFlag::SnapshotTlsReloadManifest)
    } else {
        None
    }
}

/// The flag that a text writes, if it writes one.
pub open spec fn flag_of(text: Seq<char>) -> Option<Flag> {
    if text == "--agent-id"@ {
        Some(Flag::AgentId)
    } else if text == "--tunnel-id"@ {
        Some(Flag::TunnelId)
    } else if text == "--https-host"@ {
        Some(Flag::HttpsHost)
    } else if switch_flag(text) is Some {
        Some(Flag::Switch(switch_flag(text)->0))
    } else if address_flag(text) is Some {
        Some(Flag::Address(address_flag(text)->0))
    } else if number_flag(text) is Some {
        Some(Flag::Number(number_flag(text)->0))
    } else if text_flag(text) is Some {
        Some(Flag::Text(text_flag(text)->0))
    } else {
        None
    }
}

/// The flag that a text writes, if it writes one.
pub fn read_flag(text: &str) -> (flag: Option<Flag>)
    ensures
        flag == flag_of(text@),
{
    if same_text(text, "--agent-id") {
        return Some(Flag::AgentId);
    }
    if same_text(text, "--tunnel-id") {
        return Some(Flag::TunnelId);
    }
    if same_text(text, "--https-host") {
        return Some(Flag::HttpsHost);
    }
    if let Some(flag) = read_switch_flag(text) {
        return Some(Flag::Switch(flag));
    }
    if let Some(flag) = read_address_flag(text) {
        return Some(Flag::Address(flag));
    }
    if let Some(flag) = read_number_flag(text) {
        return Some(Flag::Number(flag));
    }
    if let Some(flag) = read_text_flag(text) {
        return Some(Flag::Text(flag));
    }
    None
}

impl NumberFlag {
    /// The largest number that the flag takes.
    pub open spec fn max(self) -> u64 {
        match self {
            NumberFlag::MaxStreams
            | NumberFlag::MaxAgentSessions
            | NumberFlag::MaxRawConnections
            | NumberFlag::MaxRawConnectionsPerIp
            | NumberFlag::MaxHttpConnections
            | NumberFlag::MaxHttpConnectionsPerIp
            | NumberFlag::MaxHttpHeaderBytes
            | NumberFlag::MaxHttpHeaders
            | NumberFlag::MaxHttpRequestBodyBytes
            | NumberFlag::MaxHttpRequestsPerConnection
            | NumberFlag::MaxWebsocketSessions
            | NumberFlag::MaxConnectSessions
            | NumberFlag::MaxHttpRateLimitPeers
            | NumberFlag::MaxOpsConnections => usize::MAX as u64,
            NumberFlag::MaxHttp2ConcurrentStreams => u32::MAX as u64,
            NumberFlag::ConnectAuthorityPort => u16::MAX as u64,
            _ => u64::MAX,
        }
    }

    /// The largest number that the flag takes.
    pub fn largest(self) -> (max: u64)
        ensures
            max == self.max(),
    {
        match self {
            NumberFlag::MaxStreams
            | NumberFlag::MaxAgentSessions
            | NumberFlag::MaxRawConnections
            | NumberFlag::MaxRawConnectionsPerIp
            | NumberFlag::MaxHttpConnections
            | NumberFlag::MaxHttpConnectionsPerIp
            | NumberFlag::MaxHttpHeaderBytes
            | NumberFlag::MaxHttpHeaders
            | NumberFlag::MaxHttpRequestBodyBytes
            | NumberFlag::MaxHttpRequestsPerConnection
            | NumberFlag::MaxWebsocketSessions
            | NumberFlag::MaxConnectSessions
            | NumberFlag::MaxHttpRateLimitPeers
            | NumberFlag::MaxOpsConnections => usize::MAX as u64,
            NumberFlag::MaxHttp2ConcurrentStreams => u32::MAX as u64,
            NumberFlag::ConnectAuthorityPort => u16::MAX as u64,
            _ => u64::MAX,
        }
    }
}

impl Flag {
    /// Whether the flag is an option of the raw ingress.
    pub open spec fn raw_option(self) -> bool {
        match self {
            Flag::Address(AddressFlag::RawListen)
            | Flag::Number(NumberFlag::MaxRawConnections)
            | Flag::Switch(SwitchFlag::AllowPublicRawIngress)
            | Flag::Number(NumberFlag::MaxRawConnectionsPerIp) => true,
            _ => false,
        }
    }

    /// Whether the flag is an option of the raw ingress.
    pub fn is_raw_option(self) -> (yes: bool)
        ensures
            yes == self.raw_option(),
    {
        match self {
            Flag::Address(AddressFlag::RawListen)
            | Flag::Number(NumberFlag::MaxRawConnections)
            | Flag::Switch(SwitchFlag::AllowPublicRawIngress)
            | Flag::Number(NumberFlag::MaxRawConnectionsPerIp) => true,
            _ => false,
        }
    }

    /// Whether the flag is an option of the HTTPS ingress.
    pub open spec fn https_option(self) -> bool {
        match self {
            Flag::Address(AddressFlag::HttpsListen)
            | Flag::HttpsHost
            | Flag::Address(AddressFlag::HttpsRouteServer)
            | Flag::Number(NumberFlag::HttpsRouteMaxStaleMs)
            | Flag::Text(TextFlag::HttpsRouteTlsReloadManifest)
            | Flag::Text(TextFlag::PublicTlsCert)
            | Flag::Text(TextFlag::PublicTlsKey)
            | Flag::Text(TextFlag::PublicTlsReloadManifest)
            | Flag::Switch(SwitchFlag::AllowPublicHttpsIngress)
            | Flag::Number(NumberFlag::MaxHttpConnections)
            | Flag::Number(NumberFlag::MaxHttpConnectionsPerIp)
            | Flag::Number(NumberFlag::MaxHttpHeaderBytes)
            | Flag::Number(NumberFlag::MaxHttpHeaders)
            | Flag::Number(NumberFlag::MaxHttpRequestBodyBytes)
            | Flag::Number(NumberFlag::MaxHttpRequestsPerConnection)
            | Flag::Switch(SwitchFlag::EnableHttp2)
            | Flag::Number(NumberFlag::MaxHttp2ConcurrentStreams)
            | Flag::Number(NumberFlag::Http2KeepaliveIntervalMs)
            | Flag::Number(NumberFlag::Http2KeepaliveTimeoutMs)
            | Flag::Switch(SwitchFlag::EnableWebsocketUpgrade)
            | Flag::Switch(SwitchFlag::EnableHttp2Websocket)
            | Flag::Number(NumberFlag::MaxWebsocketSessions)
            | Flag::Number(NumberFlag::WebsocketIdleTimeoutMs)
            | Flag::Switch(SwitchFlag::EnableConnect)
            | Flag::Switch(SwitchFlag::EnableHttp2Connect)
            | Flag::Number(NumberFlag::MaxConnectSessions)
            | Flag::Number(NumberFlag::ConnectIdleTimeoutMs)
            | Flag::Number(NumberFlag::ConnectAuthorityPort)
            | Flag::Switch(SwitchFlag::RequireSignedAccess)
            | Flag::Text(TextFlag::SignedAccessKeyring)
            | Flag::Text(TextFlag::SignedAccessKeyringReloadManifest)
            | Flag::Number(NumberFlag::SignedAccessReloadIntervalMs)
            | Flag::Number(NumberFlag::SignedAccessMaxTtlSeconds)
            | Flag::Number(NumberFlag::SignedAccessClockSkewSeconds)
            | Flag::Number(NumberFlag::HttpRequestsPerSecond)
            | Flag::Number(NumberFlag::HttpRequestBurst)
            | Flag::Number(NumberFlag::HttpRequestsPerIpPerSecond)
            | Flag::Number(NumberFlag::HttpRequestBurstPerIp)
            | Flag::Number(NumberFlag::MaxHttpRateLimitPeers)
            | Flag::Number(NumberFlag::HttpRateLimitIdleMs)
            | Flag::Number(NumberFlag::HttpHeaderTimeoutMs)
            | Flag::Number(NumberFlag::HttpRequestTimeoutMs) => true,
            _ => false,
        }
    }

    /// Whether the flag is an option of the HTTPS ingress.
    pub fn is_https_option(self) -> (yes: bool)
        ensures
            yes == self.https_option(),
    {
        match self {
            Flag::Address(AddressFlag::HttpsListen)
            | Flag::HttpsHost
            | Flag::Address(AddressFlag::HttpsRouteServer)
            | Flag::Number(NumberFlag::HttpsRouteMaxStaleMs)
            | Flag::Text(TextFlag::HttpsRouteTlsReloadManifest)
            | Flag::Text(TextFlag::PublicTlsCert)
            | Flag::Text(TextFlag::PublicTlsKey)
            | Flag::Text(TextFlag::PublicTlsReloadManifest)
            | Flag::Switch(SwitchFlag::AllowPublicHttpsIngress)
            | Flag::Number(NumberFlag::MaxHttpConnections)
            | Flag::Number(NumberFlag::MaxHttpConnectionsPerIp)
            | Flag::Number(NumberFlag::MaxHttpHeaderBytes)
            | Flag::Number(NumberFlag::MaxHttpHeaders)
            | Flag::Number(NumberFlag::MaxHttpRequestBodyBytes)
            | Flag::Number(NumberFlag::MaxHttpRequestsPerConnection)
            | Flag::Switch(SwitchFlag::EnableHttp2)
            | Flag::Number(NumberFlag::MaxHttp2ConcurrentStreams)
            | Flag::Number(NumberFlag::Http2KeepaliveIntervalMs)
            | Flag::Number(NumberFlag::Http2KeepaliveTimeoutMs)
            | Flag::Switch(SwitchFlag::EnableWebsocketUpgrade)
            | Flag::Switch(SwitchFlag::EnableHttp2Websocket)
            | Flag::Number(NumberFlag::MaxWebsocketSessions)
            | Flag::Number(NumberFlag::WebsocketIdleTimeoutMs)
            | Flag::Switch(SwitchFlag::EnableConnect)
            | Flag::Switch(SwitchFlag::EnableHttp2Connect)
            | Flag::Number(NumberFlag::MaxConnectSessions)
            | Flag::Number(NumberFlag::ConnectIdleTimeoutMs)
            | Flag::Number(NumberFlag::ConnectAuthorityPort)
            | Flag::Switch(SwitchFlag::RequireSignedAccess)
            | Flag::Text(TextFlag::SignedAccessKeyring)
            | Flag::Text(TextFlag::SignedAccessKeyringReloadManifest)
            | Flag::Number(NumberFlag::SignedAccessReloadIntervalMs)
            | Flag::Number(NumberFlag::SignedAccessMaxTtlSeconds)
            | Flag::Number(NumberFlag::SignedAccessClockSkewSeconds)
            | Flag::Number(NumberFlag::HttpRequestsPerSecond)
            | Flag::Number(NumberFlag::HttpRequestBurst)
            | Flag::Number(NumberFlag::HttpRequestsPerIpPerSecond)
            | Flag::Number(NumberFlag::HttpRequestBurstPerIp)
            | Flag::Number(NumberFlag::MaxHttpRateLimitPeers)
            | Flag::Number(NumberFlag::HttpRateLimitIdleMs)
            | Flag::Number(NumberFlag::HttpHeaderTimeoutMs)
            | Flag::Number(NumberFlag::HttpRequestTimeoutMs) => true,
            _ => false,
        }
    }

    /// Whether the flag is an option of HTTP/2.
    pub open spec fn http2_option(self) -> bool {
        match self {
            Flag::Number(NumberFlag::MaxHttp2ConcurrentStreams)
            | Flag::Number(NumberFlag::Http2KeepaliveIntervalMs)
            | Flag::Number(NumberFlag::Http2KeepaliveTimeoutMs) => true,
            _ => false,
        }
    }

    /// Whether the flag is an option of HTTP/2.
    pub fn is_http2_option(self) -> (yes: bool)
        ensures
            yes == self.http2_option(),
    {
        match self {
            Flag::Number(NumberFlag::MaxHttp2ConcurrentStreams)
            | Flag::Number(NumberFlag::Http2KeepaliveIntervalMs)
            | Flag::Number(NumberFlag::Http2KeepaliveTimeoutMs) => true,
            _ => false,
        }
    }

    /// Whether the flag is an option of WebSocket sessions.
    pub open spec fn websocket_option(self) -> bool {
        match self {
            Flag::Number(NumberFlag::MaxWebsocketSessions)
            | Flag::Number(NumberFlag::WebsocketIdleTimeoutMs) => true,
            _ => false,
        }
    }

    /// Whether the flag is an option of WebSocket sessions.
    pub fn is_websocket_option(self) -> (yes: bool)
        ensures
            yes == self.websocket_option(),
    {
        match self {
            Flag::Number(NumberFlag::MaxWebsocketSessions)
            | Flag::Number(NumberFlag::WebsocketIdleTimeoutMs) => true,
            _ => false,
        }
    }

    /// Whether the flag is an option of CONNECT sessions.
    pub open spec fn connect_option(self) -> bool {
        match self {
            Flag::Number(NumberFlag::MaxConnectSessions)
            | Flag::Number(NumberFlag::ConnectIdleTimeoutMs)
            | Flag::Number(NumberFlag::ConnectAuthorityPort) => true,
            _ => false,
        }
    }

    /// Whether the flag is an option of CONNECT sessions.
    pub fn is_connect_option(self) -> (yes: bool)
        ensures
            yes == self.connect_option(),
    {
        match self {
            Flag::Number(NumberFlag::MaxConnectSessions)
            | Flag::Number(NumberFlag::ConnectIdleTimeoutMs)
            | Flag::Number(NumberFlag::ConnectAuthorityPort) => true,
            _ => false,
        }
    }

    /// Whether the flag is an option of signed access.
    pub open spec fn signed_access_option(self) -> bool {
        match self {
            Flag::Text(TextFlag::SignedAccessKeyring)
            | Flag::Text(TextFlag::SignedAccessKeyringReloadManifest)
            | Flag::Number(NumberFlag::SignedAccessReloadIntervalMs)
            | Flag::Number(NumberFlag::SignedAccessMaxTtlSeconds)
            | Flag::Number(NumberFlag::SignedAccessClockSkewSeconds) => true,
            _ => false,
        }
    }

    /// Whether the flag is an option of signed access.
    pub fn is_signed_access_option(self) -> (yes: bool)
        ensures
            yes == self.signed_access_option(),
    {
        match self {
            Flag::Text(TextFlag::SignedAccessKeyring)
            | Flag::Text(TextFlag::SignedAccessKeyringReloadManifest)
            | Flag::Number(NumberFlag::SignedAccessReloadIntervalMs)
            | Flag::Number(NumberFlag::SignedAccessMaxTtlSeconds)
            | Flag::Number(NumberFlag::SignedAccessClockSkewSeconds) => true,
            _ => false,
        }
    }

    /// Whether the flag is an option of the reloading of signed-access keys.
    pub open spec fn signed_access_reload_option(self) -> bool {
        match self {
            Flag::Text(TextFlag::SignedAccessKeyringReloadManifest)
            | Flag::Number(NumberFlag::SignedAccessReloadIntervalMs) => true,
            _ => false,
        }
    }

    /// Whether the flag is an option of the reloading of signed-access keys.
    pub fn is_signed_access_reload_option(self) -> (yes: bool)
        ensures
            yes == self.signed_access_reload_option(),
    {
        match self {
            Flag::Text(TextFlag::SignedAccessKeyringReloadManifest)
            | Flag::Number(NumberFlag::SignedAccessReloadIntervalMs) => true,
            _ => false,
        }
    }

    /// Whether the flag is an option of the operations endpoint.
    pub open spec fn ops_option(self) -> bool {
        match self {
            Flag::Number(NumberFlag::MaxOpsConnections)
            | Flag::Number(NumberFlag::OpsHeaderTimeoutMs)
            | Flag::Number(NumberFlag::OpsRequestTimeoutMs) => true,
            _ => false,
        }
    }

    /// Whether the flag is an option of the operations endpoint.
    pub fn is_ops_option(self) -> (yes: bool)
        ensures
            yes == self.ops_option(),
    {
        match self {
            Flag::Number(NumberFlag::MaxOpsConnections)
            | Flag::Number(NumberFlag::OpsHeaderTimeoutMs)
            | Flag::Number(NumberFlag::OpsRequestTimeoutMs) => true,
            _ => false,
        }
    }

    /// Whether the flag is an option of the reloading of TLS files.
    pub open spec fn tls_reload_option(self) -> bool {
        match self {
            Flag::Text(TextFlag::HttpsRouteTlsReloadManifest)
            | Flag::Text(TextFlag::TlsReloadManifest)
            | Flag::Text(TextFlag::SnapshotTlsReloadManifest)
            | Flag::Number(NumberFlag::TlsReloadIntervalMs)
            | Flag::Number(NumberFlag::TlsExpiryWarningMs) => true,
            _ => false,
        }
    }

    /// Whether the flag is an option of the reloading of TLS files.
    pub fn is_tls_reload_option(self) -> (yes: bool)
        ensures
            yes == self.tls_reload_option(),
    {
        match self {
            Flag::Text(TextFlag::HttpsRouteTlsReloadManifest)
            | Flag::Text(TextFlag::TlsReloadManifest)
            | Flag::Text(TextFlag::SnapshotTlsReloadManifest)
            | Flag::Number(NumberFlag::TlsReloadIntervalMs)
            | Flag::Number(NumberFlag::TlsExpiryWarningMs) => true,
            _ => false,
        }
    }

    /// Whether the flag is an option of the snapshot service.
    pub open spec fn snapshot_option(self) -> bool {
        match self {
            Flag::Address(AddressFlag::SnapshotServer)
            | Flag::Text(TextFlag::SnapshotCa)
            | Flag::Text(TextFlag::SnapshotClientCert)
            | Flag::Text(TextFlag::SnapshotClientKey)
            | Flag::Text(TextFlag::SnapshotServerName)
            | Flag::Number(NumberFlag::SnapshotConnectTimeoutMs)
            | Flag::Number(NumberFlag::SnapshotHandshakeTimeoutMs)
            | Flag::Number(NumberFlag::SnapshotSubscribeTimeoutMs)
            | Flag::Number(NumberFlag::SnapshotReconnectInitialMs)
            | Flag::Number(NumberFlag::SnapshotReconnectMaxMs)
            | Flag::Text(TextFlag::SnapshotCacheDir)
            | Flag::Number(NumberFlag::SnapshotCacheMaxStaleMs) => true,
            _ => false,
        }
    }

    /// Whether the flag is an option of the snapshot service.
    pub fn is_snapshot_option(self) -> (yes: bool)
        ensures
            yes == self.snapshot_option(),
    {
        match self {
            Flag::Address(AddressFlag::SnapshotServer)
            | Flag::Text(TextFlag::SnapshotCa)
            | Flag::Text(TextFlag::SnapshotClientCert)
            | Flag::Text(TextFlag::SnapshotClientKey)
            | Flag::Text(TextFlag::SnapshotServerName)
            | Flag::Number(NumberFlag::SnapshotConnectTimeoutMs)
            | Flag::Number(NumberFlag::SnapshotHandshakeTimeoutMs)
            | Flag::Number(NumberFlag::SnapshotSubscribeTimeoutMs)
            | Flag::Number(NumberFlag::SnapshotReconnectInitialMs)
            | Flag::Number(NumberFlag::SnapshotReconnectMaxMs)
            | Flag::Text(TextFlag::SnapshotCacheDir)
            | Flag::Number(NumberFlag::SnapshotCacheMaxStaleMs) => true,
            _ => false,
        }
    }
}

/// What tells the names of flags apart: how long they are, and some of their letters.
spec fn mark(text: Seq<char>) -> (nat, char, char, char) {
    (text.len(), text[2], text[6], text[16])
}

proof fn lemma_marks()
    ensures
        mark("--agent-id"@).0 == 10 && mark("--agent-id"@).1 == 'a' && mark("--agent-id"@).2 == 't',
        mark("--tunnel-id"@).0 == 11 && mark("--tunnel-id"@).1 == 't' && mark("--tunnel-id"@).2 == 'e',
        mark("--https-host"@).0 == 12 && mark("--https-host"@).1 == 'h' && mark("--https-host"@).2 == 's',
        mark("--help"@).0 == 6 && mark("--help"@).1 == 'h',
        mark("-h"@).0 == 2,
        mark("--allow-public-raw-ingress"@).0 == 26 && mark("--allow-public-raw-ingress"@).1 == 'a' && mark("--allow-public-raw-ingress"@).2 == 'w' && mark("--allow-public-raw-ingress"@).3 == 'a',
        mark("--allow-public-https-ingress"@).0 == 28 && mark("--allow-public-https-ingress"@).1 == 'a' && mark("--allow-public-https-ingress"@).2 == 'w' && mark("--allow-public-https-ingress"@).3 == 't',
        mark("--enable-http2"@).0 == 14 && mark("--enable-http2"@).1 == 'e' && mark("--enable-http2"@).2 == 'l',
        mark("--enable-websocket-upgrade"@).0 == 26 && mark("--enable-websocket-upgrade"@).1 == 'e' && mark("--enable-websocket-upgrade"@).2 == 'l' && mark("--enable-websocket-upgrade"@).3 == 'e',
        mark("--enable-http2-websocket"@).0 == 24 && mark("--enable-http2-websocket"@).1 == 'e' && mark("--enable-http2-websocket"@).2 == 'l' && mark("--enable-http2-websocket"@).3 == 'e',
        mark("--enable-connect"@).0 == 16 && mark("--enable-connect"@).1 == 'e' && mark("--enable-connect"@).2 == 'l',
        mark("--enable-http2-connect"@).0 == 22 && mark("--enable-http2-connect"@).1 == 'e' && mark("--enable-http2-connect"@).2 == 'l' && mark("--enable-http2-connect"@).3 == 'o',
        mark("--require-signed-access"@).0 == 23 && mark("--require-signed-access"@).1 == 'r' && mark("--require-signed-access"@).2 == 'i' && mark("--require-signed-access"@).3 == '-',
        mark("--agent-listen"@).0 == 14 && mark("--agent-listen"@).1 == 'a' && mark("--agent-listen"@).2 == 't',
        mark("--raw-listen"@).0 == 12 && mark("--raw-listen"@).1 == 'r' && mark("--raw-listen"@).2 == 'l',
        mark("--https-listen"@).0 == 14 && mark("--https-listen"@).1 == 'h' && mark("--https-listen"@).2 == 's',
        mark("--https-route-server"@).0 == 20 && mark("--https-route-server"@).1 == 'h' && mark("--https-route-server"@).2 == 's' && mark("--https-route-server"@).3 == 'r',
        mark("--ops-listen"@).0 == 12 && mark("--ops-listen"@).1 == 'o' && mark("--ops-listen"@).2 == 'l',
        mark("--snapshot-server"@).0 == 17 && mark("--snapshot-server"@).1 == 's' && mark("--snapshot-server"@).2 == 's' && mark("--snapshot-server"@).3 == 'r',
        mark("--max-streams"@).0 == 13 && mark("--max-streams"@).1 == 'm' && mark("--max-streams"@).2 == 's',
        mark("--max-agent-sessions"@).0 == 20 && mark("--max-agent-sessions"@).1 == 'm' && mark("--max-agent-sessions"@).2 == 'a' && mark("--max-agent-sessions"@).3 == 'i',
        mark("--max-raw-connections"@).0 == 21 && mark("--max-raw-connections"@).1 == 'm' && mark("--max-raw-connections"@).2 == 'r' && mark("--max-raw-connections"@).3 == 't',
        mark("--max-raw-connections-per-ip"@).0 == 28 && mark("--max-raw-connections-per-ip"@).1 == 'm' && mark("--max-raw-connections-per-ip"@).2 == 'r' && mark("--max-raw-connections-per-ip"@).3 == 't',
        mark("--https-route-max-stale-ms"@).0 == 26 && mark("--https-route-max-stale-ms"@).1 == 'h' && mark("--https-route-max-stale-ms"@).2 == 's' && mark("--https-route-max-stale-ms"@).3 == 'x',
        mark("--max-http-connections"@).0 == 22 && mark("--max-http-connections"@).1 == 'm' && mark("--max-http-connections"@).2 == 'h' && mark("--max-http-connections"@).3 == 'c',
        mark("--max-http-connections-per-ip"@).0 == 29 && mark("--max-http-connections-per-ip"@).1 == 'm' && mark("--max-http-connections-per-ip"@).2 == 'h' && mark("--max-http-connections-per-ip"@).3 == 'c',
        mark("--max-http-header-bytes"@).0 == 23 && mark("--max-http-header-bytes"@).1 == 'm' && mark("--max-http-header-bytes"@).2 == 'h' && mark("--max-http-header-bytes"@).3 == 'r',
        mark("--max-http-headers"@).0 == 18 && mark("--max-http-headers"@).1 == 'm' && mark("--max-http-headers"@).2 == 'h' && mark("--max-http-headers"@).3 == 'r',
        mark("--max-http-request-body-bytes"@).0 == 29 && mark("--max-http-request-body-bytes"@).1 == 'm' && mark("--max-http-request-body-bytes"@).2 == 'h' && mark("--max-http-request-body-bytes"@).3 == 's',
        mark("--max-http-requests-per-connection"@).0 == 34 && mark("--max-http-requests-per-connection"@).1 == 'm' && mark("--max-http-requests-per-connection"@).2 == 'h' && mark("--max-http-requests-per-connection"@).3 == 's',
        mark("--max-http2-concurrent-streams"@).0 == 30 && mark("--max-http2-concurrent-streams"@).1 == 'm' && mark("--max-http2-concurrent-streams"@).2 == 'h' && mark("--max-http2-concurrent-streams"@).3 == 'u',
        mark("--http2-keepalive-interval-ms"@).0 == 29 && mark("--http2-keepalive-interval-ms"@).1 == 'h' && mark("--http2-keepalive-interval-ms"@).2 == '2' && mark("--http2-keepalive-interval-ms"@).3 == 'e',
        mark("--http2-keepalive-timeout-ms"@).0 == 28 && mark("--http2-keepalive-timeout-ms"@).1 == 'h' && mark("--http2-keepalive-timeout-ms"@).2 == '2' && mark("--http2-keepalive-timeout-ms"@).3 == 'e',
        mark("--max-websocket-sessions"@).0 == 24 && mark("--max-websocket-sessions"@).1 == 'm' && mark("--max-websocket-sessions"@).2 == 'w' && mark("--max-websocket-sessions"@).3 == 's',
        mark("--websocket-idle-timeout-ms"@).0 == 27 && mark("--websocket-idle-timeout-ms"@).1 == 'w' && mark("--websocket-idle-timeout-ms"@).2 == 'o' && mark("--websocket-idle-timeout-ms"@).3 == '-',
        mark("--max-connect-sessions"@).0 == 22 && mark("--max-connect-sessions"@).1 == 'm' && mark("--max-connect-sessions"@).2 == 'c' && mark("--max-connect-sessions"@).3 == 's',
        mark("--connect-idle-timeout-ms"@).0 == 25 && mark("--connect-idle-timeout-ms"@).1 == 'c' && mark("--connect-idle-timeout-ms"@).2 == 'e' && mark("--connect-idle-timeout-ms"@).3 == 'i',
        mark("--connect-authority-port"@).0 == 24 && mark("--connect-authority-port"@).1 == 'c' && mark("--connect-authority-port"@).2 == 'e' && mark("--connect-authority-port"@).3 == 'i',
        mark("--signed-access-reload-interval-ms"@).0 == 34 && mark("--signed-access-reload-interval-ms"@).1 == 's' && mark("--signed-access-reload-interval-ms"@).2 == 'e' && mark("--signed-access-reload-interval-ms"@).3 == 'r',
        mark("--signed-access-max-ttl-seconds"@).0 == 31 && mark("--signed-access-max-ttl-seconds"@).1 == 's' && mark("--signed-access-max-ttl-seconds"@).2 == 'e' && mark("--signed-access-max-ttl-seconds"@).3 == 'm',
        mark("--signed-access-clock-skew-seconds"@).0 == 34 && mark("--signed-access-clock-skew-seconds"@).1 == 's' && mark("--signed-access-clock-skew-seconds"@).2 == 'e' && mark("--signed-access-clock-skew-seconds"@).3 == 'c',
        mark("--http-requests-per-second"@).0 == 26 && mark("--http-requests-per-second"@).1 == 'h' && mark("--http-requests-per-second"@).2 == '-' && mark("--http-requests-per-second"@).3 == 'p',
        mark("--http-request-burst"@).0 == 20 && mark("--http-request-burst"@).1 == 'h' && mark("--http-request-burst"@).2 == '-' && mark("--http-request-burst"@).3 == 'u',
        mark("--http-requests-per-ip-per-second"@).0 == 33 && mark("--http-requests-per-ip-per-second"@).1 == 'h' && mark("--http-requests-per-ip-per-second"@).2 == '-' && mark("--http-requests-per-ip-per-second"@).3 == 'p',
        mark("--http-request-burst-per-ip"@).0 == 27 && mark("--http-request-burst-per-ip"@).1 == 'h' && mark("--http-request-burst-per-ip"@).2 == '-' && mark("--http-request-burst-per-ip"@).3 == 'u',
        mark("--max-http-rate-limit-peers"@).0 == 27 && mark("--max-http-rate-limit-peers"@).1 == 'm' && mark("--max-http-rate-limit-peers"@).2 == 'h' && mark("--max-http-rate-limit-peers"@).3 == 'l',
        mark("--http-rate-limit-idle-ms"@).0 == 25 && mark("--http-rate-limit-idle-ms"@).1 == 'h' && mark("--http-rate-limit-idle-ms"@).2 == '-' && mark("--http-rate-limit-idle-ms"@).3 == 't',
        mark("--http-header-timeout-ms"@).0 == 24 && mark("--http-header-timeout-ms"@).1 == 'h' && mark("--http-header-timeout-ms"@).2 == '-' && mark("--http-header-timeout-ms"@).3 == 'm',
        mark("--http-request-timeout-ms"@).0 == 25 && mark("--http-request-timeout-ms"@).1 == 'h' && mark("--http-request-timeout-ms"@).2 == '-' && mark("--http-request-timeout-ms"@).3 == 'i',
        mark("--max-ops-connections"@).0 == 21 && mark("--max-ops-connections"@).1 == 'm' && mark("--max-ops-connections"@).2 == 'o' && mark("--max-ops-connections"@).3 == 't',
        mark("--ops-header-timeout-ms"@).0 == 23 && mark("--ops-header-timeout-ms"@).1 == 'o' && mark("--ops-header-timeout-ms"@).2 == 'h' && mark("--ops-header-timeout-ms"@).3 == 'e',
        mark("--ops-request-timeout-ms"@).0 == 24 && mark("--ops-request-timeout-ms"@).1 == 'o' && mark("--ops-request-timeout-ms"@).2 == 'r' && mark("--ops-request-timeout-ms"@).3 == 'm',
        mark("--drain-timeout-ms"@).0 == 18 && mark("--drain-timeout-ms"@).1 == 'd' && mark("--drain-timeout-ms"@).2 == 'n' && mark("--drain-timeout-ms"@).3 == 'm',
        mark("--tls-handshake-timeout-ms"@).0 == 26 && mark("--tls-handshake-timeout-ms"@).1 == 't' && mark("--tls-handshake-timeout-ms"@).2 == 'h' && mark("--tls-handshake-timeout-ms"@).3 == 't',
        mark("--snapshot-connect-timeout-ms"@).0 == 29 && mark("--snapshot-connect-timeout-ms"@).1 == 's' && mark("--snapshot-connect-timeout-ms"@).2 == 's' && mark("--snapshot-connect-timeout-ms"@).3 == 'c',
        mark("--snapshot-handshake-timeout-ms"@).0 == 31 && mark("--snapshot-handshake-timeout-ms"@).1 == 's' && mark("--snapshot-handshake-timeout-ms"@).2 == 's' && mark("--snapshot-handshake-timeout-ms"@).3 == 'h',
        mark("--snapshot-subscribe-timeout-ms"@).0 == 31 && mark("--snapshot-subscribe-timeout-ms"@).1 == 's' && mark("--snapshot-subscribe-timeout-ms"@).2 == 's' && mark("--snapshot-subscribe-timeout-ms"@).3 == 'r',
        mark("--snapshot-reconnect-initial-ms"@).0 == 31 && mark("--snapshot-reconnect-initial-ms"@).1 == 's' && mark("--snapshot-reconnect-initial-ms"@).2 == 's' && mark("--snapshot-reconnect-initial-ms"@).3 == 'n',
        mark("--snapshot-reconnect-max-ms"@).0 == 27 && mark("--snapshot-reconnect-max-ms"@).1 == 's' && mark("--snapshot-reconnect-max-ms"@).2 == 's' && mark("--snapshot-reconnect-max-ms"@).3 == 'n',
        mark("--snapshot-cache-max-stale-ms"@).0 == 29 && mark("--snapshot-cache-max-stale-ms"@).1 == 's' && mark("--snapshot-cache-max-stale-ms"@).2 == 's' && mark("--snapshot-cache-max-stale-ms"@).3 == '-',
        mark("--tls-reload-interval-ms"@).0 == 24 && mark("--tls-reload-interval-ms"@).1 == 't' && mark("--tls-reload-interval-ms"@).2 == 'r' && mark("--tls-reload-interval-ms"@).3 == 'e',
        mark("--tls-expiry-warning-ms"@).0 == 23 && mark("--tls-expiry-warning-ms"@).1 == 't' && mark("--tls-expiry-warning-ms"@).2 == 'e' && mark("--tls-expiry-warning-ms"@).3 == 'n',
        mark("--https-route-tls-reload-manifest"@).0 == 33 && mark("--https-route-tls-reload-manifest"@).1 == 'h' && mark("--https-route-tls-reload-manifest"@).2 == 's' && mark("--https-route-tls-reload-manifest"@).3 == 's',
        mark("--public-tls-cert"@).0 == 17 && mark("--public-tls-cert"@).1 == 'p' && mark("--public-tls-cert"@).2 == 'i' && mark("--public-tls-cert"@).3 == 't',
        mark("--public-tls-key"@).0 == 16 && mark("--public-tls-key"@).1 == 'p' && mark("--public-tls-key"@).2 == 'i',
        mark("--public-tls-reload-manifest"@).0 == 28 && mark("--public-tls-reload-manifest"@).1 == 'p' && mark("--public-tls-reload-manifest"@).2 == 'i' && mark("--public-tls-reload-manifest"@).3 == 'o',
        mark("--signed-access-keyring"@).0 == 23 && mark("--signed-access-keyring"@).1 == 's' && mark("--signed-access-keyring"@).2 == 'e' && mark("--signed-access-keyring"@).3 == 'k',
        mark("--signed-access-keyring-reload-manifest"@).0 == 39 && mark("--signed-access-keyring-reload-manifest"@).1 == 's' && mark("--signed-access-keyring-reload-manifest"@).2 == 'e' && mark("--signed-access-keyring-reload-manifest"@).3 == 'k',
        mark("--tls-cert"@).0 == 10 && mark("--tls-cert"@).1 == 't' && mark("--tls-cert"@).2 == 'c',
        mark("--tls-key"@).0 == 9 && mark("--tls-key"@).1 == 't' && mark("--tls-key"@).2 == 'k',
        mark("--tls-client-ca"@).0 == 15 && mark("--tls-client-ca"@).1 == 't' && mark("--tls-client-ca"@).2 == 'c',
        mark("--authorized-client-cert"@).0 == 24 && mark("--authorized-client-cert"@).1 == 'a' && mark("--authorized-client-cert"@).2 == 'o' && mark("--authorized-client-cert"@).3 == 'e',
        mark("--tls-reload-manifest"@).0 == 21 && mark("--tls-reload-manifest"@).1 == 't' && mark("--tls-reload-manifest"@).2 == 'r' && mark("--tls-reload-manifest"@).3 == 'i',
        mark("--snapshot-ca"@).0 == 13 && mark("--snapshot-ca"@).1 == 's' && mark("--snapshot-ca"@).2 == 's',
        mark("--snapshot-client-cert"@).0 == 22 && mark("--snapshot-client-cert"@).1 == 's' && mark("--snapshot-client-cert"@).2 == 's' && mark("--snapshot-client-cert"@).3 == 't',
        mark("--snapshot-client-key"@).0 == 21 && mark("--snapshot-client-key"@).1 == 's' && mark("--snapshot-client-key"@).2 == 's' && mark("--snapshot-client-key"@).3 == 't',
        mark("--snapshot-server-name"@).0 == 22 && mark("--snapshot-server-name"@).1 == 's' && mark("--snapshot-server-name"@).2 == 's' && mark("--snapshot-server-name"@).3 == 'r',
        mark("--snapshot-cache-dir"@).0 == 20 && mark("--snapshot-cache-dir"@).1 == 's' && mark("--snapshot-cache-dir"@).2 == 's' && mark("--snapshot-cache-dir"@).3 == '-',
        mark("--snapshot-tls-reload-manifest"@).0 == 30 && mark("--snapshot-tls-reload-manifest"@).1 == 's' && mark("--snapshot-tls-reload-manifest"@).2 == 's' && mark("--snapshot-tls-reload-manifest"@).3 == 'e',
{
    reveal_strlit("--agent-id");
    reveal_strlit("--tunnel-id");
    reveal_strlit("--https-host");
    reveal_strlit("--help");
    reveal_strlit("-h");
    reveal_strlit("--allow-public-raw-ingress");
    reveal_strlit("--allow-public-https-ingress");
    reveal_strlit("--enable-http2");
    reveal_strlit("--enable-websocket-upgrade");
    reveal_strlit("--enable-http2-websocket");
    reveal_strlit("--enable-connect");
    reveal_strlit("--enable-http2-connect");
    reveal_strlit("--require-signed-access");
    reveal_strlit("--agent-listen");
    reveal_strlit("--raw-listen");
    reveal_strlit("--https-listen");
    reveal_strlit("--https-route-server");
    reveal_strlit("--ops-listen");
    reveal_strlit("--snapshot-server");
    reveal_strlit("--max-streams");
    reveal_strlit("--max-agent-sessions");
    reveal_strlit("--max-raw-connections");
    reveal_strlit("--max-raw-connections-per-ip");
    reveal_strlit("--https-route-max-stale-ms");
    reveal_strlit("--max-http-connections");
    reveal_strlit("--max-http-connections-per-ip");
    reveal_strlit("--max-http-header-bytes");
    reveal_strlit("--max-http-headers");
    reveal_strlit("--max-http-request-body-bytes");
    reveal_strlit("--max-http-requests-per-connection");
    reveal_strlit("--max-http2-concurrent-streams");
    reveal_strlit("--http2-keepalive-interval-ms");
    reveal_strlit("--http2-keepalive-timeout-ms");
    reveal_strlit("--max-websocket-sessions");
    reveal_strlit("--websocket-idle-timeout-ms");
    reveal_strlit("--max-connect-sessions");
    reveal_strlit("--connect-idle-timeout-ms");
    reveal_strlit("--connect-authority-port");
    reveal_strlit("--signed-access-reload-interval-ms");
    reveal_strlit("--signed-access-max-ttl-seconds");
    reveal_strlit("--signed-access-clock-skew-seconds");
    reveal_strlit("--http-requests-per-second");
    reveal_strlit("--http-request-burst");
    reveal_strlit("--http-requests-per-ip-per-second");
    reveal_strlit("--http-request-burst-per-ip");
    reveal_strlit("--max-http-rate-limit-peers");
    reveal_strlit("--http-rate-limit-idle-ms");
    reveal_strlit("--http-header-timeout-ms");
    reveal_strlit("--http-request-timeout-ms");
    reveal_strlit("--max-ops-connections");
    reveal_strlit("--ops-header-timeout-ms");
    reveal_strlit("--ops-request-timeout-ms");
    reveal_strlit("--drain-timeout-ms");
    reveal_strlit("--tls-handshake-timeout-ms");
    reveal_strlit("--snapshot-connect-timeout-ms");
    reveal_strlit("--snapshot-handshake-timeout-ms");
    reveal_strlit("--snapshot-subscribe-timeout-ms");
    reveal_strlit("--snapshot-reconnect-initial-ms");
    reveal_strlit("--snapshot-reconnect-max-ms");
    reveal_strlit("--snapshot-cache-max-stale-ms");
    reveal_strlit("--tls-reload-interval-ms");
    reveal_strlit("--tls-expiry-warning-ms");
    reveal_strlit("--https-route-tls-reload-manifest");
    reveal_strlit("--public-tls-cert");
    reveal_strlit("--public-tls-key");
    reveal_strlit("--public-tls-reload-manifest");
    reveal_strlit("--signed-access-keyring");
    reveal_strlit("--signed-access-keyring-reload-manifest");
    reveal_strlit("--tls-cert");
    reveal_strlit("--tls-key");
    reveal_strlit("--tls-client-ca");
    reveal_strlit("--authorized-client-cert");
    reveal_strlit("--tls-reload-manifest");
    reveal_strlit("--snapshot-ca");
    reveal_strlit("--snapshot-client-cert");
    reveal_strlit("--snapshot-client-key");
    reveal_strlit("--snapshot-server-name");
    reveal_strlit("--snapshot-cache-dir");
    reveal_strlit("--snapshot-tls-reload-manifest");
}

/// Each switch is asked for by its name alone; help also by `-h`.
pub proof fn switches_are_known_by_their_names(text: Seq<char>)
    ensures
        flag_of(text) == Some(Flag::Switch(SwitchFlag::AllowPublicRawIngress)) <==> text == "--allow-public-raw-ingress"@,
        flag_of(text) == Some(Flag::Switch(SwitchFlag::AllowPublicHttpsIngress)) <==> text == "--allow-public-https-ingress"@,
        flag_of(text) == Some(Flag::Switch(SwitchFlag::EnableHttp2)) <==> text == "--enable-http2"@,
        flag_of(text) == Some(Flag::Switch(SwitchFlag::EnableWebsocketUpgrade)) <==> text == "--enable-websocket-upgrade"@,
        flag_of(text) == Some(Flag::Switch(SwitchFlag::EnableHttp2Websocket)) <==> text == "--enable-http2-websocket"@,
        flag_of(text) == Some(Flag::Switch(SwitchFlag::EnableConnect)) <==> text == "--enable-connect"@,
        flag_of(text) == Some(Flag::Switch(SwitchFlag::EnableHttp2Connect)) <==> text == "--enable-http2-connect"@,
        flag_of(text) == Some(Flag::Switch(SwitchFlag::RequireSignedAccess)) <==> text == "--require-signed-access"@,
        flag_of(text) == Some(Flag::Switch(SwitchFlag::Help)) <==> text == "--help"@ || text == "-h"@,
        flag_of(text) == Some(Flag::AgentId) <==> text == "--agent-id"@,
        flag_of(text) == Some(Flag::TunnelId) <==> text == "--tunnel-id"@,
        flag_of(text) == Some(Flag::HttpsHost) <==> text == "--https-host"@,
{
    lemma_marks();
}

/// Each flag that takes an address is asked for by its name alone.
pub proof fn addresses_are_known_by_their_names(text: Seq<char>)
    ensures
        flag_of(text) == Some(Flag::Address(AddressFlag::AgentListen)) <==> text == "--agent-listen"@,
        flag_of(text) == Some(Flag::Address(AddressFlag::RawListen)) <==> text == "--raw-listen"@,
        flag_of(text) == Some(Flag::Address(AddressFlag::HttpsListen)) <==> text == "--https-listen"@,
        flag_of(text) == Some(Flag::Address(AddressFlag::HttpsRouteServer)) <==> text == "--https-route-server"@,
        flag_of(text) == Some(Flag::Address(AddressFlag::OpsListen)) <==> text == "--ops-listen"@,
        flag_of(text) == Some(Flag::Address(AddressFlag::SnapshotServer)) <==> text == "--snapshot-server"@,
{
    lemma_marks();
}

/// Each flag that takes a number is asked for by its name alone.
pub proof fn numbers_are_known_by_their_names(text: Seq<char>)
    ensures
        flag_of(text) == Some(Flag::Number(NumberFlag::MaxStreams)) <==> text == "--max-streams"@,
        flag_of(text) == Some(Flag::Number(NumberFlag::MaxAgentSessions)) <==> text == "--max-agent-sessions"@,
        flag_of(text) == Some(Flag::Number(NumberFlag::MaxRawConnections)) <==> text == "--max-raw-connections"@,
        flag_of(text) == Some(Flag::Number(NumberFlag::MaxRawConnectionsPerIp)) <==> text == "--max-raw-connections-per-ip"@,
        flag_of(text) == Some(Flag::Number(NumberFlag::HttpsRouteMaxStaleMs)) <==> text == "--https-route-max-stale-ms"@,
        flag_of(text) == Some(Flag::Number(NumberFlag::MaxHttpConnections)) <==> text == "--max-http-connections"@,
        flag_of(text) == Some(Flag::Number(NumberFlag::MaxHttpConnectionsPerIp)) <==> text == "--max-http-connections-per-ip"@,
        flag_of(text) == Some(Flag::Number(NumberFlag::MaxHttpHeaderBytes)) <==> text == "--max-http-header-bytes"@,
        flag_of(text) == Some(Flag::Number(NumberFlag::MaxHttpHeaders)) <==> text == "--max-http-headers"@,
        flag_of(text) == Some(Flag::Number(NumberFlag::MaxHttpRequestBodyBytes)) <==> text == "--max-http-request-body-bytes"@,
        flag_of(text) == Some(Flag::Number(NumberFlag::MaxHttpRequestsPerConnection)) <==> text == "--max-http-requests-per-connection"@,
        flag_of(text) == Some(Flag::Number(NumberFlag::MaxHttp2ConcurrentStreams)) <==> text == "--max-http2-concurrent-streams"@,
        flag_of(text) == Some(Flag::Number(NumberFlag::Http2KeepaliveIntervalMs)) <==> text == "--http2-keepalive-interval-ms"@,
        flag_of(text) == Some(Flag::Number(NumberFlag::Http2KeepaliveTimeoutMs)) <==> text == "--http2-keepalive-timeout-ms"@,
        flag_of(text) == Some(Flag::Number(NumberFlag::MaxWebsocketSessions)) <==> text == "--max-websocket-sessions"@,
        flag_of(text) == Some(Flag::Number(NumberFlag::WebsocketIdleTimeoutMs)) <==> text == "--websocket-idle-timeout-ms"@,
        flag_of(text) == Some(Flag::Number(NumberFlag::MaxConnectSessions)) <==> text == "--max-connect-sessions"@,
        flag_of(text) == Some(Flag::Number(NumberFlag::ConnectIdleTimeoutMs)) <==> text == "--connect-idle-timeout-ms"@,
        flag_of(text) == Some(Flag::Number(NumberFlag::ConnectAuthorityPort)) <==> text == "--connect-authority-port"@,
        flag_of(text) == Some(Flag::Number(NumberFlag::SignedAccessReloadIntervalMs)) <==> text == "--signed-access-reload-interval-ms"@,
        flag_of(text) == Some(Flag::Number(NumberFlag::SignedAccessMaxTtlSeconds)) <==> text == "--signed-access-max-ttl-seconds"@,
        flag_of(text) == Some(Flag::Number(NumberFlag::SignedAccessClockSkewSeconds)) <==> text == "--signed-access-clock-skew-seconds"@,
        flag_of(text) == Some(Flag::Number(NumberFlag::HttpRequestsPerSecond)) <==> text == "--http-requests-per-second"@,
        flag_of(text) == Some(Flag::Number(NumberFlag::HttpRequestBurst)) <==> text == "--http-request-burst"@,
        flag_of(text) == Some(Flag::Number(NumberFlag::HttpRequestsPerIpPerSecond)) <==> text == "--http-requests-per-ip-per-second"@,
        flag_of(text) == Some(Flag::Number(NumberFlag::HttpRequestBurstPerIp)) <==> text == "--http-request-burst-per-ip"@,
        flag_of(text) == Some(Flag::Number(NumberFlag::MaxHttpRateLimitPeers)) <==> text == "--max-http-rate-limit-peers"@,
        flag_of(text) == Some(Flag::Number(NumberFlag::HttpRateLimitIdleMs)) <==> text == "--http-rate-limit-idle-ms"@,
        flag_of(text) == Some(Flag::Number(NumberFlag::HttpHeaderTimeoutMs)) <==> text == "--http-header-timeout-ms"@,
        flag_of(text) == Some(Flag::Number(NumberFlag::HttpRequestTimeoutMs)) <==> text == "--http-request-timeout-ms"@,
        flag_of(text) == Some(Flag::Number(NumberFlag::MaxOpsConnections)) <==> text == "--max-ops-connections"@,
        flag_of(text) == Some(Flag::Number(NumberFlag::OpsHeaderTimeoutMs)) <==> text == "--ops-header-timeout-ms"@,
        flag_of(text) == Some(Flag::Number(NumberFlag::OpsRequestTimeoutMs)) <==> text == "--ops-request-timeout-ms"@,
        flag_of(text) == Some(Flag::Number(NumberFlag::DrainTimeoutMs)) <==> text == "--drain-timeout-ms"@,
        flag_of(text) == Some(Flag::Number(NumberFlag::TlsHandshakeTimeoutMs)) <==> text == "--tls-handshake-timeout-ms"@,
        flag_of(text) == Some(Flag::Number(NumberFlag::SnapshotConnectTimeoutMs)) <==> text == "--snapshot-connect-timeout-ms"@,
        flag_of(text) == Some(Flag::Number(NumberFlag::SnapshotHandshakeTimeoutMs)) <==> text == "--snapshot-handshake-timeout-ms"@,
        flag_of(text) == Some(Flag::Number(NumberFlag::SnapshotSubscribeTimeoutMs)) <==> text == "--snapshot-subscribe-timeout-ms"@,
        flag_of(text) == Some(Flag::Number(NumberFlag::SnapshotReconnectInitialMs)) <==> text == "--snapshot-reconnect-initial-ms"@,
        flag_of(text) == Some(Flag::Number(NumberFlag::SnapshotReconnectMaxMs)) <==> text == "--snapshot-reconnect-max-ms"@,
        flag_of(text) == Some(Flag::Number(NumberFlag::SnapshotCacheMaxStaleMs)) <==> text == "--snapshot-cache-max-stale-ms"@,
        flag_of(text) == Some(Flag::Number(NumberFlag::TlsReloadIntervalMs)) <==> text == "--tls-reload-interval-ms"@,
        flag_of(text) == Some(Flag::Number(NumberFlag::TlsExpiryWarningMs)) <==> text == "--tls-expiry-warning-ms"@,
{
    lemma_marks();
}

/// Each flag that takes a text is asked for by its name alone.
pub proof fn texts_are_known_by_their_names(text: Seq<char>)
    ensures
        flag_of(text) == Some(Flag::Text(TextFlag::HttpsRouteTlsReloadManifest)) <==> text == "--https-route-tls-reload-manifest"@,
        flag_of(text) == Some(Flag::Text(TextFlag::PublicTlsCert)) <==> text == "--public-tls-cert"@,
        flag_of(text) == Some(Flag::Text(TextFlag::PublicTlsKey)) <==> text == "--public-tls-key"@,
        flag_of(text) == Some(Flag::Text(TextFlag::PublicTlsReloadManifest)) <==> text == "--public-tls-reload-manifest"@,
        flag_of(text) == Some(Flag::Text(TextFlag::SignedAccessKeyring)) <==> text == "--signed-access-keyring"@,
        flag_of(text) == Some(Flag::Text(TextFlag::SignedAccessKeyringReloadManifest)) <==> text == "--signed-access-keyring-reload-manifest"@,
        flag_of(text) == Some(Flag::Text(TextFlag::TlsCert)) <==> text == "--tls-cert"@,
        flag_of(text) == Some(Flag::Text(TextFlag::TlsKey)) <==> text == "--tls-key"@,
        flag_of(text) == Some(Flag::Text(TextFlag::TlsClientCa)) <==> text == "--tls-client-ca"@,
        flag_of(text) == Some(Flag::Text(TextFlag::AuthorizedClientCert)) <==> text == "--authorized-client-cert"@,
        flag_of(text) == Some(Flag::Text(TextFlag::TlsReloadManifest)) <==> text == "--tls-reload-manifest"@,
        flag_of(text) == Some(Flag::Text(TextFlag::SnapshotCa)) <==> text == "--snapshot-ca"@,
        flag_of(text) == Some(Flag::Text(TextFlag::SnapshotClientCert)) <==> text == "--snapshot-client-cert"@,
        flag_of(text) == Some(Flag::Text(TextFlag::SnapshotClientKey)) <==> text == "--snapshot-client-key"@,
        flag_of(text) == Some(Flag::Text(TextFlag::SnapshotServerName)) <==> text == "--snapshot-server-name"@,
        flag_of(text) == Some(Flag::Text(TextFlag::SnapshotCacheDir)) <==> text == "--snapshot-cache-dir"@,
        flag_of(text) == Some(Flag::Text(TextFlag::SnapshotTlsReloadManifest)) <==> text == "--snapshot-tls-reload-manifest"@,
{
    lemma_marks();
}

/// The options of the raw ingress are those with these names.
pub proof fn options_of_raw_ingress(text: Seq<char>)
    requires
        flag_of(text) is Some,
    ensures
        flag_of(text)->0.raw_option() <==> {
            ||| text == "--raw-listen"@
            ||| text == "--max-raw-connections"@
            ||| text == "--allow-public-raw-ingress"@
            ||| text == "--max-raw-connections-per-ip"@
        },
{
    switches_are_known_by_their_names(text);
    addresses_are_known_by_their_names(text);
    numbers_are_known_by_their_names(text);
    texts_are_known_by_their_names(text);
}

/// The options of HTTPS ingress are those with these names.
pub proof fn options_of_https_ingress(text: Seq<char>)
    requires
        flag_of(text) is Some,
    ensures
        flag_of(text)->0.https_option() <==> {
            ||| text == "--https-listen"@
            ||| text == "--https-host"@
            ||| text == "--https-route-server"@
            ||| text == "--https-route-max-stale-ms"@
            ||| text == "--https-route-tls-reload-manifest"@
            ||| text == "--public-tls-cert"@
            ||| text == "--public-tls-key"@
            ||| text == "--public-tls-reload-manifest"@
            ||| text == "--allow-public-https-ingress"@
            ||| text == "--max-http-connections"@
            ||| text == "--max-http-connections-per-ip"@
            ||| text == "--max-http-header-bytes"@
            ||| text == "--max-http-headers"@
            ||| text == "--max-http-request-body-bytes"@
            ||| text == "--max-http-requests-per-connection"@
            ||| text == "--enable-http2"@
            ||| text == "--max-http2-concurrent-streams"@
            ||| text == "--http2-keepalive-interval-ms"@
            ||| text == "--http2-keepalive-timeout-ms"@
            ||| text == "--enable-websocket-upgrade"@
            ||| text == "--enable-http2-websocket"@
            ||| text == "--max-websocket-sessions"@
            ||| text == "--websocket-idle-timeout-ms"@
            ||| text == "--enable-connect"@
            ||| text == "--enable-http2-connect"@
            ||| text == "--max-connect-sessions"@
            ||| text == "--connect-idle-timeout-ms"@
            ||| text == "--connect-authority-port"@
            ||| text == "--require-signed-access"@
            ||| text == "--signed-access-keyring"@
            ||| text == "--signed-access-keyring-reload-manifest"@
            ||| text == "--signed-access-reload-interval-ms"@
            ||| text == "--signed-access-max-ttl-seconds"@
            ||| text == "--signed-access-clock-skew-seconds"@
            ||| text == "--http-requests-per-second"@
            ||| text == "--http-request-burst"@
            ||| text == "--http-requests-per-ip-per-second"@
            ||| text == "--http-request-burst-per-ip"@
            ||| text == "--max-http-rate-limit-peers"@
            ||| text == "--http-rate-limit-idle-ms"@
            ||| text == "--http-header-timeout-ms"@
            ||| text == "--http-request-timeout-ms"@
        },
{
    switches_are_known_by_their_names(text);
    addresses_are_known_by_their_names(text);
    numbers_are_known_by_their_names(text);
    texts_are_known_by_their_names(text);
}

/// The options of HTTP/2 are those with these names.
pub proof fn options_of_http2(text: Seq<char>)
    requires
        flag_of(text) is Some,
    ensures
        flag_of(text)->0.http2_option() <==> {
            ||| text == "--max-http2-concurrent-streams"@
            ||| text == "--http2-keepalive-interval-ms"@
            ||| text == "--http2-keepalive-timeout-ms"@
        },
{
    switches_are_known_by_their_names(text);
    addresses_are_known_by_their_names(text);
    numbers_are_known_by_their_names(text);
    texts_are_known_by_their_names(text);
}

/// The options of WebSocket sessions are those with these names.
pub proof fn options_of_websockets(text: Seq<char>)
    requires
        flag_of(text) is Some,
    ensures
        flag_of(text)->0.websocket_option() <==> {
            ||| text == "--max-websocket-sessions"@
            ||| text == "--websocket-idle-timeout-ms"@
        },
{
    switches_are_known_by_their_names(text);
    addresses_are_known_by_their_names(text);
    numbers_are_known_by_their_names(text);
    texts_are_known_by_their_names(text);
}

/// The options of CONNECT sessions are those with these names.
pub proof fn options_of_connects(text: Seq<char>)
    requires
        flag_of(text) is Some,
    ensures
        flag_of(text)->0.connect_option() <==> {
            ||| text == "--max-connect-sessions"@
            ||| text == "--connect-idle-timeout-ms"@
            ||| text == "--connect-authority-port"@
        },
{
    switches_are_known_by_their_names(text);
    addresses_are_known_by_their_names(text);
    numbers_are_known_by_their_names(text);
    texts_are_known_by_their_names(text);
}

/// The options of signed URLs are those with these names.
pub proof fn options_of_signed_access(text: Seq<char>)
    requires
        flag_of(text) is Some,
    ensures
        flag_of(text)->0.signed_access_option() <==> {
            ||| text == "--signed-access-keyring"@
            ||| text == "--signed-access-keyring-reload-manifest"@
            ||| text == "--signed-access-reload-interval-ms"@
            ||| text == "--signed-access-max-ttl-seconds"@
            ||| text == "--signed-access-clock-skew-seconds"@
        },
{
    switches_are_known_by_their_names(text);
    addresses_are_known_by_their_names(text);
    numbers_are_known_by_their_names(text);
    texts_are_known_by_their_names(text);
}

/// The options of reloading the keys of signed URLs are those with these names.
pub proof fn options_of_key_reloads(text: Seq<char>)
    requires
        flag_of(text) is Some,
    ensures
        flag_of(text)->0.signed_access_reload_option() <==> {
            ||| text == "--signed-access-keyring-reload-manifest"@
            ||| text == "--signed-access-reload-interval-ms"@
        },
{
    switches_are_known_by_their_names(text);
    addresses_are_known_by_their_names(text);
    numbers_are_known_by_their_names(text);
    texts_are_known_by_their_names(text);
}

/// The options of the operations endpoint are those with these names.
pub proof fn options_of_operations(text: Seq<char>)
    requires
        flag_of(text) is Some,
    ensures
        flag_of(text)->0.ops_option() <==> {
            ||| text == "--max-ops-connections"@
            ||| text == "--ops-header-timeout-ms"@
            ||| text == "--ops-request-timeout-ms"@
        },
{
    switches_are_known_by_their_names(text);
    addresses_are_known_by_their_names(text);
    numbers_are_known_by_their_names(text);
    texts_are_known_by_their_names(text);
}

/// The options of reloading certificates are those with these names.
pub proof fn options_of_tls_reloads(text: Seq<char>)
    requires
        flag_of(text) is Some,
    ensures
        flag_of(text)->0.tls_reload_option() <==> {
            ||| text == "--https-route-tls-reload-manifest"@
            ||| text == "--tls-reload-manifest"@
            ||| text == "--snapshot-tls-reload-manifest"@
            ||| text == "--tls-reload-interval-ms"@
            ||| text == "--tls-expiry-warning-ms"@
        },
{
    switches_are_known_by_their_names(text);
    addresses_are_known_by_their_names(text);
    numbers_are_known_by_their_names(text);
    texts_are_known_by_their_names(text);
}

/// The options of authorization snapshots are those with these names.
pub proof fn options_of_snapshots(text: Seq<char>)
    requires
        flag_of(text) is Some,
    ensures
        flag_of(text)->0.snapshot_option() <==> {
            ||| text == "--snapshot-server"@
            ||| text == "--snapshot-ca"@
            ||| text == "--snapshot-client-cert"@
            ||| text == "--snapshot-client-key"@
            ||| text == "--snapshot-server-name"@
            ||| text == "--snapshot-connect-timeout-ms"@
            ||| text == "--snapshot-handshake-timeout-ms"@
            ||| text == "--snapshot-subscribe-timeout-ms"@
            ||| text == "--snapshot-reconnect-initial-ms"@
            ||| text == "--snapshot-reconnect-max-ms"@
            ||| text == "--snapshot-cache-dir"@
            ||| text == "--snapshot-cache-max-stale-ms"@
        },
{
    switches_are_known_by_their_names(text);
    addresses_are_known_by_their_names(text);
    numbers_are_known_by_their_names(text);
    texts_are_known_by_their_names(text);
}

/// What is counted or held in memory is as large as the machine allows, streams and ports
/// as large as their protocols do, and everything else up to 64 bits.
pub proof fn numbers_fit_what_they_are_for(flag: NumberFlag)
    ensures
        flag.max() <= u64::MAX,
        flag.max() == u16::MAX <==> flag is ConnectAuthorityPort,
        flag is MaxHttp2ConcurrentStreams ==> flag.max() == 0xffff_ffff,
        flag is MaxStreams || flag is MaxAgentSessions || flag is MaxRawConnections
            || flag is MaxRawConnectionsPerIp || flag is MaxHttpConnections
            || flag is MaxHttpConnectionsPerIp || flag is MaxHttpHeaderBytes
            || flag is MaxHttpHeaders || flag is MaxHttpRequestBodyBytes
            || flag is MaxHttpRequestsPerConnection || flag is MaxWebsocketSessions
            || flag is MaxConnectSessions || flag is MaxHttpRateLimitPeers
            || flag is MaxOpsConnections ==> flag.max() == usize::MAX,
        flag is HttpRequestsPerSecond || flag is HttpRequestBurst
            || flag is HttpRequestsPerIpPerSecond || flag is HttpRequestBurstPerIp
            || flag is SignedAccessMaxTtlSeconds || flag is SignedAccessClockSkewSeconds
            || flag is DrainTimeoutMs || flag is HttpRequestTimeoutMs
            || flag is HttpHeaderTimeoutMs || flag is WebsocketIdleTimeoutMs
            || flag is ConnectIdleTimeoutMs || flag is HttpRateLimitIdleMs
            || flag is TlsHandshakeTimeoutMs || flag is SnapshotCacheMaxStaleMs
            || flag is HttpsRouteMaxStaleMs ==> flag.max() == u64::MAX,
{
}

} // verus!
