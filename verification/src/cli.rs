//! The command line: what it may say, and what it may not say together.

use vstd::prelude::*;
use vstd::string::*;
use vstd::utf8::encode_utf8;

use crate::cli_flags::{flag_of, read_flag, AddressFlag, Flag, NumberFlag, SwitchFlag, TextFlag};
use crate::clock::{millis, seconds, Duration};
use crate::names::{AgentId, HttpHostname, TunnelId};
use crate::net::{IpAddr, SocketAddr};
use crate::text::{parse_number_up_to, parsed_number};

verus! {

/// One word of the command line, with what it would be as an address, as a durable
/// identifier and as a hostname.
#[derive(Debug)]
pub struct Argument {
    pub text: String,
    pub address: Option<SocketAddr>,
    pub agent_id: Option<AgentId>,
    pub tunnel_id: Option<TunnelId>,
    pub hostname: Option<HttpHostname>,
}

/// What a command line asks for.
#[derive(Debug, PartialEq, Eq)]
pub struct ParsedArgs {
    pub agent_listen: SocketAddr,
    pub raw_listen: SocketAddr,
    pub agent_id: AgentId,
    pub tunnel_id: TunnelId,
    pub max_streams: usize,
    pub max_agent_sessions: usize,
    pub max_raw_connections: usize,
    pub allow_public_raw_ingress: bool,
    pub max_raw_connections_per_ip: Option<usize>,
    pub raw_options_present: bool,
    pub https_options_present: bool,
    pub https_listen: Option<SocketAddr>,
    pub https_host: Option<HttpHostname>,
    pub https_route_server: Option<SocketAddr>,
    pub https_route_max_stale: Option<Duration>,
    pub https_route_tls_reload_manifest: Option<String>,
    pub public_tls_cert: Option<String>,
    pub public_tls_key: Option<String>,
    pub public_tls_reload_manifest: Option<String>,
    pub allow_public_https_ingress: bool,
    pub max_http_connections: usize,
    pub max_http_connections_per_ip: Option<usize>,
    pub max_http_header_bytes: usize,
    pub max_http_headers: usize,
    pub max_http_request_body_bytes: usize,
    pub max_http_requests_per_connection: usize,
    pub enable_http2: bool,
    pub max_http2_concurrent_streams: u32,
    pub http2_keep_alive_interval: Duration,
    pub http2_keep_alive_timeout: Duration,
    pub http2_options_present: bool,
    pub enable_websocket_upgrade: bool,
    pub enable_http2_websocket: bool,
    pub max_websocket_sessions: usize,
    pub websocket_idle_timeout: Duration,
    pub websocket_options_present: bool,
    pub enable_connect: bool,
    pub enable_http2_connect: bool,
    pub max_connect_sessions: usize,
    pub connect_idle_timeout: Duration,
    pub connect_authority_port: u16,
    pub connect_options_present: bool,
    pub require_signed_access: bool,
    pub signed_access_keyring: Option<String>,
    pub signed_access_keyring_reload_manifest: Option<String>,
    pub signed_access_reload_interval: Duration,
    pub signed_access_reload_options_present: bool,
    pub signed_access_maximum_ttl: Duration,
    pub signed_access_clock_skew: Duration,
    pub signed_access_options_present: bool,
    pub http_requests_per_second: u64,
    pub http_request_burst: u64,
    pub http_requests_per_ip_per_second: u64,
    pub http_request_burst_per_ip: u64,
    pub max_http_rate_limit_peers: usize,
    pub http_rate_limit_idle: Duration,
    pub http_header_timeout: Duration,
    pub http_request_timeout: Duration,
    pub ops_listen: Option<SocketAddr>,
    pub max_ops_connections: usize,
    pub ops_header_timeout: Duration,
    pub ops_request_timeout: Duration,
    pub ops_options_present: bool,
    pub drain_timeout: Duration,
    pub tls_cert: Option<String>,
    pub tls_key: Option<String>,
    pub tls_client_ca: Option<String>,
    pub authorized_client_cert: Option<String>,
    pub tls_handshake_timeout: Duration,
    pub tls_reload_manifest: Option<String>,
    pub snapshot_server: Option<SocketAddr>,
    pub snapshot_ca: Option<String>,
    pub snapshot_client_cert: Option<String>,
    pub snapshot_client_key: Option<String>,
    pub snapshot_server_name: Option<String>,
    pub snapshot_connect_timeout: Duration,
    pub snapshot_handshake_timeout: Duration,
    pub snapshot_subscribe_timeout: Duration,
    pub snapshot_reconnect_initial: Duration,
    pub snapshot_reconnect_max: Duration,
    pub snapshot_cache_dir: Option<String>,
    pub snapshot_cache_max_stale: Option<Duration>,
    pub snapshot_tls_reload_manifest: Option<String>,
    pub tls_reload_interval: Duration,
    pub tls_expiry_warning: Duration,
    pub tls_reload_options_present: bool,
    pub snapshot_options_present: bool,
    pub help: bool,
}

/// What is asked for where the command line says nothing.
pub open spec fn is_default(p: ParsedArgs) -> bool {
    &&& p.agent_listen == (SocketAddr { ip: IpAddr::V4(0x7f00_0001), port: 7100 })
    &&& p.raw_listen == (SocketAddr { ip: IpAddr::V4(0x7f00_0001), port: 7000 })
    &&& p.agent_id@ == "agent-dev"@
    &&& p.tunnel_id@ == "tunnel-dev"@
    &&& p.max_streams == 32
    &&& p.max_agent_sessions == 1
    &&& p.max_raw_connections == 32
    &&& !p.allow_public_raw_ingress
    &&& p.max_raw_connections_per_ip is None
    &&& !p.raw_options_present
    &&& !p.https_options_present
    &&& p.https_listen is None
    &&& p.https_host is None
    &&& p.https_route_server is None
    &&& p.https_route_max_stale is None
    &&& p.https_route_tls_reload_manifest is None
    &&& p.public_tls_cert is None
    &&& p.public_tls_key is None
    &&& p.public_tls_reload_manifest is None
    &&& !p.allow_public_https_ingress
    &&& p.max_http_connections == 32
    &&& p.max_http_connections_per_ip is None
    &&& p.max_http_header_bytes == 16_384
    &&& p.max_http_headers == 64
    &&& p.max_http_request_body_bytes == 10_485_760
    &&& p.max_http_requests_per_connection == 1
    &&& !p.enable_http2
    &&& p.max_http2_concurrent_streams == 32
    &&& p.http2_keep_alive_interval == (Duration { nanos: 30_000_000_000 })
    &&& p.http2_keep_alive_timeout == (Duration { nanos: 10_000_000_000 })
    &&& !p.http2_options_present
    &&& !p.enable_websocket_upgrade
    &&& !p.enable_http2_websocket
    &&& p.max_websocket_sessions == 32
    &&& p.websocket_idle_timeout == (Duration { nanos: 60_000_000_000 })
    &&& !p.websocket_options_present
    &&& !p.enable_connect
    &&& !p.enable_http2_connect
    &&& p.max_connect_sessions == 32
    &&& p.connect_idle_timeout == (Duration { nanos: 60_000_000_000 })
    &&& p.connect_authority_port == 443
    &&& !p.connect_options_present
    &&& !p.require_signed_access
    &&& p.signed_access_keyring is None
    &&& p.signed_access_keyring_reload_manifest is None
    &&& p.signed_access_reload_interval == (Duration { nanos: 1_000_000_000 })
    &&& !p.signed_access_reload_options_present
    &&& p.signed_access_maximum_ttl == (Duration { nanos: 3_600_000_000_000 })
    &&& p.signed_access_clock_skew == (Duration { nanos: 30_000_000_000 })
    &&& !p.signed_access_options_present
    &&& p.http_requests_per_second == 100
    &&& p.http_request_burst == 200
    &&& p.http_requests_per_ip_per_second == 20
    &&& p.http_request_burst_per_ip == 40
    &&& p.max_http_rate_limit_peers == 4_096
    &&& p.http_rate_limit_idle == (Duration { nanos: 300_000_000_000 })
    &&& p.http_header_timeout == (Duration { nanos: 10_000_000_000 })
    &&& p.http_request_timeout == (Duration { nanos: 60_000_000_000 })
    &&& p.ops_listen is None
    &&& p.max_ops_connections == 8
    &&& p.ops_header_timeout == (Duration { nanos: 2_000_000_000 })
    &&& p.ops_request_timeout == (Duration { nanos: 5_000_000_000 })
    &&& !p.ops_options_present
    &&& p.drain_timeout == (Duration { nanos: 10_000_000_000 })
    &&& p.tls_cert is None
    &&& p.tls_key is None
    &&& p.tls_client_ca is None
    &&& p.authorized_client_cert is None
    &&& p.tls_handshake_timeout == (Duration { nanos: 10_000_000_000 })
    &&& p.tls_reload_manifest is None
    &&& p.snapshot_server is None
    &&& p.snapshot_ca is None
    &&& p.snapshot_client_cert is None
    &&& p.snapshot_client_key is None
    &&& p.snapshot_server_name is None
    &&& p.snapshot_connect_timeout == (Duration { nanos: 5_000_000_000 })
    &&& p.snapshot_handshake_timeout == (Duration { nanos: 5_000_000_000 })
    &&& p.snapshot_subscribe_timeout == (Duration { nanos: 5_000_000_000 })
    &&& p.snapshot_reconnect_initial == (Duration { nanos: 250_000_000 })
    &&& p.snapshot_reconnect_max == (Duration { nanos: 30_000_000_000 })
    &&& p.snapshot_cache_dir is None
    &&& p.snapshot_cache_max_stale is None
    &&& p.snapshot_tls_reload_manifest is None
    &&& p.tls_reload_interval == (Duration { nanos: 1_000_000_000 })
    &&& p.tls_expiry_warning == (Duration { nanos: 604_800_000_000_000 })
    &&& !p.tls_reload_options_present
    &&& !p.snapshot_options_present
    &&& !p.help
}

impl Default for ParsedArgs {
    fn default() -> (parsed: ParsedArgs)
        ensures
            is_default(parsed),
    {
        ParsedArgs {
            agent_listen: SocketAddr { ip: IpAddr::V4(0x7f00_0001), port: 7100 },
            raw_listen: SocketAddr { ip: IpAddr::V4(0x7f00_0001), port: 7000 },
            agent_id: AgentId::from_checked("agent-dev".to_owned()),
            tunnel_id: TunnelId::from_checked("tunnel-dev".to_owned()),
            max_streams: 32,
            max_agent_sessions: 1,
            max_raw_connections: 32,
            allow_public_raw_ingress: false,
            max_raw_connections_per_ip: None,
            raw_options_present: false,
            https_options_present: false,
            https_listen: None,
            https_host: None,
            https_route_server: None,
            https_route_max_stale: None,
            https_route_tls_reload_manifest: None,
            public_tls_cert: None,
            public_tls_key: None,
            public_tls_reload_manifest: None,
            allow_public_https_ingress: false,
            max_http_connections: 32,
            max_http_connections_per_ip: None,
            max_http_header_bytes: 16_384,
            max_http_headers: 64,
            max_http_request_body_bytes: 10_485_760,
            max_http_requests_per_connection: 1,
            enable_http2: false,
            max_http2_concurrent_streams: 32,
            http2_keep_alive_interval: Duration { nanos: 30_000_000_000 },
            http2_keep_alive_timeout: Duration { nanos: 10_000_000_000 },
            http2_options_present: false,
            enable_websocket_upgrade: false,
            enable_http2_websocket: false,
            max_websocket_sessions: 32,
            websocket_idle_timeout: Duration { nanos: 60_000_000_000 },
            websocket_options_present: false,
            enable_connect: false,
            enable_http2_connect: false,
            max_connect_sessions: 32,
            connect_idle_timeout: Duration { nanos: 60_000_000_000 },
            connect_authority_port: 443,
            connect_options_present: false,
            require_signed_access: false,
            signed_access_keyring: None,
            signed_access_keyring_reload_manifest: None,
            signed_access_reload_interval: Duration { nanos: 1_000_000_000 },
            signed_access_reload_options_present: false,
            signed_access_maximum_ttl: Duration { nanos: 3_600_000_000_000 },
            signed_access_clock_skew: Duration { nanos: 30_000_000_000 },
            signed_access_options_present: false,
            http_requests_per_second: 100,
            http_request_burst: 200,
            http_requests_per_ip_per_second: 20,
            http_request_burst_per_ip: 40,
            max_http_rate_limit_peers: 4_096,
            http_rate_limit_idle: Duration { nanos: 300_000_000_000 },
            http_header_timeout: Duration { nanos: 10_000_000_000 },
            http_request_timeout: Duration { nanos: 60_000_000_000 },
            ops_listen: None,
            max_ops_connections: 8,
            ops_header_timeout: Duration { nanos: 2_000_000_000 },
            ops_request_timeout: Duration { nanos: 5_000_000_000 },
            ops_options_present: false,
            drain_timeout: Duration { nanos: 10_000_000_000 },
            tls_cert: None,
            tls_key: None,
            tls_client_ca: None,
            authorized_client_cert: None,
            tls_handshake_timeout: Duration { nanos: 10_000_000_000 },
            tls_reload_manifest: None,
            snapshot_server: None,
            snapshot_ca: None,
            snapshot_client_cert: None,
            snapshot_client_key: None,
            snapshot_server_name: None,
            snapshot_connect_timeout: Duration { nanos: 5_000_000_000 },
            snapshot_handshake_timeout: Duration { nanos: 5_000_000_000 },
            snapshot_subscribe_timeout: Duration { nanos: 5_000_000_000 },
            snapshot_reconnect_initial: Duration { nanos: 250_000_000 },
            snapshot_reconnect_max: Duration { nanos: 30_000_000_000 },
            snapshot_cache_dir: None,
            snapshot_cache_max_stale: None,
            snapshot_tls_reload_manifest: None,
            tls_reload_interval: Duration { nanos: 1_000_000_000 },
            tls_expiry_warning: Duration { nanos: 604_800_000_000_000 },
            tls_reload_options_present: false,
            snapshot_options_present: false,
            help: false,
        }
    }
}

/// What a switch asks for.
pub open spec fn with_switch(p: ParsedArgs, flag: SwitchFlag) -> ParsedArgs {
    match flag {
        SwitchFlag::Help => ParsedArgs { help: true, ..p },
        SwitchFlag::AllowPublicRawIngress => ParsedArgs { allow_public_raw_ingress: true, ..p },
        SwitchFlag::AllowPublicHttpsIngress => ParsedArgs { allow_public_https_ingress: true, ..p },
        SwitchFlag::EnableHttp2 => ParsedArgs { enable_http2: true, ..p },
        SwitchFlag::EnableWebsocketUpgrade => ParsedArgs { enable_websocket_upgrade: true, ..p },
        SwitchFlag::EnableHttp2Websocket => ParsedArgs { enable_http2_websocket: true, ..p },
        SwitchFlag::EnableConnect => ParsedArgs { enable_connect: true, ..p },
        SwitchFlag::EnableHttp2Connect => ParsedArgs { enable_http2_connect: true, ..p },
        SwitchFlag::RequireSignedAccess => ParsedArgs { require_signed_access: true, ..p },
    }
}

/// What a flag with an address asks for.
pub open spec fn with_address(p: ParsedArgs, flag: AddressFlag, address: SocketAddr) -> ParsedArgs {
    match flag {
        AddressFlag::AgentListen => ParsedArgs { agent_listen: address, ..p },
        AddressFlag::RawListen => ParsedArgs { raw_listen: address, ..p },
        AddressFlag::HttpsListen => ParsedArgs { https_listen: Some(address), ..p },
        AddressFlag::HttpsRouteServer => ParsedArgs { https_route_server: Some(address), ..p },
        AddressFlag::OpsListen => ParsedArgs { ops_listen: Some(address), ..p },
        AddressFlag::SnapshotServer => ParsedArgs { snapshot_server: Some(address), ..p },
    }
}

/// What a flag with a number asks for.
pub open spec fn with_number(p: ParsedArgs, flag: NumberFlag, n: u64) -> ParsedArgs {
    match flag {
        NumberFlag::MaxStreams => ParsedArgs { max_streams: n as usize, ..p },
        NumberFlag::MaxAgentSessions => ParsedArgs { max_agent_sessions: n as usize, ..p },
        NumberFlag::MaxRawConnections => ParsedArgs { max_raw_connections: n as usize, ..p },
        NumberFlag::MaxRawConnectionsPerIp => ParsedArgs {
            max_raw_connections_per_ip: Some(n as usize),
            ..p
        },
        NumberFlag::HttpsRouteMaxStaleMs => ParsedArgs {
            https_route_max_stale: Some(millis(n)),
            ..p
        },
        NumberFlag::MaxHttpConnections => ParsedArgs { max_http_connections: n as usize, ..p },
        NumberFlag::MaxHttpConnectionsPerIp => ParsedArgs {
            max_http_connections_per_ip: Some(n as usize),
            ..p
        },
        NumberFlag::MaxHttpHeaderBytes => ParsedArgs { max_http_header_bytes: n as usize, ..p },
        NumberFlag::MaxHttpHeaders => ParsedArgs { max_http_headers: n as usize, ..p },
        NumberFlag::MaxHttpRequestBodyBytes => ParsedArgs {
            max_http_request_body_bytes: n as usize,
            ..p
        },
        NumberFlag::MaxHttpRequestsPerConnection => ParsedArgs {
            max_http_requests_per_connection: n as usize,
            ..p
        },
        NumberFlag::MaxHttp2ConcurrentStreams => ParsedArgs {
            max_http2_concurrent_streams: n as u32,
            ..p
        },
        NumberFlag::Http2KeepaliveIntervalMs => ParsedArgs {
            http2_keep_alive_interval: millis(n),
            ..p
        },
        NumberFlag::Http2KeepaliveTimeoutMs => ParsedArgs {
            http2_keep_alive_timeout: millis(n),
            ..p
        },
        NumberFlag::MaxWebsocketSessions => ParsedArgs { max_websocket_sessions: n as usize, ..p },
        NumberFlag::WebsocketIdleTimeoutMs => ParsedArgs { websocket_idle_timeout: millis(n), ..p },
        NumberFlag::MaxConnectSessions => ParsedArgs { max_connect_sessions: n as usize, ..p },
        NumberFlag::ConnectIdleTimeoutMs => ParsedArgs { connect_idle_timeout: millis(n), ..p },
        NumberFlag::ConnectAuthorityPort => ParsedArgs { connect_authority_port: n as u16, ..p },
        NumberFlag::SignedAccessReloadIntervalMs => ParsedArgs {
            signed_access_reload_interval: millis(n),
            ..p
        },
        NumberFlag::SignedAccessMaxTtlSeconds => ParsedArgs {
            signed_access_maximum_ttl: seconds(n),
            ..p
        },
        NumberFlag::SignedAccessClockSkewSeconds => ParsedArgs {
            signed_access_clock_skew: seconds(n),
            ..p
        },
        NumberFlag::HttpRequestsPerSecond => ParsedArgs { http_requests_per_second: n, ..p },
        NumberFlag::HttpRequestBurst => ParsedArgs { http_request_burst: n, ..p },
        NumberFlag::HttpRequestsPerIpPerSecond => ParsedArgs {
            http_requests_per_ip_per_second: n,
            ..p
        },
        NumberFlag::HttpRequestBurstPerIp => ParsedArgs { http_request_burst_per_ip: n, ..p },
        NumberFlag::MaxHttpRateLimitPeers => ParsedArgs {
            max_http_rate_limit_peers: n as usize,
            ..p
        },
        NumberFlag::HttpRateLimitIdleMs => ParsedArgs { http_rate_limit_idle: millis(n), ..p },
        NumberFlag::HttpHeaderTimeoutMs => ParsedArgs { http_header_timeout: millis(n), ..p },
        NumberFlag::HttpRequestTimeoutMs => ParsedArgs { http_request_timeout: millis(n), ..p },
        NumberFlag::MaxOpsConnections => ParsedArgs { max_ops_connections: n as usize, ..p },
        NumberFlag::OpsHeaderTimeoutMs => ParsedArgs { ops_header_timeout: millis(n), ..p },
        NumberFlag::OpsRequestTimeoutMs => ParsedArgs { ops_request_timeout: millis(n), ..p },
        NumberFlag::DrainTimeoutMs => ParsedArgs { drain_timeout: millis(n), ..p },
        NumberFlag::TlsHandshakeTimeoutMs => ParsedArgs { tls_handshake_timeout: millis(n), ..p },
        NumberFlag::SnapshotConnectTimeoutMs => ParsedArgs {
            snapshot_connect_timeout: millis(n),
            ..p
        },
        NumberFlag::SnapshotHandshakeTimeoutMs => ParsedArgs {
            snapshot_handshake_timeout: millis(n),
            ..p
        },
        NumberFlag::SnapshotSubscribeTimeoutMs => ParsedArgs {
            snapshot_subscribe_timeout: millis(n),
            ..p
        },
        NumberFlag::SnapshotReconnectInitialMs => ParsedArgs {
            snapshot_reconnect_initial: millis(n),
            ..p
        },
        NumberFlag::SnapshotReconnectMaxMs => ParsedArgs { snapshot_reconnect_max: millis(n), ..p },
        NumberFlag::SnapshotCacheMaxStaleMs => ParsedArgs {
            snapshot_cache_max_stale: Some(millis(n)),
            ..p
        },
        NumberFlag::TlsReloadIntervalMs => ParsedArgs { tls_reload_interval: millis(n), ..p },
        NumberFlag::TlsExpiryWarningMs => ParsedArgs { tls_expiry_warning: millis(n), ..p },
    }
}

/// What a flag with a text asks for.
pub open spec fn with_text(p: ParsedArgs, flag: TextFlag, text: String) -> ParsedArgs {
    match flag {
        TextFlag::HttpsRouteTlsReloadManifest => ParsedArgs {
            https_route_tls_reload_manifest: Some(text),
            ..p
        },
        TextFlag::PublicTlsCert => ParsedArgs { public_tls_cert: Some(text), ..p },
        TextFlag::PublicTlsKey => ParsedArgs { public_tls_key: Some(text), ..p },
        TextFlag::PublicTlsReloadManifest => ParsedArgs {
            public_tls_reload_manifest: Some(text),
            ..p
        },
        TextFlag::SignedAccessKeyring => ParsedArgs { signed_access_keyring: Some(text), ..p },
        TextFlag::SignedAccessKeyringReloadManifest => ParsedArgs {
            signed_access_keyring_reload_manifest: Some(text),
            ..p
        },
        TextFlag::TlsCert => ParsedArgs { tls_cert: Some(text), ..p },
        TextFlag::TlsKey => ParsedArgs { tls_key: Some(text), ..p },
        TextFlag::TlsClientCa => ParsedArgs { tls_client_ca: Some(text), ..p },
        TextFlag::AuthorizedClientCert => ParsedArgs { authorized_client_cert: Some(text), ..p },
        TextFlag::TlsReloadManifest => ParsedArgs { tls_reload_manifest: Some(text), ..p },
        TextFlag::SnapshotCa => ParsedArgs { snapshot_ca: Some(text), ..p },
        TextFlag::SnapshotClientCert => ParsedArgs { snapshot_client_cert: Some(text), ..p },
        TextFlag::SnapshotClientKey => ParsedArgs { snapshot_client_key: Some(text), ..p },
        TextFlag::SnapshotServerName => ParsedArgs { snapshot_server_name: Some(text), ..p },
        TextFlag::SnapshotCacheDir => ParsedArgs { snapshot_cache_dir: Some(text), ..p },
        TextFlag::SnapshotTlsReloadManifest => ParsedArgs {
            snapshot_tls_reload_manifest: Some(text),
            ..p
        },
    }
}

/// Notes which groups of options were used.
pub open spec fn with_groups(p: ParsedArgs, flag: Flag) -> ParsedArgs {
    ParsedArgs {
        raw_options_present: p.raw_options_present || flag.raw_option(),
        https_options_present: p.https_options_present || flag.https_option(),
        http2_options_present: p.http2_options_present || flag.http2_option(),
        websocket_options_present: p.websocket_options_present || flag.websocket_option(),
        connect_options_present: p.connect_options_present || flag.connect_option(),
        signed_access_options_present: p.signed_access_options_present || flag.signed_access_option(),
        signed_access_reload_options_present: p.signed_access_reload_options_present || flag.signed_access_reload_option(),
        ops_options_present: p.ops_options_present || flag.ops_option(),
        tls_reload_options_present: p.tls_reload_options_present || flag.tls_reload_option(),
        snapshot_options_present: p.snapshot_options_present || flag.snapshot_option(),
        ..p
    }
}

impl ParsedArgs {
    /// What a switch asks for.
    fn set_switch(self, flag: SwitchFlag) -> (parsed: ParsedArgs)
        ensures
            parsed == with_switch(self, flag),
    {
        match flag {
            SwitchFlag::Help => ParsedArgs { help: true, ..self },
            SwitchFlag::AllowPublicRawIngress => ParsedArgs {
                allow_public_raw_ingress: true,
                ..self
            },
            SwitchFlag::AllowPublicHttpsIngress => ParsedArgs {
                allow_public_https_ingress: true,
                ..self
            },
            SwitchFlag::EnableHttp2 => ParsedArgs { enable_http2: true, ..self },
            SwitchFlag::EnableWebsocketUpgrade => ParsedArgs {
                enable_websocket_upgrade: true,
                ..self
            },
            SwitchFlag::EnableHttp2Websocket => ParsedArgs { enable_http2_websocket: true, ..self },
            SwitchFlag::EnableConnect => ParsedArgs { enable_connect: true, ..self },
            SwitchFlag::EnableHttp2Connect => ParsedArgs { enable_http2_connect: true, ..self },
            SwitchFlag::RequireSignedAccess => ParsedArgs { require_signed_access: true, ..self },
        }
    }

    /// What a flag with an address asks for.
    fn set_address(self, flag: AddressFlag, address: SocketAddr) -> (parsed: ParsedArgs)
        ensures
            parsed == with_address(self, flag, address),
    {
        match flag {
            AddressFlag::AgentListen => ParsedArgs { agent_listen: address, ..self },
            AddressFlag::RawListen => ParsedArgs { raw_listen: address, ..self },
            AddressFlag::HttpsListen => ParsedArgs { https_listen: Some(address), ..self },
            AddressFlag::HttpsRouteServer => ParsedArgs {
                https_route_server: Some(address),
                ..self
            },
            AddressFlag::OpsListen => ParsedArgs { ops_listen: Some(address), ..self },
            AddressFlag::SnapshotServer => ParsedArgs { snapshot_server: Some(address), ..self },
        }
    }

    /// What a flag with a number asks for.
    fn set_number(self, flag: NumberFlag, n: u64) -> (parsed: ParsedArgs)
        requires
            n <= flag.max(),
        ensures
            parsed == with_number(self, flag, n),
    {
        match flag {
            NumberFlag::MaxStreams => ParsedArgs { max_streams: n as usize, ..self },
            NumberFlag::MaxAgentSessions => ParsedArgs { max_agent_sessions: n as usize, ..self },
            NumberFlag::MaxRawConnections => ParsedArgs { max_raw_connections: n as usize, ..self },
            NumberFlag::MaxRawConnectionsPerIp => ParsedArgs {
                max_raw_connections_per_ip: Some(n as usize),
                ..self
            },
            NumberFlag::HttpsRouteMaxStaleMs => ParsedArgs {
                https_route_max_stale: Some(Duration::from_millis(n)),
                ..self
            },
            NumberFlag::MaxHttpConnections => ParsedArgs {
                max_http_connections: n as usize,
                ..self
            },
            NumberFlag::MaxHttpConnectionsPerIp => ParsedArgs {
                max_http_connections_per_ip: Some(n as usize),
                ..self
            },
            NumberFlag::MaxHttpHeaderBytes => ParsedArgs {
                max_http_header_bytes: n as usize,
                ..self
            },
            NumberFlag::MaxHttpHeaders => ParsedArgs { max_http_headers: n as usize, ..self },
            NumberFlag::MaxHttpRequestBodyBytes => ParsedArgs {
                max_http_request_body_bytes: n as usize,
                ..self
            },
            NumberFlag::MaxHttpRequestsPerConnection => ParsedArgs {
                max_http_requests_per_connection: n as usize,
                ..self
            },
            NumberFlag::MaxHttp2ConcurrentStreams => ParsedArgs {
                max_http2_concurrent_streams: n as u32,
                ..self
            },
            NumberFlag::Http2KeepaliveIntervalMs => ParsedArgs {
                http2_keep_alive_interval: Duration::from_millis(n),
                ..self
            },
            NumberFlag::Http2KeepaliveTimeoutMs => ParsedArgs {
                http2_keep_alive_timeout: Duration::from_millis(n),
                ..self
            },
            NumberFlag::MaxWebsocketSessions => ParsedArgs {
                max_websocket_sessions: n as usize,
                ..self
            },
            NumberFlag::WebsocketIdleTimeoutMs => ParsedArgs {
                websocket_idle_timeout: Duration::from_millis(n),
                ..self
            },
            NumberFlag::MaxConnectSessions => ParsedArgs {
                max_connect_sessions: n as usize,
                ..self
            },
            NumberFlag::ConnectIdleTimeoutMs => ParsedArgs {
                connect_idle_timeout: Duration::from_millis(n),
                ..self
            },
            NumberFlag::ConnectAuthorityPort => ParsedArgs {
                connect_authority_port: n as u16,
                ..self
            },
            NumberFlag::SignedAccessReloadIntervalMs => ParsedArgs {
                signed_access_reload_interval: Duration::from_millis(n),
                ..self
            },
            NumberFlag::SignedAccessMaxTtlSeconds => ParsedArgs {
                signed_access_maximum_ttl: Duration::from_secs(n),
                ..self
            },
            NumberFlag::SignedAccessClockSkewSeconds => ParsedArgs {
                signed_access_clock_skew: Duration::from_secs(n),
                ..self
            },
            NumberFlag::HttpRequestsPerSecond => ParsedArgs { http_requests_per_second: n, ..self },
            NumberFlag::HttpRequestBurst => ParsedArgs { http_request_burst: n, ..self },
            NumberFlag::HttpRequestsPerIpPerSecond => ParsedArgs {
                http_requests_per_ip_per_second: n,
                ..self
            },
            NumberFlag::HttpRequestBurstPerIp => ParsedArgs {
                http_request_burst_per_ip: n,
                ..self
            },
            NumberFlag::MaxHttpRateLimitPeers => ParsedArgs {
                max_http_rate_limit_peers: n as usize,
                ..self
            },
            NumberFlag::HttpRateLimitIdleMs => ParsedArgs {
                http_rate_limit_idle: Duration::from_millis(n),
                ..self
            },
            NumberFlag::HttpHeaderTimeoutMs => ParsedArgs {
                http_header_timeout: Duration::from_millis(n),
                ..self
            },
            NumberFlag::HttpRequestTimeoutMs => ParsedArgs {
                http_request_timeout: Duration::from_millis(n),
                ..self
            },
            NumberFlag::MaxOpsConnections => ParsedArgs { max_ops_connections: n as usize, ..self },
            NumberFlag::OpsHeaderTimeoutMs => ParsedArgs {
                ops_header_timeout: Duration::from_millis(n),
                ..self
            },
            NumberFlag::OpsRequestTimeoutMs => ParsedArgs {
                ops_request_timeout: Duration::from_millis(n),
                ..self
            },
            NumberFlag::DrainTimeoutMs => ParsedArgs {
                drain_timeout: Duration::from_millis(n),
                ..self
            },
            NumberFlag::TlsHandshakeTimeoutMs => ParsedArgs {
                tls_handshake_timeout: Duration::from_millis(n),
                ..self
            },
            NumberFlag::SnapshotConnectTimeoutMs => ParsedArgs {
                snapshot_connect_timeout: Duration::from_millis(n),
                ..self
            },
            NumberFlag::SnapshotHandshakeTimeoutMs => ParsedArgs {
                snapshot_handshake_timeout: Duration::from_millis(n),
                ..self
            },
            NumberFlag::SnapshotSubscribeTimeoutMs => ParsedArgs {
                snapshot_subscribe_timeout: Duration::from_millis(n),
                ..self
            },
            NumberFlag::SnapshotReconnectInitialMs => ParsedArgs {
                snapshot_reconnect_initial: Duration::from_millis(n),
                ..self
            },
            NumberFlag::SnapshotReconnectMaxMs => ParsedArgs {
                snapshot_reconnect_max: Duration::from_millis(n),
                ..self
            },
            NumberFlag::SnapshotCacheMaxStaleMs => ParsedArgs {
                snapshot_cache_max_stale: Some(Duration::from_millis(n)),
                ..self
            },
            NumberFlag::TlsReloadIntervalMs => ParsedArgs {
                tls_reload_interval: Duration::from_millis(n),
                ..self
            },
            NumberFlag::TlsExpiryWarningMs => ParsedArgs {
                tls_expiry_warning: Duration::from_millis(n),
                ..self
            },
        }
    }

    /// What a flag with a text asks for.
    fn set_text(self, flag: TextFlag, text: String) -> (parsed: ParsedArgs)
        ensures
            parsed == with_text(self, flag, text),
    {
        match flag {
            TextFlag::HttpsRouteTlsReloadManifest => ParsedArgs {
                https_route_tls_reload_manifest: Some(text),
                ..self
            },
            TextFlag::PublicTlsCert => ParsedArgs { public_tls_cert: Some(text), ..self },
            TextFlag::PublicTlsKey => ParsedArgs { public_tls_key: Some(text), ..self },
            TextFlag::PublicTlsReloadManifest => ParsedArgs {
                public_tls_reload_manifest: Some(text),
                ..self
            },
            TextFlag::SignedAccessKeyring => ParsedArgs {
                signed_access_keyring: Some(text),
                ..self
            },
            TextFlag::SignedAccessKeyringReloadManifest => ParsedArgs {
                signed_access_keyring_reload_manifest: Some(text),
                ..self
            },
            TextFlag::TlsCert => ParsedArgs { tls_cert: Some(text), ..self },
            TextFlag::TlsKey => ParsedArgs { tls_key: Some(text), ..self },
            TextFlag::TlsClientCa => ParsedArgs { tls_client_ca: Some(text), ..self },
            TextFlag::AuthorizedClientCert => ParsedArgs {
                authorized_client_cert: Some(text),
                ..self
            },
            TextFlag::TlsReloadManifest => ParsedArgs { tls_reload_manifest: Some(text), ..self },
            TextFlag::SnapshotCa => ParsedArgs { snapshot_ca: Some(text), ..self },
            TextFlag::SnapshotClientCert => ParsedArgs { snapshot_client_cert: Some(text), ..self },
            TextFlag::SnapshotClientKey => ParsedArgs { snapshot_client_key: Some(text), ..self },
            TextFlag::SnapshotServerName => ParsedArgs { snapshot_server_name: Some(text), ..self },
            TextFlag::SnapshotCacheDir => ParsedArgs { snapshot_cache_dir: Some(text), ..self },
            TextFlag::SnapshotTlsReloadManifest => ParsedArgs {
                snapshot_tls_reload_manifest: Some(text),
                ..self
            },
        }
    }

    /// Notes which groups of options were used.
    fn note_groups(self, flag: Flag) -> (parsed: ParsedArgs)
        ensures
            parsed == with_groups(self, flag),
    {
        ParsedArgs {
            raw_options_present: self.raw_options_present || flag.is_raw_option(),
            https_options_present: self.https_options_present || flag.is_https_option(),
            http2_options_present: self.http2_options_present || flag.is_http2_option(),
            websocket_options_present: self.websocket_options_present || flag.is_websocket_option(),
            connect_options_present: self.connect_options_present || flag.is_connect_option(),
            signed_access_options_present: self.signed_access_options_present || flag.is_signed_access_option(),
            signed_access_reload_options_present: self.signed_access_reload_options_present || flag.is_signed_access_reload_option(),
            ops_options_present: self.ops_options_present || flag.is_ops_option(),
            tls_reload_options_present: self.tls_reload_options_present || flag.is_tls_reload_option(),
            snapshot_options_present: self.snapshot_options_present || flag.is_snapshot_option(),
            ..self
        }
    }
}

/// Why a command line is refused.
#[derive(Debug, PartialEq, Eq)]
pub enum ArgError {
    MissingValue(String),
    InvalidAddress { flag: String, value: String },
    InvalidNumber { flag: String, value: String },
    InvalidIdentifier { flag: String, value: String },
    PublicRawOptInRequired,
    PublicRawPerIpLimitRequired,
    PublicRawPerIpLimitWithoutOptIn,
    PublicRawPerIpLimitInvalid,
    InvalidHostname(String),
    HttpsRouteHostConflict,
    HttpsRouteStaleWithoutServer,
    HttpsRouteReloadWithoutServer,
    Http2OptionsWithoutOptIn,
    Http2ConnectWithoutHttp2,
    Http2WebSocketWithoutHttp2,
    WebSocketOptionsWithoutOptIn,
    ConnectOptionsWithoutOptIn,
    SignedAccessOptionsWithoutOptIn,
    SignedAccessReloadWithoutManifest,
    SignedAccessConnectConflict,
    IngressModeConflict,
    PublicHttpsOptInRequired,
    PublicHttpsPerIpLimitRequired,
    PublicHttpsPerIpLimitWithoutOptIn,
    PublicHttpsPerIpLimitInvalid,
    OperationsOptionsWithoutListener,
    UnknownFlag(String),
}

impl ArgError {
    /// The text shown to an operator.
    pub open spec fn text(self) -> Seq<char> {
        match self {
            ArgError::MissingValue(flag) => flag@ + " requires a value"@,
            ArgError::InvalidAddress { flag, value } => flag@ + "="@ + value@
                + " is not a valid socket address"@,
            ArgError::InvalidNumber { flag, value } => flag@ + "="@ + value@
                + " is not a valid integer"@,
            ArgError::InvalidIdentifier { flag, value } => flag@ + "="@ + value@
                + " is not a valid durable identifier"@,
            ArgError::InvalidHostname(value) => "invalid HTTPS hostname: "@ + value@,
            ArgError::UnknownFlag(flag) => "unknown flag: "@ + flag@,
            ArgError::PublicRawOptInRequired =>
                "a non-loopback raw listener requires --allow-public-raw-ingress"@,
            ArgError::PublicRawPerIpLimitRequired =>
                "public raw ingress requires --max-raw-connections-per-ip"@,
            ArgError::PublicRawPerIpLimitWithoutOptIn =>
                "--max-raw-connections-per-ip requires --allow-public-raw-ingress"@,
            ArgError::PublicRawPerIpLimitInvalid =>
                "--max-raw-connections-per-ip must be non-zero and cannot exceed --max-raw-connections"@,
            ArgError::HttpsRouteHostConflict =>
                "--https-host cannot be combined with --https-route-server"@,
            ArgError::HttpsRouteStaleWithoutServer =>
                "--https-route-max-stale-ms requires --https-route-server"@,
            ArgError::HttpsRouteReloadWithoutServer =>
                "--https-route-tls-reload-manifest requires --https-route-server"@,
            ArgError::Http2OptionsWithoutOptIn =>
                "HTTP/2 tuning options require --enable-http2"@,
            ArgError::Http2ConnectWithoutHttp2 =>
                "--enable-http2-connect requires --enable-http2"@,
            ArgError::Http2WebSocketWithoutHttp2 =>
                "--enable-http2-websocket requires --enable-http2"@,
            ArgError::WebSocketOptionsWithoutOptIn =>
                "WebSocket tuning options require --enable-websocket-upgrade"@,
            ArgError::ConnectOptionsWithoutOptIn =>
                "CONNECT tuning options require --enable-connect"@,
            ArgError::SignedAccessOptionsWithoutOptIn =>
                "signed-access options require --require-signed-access"@,
            ArgError::SignedAccessReloadWithoutManifest =>
                "--signed-access-reload-interval-ms requires --signed-access-keyring-reload-manifest"@,
            ArgError::SignedAccessConnectConflict =>
                "--require-signed-access cannot be combined with CONNECT ingress"@,
            ArgError::IngressModeConflict =>
                "raw-ingress options cannot be combined with --https-listen"@,
            ArgError::PublicHttpsOptInRequired =>
                "a non-loopback HTTPS listener requires --allow-public-https-ingress"@,
            ArgError::PublicHttpsPerIpLimitRequired =>
                "public HTTPS ingress requires --max-http-connections-per-ip"@,
            ArgError::PublicHttpsPerIpLimitWithoutOptIn =>
                "--max-http-connections-per-ip requires --allow-public-https-ingress"@,
            ArgError::PublicHttpsPerIpLimitInvalid =>
                "--max-http-connections-per-ip must be non-zero and cannot exceed --max-http-connections"@,
            ArgError::OperationsOptionsWithoutListener =>
                "operations limit/timeout options require --ops-listen"@,
        }
    }

    /// The text shown to an operator.
    pub fn message(&self) -> (message: String)
        ensures
            message@ == self.text(),
    {
        let fixed: &str = match self {
            ArgError::MissingValue(flag) => {
                return flag.clone().concat(" requires a value");
            },
            ArgError::InvalidAddress { flag, value } => {
                return flag.clone().concat("=").concat(value.as_str()).concat(
                    " is not a valid socket address",
                );
            },
            ArgError::InvalidNumber { flag, value } => {
                return flag.clone().concat("=").concat(value.as_str()).concat(
                    " is not a valid integer",
                );
            },
            ArgError::InvalidIdentifier { flag, value } => {
                return flag.clone().concat("=").concat(value.as_str()).concat(
                    " is not a valid durable identifier",
                );
            },
            ArgError::InvalidHostname(value) => {
                return "invalid HTTPS hostname: ".to_owned().concat(value.as_str());
            },
            ArgError::UnknownFlag(flag) => {
                return "unknown flag: ".to_owned().concat(flag.as_str());
            },
            ArgError::PublicRawOptInRequired =>
                "a non-loopback raw listener requires --allow-public-raw-ingress",
            ArgError::PublicRawPerIpLimitRequired =>
                "public raw ingress requires --max-raw-connections-per-ip",
            ArgError::PublicRawPerIpLimitWithoutOptIn =>
                "--max-raw-connections-per-ip requires --allow-public-raw-ingress",
            ArgError::PublicRawPerIpLimitInvalid =>
                "--max-raw-connections-per-ip must be non-zero and cannot exceed --max-raw-connections",
            ArgError::HttpsRouteHostConflict =>
                "--https-host cannot be combined with --https-route-server",
            ArgError::HttpsRouteStaleWithoutServer =>
                "--https-route-max-stale-ms requires --https-route-server",
            ArgError::HttpsRouteReloadWithoutServer =>
                "--https-route-tls-reload-manifest requires --https-route-server",
            ArgError::Http2OptionsWithoutOptIn =>
                "HTTP/2 tuning options require --enable-http2",
            ArgError::Http2ConnectWithoutHttp2 =>
                "--enable-http2-connect requires --enable-http2",
            ArgError::Http2WebSocketWithoutHttp2 =>
                "--enable-http2-websocket requires --enable-http2",
            ArgError::WebSocketOptionsWithoutOptIn =>
                "WebSocket tuning options require --enable-websocket-upgrade",
            ArgError::ConnectOptionsWithoutOptIn =>
                "CONNECT tuning options require --enable-connect",
            ArgError::SignedAccessOptionsWithoutOptIn =>
                "signed-access options require --require-signed-access",
            ArgError::SignedAccessReloadWithoutManifest =>
                "--signed-access-reload-interval-ms requires --signed-access-keyring-reload-manifest",
            ArgError::SignedAccessConnectConflict =>
                "--require-signed-access cannot be combined with CONNECT ingress",
            ArgError::IngressModeConflict =>
                "raw-ingress options cannot be combined with --https-listen",
            ArgError::PublicHttpsOptInRequired =>
                "a non-loopback HTTPS listener requires --allow-public-https-ingress",
            ArgError::PublicHttpsPerIpLimitRequired =>
                "public HTTPS ingress requires --max-http-connections-per-ip",
            ArgError::PublicHttpsPerIpLimitWithoutOptIn =>
                "--max-http-connections-per-ip requires --allow-public-https-ingress",
            ArgError::PublicHttpsPerIpLimitInvalid =>
                "--max-http-connections-per-ip must be non-zero and cannot exceed --max-http-connections",
            ArgError::OperationsOptionsWithoutListener =>
                "operations limit/timeout options require --ops-listen",
        };
        fixed.to_owned()
    }
}

/// What one flag with its value asks for.
pub open spec fn with_value(
    p: ParsedArgs,
    flag: Flag,
    written: Argument,
    value: Argument,
) -> Result<ParsedArgs, ArgError> {
    match flag {
        Flag::Switch(switch) => Ok(with_groups(with_switch(p, switch), flag)),
        Flag::Address(wanted) => match value.address {
            Some(address) => Ok(with_groups(with_address(p, wanted, address), flag)),
            None => Err(ArgError::InvalidAddress { flag: written.text, value: value.text }),
        },
        Flag::Number(wanted) => match parsed_number(
            encode_utf8(value.text@),
            wanted.max() as nat,
        ) {
            Some(n) => Ok(with_groups(with_number(p, wanted, n as u64), flag)),
            None => Err(ArgError::InvalidNumber { flag: written.text, value: value.text }),
        },
        Flag::Text(wanted) => Ok(with_groups(with_text(p, wanted, value.text), flag)),
        Flag::AgentId => match value.agent_id {
            Some(agent_id) => Ok(with_groups(ParsedArgs { agent_id, ..p }, flag)),
            None => Err(ArgError::InvalidIdentifier { flag: written.text, value: value.text }),
        },
        Flag::TunnelId => match value.tunnel_id {
            Some(tunnel_id) => Ok(with_groups(ParsedArgs { tunnel_id, ..p }, flag)),
            None => Err(ArgError::InvalidIdentifier { flag: written.text, value: value.text }),
        },
        Flag::HttpsHost => match value.hostname {
            Some(hostname) => Ok(
                with_groups(ParsedArgs { https_host: Some(hostname), ..p }, flag),
            ),
            None => Err(ArgError::InvalidHostname(value.text)),
        },
    }
}

/// What the words add to what was asked for already: flag by flag, each with the word
/// behind it where it takes a value. The first word at fault is reported.
pub open spec fn with_words(p: ParsedArgs, words: Seq<Argument>) -> Result<ParsedArgs, ArgError>
    decreases words.len(),
{
    if words.len() == 0 {
        Ok(p)
    } else {
        match flag_of(words[0].text@) {
            None => Err(ArgError::UnknownFlag(words[0].text)),
            Some(Flag::Switch(switch)) => with_words(
                with_groups(with_switch(p, switch), Flag::Switch(switch)),
                words.skip(1),
            ),
            Some(flag) => if words.len() == 1 {
                Err(ArgError::MissingValue(words[0].text))
            } else {
                match with_value(p, flag, words[0], words[1]) {
                    Ok(next) => with_words(next, words.skip(2)),
                    Err(error) => Err(error),
                }
            },
        }
    }
}

/// Which options may not stand together, or not without one another.
pub open spec fn conflict(p: ParsedArgs) -> Option<ArgError> {
    if p.ops_options_present && p.ops_listen is None {
        Some(ArgError::OperationsOptionsWithoutListener)
    } else if p.https_route_server is Some && p.https_host is Some {
        Some(ArgError::HttpsRouteHostConflict)
    } else if p.https_route_max_stale is Some && p.https_route_server is None {
        Some(ArgError::HttpsRouteStaleWithoutServer)
    } else if p.https_route_tls_reload_manifest is Some && p.https_route_server is None {
        Some(ArgError::HttpsRouteReloadWithoutServer)
    } else if p.http2_options_present && !p.enable_http2 {
        Some(ArgError::Http2OptionsWithoutOptIn)
    } else if p.enable_http2_connect && !p.enable_http2 {
        Some(ArgError::Http2ConnectWithoutHttp2)
    } else if p.enable_http2_websocket && !p.enable_http2 {
        Some(ArgError::Http2WebSocketWithoutHttp2)
    } else if p.websocket_options_present && !p.enable_websocket_upgrade
        && !p.enable_http2_websocket {
        Some(ArgError::WebSocketOptionsWithoutOptIn)
    } else if p.connect_options_present && !p.enable_connect && !p.enable_http2_connect {
        Some(ArgError::ConnectOptionsWithoutOptIn)
    } else if p.signed_access_options_present && !p.require_signed_access {
        Some(ArgError::SignedAccessOptionsWithoutOptIn)
    } else if p.signed_access_reload_options_present
        && p.signed_access_keyring_reload_manifest is None {
        Some(ArgError::SignedAccessReloadWithoutManifest)
    } else if p.require_signed_access && (p.enable_connect || p.enable_http2_connect) {
        Some(ArgError::SignedAccessConnectConflict)
    } else {
        None
    }
}

/// What the words ask for, starting from `p`.
pub open spec fn parsed_onto(p: ParsedArgs, words: Seq<Argument>) -> Result<ParsedArgs, ArgError> {
    match with_words(p, words) {
        Err(error) => Err(error),
        Ok(parsed) => match conflict(parsed) {
            Some(error) => Err(error),
            None => Ok(parsed),
        },
    }
}

impl ParsedArgs {
    fn set_value(self, flag: Flag, written: &Argument, value: &Argument) -> (result: Result<
        ParsedArgs,
        ArgError,
    >)
        ensures
            result == with_value(self, flag, *written, *value),
    {
        let parsed: ParsedArgs = match flag {
            Flag::Switch(switch) => self.set_switch(switch),
            Flag::Address(wanted) => match value.address {
                Some(address) => self.set_address(wanted, address),
                None => {
                    return Err(
                        ArgError::InvalidAddress {
                            flag: written.text.clone(),
                            value: value.text.clone(),
                        },
                    );
                },
            },
            Flag::Number(wanted) => match parse_number_up_to(
                value.text.as_str().as_bytes(),
                wanted.largest(),
            ) {
                Some(n) => self.set_number(wanted, n),
                None => {
                    return Err(
                        ArgError::InvalidNumber {
                            flag: written.text.clone(),
                            value: value.text.clone(),
                        },
                    );
                },
            },
            Flag::Text(wanted) => self.set_text(wanted, value.text.clone()),
            Flag::AgentId => match &value.agent_id {
                Some(agent_id) => ParsedArgs { agent_id: agent_id.clone(), ..self },
                None => {
                    return Err(
                        ArgError::InvalidIdentifier {
                            flag: written.text.clone(),
                            value: value.text.clone(),
                        },
                    );
                },
            },
            Flag::TunnelId => match &value.tunnel_id {
                Some(tunnel_id) => ParsedArgs { tunnel_id: tunnel_id.clone(), ..self },
                None => {
                    return Err(
                        ArgError::InvalidIdentifier {
                            flag: written.text.clone(),
                            value: value.text.clone(),
                        },
                    );
                },
            },
            Flag::HttpsHost => match &value.hostname {
                Some(hostname) => ParsedArgs { https_host: Some(hostname.clone()), ..self },
                None => {
                    return Err(ArgError::InvalidHostname(value.text.clone()));
                },
            },
        };
        Ok(parsed.note_groups(flag))
    }

    /// Checks which options stand together.
    pub fn check_conflicts(&self) -> (result: Result<(), ArgError>)
        ensures
            result == (match conflict(*self) {
                Some(error) => Err(error),
                None => Ok(()),
            }),
    {
        if self.ops_options_present && self.ops_listen.is_none() {
            return Err(ArgError::OperationsOptionsWithoutListener);
        }
        if self.https_route_server.is_some() && self.https_host.is_some() {
            return Err(ArgError::HttpsRouteHostConflict);
        }
        if self.https_route_max_stale.is_some() && self.https_route_server.is_none() {
            return Err(ArgError::HttpsRouteStaleWithoutServer);
        }
        if self.https_route_tls_reload_manifest.is_some() && self.https_route_server.is_none() {
            return Err(ArgError::HttpsRouteReloadWithoutServer);
        }
        if self.http2_options_present && !self.enable_http2 {
            return Err(ArgError::Http2OptionsWithoutOptIn);
        }
        if self.enable_http2_connect && !self.enable_http2 {
            return Err(ArgError::Http2ConnectWithoutHttp2);
        }
        if self.enable_http2_websocket && !self.enable_http2 {
            return Err(ArgError::Http2WebSocketWithoutHttp2);
        }
        if self.websocket_options_present && !self.enable_websocket_upgrade
            && !self.enable_http2_websocket {
            return Err(ArgError::WebSocketOptionsWithoutOptIn);
        }
        if self.connect_options_present && !self.enable_connect && !self.enable_http2_connect {
            return Err(ArgError::ConnectOptionsWithoutOptIn);
        }
        if self.signed_access_options_present && !self.require_signed_access {
            return Err(ArgError::SignedAccessOptionsWithoutOptIn);
        }
        if self.signed_access_reload_options_present
            && self.signed_access_keyring_reload_manifest.is_none() {
            return Err(ArgError::SignedAccessReloadWithoutManifest);
        }
        if self.require_signed_access && (self.enable_connect || self.enable_http2_connect) {
            return Err(ArgError::SignedAccessConnectConflict);
        }
        Ok(())
    }

    /// Adds what the words ask for.
    pub fn parse_onto(self, words: &Vec<Argument>) -> (result: Result<ParsedArgs, ArgError>)
        ensures
            result == parsed_onto(self, words@),
    {
        let mut parsed: ParsedArgs = self;
        let mut index: usize = 0;
        assert(words@.skip(0) =~= words@);
        while index < words.len()
            invariant
                index <= words@.len(),
                with_words(self, words@) == with_words(parsed, words@.skip(index as int)),
            decreases words@.len() - index,
        {
            let ghost rest: Seq<Argument> = words@.skip(index as int);
            assert(rest[0] == words@[index as int]);
            let flag: Flag = match read_flag(words[index].text.as_str()) {
                Some(flag) => flag,
                None => return Err(ArgError::UnknownFlag(words[index].text.clone())),
            };
            match flag {
                Flag::Switch(switch) => {
                    assert(rest.skip(1) =~= words@.skip(index + 1));
                    parsed = parsed.set_switch(switch).note_groups(flag);
                    index = index + 1;
                },
                _ => {
                    if words.len() - index == 1 {
                        return Err(ArgError::MissingValue(words[index].text.clone()));
                    }
                    assert(rest[1] == words@[index + 1]);
                    assert(rest.skip(2) =~= words@.skip(index + 2));
                    parsed = match parsed.set_value(flag, &words[index], &words[index + 1]) {
                        Ok(next) => next,
                        Err(error) => return Err(error),
                    };
                    index = index + 2;
                },
            }
        }
        match parsed.check_conflicts() {
            Ok(()) => Ok(parsed),
            Err(error) => Err(error),
        }
    }
}

/// What a command line asks for.
pub fn parse_args(words: &Vec<Argument>) -> (result: Result<ParsedArgs, ArgError>)
    ensures
        exists|start: ParsedArgs|
            #[trigger] is_default(start) && result == parsed_onto(start, words@),
{
    let parsed: ParsedArgs = ParsedArgs::default();
    parsed.parse_onto(words)
}

/// Words that can be read on their own can be followed by others: what the others ask
/// for is added to what the first ones asked for.
pub proof fn words_are_read_in_order(p: ParsedArgs, first: Seq<Argument>, others: Seq<Argument>)
    requires
        with_words(p, first) is Ok,
    ensures
        with_words(p, first + others) == with_words(with_words(p, first)->Ok_0, others),
    decreases first.len(),
{
    let both = first + others;
    if first.len() == 0 {
        assert(both =~= others);
    } else {
        assert(both[0] == first[0]);
        match flag_of(first[0].text@) {
            Some(Flag::Switch(switch)) => {
                assert(both.skip(1) =~= first.skip(1) + others);
                words_are_read_in_order(
                    with_groups(with_switch(p, switch), Flag::Switch(switch)),
                    first.skip(1),
                    others,
                );
            },
            Some(flag) => {
                assert(both[1] == first[1]);
                assert(both.skip(2) =~= first.skip(2) + others);
                words_are_read_in_order(
                    with_value(p, flag, first[0], first[1])->Ok_0,
                    first.skip(2),
                    others,
                );
            },
            None => {},
        }
    }
}

/// A command line that is accepted asks for nothing by halves: the options of a feature
/// come with the feature, and features that exclude one another do not meet.
pub proof fn accepted_options_agree(p: ParsedArgs, words: Seq<Argument>)
    requires
        parsed_onto(p, words) is Ok,
    ensures
        ({
            let q = parsed_onto(p, words)->Ok_0;
            &&& q.ops_options_present ==> q.ops_listen is Some
            &&& !(q.https_route_server is Some && q.https_host is Some)
            &&& q.https_route_max_stale is Some || q.https_route_tls_reload_manifest is Some
                ==> q.https_route_server is Some
            &&& q.http2_options_present || q.enable_http2_connect || q.enable_http2_websocket
                ==> q.enable_http2
            &&& q.websocket_options_present ==> q.enable_websocket_upgrade
                || q.enable_http2_websocket
            &&& q.connect_options_present ==> q.enable_connect || q.enable_http2_connect
            &&& q.signed_access_options_present ==> q.require_signed_access
            &&& q.signed_access_reload_options_present
                ==> q.signed_access_keyring_reload_manifest is Some
            &&& q.require_signed_access ==> !q.enable_connect && !q.enable_http2_connect
        }),
{
}

/// Each switch turns on what it names.
pub proof fn switches_turn_on_what_they_name(p: ParsedArgs)
    ensures
        with_switch(p, SwitchFlag::Help).help,
        with_switch(p, SwitchFlag::AllowPublicRawIngress).allow_public_raw_ingress,
        with_switch(p, SwitchFlag::AllowPublicHttpsIngress).allow_public_https_ingress,
        with_switch(p, SwitchFlag::EnableHttp2).enable_http2,
        with_switch(p, SwitchFlag::EnableWebsocketUpgrade).enable_websocket_upgrade,
        with_switch(p, SwitchFlag::EnableHttp2Websocket).enable_http2_websocket,
        with_switch(p, SwitchFlag::EnableConnect).enable_connect,
        with_switch(p, SwitchFlag::EnableHttp2Connect).enable_http2_connect,
        with_switch(p, SwitchFlag::RequireSignedAccess).require_signed_access,
{
}

/// Each flag with an address sets the address that it names.
pub proof fn addresses_go_where_they_are_named(p: ParsedArgs, address: SocketAddr)
    ensures
        with_address(p, AddressFlag::AgentListen, address).agent_listen == address,
        with_address(p, AddressFlag::RawListen, address).raw_listen == address,
        with_address(p, AddressFlag::HttpsListen, address).https_listen == Some(address),
        with_address(p, AddressFlag::HttpsRouteServer, address).https_route_server == Some(address),
        with_address(p, AddressFlag::OpsListen, address).ops_listen == Some(address),
        with_address(p, AddressFlag::SnapshotServer, address).snapshot_server == Some(address),
{
}

/// Each flag with a number sets the bound or the time that it names, times in
/// milliseconds or seconds as its name says.
pub proof fn numbers_go_where_they_are_named(p: ParsedArgs, n: u64)
    ensures
        with_number(p, NumberFlag::MaxStreams, n).max_streams == n as usize,
        with_number(p, NumberFlag::MaxAgentSessions, n).max_agent_sessions == n as usize,
        with_number(p, NumberFlag::MaxRawConnections, n).max_raw_connections == n as usize,
        with_number(p, NumberFlag::MaxRawConnectionsPerIp, n).max_raw_connections_per_ip == Some(n as usize),
        with_number(p, NumberFlag::HttpsRouteMaxStaleMs, n).https_route_max_stale is Some,
        with_number(p, NumberFlag::HttpsRouteMaxStaleMs, n).https_route_max_stale->0.nanos == n * 1_000_000,
        with_number(p, NumberFlag::MaxHttpConnections, n).max_http_connections == n as usize,
        with_number(p, NumberFlag::MaxHttpConnectionsPerIp, n).max_http_connections_per_ip == Some(n as usize),
        with_number(p, NumberFlag::MaxHttpHeaderBytes, n).max_http_header_bytes == n as usize,
        with_number(p, NumberFlag::MaxHttpHeaders, n).max_http_headers == n as usize,
        with_number(p, NumberFlag::MaxHttpRequestBodyBytes, n).max_http_request_body_bytes == n as usize,
        with_number(p, NumberFlag::MaxHttpRequestsPerConnection, n).max_http_requests_per_connection == n as usize,
        with_number(p, NumberFlag::MaxHttp2ConcurrentStreams, n).max_http2_concurrent_streams == n as u32,
        with_number(p, NumberFlag::Http2KeepaliveIntervalMs, n).http2_keep_alive_interval.nanos == n * 1_000_000,
        with_number(p, NumberFlag::Http2KeepaliveTimeoutMs, n).http2_keep_alive_timeout.nanos == n * 1_000_000,
        with_number(p, NumberFlag::MaxWebsocketSessions, n).max_websocket_sessions == n as usize,
        with_number(p, NumberFlag::WebsocketIdleTimeoutMs, n).websocket_idle_timeout.nanos == n * 1_000_000,
        with_number(p, NumberFlag::MaxConnectSessions, n).max_connect_sessions == n as usize,
        with_number(p, NumberFlag::ConnectIdleTimeoutMs, n).connect_idle_timeout.nanos == n * 1_000_000,
        with_number(p, NumberFlag::ConnectAuthorityPort, n).connect_authority_port == n as u16,
        with_number(p, NumberFlag::SignedAccessReloadIntervalMs, n).signed_access_reload_interval.nanos == n * 1_000_000,
        with_number(p, NumberFlag::SignedAccessMaxTtlSeconds, n).signed_access_maximum_ttl.nanos == n * 1_000_000_000,
        with_number(p, NumberFlag::SignedAccessClockSkewSeconds, n).signed_access_clock_skew.nanos == n * 1_000_000_000,
        with_number(p, NumberFlag::HttpRequestsPerSecond, n).http_requests_per_second == n,
        with_number(p, NumberFlag::HttpRequestBurst, n).http_request_burst == n,
        with_number(p, NumberFlag::HttpRequestsPerIpPerSecond, n).http_requests_per_ip_per_second == n,
        with_number(p, NumberFlag::HttpRequestBurstPerIp, n).http_request_burst_per_ip == n,
        with_number(p, NumberFlag::MaxHttpRateLimitPeers, n).max_http_rate_limit_peers == n as usize,
        with_number(p, NumberFlag::HttpRateLimitIdleMs, n).http_rate_limit_idle.nanos == n * 1_000_000,
        with_number(p, NumberFlag::HttpHeaderTimeoutMs, n).http_header_timeout.nanos == n * 1_000_000,
        with_number(p, NumberFlag::HttpRequestTimeoutMs, n).http_request_timeout.nanos == n * 1_000_000,
        with_number(p, NumberFlag::MaxOpsConnections, n).max_ops_connections == n as usize,
        with_number(p, NumberFlag::OpsHeaderTimeoutMs, n).ops_header_timeout.nanos == n * 1_000_000,
        with_number(p, NumberFlag::OpsRequestTimeoutMs, n).ops_request_timeout.nanos == n * 1_000_000,
        with_number(p, NumberFlag::DrainTimeoutMs, n).drain_timeout.nanos == n * 1_000_000,
        with_number(p, NumberFlag::TlsHandshakeTimeoutMs, n).tls_handshake_timeout.nanos == n * 1_000_000,
        with_number(p, NumberFlag::SnapshotConnectTimeoutMs, n).snapshot_connect_timeout.nanos == n * 1_000_000,
        with_number(p, NumberFlag::SnapshotHandshakeTimeoutMs, n).snapshot_handshake_timeout.nanos == n * 1_000_000,
        with_number(p, NumberFlag::SnapshotSubscribeTimeoutMs, n).snapshot_subscribe_timeout.nanos == n * 1_000_000,
        with_number(p, NumberFlag::SnapshotReconnectInitialMs, n).snapshot_reconnect_initial.nanos == n * 1_000_000,
        with_number(p, NumberFlag::SnapshotReconnectMaxMs, n).snapshot_reconnect_max.nanos == n * 1_000_000,
        with_number(p, NumberFlag::SnapshotCacheMaxStaleMs, n).snapshot_cache_max_stale is Some,
        with_number(p, NumberFlag::SnapshotCacheMaxStaleMs, n).snapshot_cache_max_stale->0.nanos == n * 1_000_000,
        with_number(p, NumberFlag::TlsReloadIntervalMs, n).tls_reload_interval.nanos == n * 1_000_000,
        with_number(p, NumberFlag::TlsExpiryWarningMs, n).tls_expiry_warning.nanos == n * 1_000_000,
{
}

/// Each flag with a text sets the file or the name that it names.
pub proof fn texts_go_where_they_are_named(p: ParsedArgs, text: String)
    ensures
        with_text(p, TextFlag::HttpsRouteTlsReloadManifest, text).https_route_tls_reload_manifest == Some(text),
        with_text(p, TextFlag::PublicTlsCert, text).public_tls_cert == Some(text),
        with_text(p, TextFlag::PublicTlsKey, text).public_tls_key == Some(text),
        with_text(p, TextFlag::PublicTlsReloadManifest, text).public_tls_reload_manifest == Some(text),
        with_text(p, TextFlag::SignedAccessKeyring, text).signed_access_keyring == Some(text),
        with_text(p, TextFlag::SignedAccessKeyringReloadManifest, text).signed_access_keyring_reload_manifest == Some(text),
        with_text(p, TextFlag::TlsCert, text).tls_cert == Some(text),
        with_text(p, TextFlag::TlsKey, text).tls_key == Some(text),
        with_text(p, TextFlag::TlsClientCa, text).tls_client_ca == Some(text),
        with_text(p, TextFlag::AuthorizedClientCert, text).authorized_client_cert == Some(text),
        with_text(p, TextFlag::TlsReloadManifest, text).tls_reload_manifest == Some(text),
        with_text(p, TextFlag::SnapshotCa, text).snapshot_ca == Some(text),
        with_text(p, TextFlag::SnapshotClientCert, text).snapshot_client_cert == Some(text),
        with_text(p, TextFlag::SnapshotClientKey, text).snapshot_client_key == Some(text),
        with_text(p, TextFlag::SnapshotServerName, text).snapshot_server_name == Some(text),
        with_text(p, TextFlag::SnapshotCacheDir, text).snapshot_cache_dir == Some(text),
        with_text(p, TextFlag::SnapshotTlsReloadManifest, text).snapshot_tls_reload_manifest == Some(text),
{
}

/// A switch turns on the one thing that it names.
pub proof fn switches_turn_on_nothing_else(p: ParsedArgs, flag: SwitchFlag)
    ensures
        ({
            let q = with_switch(p, flag);
            &&& q.help == (p.help || flag is Help)
            &&& q.allow_public_raw_ingress == (p.allow_public_raw_ingress
                || flag is AllowPublicRawIngress)
            &&& q.allow_public_https_ingress == (p.allow_public_https_ingress
                || flag is AllowPublicHttpsIngress)
            &&& q.enable_http2 == (p.enable_http2 || flag is EnableHttp2)
            &&& q.enable_websocket_upgrade == (p.enable_websocket_upgrade
                || flag is EnableWebsocketUpgrade)
            &&& q.enable_http2_websocket == (p.enable_http2_websocket
                || flag is EnableHttp2Websocket)
            &&& q.enable_connect == (p.enable_connect || flag is EnableConnect)
            &&& q.enable_http2_connect == (p.enable_http2_connect || flag is EnableHttp2Connect)
            &&& q.require_signed_access == (p.require_signed_access || flag is RequireSignedAccess)
        }),
{
}

/// A value is taken as what its flag asks for, and one that is none is refused together
/// with the flag that it stands behind.
pub proof fn values_are_read_as_their_flag_asks(
    p: ParsedArgs,
    address: AddressFlag,
    number: NumberFlag,
    text: TextFlag,
    written: Argument,
    value: Argument,
)
    ensures
        match with_value(p, Flag::AgentId, written, value) {
            Ok(q) => Some(q.agent_id) == value.agent_id && q.tunnel_id == p.tunnel_id,
            Err(error) => value.agent_id is None && error is InvalidIdentifier
                && error->InvalidIdentifier_flag == written.text && error->InvalidIdentifier_value
                == value.text,
        },
        match with_value(p, Flag::TunnelId, written, value) {
            Ok(q) => Some(q.tunnel_id) == value.tunnel_id && q.agent_id == p.agent_id,
            Err(error) => value.tunnel_id is None && error is InvalidIdentifier
                && error->InvalidIdentifier_flag == written.text && error->InvalidIdentifier_value
                == value.text,
        },
        match with_value(p, Flag::HttpsHost, written, value) {
            Ok(q) => q.https_host == value.hostname && q.https_host is Some,
            Err(error) => value.hostname is None && error is InvalidHostname
                && error->InvalidHostname_0 == value.text,
        },
        match with_value(p, Flag::Address(address), written, value) {
            Ok(q) => value.address is Some && (address is AgentListen ==> q.agent_listen
                == value.address->0) && (address is OpsListen ==> q.ops_listen == value.address),
            Err(error) => value.address is None && error is InvalidAddress
                && error->InvalidAddress_flag == written.text && error->InvalidAddress_value
                == value.text,
        },
        match with_value(p, Flag::Number(number), written, value) {
            Ok(q) => parsed_number(encode_utf8(value.text@), number.max() as nat) is Some && (number
                is MaxStreams ==> q.max_streams == parsed_number(
                encode_utf8(value.text@),
                usize::MAX as nat,
            )->0),
            Err(error) => parsed_number(encode_utf8(value.text@), number.max() as nat) is None
                && error is InvalidNumber && error->InvalidNumber_flag == written.text
                && error->InvalidNumber_value == value.text,
        },
        with_value(p, Flag::Text(text), written, value) is Ok,
{
}

/// A word that names no flag is refused, and so is a flag whose value is missing; a switch
/// needs none, and what stands behind it is read as if it were not there.
pub proof fn words_are_flags_and_their_values(
    p: ParsedArgs,
    word: Argument,
    value: Argument,
    others: Seq<Argument>,
)
    ensures
        ({
            let flag = flag_of(word.text@);
            &&& with_words(p, Seq::empty()) == Ok::<ParsedArgs, ArgError>(p)
            &&& flag is None ==> with_words(p, seq![word] + others) is Err && with_words(
                p,
                seq![word] + others,
            )->Err_0 == ArgError::UnknownFlag(word.text)
            &&& flag is Some && !(flag->0 is Switch) ==> with_words(p, seq![word]) is Err
                && with_words(p, seq![word])->Err_0 == ArgError::MissingValue(word.text)
            &&& flag is Some && !(flag->0 is Switch) ==> match with_value(p, flag->0, word, value) {
                Ok(q) => with_words(p, seq![word, value] + others) == with_words(q, others),
                Err(error) => with_words(p, seq![word, value] + others) is Err && with_words(
                    p,
                    seq![word, value] + others,
                )->Err_0 == error,
            }
            &&& flag is Some && flag->0 is Switch ==> with_words(p, seq![word] + others)
                == with_words(
                with_groups(with_switch(p, flag->0->Switch_0), flag->0),
                others,
            )
        }),
{
    let one: Seq<Argument> = seq![word] + others;
    let two: Seq<Argument> = seq![word, value] + others;
    assert(one[0] == word && two[0] == word && two[1] == value);
    assert(one.skip(1) =~= others);
    assert(two.skip(2) =~= others);
    assert(seq![word][0] == word);
}

/// Options contradict each other exactly where a bound is set of something that is not
/// turned on, where HTTP/2 is used and not spoken, where routes come from two places, or
/// where signed URLs meet CONNECT.
pub proof fn options_contradict_for_a_reason(p: ParsedArgs)
    ensures
        conflict(p) is None <==> {
            &&& p.ops_options_present ==> p.ops_listen is Some
            &&& p.https_route_server is None || p.https_host is None
            &&& p.https_route_max_stale is Some ==> p.https_route_server is Some
            &&& p.https_route_tls_reload_manifest is Some ==> p.https_route_server is Some
            &&& p.http2_options_present || p.enable_http2_connect || p.enable_http2_websocket
                ==> p.enable_http2
            &&& p.websocket_options_present ==> p.enable_websocket_upgrade
                || p.enable_http2_websocket
            &&& p.connect_options_present ==> p.enable_connect || p.enable_http2_connect
            &&& p.signed_access_options_present ==> p.require_signed_access
            &&& p.signed_access_reload_options_present
                ==> p.signed_access_keyring_reload_manifest is Some
            &&& p.require_signed_access ==> !p.enable_connect && !p.enable_http2_connect
        },
        conflict(p) matches Some(error) ==> match error {
            ArgError::OperationsOptionsWithoutListener => p.ops_options_present && p.ops_listen
                is None,
            ArgError::HttpsRouteHostConflict => p.https_route_server is Some && p.https_host
                is Some,
            ArgError::HttpsRouteStaleWithoutServer => p.https_route_max_stale is Some
                && p.https_route_server is None,
            ArgError::HttpsRouteReloadWithoutServer => p.https_route_tls_reload_manifest is Some
                && p.https_route_server is None,
            ArgError::Http2OptionsWithoutOptIn => p.http2_options_present && !p.enable_http2,
            ArgError::Http2ConnectWithoutHttp2 => p.enable_http2_connect && !p.enable_http2,
            ArgError::Http2WebSocketWithoutHttp2 => p.enable_http2_websocket && !p.enable_http2,
            ArgError::WebSocketOptionsWithoutOptIn => p.websocket_options_present
                && !p.enable_websocket_upgrade && !p.enable_http2_websocket,
            ArgError::ConnectOptionsWithoutOptIn => p.connect_options_present && !p.enable_connect
                && !p.enable_http2_connect,
            ArgError::SignedAccessOptionsWithoutOptIn => p.signed_access_options_present
                && !p.require_signed_access,
            ArgError::SignedAccessReloadWithoutManifest => p.signed_access_reload_options_present
                && p.signed_access_keyring_reload_manifest is None,
            ArgError::SignedAccessConnectConflict => p.require_signed_access && (p.enable_connect
                || p.enable_http2_connect),
            _ => false,
        },
{
}

/// The groups that a flag belongs to are noted, and no note is lost.
pub proof fn used_groups_are_noted(p: ParsedArgs, flag: Flag)
    ensures
        ({
            let q = with_groups(p, flag);
            &&& q.raw_options_present <==> p.raw_options_present || flag.raw_option()
            &&& q.https_options_present <==> p.https_options_present || flag.https_option()
            &&& q.http2_options_present <==> p.http2_options_present || flag.http2_option()
            &&& q.websocket_options_present <==> p.websocket_options_present
                || flag.websocket_option()
            &&& q.connect_options_present <==> p.connect_options_present || flag.connect_option()
            &&& q.signed_access_options_present <==> p.signed_access_options_present
                || flag.signed_access_option()
            &&& q.signed_access_reload_options_present <==> p.signed_access_reload_options_present
                || flag.signed_access_reload_option()
            &&& q.ops_options_present <==> p.ops_options_present || flag.ops_option()
            &&& q.tls_reload_options_present <==> p.tls_reload_options_present
                || flag.tls_reload_option()
            &&& q.snapshot_options_present <==> p.snapshot_options_present
                || flag.snapshot_option()
        }),
{
}

/// Where the command line says nothing, both listeners are on loopback, nothing is turned
/// on, nothing contradicts, and every bound has its usual value.
pub proof fn silence_asks_for_little(p: ParsedArgs)
    requires
        is_default(p),
    ensures
        p.agent_listen.ip == IpAddr::V4(2_130_706_433) && p.agent_listen.port == 7100,
        p.raw_listen.ip == IpAddr::V4(2_130_706_433) && p.raw_listen.port == 7000,
        !p.allow_public_raw_ingress && !p.allow_public_https_ingress,
        !p.enable_http2 && !p.enable_websocket_upgrade && !p.enable_http2_websocket,
        !p.enable_connect && !p.enable_http2_connect && !p.require_signed_access,
        p.https_listen is None && p.ops_listen is None && p.snapshot_server is None,
        conflict(p) is None && !p.help,
        p.max_raw_connections_per_ip is None && p.max_http_connections_per_ip is None,
        p.max_streams == 32,
        p.max_agent_sessions == 1,
        p.max_raw_connections == 32,
        p.max_http_connections == 32,
        p.max_http_header_bytes == 16_384,
        p.max_http_headers == 64,
        p.max_http_request_body_bytes == 10_485_760,
        p.max_http_requests_per_connection == 1,
        p.max_http2_concurrent_streams == 32,
        p.http2_keep_alive_interval.nanos == 30000 * 1_000_000,
        p.http2_keep_alive_timeout.nanos == 10000 * 1_000_000,
        p.max_websocket_sessions == 32,
        p.websocket_idle_timeout.nanos == 60000 * 1_000_000,
        p.max_connect_sessions == 32,
        p.connect_idle_timeout.nanos == 60000 * 1_000_000,
        p.connect_authority_port == 443,
        p.signed_access_reload_interval.nanos == 1000 * 1_000_000,
        p.signed_access_maximum_ttl.nanos == 3600000 * 1_000_000,
        p.signed_access_clock_skew.nanos == 30000 * 1_000_000,
        p.http_requests_per_second == 100,
        p.http_request_burst == 200,
        p.http_requests_per_ip_per_second == 20,
        p.http_request_burst_per_ip == 40,
        p.max_http_rate_limit_peers == 4_096,
        p.http_rate_limit_idle.nanos == 300000 * 1_000_000,
        p.http_header_timeout.nanos == 10000 * 1_000_000,
        p.http_request_timeout.nanos == 60000 * 1_000_000,
        p.max_ops_connections == 8,
        p.ops_header_timeout.nanos == 2000 * 1_000_000,
        p.ops_request_timeout.nanos == 5000 * 1_000_000,
        p.drain_timeout.nanos == 10000 * 1_000_000,
        p.tls_handshake_timeout.nanos == 10000 * 1_000_000,
        p.snapshot_connect_timeout.nanos == 5000 * 1_000_000,
        p.snapshot_handshake_timeout.nanos == 5000 * 1_000_000,
        p.snapshot_subscribe_timeout.nanos == 5000 * 1_000_000,
        p.snapshot_reconnect_initial.nanos == 250 * 1_000_000,
        p.snapshot_reconnect_max.nanos == 30000 * 1_000_000,
        p.tls_reload_interval.nanos == 1000 * 1_000_000,
        p.tls_expiry_warning.nanos == 604800000 * 1_000_000,
{
}

} // verus!
