//! The command line and what it leads to.

use tunnelproxy_edge::cli::{parse_args, ArgError, Argument, ParsedArgs};
use tunnelproxy_edge::cli_plan::{
    check_key_ring_size, has_snapshot_arguments, https_exposure_policy, https_plan,
    https_route_plan, raw_exposure_policy, snapshot_arguments_complete,
    snapshot_cache_configuration, snapshot_plan, transport_plan, AuthorizationSource,
    TlsLoadError, TransportPlan,
};
use tunnelproxy_edge::cli_start::{
    edge_configuration, edge_exit_code, edge_start_error, https_configuration, may_start,
    planned_security, reloaders_result, snapshot_edge_exit_code, snapshot_start_error,
    tls_reload_exit_code, ReloadersEnd, TlsReloadSupervisorError, EXIT_FAILURE, EXIT_SUCCESS,
    EXIT_USAGE,
};
use tunnelproxy_edge::clock::Duration;
use tunnelproxy_edge::http_rate_limit::HttpRequestRateLimitConfigError;
use tunnelproxy_edge::names::{AgentId, TunnelId};
use tunnelproxy_edge::net::{IpAddr, SocketAddr};
use tunnelproxy_edge::{
    EdgeRegistrationPolicy, EdgeRuntimeConfigError, EdgeRuntimeError, EdgeRuntimeOutcome,
    EdgeTransportSecurity, HttpHostname, HttpIngressConfigError, HttpIngressExposurePolicy,
    PublicHttpProtocolPolicy, PublicTlsConfig, PublicTlsConfigError,
    PublicTlsReloadBootstrapError, RawIngressExposurePolicy, RuntimeShutdownOutcome,
    SnapshotAwareEdgeRuntimeError, SnapshotAwareEdgeRuntimeOutcome,
};

fn address(text: &str) -> Option<SocketAddr> {
    let (host, port) = text.split_once(':')?;
    let parts: Vec<u8> = host
        .split('.')
        .map(|part| part.parse().ok())
        .collect::<Option<_>>()?;
    if parts.len() != 4 {
        return None;
    }
    Some(SocketAddr::new(
        IpAddr::v4(parts[0], parts[1], parts[2], parts[3]),
        port.parse().ok()?,
    ))
}

fn identifier(text: &str) -> bool {
    !text.is_empty()
        && text
            .bytes()
            .all(|byte| byte.is_ascii_alphanumeric() || byte == b'-' || byte == b'_')
}

fn hostname(text: &str) -> Option<HttpHostname> {
    let canonical = text.strip_suffix('.').unwrap_or(text).to_ascii_lowercase();
    let valid = canonical
        .bytes()
        .all(|byte| byte.is_ascii_alphanumeric() || byte == b'-' || byte == b'.');
    if valid {
        Some(HttpHostname::from_canonical(canonical))
    } else {
        None
    }
}

fn words(values: &[&str]) -> Vec<Argument> {
    values
        .iter()
        .map(|value| Argument {
            text: (*value).to_string(),
            address: address(value),
            agent_id: if identifier(value) {
                Some(AgentId::from_checked((*value).to_string()))
            } else {
                None
            },
            tunnel_id: if identifier(value) {
                Some(TunnelId::from_checked((*value).to_string()))
            } else {
                None
            },
            hostname: hostname(value),
        })
        .collect()
}

#[test]
fn defaults_are_stable() {
    assert_eq!(parse_args(&words(&[])).unwrap(), ParsedArgs::default());
}

#[test]
fn all_flags_parse() {
    let parsed = parse_args(&words(&[
        "--agent-listen",
        "127.0.0.1:17100",
        "--raw-listen",
        "127.0.0.1:17000",
        "--agent-id",
        "agent-prod",
        "--tunnel-id",
        "tunnel-prod",
        "--max-streams",
        "8",
        "--max-agent-sessions",
        "3",
        "--max-raw-connections",
        "9",
        "--allow-public-raw-ingress",
        "--max-raw-connections-per-ip",
        "3",
        "--ops-listen",
        "127.0.0.1:19090",
        "--max-ops-connections",
        "6",
        "--ops-header-timeout-ms",
        "108",
        "--ops-request-timeout-ms",
        "109",
        "--drain-timeout-ms",
        "250",
        "--tls-cert",
        "edge.pem",
        "--tls-key",
        "edge-key.pem",
        "--tls-client-ca",
        "ca.pem",
        "--authorized-client-cert",
        "agent.pem",
        "--tls-handshake-timeout-ms",
        "350",
        "--tls-reload-manifest",
        "edge-tls.json",
        "--snapshot-server",
        "127.0.0.1:17200",
        "--snapshot-ca",
        "control-ca.pem",
        "--snapshot-client-cert",
        "edge-client.pem",
        "--snapshot-client-key",
        "edge-client-key.pem",
        "--snapshot-server-name",
        "control-plane.test",
        "--snapshot-connect-timeout-ms",
        "101",
        "--snapshot-handshake-timeout-ms",
        "102",
        "--snapshot-subscribe-timeout-ms",
        "103",
        "--snapshot-reconnect-initial-ms",
        "104",
        "--snapshot-reconnect-max-ms",
        "105",
        "--snapshot-cache-dir",
        "edge-cache",
        "--snapshot-cache-max-stale-ms",
        "60000",
        "--snapshot-tls-reload-manifest",
        "snapshot-client-tls.json",
        "--tls-reload-interval-ms",
        "106",
        "--tls-expiry-warning-ms",
        "107",
    ]))
    .unwrap();
    assert_eq!(parsed.agent_listen.port(), 17100);
    assert_eq!(parsed.raw_listen.port(), 17000);
    assert_eq!(parsed.agent_id.as_str(), "agent-prod");
    assert_eq!(parsed.tunnel_id.as_str(), "tunnel-prod");
    assert_eq!(parsed.max_streams, 8);
    assert_eq!(parsed.max_agent_sessions, 3);
    assert_eq!(parsed.max_raw_connections, 9);
    assert!(parsed.allow_public_raw_ingress);
    assert_eq!(parsed.max_raw_connections_per_ip, Some(3));
    assert_eq!(parsed.ops_listen.unwrap().port(), 19090);
    assert_eq!(parsed.max_ops_connections, 6);
    assert_eq!(parsed.ops_header_timeout, Duration::from_millis(108));
    assert_eq!(parsed.ops_request_timeout, Duration::from_millis(109));
    assert_eq!(parsed.drain_timeout, Duration::from_millis(250));
    assert_eq!(parsed.tls_cert, Some(String::from("edge.pem")));
    assert_eq!(parsed.tls_key, Some(String::from("edge-key.pem")));
    assert_eq!(parsed.tls_client_ca, Some(String::from("ca.pem")));
    assert_eq!(
        parsed.authorized_client_cert,
        Some(String::from("agent.pem"))
    );
    assert_eq!(parsed.tls_handshake_timeout, Duration::from_millis(350));
    assert_eq!(
        parsed.tls_reload_manifest,
        Some(String::from("edge-tls.json"))
    );
    assert_eq!(parsed.snapshot_server.unwrap().port(), 17200);
    assert_eq!(parsed.snapshot_ca, Some(String::from("control-ca.pem")));
    assert_eq!(
        parsed.snapshot_server_name.as_deref(),
        Some("control-plane.test")
    );
    assert_eq!(parsed.snapshot_connect_timeout, Duration::from_millis(101));
    assert_eq!(parsed.snapshot_reconnect_max, Duration::from_millis(105));
    assert_eq!(parsed.snapshot_cache_dir, Some(String::from("edge-cache")));
    assert_eq!(
        parsed.snapshot_cache_max_stale,
        Some(Duration::from_secs(60))
    );
    assert_eq!(
        parsed.snapshot_tls_reload_manifest,
        Some(String::from("snapshot-client-tls.json"))
    );
    assert_eq!(parsed.tls_reload_interval, Duration::from_millis(106));
    assert_eq!(parsed.tls_expiry_warning, Duration::from_millis(107));
    assert!(parsed.snapshot_options_present);
}

#[test]
fn invalid_and_missing_values_are_typed() {
    assert!(matches!(
        parse_args(&words(&["--raw-listen", "bad"])),
        Err(ArgError::InvalidAddress { .. })
    ));
    assert!(matches!(
        parse_args(&words(&["--max-streams"])),
        Err(ArgError::MissingValue(_))
    ));
    assert!(matches!(
        parse_args(&words(&["--unknown"])),
        Err(ArgError::UnknownFlag(_))
    ));
    assert!(matches!(
        parse_args(&words(&["--tunnel-id", "bad/id"])),
        Err(ArgError::InvalidIdentifier { .. })
    ));
    assert_eq!(
        parse_args(&words(&["--max-ops-connections", "2"])),
        Err(ArgError::OperationsOptionsWithoutListener)
    );
}

#[test]
fn public_raw_cli_policy_is_explicit_and_complete() {
    let non_loopback = parse_args(&words(&["--raw-listen", "0.0.0.0:7000"])).unwrap();
    assert_eq!(
        raw_exposure_policy(&non_loopback),
        Err(ArgError::PublicRawOptInRequired)
    );

    let per_ip_without_opt_in =
        parse_args(&words(&["--max-raw-connections-per-ip", "2"])).unwrap();
    assert_eq!(
        raw_exposure_policy(&per_ip_without_opt_in),
        Err(ArgError::PublicRawPerIpLimitWithoutOptIn)
    );

    let missing_per_ip = parse_args(&words(&["--allow-public-raw-ingress"])).unwrap();
    assert_eq!(
        raw_exposure_policy(&missing_per_ip),
        Err(ArgError::PublicRawPerIpLimitRequired)
    );

    let invalid_per_ip = parse_args(&words(&[
        "--max-raw-connections",
        "1",
        "--allow-public-raw-ingress",
        "--max-raw-connections-per-ip",
        "2",
    ]))
    .unwrap();
    assert_eq!(
        raw_exposure_policy(&invalid_per_ip),
        Err(ArgError::PublicRawPerIpLimitInvalid)
    );

    let public = parse_args(&words(&[
        "--raw-listen",
        "0.0.0.0:7000",
        "--allow-public-raw-ingress",
        "--max-raw-connections-per-ip",
        "2",
    ]))
    .unwrap();
    assert_eq!(
        raw_exposure_policy(&public),
        Ok(RawIngressExposurePolicy::Public {
            max_connections_per_ip: 2
        })
    );
}

#[test]
fn public_https_cli_policy_is_exact_complete_and_mutually_exclusive() {
    let parsed = parse_args(&words(&[
        "--https-listen",
        "0.0.0.0:443",
        "--https-host",
        "Demo.Example.Test.",
        "--public-tls-cert",
        "public.pem",
        "--public-tls-key",
        "public-key.pem",
        "--public-tls-reload-manifest",
        "public-tls.json",
        "--allow-public-https-ingress",
        "--max-http-connections",
        "20",
        "--max-http-connections-per-ip",
        "4",
        "--max-http-header-bytes",
        "32768",
        "--max-http-headers",
        "40",
        "--max-http-request-body-bytes",
        "2048",
        "--max-http-requests-per-connection",
        "3",
        "--enable-http2",
        "--max-http2-concurrent-streams",
        "12",
        "--http2-keepalive-interval-ms",
        "4000",
        "--http2-keepalive-timeout-ms",
        "1000",
        "--enable-websocket-upgrade",
        "--enable-http2-websocket",
        "--max-websocket-sessions",
        "8",
        "--websocket-idle-timeout-ms",
        "2500",
        "--enable-connect",
        "--enable-http2-connect",
        "--max-connect-sessions",
        "7",
        "--connect-idle-timeout-ms",
        "2600",
        "--connect-authority-port",
        "8443",
        "--http-requests-per-second",
        "50",
        "--http-request-burst",
        "100",
        "--http-requests-per-ip-per-second",
        "10",
        "--http-request-burst-per-ip",
        "20",
        "--max-http-rate-limit-peers",
        "512",
        "--http-rate-limit-idle-ms",
        "1500",
        "--http-header-timeout-ms",
        "301",
        "--http-request-timeout-ms",
        "302",
    ]))
    .unwrap();
    assert_eq!(parsed.https_listen.unwrap().port(), 443);
    assert_eq!(
        parsed.https_host.as_ref().unwrap().as_str(),
        "demo.example.test"
    );
    assert_eq!(parsed.max_http_connections, 20);
    assert_eq!(parsed.max_http_connections_per_ip, Some(4));
    assert_eq!(parsed.max_http_header_bytes, 32768);
    assert_eq!(parsed.max_http_headers, 40);
    assert_eq!(parsed.max_http_request_body_bytes, 2048);
    assert_eq!(parsed.max_http_requests_per_connection, 3);
    assert!(parsed.enable_http2);
    assert_eq!(parsed.max_http2_concurrent_streams, 12);
    assert_eq!(parsed.http2_keep_alive_interval, Duration::from_secs(4));
    assert_eq!(parsed.http2_keep_alive_timeout, Duration::from_secs(1));
    assert!(parsed.enable_websocket_upgrade);
    assert!(parsed.enable_http2_websocket);
    assert_eq!(parsed.max_websocket_sessions, 8);
    assert_eq!(parsed.websocket_idle_timeout, Duration::from_millis(2500));
    assert!(parsed.enable_connect);
    assert!(parsed.enable_http2_connect);
    assert_eq!(parsed.max_connect_sessions, 7);
    assert_eq!(parsed.connect_idle_timeout, Duration::from_millis(2600));
    assert_eq!(parsed.connect_authority_port, 8443);
    assert_eq!(parsed.http_requests_per_second, 50);
    assert_eq!(parsed.http_request_burst, 100);
    assert_eq!(parsed.http_requests_per_ip_per_second, 10);
    assert_eq!(parsed.http_request_burst_per_ip, 20);
    assert_eq!(parsed.max_http_rate_limit_peers, 512);
    assert_eq!(parsed.http_rate_limit_idle, Duration::from_millis(1500));
    assert_eq!(
        https_exposure_policy(&parsed),
        Ok(HttpIngressExposurePolicy::Public {
            max_connections_per_ip: 4
        })
    );

    let implicit = parse_args(&words(&["--https-listen", "0.0.0.0:443"])).unwrap();
    assert_eq!(
        https_exposure_policy(&implicit),
        Err(ArgError::PublicHttpsOptInRequired)
    );
    let conflicting = parse_args(&words(&[
        "--https-listen",
        "127.0.0.1:8443",
        "--raw-listen",
        "127.0.0.1:7000",
    ]))
    .unwrap();
    assert_eq!(
        raw_exposure_policy(&conflicting),
        Err(ArgError::IngressModeConflict)
    );
    assert!(matches!(
        parse_args(&words(&["--https-host", "bad_host"])),
        Err(ArgError::InvalidHostname(_))
    ));
    assert_eq!(
        parse_args(&words(&["--max-http2-concurrent-streams", "2"])),
        Err(ArgError::Http2OptionsWithoutOptIn)
    );
    assert_eq!(
        parse_args(&words(&["--max-websocket-sessions", "2"])),
        Err(ArgError::WebSocketOptionsWithoutOptIn)
    );
    assert_eq!(
        parse_args(&words(&["--max-connect-sessions", "2"])),
        Err(ArgError::ConnectOptionsWithoutOptIn)
    );
    assert_eq!(
        parse_args(&words(&["--enable-http2-connect"])),
        Err(ArgError::Http2ConnectWithoutHttp2)
    );
    assert_eq!(
        parse_args(&words(&["--enable-http2-websocket"])),
        Err(ArgError::Http2WebSocketWithoutHttp2)
    );
    let http2_websocket = parse_args(&words(&[
        "--enable-http2",
        "--enable-http2-websocket",
        "--max-websocket-sessions",
        "2",
    ]))
    .unwrap();
    assert!(http2_websocket.enable_http2_websocket);
    assert!(!http2_websocket.enable_websocket_upgrade);
    assert_eq!(http2_websocket.max_websocket_sessions, 2);
    let http2_connect = parse_args(&words(&[
        "--enable-http2",
        "--enable-http2-connect",
        "--max-connect-sessions",
        "2",
    ]))
    .unwrap();
    assert!(http2_connect.enable_http2_connect);
    assert!(!http2_connect.enable_connect);
    assert_eq!(http2_connect.max_connect_sessions, 2);
}

#[test]
fn dynamic_https_route_flags_are_bounded_and_exclusive() {
    let parsed = parse_args(&words(&[
        "--https-listen",
        "127.0.0.1:8443",
        "--https-route-server",
        "127.0.0.1:17201",
        "--https-route-max-stale-ms",
        "45000",
        "--https-route-tls-reload-manifest",
        "route-client-tls.json",
        "--public-tls-cert",
        "public.pem",
        "--public-tls-key",
        "public-key.pem",
    ]))
    .unwrap();
    assert_eq!(parsed.https_route_server.unwrap().port(), 17201);
    assert_eq!(parsed.https_route_max_stale, Some(Duration::from_secs(45)));
    assert_eq!(
        parsed.https_route_tls_reload_manifest,
        Some(String::from("route-client-tls.json"))
    );
    assert!(matches!(
        parse_args(&words(&[
            "--https-host",
            "demo.example.test",
            "--https-route-server",
            "127.0.0.1:17201",
        ])),
        Err(ArgError::HttpsRouteHostConflict)
    ));
    assert_eq!(
        parse_args(&words(&["--https-route-max-stale-ms", "1000"])),
        Err(ArgError::HttpsRouteStaleWithoutServer)
    );
    assert_eq!(
        parse_args(&words(&[
            "--https-route-tls-reload-manifest",
            "route-client-tls.json",
        ])),
        Err(ArgError::HttpsRouteReloadWithoutServer)
    );
}

#[test]
fn partial_tls_arguments_are_rejected() {
    let parsed = ParsedArgs {
        tls_cert: Some(String::from("edge.pem")),
        ..ParsedArgs::default()
    };
    assert!(matches!(
        transport_plan(&parsed),
        Err(TlsLoadError::IncompleteArguments)
    ));

    let partial_snapshot = ParsedArgs {
        tls_cert: Some(String::from("edge.pem")),
        tls_key: Some(String::from("edge-key.pem")),
        tls_client_ca: Some(String::from("agent-ca.pem")),
        snapshot_server: address("127.0.0.1:7200"),
        snapshot_options_present: true,
        ..ParsedArgs::default()
    };
    assert!(matches!(
        transport_plan(&partial_snapshot),
        Err(TlsLoadError::IncompleteSnapshotArguments)
    ));

    let conflicting = ParsedArgs {
        authorized_client_cert: Some(String::from("agent.pem")),
        ..partial_snapshot
    };
    assert!(matches!(
        transport_plan(&conflicting),
        Err(TlsLoadError::AuthorizationMode)
    ));

    let partial_cache = ParsedArgs {
        tls_cert: Some(String::from("edge.pem")),
        tls_key: Some(String::from("edge-key.pem")),
        tls_client_ca: Some(String::from("agent-ca.pem")),
        snapshot_server: address("127.0.0.1:7200"),
        snapshot_ca: Some(String::from("control-ca.pem")),
        snapshot_client_cert: Some(String::from("edge-client.pem")),
        snapshot_client_key: Some(String::from("edge-client-key.pem")),
        snapshot_server_name: Some("control-plane.test".to_owned()),
        snapshot_cache_dir: Some(String::from("edge-cache")),
        snapshot_options_present: true,
        ..ParsedArgs::default()
    };
    assert!(matches!(
        snapshot_cache_configuration(&partial_cache, true),
        Err(TlsLoadError::IncompleteSnapshotCacheArguments)
    ));

    let partial_https = ParsedArgs {
        https_listen: address("127.0.0.1:8443"),
        https_host: hostname("demo.example.test"),
        ..ParsedArgs::default()
    };
    assert!(matches!(
        https_plan(&partial_https),
        Err(TlsLoadError::IncompletePublicHttpsArguments)
    ));

    let orphaned_https_option = parse_args(&words(&["--max-http-connections", "8"]))
        .expect("the option value itself is valid");
    assert!(matches!(
        https_plan(&orphaned_https_option),
        Err(TlsLoadError::PublicHttpsWithoutListener)
    ));

    let invalid_rate_limit = ParsedArgs {
        https_listen: address("127.0.0.1:8443"),
        https_host: hostname("demo.example.test"),
        public_tls_cert: Some(String::from("public.pem")),
        public_tls_key: Some(String::from("public-key.pem")),
        http_requests_per_second: 0,
        ..ParsedArgs::default()
    };
    assert!(matches!(
        https_plan(&invalid_rate_limit),
        Err(TlsLoadError::InvalidHttpIngress(
            HttpIngressConfigError::InvalidRequestRateLimit(_)
        ))
    ));
}

#[test]
fn signed_access_cli_is_explicit_bounded_and_connect_incompatible() {
    let parsed = parse_args(&words(&[
        "--require-signed-access",
        "--signed-access-keyring",
        "public-ring.json",
        "--signed-access-keyring-reload-manifest",
        "signed-access-generation.json",
        "--signed-access-reload-interval-ms",
        "250",
        "--signed-access-max-ttl-seconds",
        "300",
        "--signed-access-clock-skew-seconds",
        "15",
    ]))
    .unwrap();
    assert!(parsed.require_signed_access);
    assert_eq!(
        parsed.signed_access_keyring,
        Some(String::from("public-ring.json"))
    );
    assert_eq!(parsed.signed_access_maximum_ttl, Duration::from_secs(300));
    assert_eq!(parsed.signed_access_clock_skew, Duration::from_secs(15));
    assert_eq!(
        parsed.signed_access_keyring_reload_manifest,
        Some(String::from("signed-access-generation.json"))
    );
    assert_eq!(
        parsed.signed_access_reload_interval,
        Duration::from_millis(250)
    );
    assert_eq!(
        parse_args(&words(&["--signed-access-keyring", "public-ring.json"])),
        Err(ArgError::SignedAccessOptionsWithoutOptIn)
    );
    assert_eq!(
        parse_args(&words(&["--require-signed-access", "--enable-connect"])),
        Err(ArgError::SignedAccessConnectConflict)
    );
    assert_eq!(
        parse_args(&words(&[
            "--require-signed-access",
            "--signed-access-keyring",
            "public-ring.json",
            "--signed-access-reload-interval-ms",
            "250",
        ])),
        Err(ArgError::SignedAccessReloadWithoutManifest)
    );
}

#[test]
fn each_flag_at_fault_is_named() {
    assert_eq!(
        parse_args(&words(&["--help"])).map(|parsed| parsed.help),
        Ok(true)
    );
    assert_eq!(
        parse_args(&words(&["-h"])).map(|parsed| parsed.help),
        Ok(true)
    );
    assert_eq!(
        parse_args(&words(&["--max-streams", "many"])),
        Err(ArgError::InvalidNumber {
            flag: String::from("--max-streams"),
            value: String::from("many")
        })
    );
    assert_eq!(
        parse_args(&words(&["--connect-authority-port", "65536"])),
        Err(ArgError::InvalidNumber {
            flag: String::from("--connect-authority-port"),
            value: String::from("65536")
        })
    );
    assert_eq!(
        parse_args(&words(&["--enable-http2", "--max-http2-concurrent-streams", "4294967296"])),
        Err(ArgError::InvalidNumber {
            flag: String::from("--max-http2-concurrent-streams"),
            value: String::from("4294967296")
        })
    );
    let signed = parse_args(&words(&["--max-streams", "+7"])).unwrap();
    assert_eq!(signed.max_streams, 7);
    assert_eq!(
        parse_args(&words(&["--agent-id", "bad/id"])),
        Err(ArgError::InvalidIdentifier {
            flag: String::from("--agent-id"),
            value: String::from("bad/id")
        })
    );
    assert_eq!(
        parse_args(&words(&["--raw-listen"])),
        Err(ArgError::MissingValue(String::from("--raw-listen")))
    );
    let twice = parse_args(&words(&["--max-streams", "1", "--max-streams", "2"])).unwrap();
    assert_eq!(twice.max_streams, 2);
}

#[test]
fn words_that_follow_are_added_to_those_before() {
    let first = ["--max-streams", "5", "--enable-http2"];
    let others = ["--max-raw-connections", "9", "--max-http2-concurrent-streams", "3"];
    let both: Vec<&str> = first.iter().chain(others.iter()).copied().collect();
    let together = parse_args(&words(&both)).unwrap();
    let in_turn = parse_args(&words(&first))
        .unwrap()
        .parse_onto(&words(&others))
        .unwrap();
    assert_eq!(together, in_turn);
}

#[test]
fn argument_errors_are_written_out() {
    let cases = [
        (
            ArgError::MissingValue(String::from("--tls-key")),
            "--tls-key requires a value",
        ),
        (
            ArgError::InvalidAddress {
                flag: String::from("--raw-listen"),
                value: String::from("bad"),
            },
            "--raw-listen=bad is not a valid socket address",
        ),
        (
            ArgError::InvalidNumber {
                flag: String::from("--max-streams"),
                value: String::from("x"),
            },
            "--max-streams=x is not a valid integer",
        ),
        (
            ArgError::InvalidIdentifier {
                flag: String::from("--tunnel-id"),
                value: String::from("bad/id"),
            },
            "--tunnel-id=bad/id is not a valid durable identifier",
        ),
        (
            ArgError::InvalidHostname(String::from("bad_host")),
            "invalid HTTPS hostname: bad_host",
        ),
        (
            ArgError::UnknownFlag(String::from("--nope")),
            "unknown flag: --nope",
        ),
        (
            ArgError::IngressModeConflict,
            "raw-ingress options cannot be combined with --https-listen",
        ),
    ];
    for (error, text) in cases {
        assert_eq!(error.message(), text);
    }
}

#[test]
fn https_policies_report_each_fault() {
    let limit_without_listener =
        parse_args(&words(&["--max-http-connections-per-ip", "2"])).unwrap();
    assert_eq!(
        https_exposure_policy(&limit_without_listener),
        Err(ArgError::PublicHttpsPerIpLimitWithoutOptIn)
    );
    let required = parse_args(&words(&[
        "--https-listen",
        "0.0.0.0:443",
        "--allow-public-https-ingress",
    ]))
    .unwrap();
    assert_eq!(
        https_exposure_policy(&required),
        Err(ArgError::PublicHttpsPerIpLimitRequired)
    );
    let too_large = parse_args(&words(&[
        "--https-listen",
        "0.0.0.0:443",
        "--allow-public-https-ingress",
        "--max-http-connections-per-ip",
        "33",
    ]))
    .unwrap();
    assert_eq!(
        https_exposure_policy(&too_large),
        Err(ArgError::PublicHttpsPerIpLimitInvalid)
    );
    let loopback = parse_args(&words(&["--https-listen", "127.0.0.1:8443"])).unwrap();
    assert_eq!(
        https_exposure_policy(&loopback),
        Ok(HttpIngressExposurePolicy::LoopbackOnly)
    );
    assert_eq!(
        raw_exposure_policy(&loopback),
        Ok(RawIngressExposurePolicy::LoopbackOnly)
    );
}

fn tls_words() -> Vec<&'static str> {
    vec![
        "--tls-cert",
        "edge.pem",
        "--tls-key",
        "edge-key.pem",
        "--tls-client-ca",
        "ca.pem",
    ]
}

fn snapshot_words() -> Vec<&'static str> {
    vec![
        "--snapshot-server",
        "127.0.0.1:7200",
        "--snapshot-ca",
        "control-ca.pem",
        "--snapshot-client-cert",
        "client.pem",
        "--snapshot-client-key",
        "client-key.pem",
        "--snapshot-server-name",
        "control.test",
    ]
}

#[test]
fn transports_have_exactly_one_source_of_authorization() {
    let plain = ParsedArgs::default();
    assert!(matches!(transport_plan(&plain), Ok(TransportPlan::Plaintext)));
    assert!(!has_snapshot_arguments(&plain));

    let reload_alone = parse_args(&words(&["--tls-reload-interval-ms", "5"])).unwrap();
    assert!(matches!(
        transport_plan(&reload_alone),
        Err(TlsLoadError::AuthorizationMode)
    ));

    let unauthorized = parse_args(&words(&tls_words())).unwrap();
    assert!(matches!(
        transport_plan(&unauthorized),
        Err(TlsLoadError::AuthorizationMode)
    ));

    let mut with_certificate = tls_words();
    with_certificate.extend(["--authorized-client-cert", "agent.pem"]);
    match transport_plan(&parse_args(&words(&with_certificate)).unwrap()) {
        Ok(TransportPlan::MutualTls {
            certificate_path,
            private_key_path,
            client_ca_path,
            reload_manifest,
            authorization: AuthorizationSource::ClientCertificate(path),
        }) => {
            assert_eq!(certificate_path, "edge.pem");
            assert_eq!(private_key_path, "edge-key.pem");
            assert_eq!(client_ca_path, "ca.pem");
            assert_eq!(reload_manifest, None);
            assert_eq!(path, "agent.pem");
        }
        other => panic!("{other:?}"),
    }

    let mut reload_without_manifest = with_certificate.clone();
    reload_without_manifest.extend(["--tls-reload-interval-ms", "5"]);
    assert!(matches!(
        transport_plan(&parse_args(&words(&reload_without_manifest)).unwrap()),
        Err(TlsLoadError::ReloadArguments)
    ));
    let mut foreign_manifest = with_certificate.clone();
    foreign_manifest.extend(["--snapshot-tls-reload-manifest", "snapshot.json"]);
    assert!(matches!(
        transport_plan(&parse_args(&words(&foreign_manifest)).unwrap()),
        Err(TlsLoadError::ReloadArguments)
    ));

    let mut with_snapshots = tls_words();
    with_snapshots.extend(snapshot_words());
    let parsed = parse_args(&words(&with_snapshots)).unwrap();
    assert!(snapshot_arguments_complete(&parsed));
    let plan = transport_plan(&parsed).unwrap();
    assert!(matches!(
        plan,
        TransportPlan::MutualTls {
            authorization: AuthorizationSource::Snapshots,
            ..
        }
    ));
    assert_eq!(
        planned_security(&plan),
        (
            EdgeTransportSecurity::MutualTls,
            EdgeRegistrationPolicy::MutualTls
        )
    );
    assert!(may_start(&plan, true));
    assert!(may_start(&TransportPlan::Plaintext, false));
    assert!(!may_start(&TransportPlan::Plaintext, true));
    assert_eq!(
        planned_security(&TransportPlan::Plaintext),
        (
            EdgeTransportSecurity::PlaintextLoopback,
            EdgeRegistrationPolicy::LoopbackDevelopment
        )
    );
}

#[test]
fn clients_of_the_control_plane_are_planned() {
    let parsed = parse_args(&words(&snapshot_words())).unwrap();
    let plan = snapshot_plan(&parsed).unwrap();
    assert_eq!(plan.server.port(), 7200);
    assert_eq!(plan.server_name, "control.test");
    assert_eq!(plan.ca_path, "control-ca.pem");
    assert_eq!(plan.client_certificate_path, "client.pem");
    assert_eq!(plan.client_key_path, "client-key.pem");
    assert_eq!(plan.reload_manifest, None);
    assert!(matches!(
        snapshot_plan(&ParsedArgs::default()),
        Err(TlsLoadError::IncompleteSnapshotArguments)
    ));

    assert!(matches!(https_route_plan(&parsed), Ok(None)));
    let mut with_routes = snapshot_words();
    with_routes.extend(["--https-route-server", "127.0.0.1:17201"]);
    let routes = https_route_plan(&parse_args(&words(&with_routes)).unwrap())
        .unwrap()
        .unwrap();
    assert_eq!(routes.service.server.port(), 17201);
    assert_eq!(routes.service.ca_path, "control-ca.pem");
    assert_eq!(routes.max_stale_age, Duration::from_secs(300));
    let alone = parse_args(&words(&["--https-route-server", "127.0.0.1:17201"])).unwrap();
    assert!(matches!(
        https_route_plan(&alone),
        Err(TlsLoadError::IncompleteSnapshotArguments)
    ));

    let cached = parse_args(&words(&[
        "--snapshot-cache-dir",
        "cache",
        "--snapshot-cache-max-stale-ms",
        "1500",
    ]))
    .unwrap();
    let cache = snapshot_cache_configuration(&cached, true).unwrap().unwrap();
    assert_eq!(cache.directory, "cache");
    assert_eq!(cache.max_stale_age, Duration::from_millis(1500));
    assert!(matches!(
        snapshot_cache_configuration(&cached, false),
        Err(TlsLoadError::InvalidSnapshotCache)
    ));
    assert!(matches!(
        snapshot_cache_configuration(&parsed, true),
        Ok(None)
    ));
}

fn https_words() -> Vec<&'static str> {
    vec![
        "--https-listen",
        "127.0.0.1:8443",
        "--https-host",
        "demo.example.test",
        "--public-tls-cert",
        "public.pem",
        "--public-tls-key",
        "public-key.pem",
    ]
}

#[test]
fn https_ingress_is_planned_and_configured() {
    assert!(matches!(https_plan(&ParsedArgs::default()), Ok(None)));

    let parsed = parse_args(&words(&https_words())).unwrap();
    let plan = https_plan(&parsed).unwrap().unwrap();
    assert_eq!(plan.certificate_path, "public.pem");
    assert_eq!(plan.private_key_path, "public-key.pem");
    assert_eq!(plan.protocols, PublicHttpProtocolPolicy::Http1Only);
    assert!(plan.key_ring.is_none());
    let tls = PublicTlsConfig {
        protocols: plan.protocols,
        handshake_timeout: parsed.tls_handshake_timeout,
    };
    let config = https_configuration(&parsed, &plan, tls, None).unwrap();
    assert_eq!(config.listen_addr.port(), 8443);
    assert_eq!(config.max_concurrent_connections, 32);
    assert_eq!(config.duplex_capacity, 65536);
    assert_eq!(
        config
            .routes
            .resolve(&hostname("demo.example.test").unwrap())
            .map(|tunnel| tunnel.as_str().to_string()),
        Some(String::from("tunnel-dev"))
    );

    let mut signed = https_words();
    signed.push("--require-signed-access");
    assert!(matches!(
        https_plan(&parse_args(&words(&signed)).unwrap()),
        Err(TlsLoadError::MissingSignedAccessKeyRing)
    ));
    signed.extend(["--signed-access-keyring", "ring.json"]);
    let parsed = parse_args(&words(&signed)).unwrap();
    let plan = https_plan(&parsed).unwrap().unwrap();
    assert_eq!(plan.key_ring.as_ref().unwrap().path, "ring.json");
    let config = https_configuration(&parsed, &plan, tls, Some(3)).unwrap();
    assert_eq!(config.signed_access.unwrap().key_count, 3);
    assert!(matches!(
        https_configuration(&parsed, &plan, tls, None),
        Err(TlsLoadError::InvalidSignedAccessKeyRing)
    ));
    assert!(matches!(
        https_configuration(&parsed, &plan, tls, Some(0)),
        Err(TlsLoadError::InvalidHttpIngress(_))
    ));

    let mut exposed = https_words();
    exposed[1] = "0.0.0.0:443";
    assert!(matches!(
        https_plan(&parse_args(&words(&exposed)).unwrap()),
        Err(TlsLoadError::PublicHttpsExposure(
            ArgError::PublicHttpsOptInRequired
        ))
    ));

    let routed: Vec<&str> = [
        "--https-listen",
        "127.0.0.1:8443",
        "--https-route-server",
        "127.0.0.1:17201",
        "--public-tls-cert",
        "public.pem",
        "--public-tls-key",
        "public-key.pem",
        "--enable-http2",
    ]
    .to_vec();
    let parsed = parse_args(&words(&routed)).unwrap();
    let plan = https_plan(&parsed).unwrap().unwrap();
    assert_eq!(plan.protocols, PublicHttpProtocolPolicy::Http1AndHttp2);
    let tls = PublicTlsConfig {
        protocols: plan.protocols,
        handshake_timeout: parsed.tls_handshake_timeout,
    };
    let config = https_configuration(&parsed, &plan, tls, None).unwrap();
    assert!(config.routes.is_dynamic());
    assert!(config.routes.is_empty());
    assert_eq!(config.http2.unwrap().max_concurrent_streams, 32);
}

#[test]
fn edges_start_as_the_command_line_says() {
    let parsed = parse_args(&words(&[
        "--agent-listen",
        "127.0.0.1:17100",
        "--raw-listen",
        "127.0.0.1:17000",
        "--tunnel-id",
        "tunnel-prod",
        "--max-streams",
        "8",
        "--max-raw-connections",
        "9",
        "--ops-listen",
        "127.0.0.1:19090",
        "--max-ops-connections",
        "6",
        "--drain-timeout-ms",
        "250",
    ]))
    .unwrap();
    let config = edge_configuration(&parsed, RawIngressExposurePolicy::LoopbackOnly);
    assert_eq!(config.multiplex.agent_listener.listen_addr.port(), 17100);
    assert_eq!(config.multiplex.max_streams_per_session, 8);
    assert_eq!(config.raw_listen_addr.port(), 17000);
    assert_eq!(config.tunnel_id.as_str(), "tunnel-prod");
    assert_eq!(config.max_raw_connections, 9);
    let operations = config.operations.unwrap();
    assert_eq!(operations.listen_addr.port(), 19090);
    assert_eq!(operations.max_concurrent_connections, 6);
    assert_eq!(
        operations.shutdown.drain_timeout,
        Duration::from_millis(250)
    );
    assert!(config.validate().is_ok());
}

#[test]
fn key_rings_may_not_exceed_their_bound() {
    assert_eq!(check_key_ring_size(vec![1, 2, 3], 3).unwrap(), vec![1, 2, 3]);
    assert!(matches!(
        check_key_ring_size(vec![1, 2, 3, 4], 3),
        Err(TlsLoadError::InvalidSignedAccessKeyRing)
    ));
}

fn outcome(agent_sessions: RuntimeShutdownOutcome) -> EdgeRuntimeOutcome {
    EdgeRuntimeOutcome {
        agent_addr: address("127.0.0.1:7100").unwrap(),
        raw_addr: None,
        agent_sessions_seen: 1,
        route_generations: 1,
        successful_recoveries: 0,
        raw_routes: RuntimeShutdownOutcome::Drained { completed_tasks: 0 },
        https_ingress: None,
        operations: None,
        agent_sessions,
    }
}

#[test]
fn exit_codes_tell_success_failure_and_misuse_apart() {
    let drained = outcome(RuntimeShutdownOutcome::Drained { completed_tasks: 1 });
    let forced = outcome(RuntimeShutdownOutcome::Forced {
        completed_tasks: 0,
        aborted_tasks: 1,
    });
    assert_eq!(edge_exit_code(&Ok(drained)), EXIT_SUCCESS);
    assert_eq!(edge_exit_code(&Ok(forced)), EXIT_FAILURE);
    assert_eq!(
        edge_exit_code(&Err(EdgeRuntimeError::TransportStopped)),
        EXIT_FAILURE
    );
    assert_eq!(
        snapshot_edge_exit_code(&Ok(SnapshotAwareEdgeRuntimeOutcome { edge: drained })),
        EXIT_SUCCESS
    );
    assert_eq!(
        snapshot_edge_exit_code(&Ok(SnapshotAwareEdgeRuntimeOutcome { edge: forced })),
        EXIT_FAILURE
    );
    assert_eq!(
        snapshot_edge_exit_code(&Err(SnapshotAwareEdgeRuntimeError::SnapshotStopped)),
        EXIT_FAILURE
    );
    let invalid = EdgeRuntimeError::InvalidConfig(EdgeRuntimeConfigError::ZeroDrainTimeout);
    assert_eq!(edge_start_error(&invalid), EXIT_USAGE);
    assert_eq!(
        edge_start_error(&EdgeRuntimeError::HttpsStopped),
        EXIT_FAILURE
    );
    assert_eq!(
        snapshot_start_error(&SnapshotAwareEdgeRuntimeError::Edge(invalid)),
        EXIT_USAGE
    );
    assert_eq!(
        snapshot_start_error(&SnapshotAwareEdgeRuntimeError::Bootstrap(String::from(
            "refused"
        ))),
        EXIT_FAILURE
    );
    assert_eq!(
        tls_reload_exit_code(&reloaders_result(ReloadersEnd::ShutdownRequested)),
        EXIT_SUCCESS
    );
    let aborted = reloaders_result(ReloadersEnd::Aborted);
    assert_eq!(
        aborted.as_ref().unwrap_err().message(),
        "TLS reload task stopped unexpectedly"
    );
    assert_eq!(tls_reload_exit_code(&aborted), EXIT_FAILURE);
    let failed = reloaders_result(ReloadersEnd::Returned(Err(
        TlsReloadSupervisorError::Public(String::from("gone")),
    )));
    assert_eq!(
        failed.unwrap_err().message(),
        "public TLS reload failed: gone"
    );
}

#[test]
fn load_errors_are_written_out() {
    let cases = [
        (
            TlsLoadError::Read("client CA"),
            "failed to read TLS client CA PEM file",
        ),
        (
            TlsLoadError::Invalid(String::from("no key")),
            "invalid TLS configuration: no key",
        ),
        (
            TlsLoadError::PublicHttpsExposure(ArgError::Http2ConnectWithoutHttp2),
            "--enable-http2-connect requires --enable-http2",
        ),
        (
            TlsLoadError::InvalidPublicTls(PublicTlsConfigError::MissingServerPrivateKey),
            "invalid public TLS configuration: public TLS private key is missing",
        ),
        (
            TlsLoadError::PublicReload(PublicTlsReloadBootstrapError::Candidate),
            "public TLS reload is invalid: public TLS reload generation contains invalid credentials",
        ),
        (
            TlsLoadError::MissingSignedAccessKeyRing,
            "--require-signed-access requires --signed-access-keyring",
        ),
    ];
    for (error, text) in cases {
        assert_eq!(error.message("127.0.0.1:8443"), text);
    }
    let rate = TlsLoadError::InvalidHttpIngress(HttpIngressConfigError::InvalidRequestRateLimit(
        HttpRequestRateLimitConfigError::InvalidGlobalRate,
    ));
    assert!(rate
        .message("127.0.0.1:8443")
        .starts_with("invalid HTTPS ingress: "));
}
