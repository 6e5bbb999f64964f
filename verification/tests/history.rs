//! The request history and the operations endpoint.

use hyper::header::{CACHE_CONTROL, CONNECTION, CONTENT_TYPE};
use tunnelproxy_edge::clock::{Duration, Instant};
use tunnelproxy_edge::history_page::{
    render_request_history, InvalidRequestHistoryQuery, RequestHistoryQuery,
};
use tunnelproxy_edge::http_routes::{
    HttpsRouteCatalog, HttpsRouteRecord, HttpsRouteSourceHealth, HttpsRouteStatus,
};
use tunnelproxy_edge::metrics::{
    render_https_metrics, render_logging_metrics, render_metrics, EdgeMetricSnapshot,
    IngressMetricSnapshot, MetricPage, MultiplexTelemetrySnapshot, OperationsCounterSnapshot,
    ProcessLoggingSnapshot,
};
use tunnelproxy_edge::names::TunnelId;
use tunnelproxy_edge::net::{IpAddr, SocketAddr};
use tunnelproxy_edge::operations::{
    collect_metrics, https_metric_snapshot, ingress_ready, ingress_tunnel_connected,
    plain_response, tunnel_is_connected,
    read_operations_request, request_history_response, serve_request, OperationsRequest,
};
use tunnelproxy_edge::operations_runtime::{
    EdgeOperationsRuntime, OperationsEvent, OperationsStep,
};
use tunnelproxy_edge::request_history::{
    RequestHistory, RequestHistoryOutcome, RequestHistoryProtocol, MAX_REQUEST_HISTORY_METHOD_BYTES,
    MAX_REQUEST_HISTORY_PATH_BYTES,
};
use tunnelproxy_edge::{
    AuthorizationSourceStatus, EdgeAuthorizationStatus, EdgeOperationsConfig,
    EdgeOperationsConfigError, EdgeOperationsError, HttpHostRoutes, HttpHostname,
    HttpIngressStatus, RuntimeShutdownOutcome, MAX_REQUEST_HISTORY_ENTRIES,
    MAX_REQUEST_HISTORY_RESPONSE_BYTES,
};

fn at(millis: u64) -> Instant {
    Instant {
        nanos: u128::from(millis) * 1_000_000,
    }
}

fn loopback(port: u16) -> SocketAddr {
    SocketAddr::new(IpAddr::v4(127, 0, 0, 1), port)
}

fn record(history: &mut RequestHistory, path: &str, outcome: RequestHistoryOutcome) {
    let mut pending = history.begin(
        "demo.example.test",
        "tunnel-dev",
        "GET",
        path,
        RequestHistoryProtocol::Http1,
        at(0),
    );
    pending.set_outcome(outcome);
    pending.finish(history, 200, at(3));
}

#[test]
fn history_is_newest_first_bounded_and_counts_eviction() {
    let mut history = RequestHistory::new(2).unwrap();
    record(&mut history, "/one", RequestHistoryOutcome::Forwarded);
    record(&mut history, "/two", RequestHistoryOutcome::LocalUnavailable);
    record(&mut history, "/three", RequestHistoryOutcome::Rejected);

    let snapshot = history.snapshot();
    assert_eq!(snapshot.recorded_total, 3);
    assert_eq!(snapshot.evicted_total, 1);
    assert_eq!(snapshot.entries.len(), 2);
    assert_eq!(snapshot.entries[0].request_id, 3);
    assert_eq!(snapshot.entries[0].path, "/three");
    assert_eq!(snapshot.entries[1].request_id, 2);
    assert_eq!(snapshot.outcome_count(RequestHistoryOutcome::Forwarded), 1);
    assert_eq!(snapshot.outcome_count(RequestHistoryOutcome::Rejected), 1);
    assert_eq!(snapshot.entries[0].response_header_ms, 3);
}

#[test]
fn metadata_is_bounded_and_sequence_exhaustion_fails_closed() {
    let mut history = RequestHistory::new(1).unwrap();
    let long_path = format!("/{}é", "x".repeat(MAX_REQUEST_HISTORY_PATH_BYTES));
    let pending = history.begin(
        "demo.example.test",
        "tunnel-dev",
        &"M".repeat(MAX_REQUEST_HISTORY_METHOD_BYTES + 1),
        &long_path,
        RequestHistoryProtocol::Http2,
        at(0),
    );
    assert_eq!(pending.method, "OTHER");
    assert!(pending.path_truncated);
    assert!(pending.path.len() <= MAX_REQUEST_HISTORY_PATH_BYTES);
    pending.finish(&mut history, 204, at(0));

    history.next_id = 0;
    record(&mut history, "/ignored", RequestHistoryOutcome::Timeout);
    let snapshot = history.snapshot();
    assert_eq!(snapshot.entries.len(), 1);
    assert_eq!(snapshot.sequence_exhaustions, 1);
}

#[test]
fn paths_are_cut_between_characters() {
    let history = RequestHistory::new(1).unwrap();
    let path = format!("{}é", "x".repeat(MAX_REQUEST_HISTORY_PATH_BYTES - 1));
    let pending = history.begin(
        "demo.example.test",
        "tunnel-dev",
        "GET",
        &path,
        RequestHistoryProtocol::Http1,
        at(0),
    );
    assert_eq!(pending.path, "x".repeat(MAX_REQUEST_HISTORY_PATH_BYTES - 1));
    assert!(pending.path_truncated);
    let short = history.begin(
        "demo.example.test",
        "tunnel-dev",
        "GET",
        "/é",
        RequestHistoryProtocol::Http1,
        at(0),
    );
    assert_eq!(short.path, "/é");
    assert!(!short.path_truncated);
}

#[test]
fn capacity_is_strict() {
    assert!(RequestHistory::new(0).is_err());
    assert!(RequestHistory::new(MAX_REQUEST_HISTORY_ENTRIES + 1).is_err());
}

#[test]
fn configuration_is_loopback_only_and_bounded() {
    let config = EdgeOperationsConfig::loopback(loopback(0));
    assert_eq!(config.validate(), Ok(()));
    let mut candidate = config;
    candidate.listen_addr = SocketAddr::new(IpAddr::v4(0, 0, 0, 0), 9090);
    assert_eq!(
        candidate.validate(),
        Err(EdgeOperationsConfigError::NonLoopbackListener)
    );
    candidate = config;
    candidate.max_concurrent_connections = 0;
    assert_eq!(
        candidate.validate(),
        Err(EdgeOperationsConfigError::InvalidConnectionLimit)
    );
    candidate = config;
    candidate.request_timeout = Duration { nanos: 0 };
    assert_eq!(
        candidate.validate(),
        Err(EdgeOperationsConfigError::ZeroRequestTimeout)
    );
}

#[test]
fn each_operations_fault_is_reported() {
    let config = EdgeOperationsConfig::loopback(loopback(0));
    let mut candidate = config;
    candidate.max_header_bytes = 8 * 1024 - 1;
    assert_eq!(
        candidate.validate(),
        Err(EdgeOperationsConfigError::InvalidHeaderBytes)
    );
    candidate = config;
    candidate.max_headers = 129;
    assert_eq!(
        candidate.validate(),
        Err(EdgeOperationsConfigError::InvalidHeaderCount)
    );
    candidate = config;
    candidate.header_read_timeout = Duration { nanos: 0 };
    assert_eq!(
        candidate.validate(),
        Err(EdgeOperationsConfigError::ZeroHeaderTimeout)
    );
    candidate = config;
    candidate.shutdown.drain_timeout = Duration { nanos: 0 };
    let fault = candidate.validate().unwrap_err();
    assert_eq!(fault, EdgeOperationsConfigError::ZeroDrainTimeout);
    assert_eq!(
        EdgeOperationsError::InvalidConfig(fault).message(),
        format!("invalid operations config: {}", fault.message())
    );
}

fn no_transport() -> MultiplexTelemetrySnapshot {
    MultiplexTelemetrySnapshot {
        active_streams: 0,
        peak_active_streams: 0,
        sent_data_frames: 0,
        received_data_frames: 0,
        sent_data_bytes: 0,
        received_data_bytes: 0,
        data_admission_waits: 0,
        data_pipeline_frames: 0,
        data_pipeline_capacity_frames: 0,
        peak_data_pipeline_frames: 0,
        flow_control_resets: 0,
        control_burst_yields: 0,
    }
}

fn no_logging() -> ProcessLoggingSnapshot {
    ProcessLoggingSnapshot {
        buffer_capacity_events: 0,
        accepted_events: 0,
        dropped_events: 0,
        oversized_events: 0,
        write_failures: 0,
    }
}

fn operations_counters() -> OperationsCounterSnapshot {
    OperationsCounterSnapshot {
        active_connections: 1,
        accepted_connections: 3,
        completed_requests: 2,
        rejected_requests: 1,
        capacity_rejections: 0,
    }
}

fn metric_snapshot() -> EdgeMetricSnapshot {
    EdgeMetricSnapshot {
        ready: true,
        tunnel_connected: true,
        authorization_source: AuthorizationSourceStatus::Live,
        authorization_version: 7,
        revoked_sessions: 2,
        logging: no_logging(),
        transport: MultiplexTelemetrySnapshot {
            sent_data_frames: 2,
            sent_data_bytes: 17,
            received_data_frames: 3,
            received_data_bytes: 29,
            data_pipeline_capacity_frames: 256,
            ..no_transport()
        },
        operations: operations_counters(),
        ingress: IngressMetricSnapshot::Raw(None),
    }
}

#[test]
fn metric_rendering_uses_only_fixed_bounded_labels() {
    let rendered = render_metrics(&metric_snapshot());
    assert!(rendered.contains("tunnelproxy_edge_ready 1\n"));
    assert!(rendered.contains("tunnelproxy_edge_logging_nonblocking_enabled 0\n"));
    let mut page = MetricPage::new();
    render_logging_metrics(
        &mut page,
        ProcessLoggingSnapshot {
            buffer_capacity_events: 8,
            oversized_events: 2,
            ..no_logging()
        },
    );
    let logging = page.text;
    assert!(logging.contains("tunnelproxy_edge_logging_nonblocking_enabled 1"));
    assert!(logging.contains("tunnelproxy_edge_logging_oversized_events_total 2"));
    assert!(rendered.contains("tunnelproxy_edge_authorization_source{source=\"live\"} 1\n"));
    assert_eq!(
        rendered
            .matches("# TYPE tunnelproxy_edge_authorization_source gauge")
            .count(),
        1
    );
    assert!(rendered.contains("tunnelproxy_edge_raw_route_present 0\n"));
    assert!(rendered
        .contains("tunnelproxy_edge_transport_data_frames_total{direction=\"received\"} 3"));
    assert!(
        rendered.contains("tunnelproxy_edge_transport_data_bytes_total{direction=\"sent\"} 17")
    );
    assert!(rendered.contains("tunnelproxy_edge_transport_data_pipeline_capacity_frames 256"));
    assert!(!rendered.contains("TunnelId"));
    assert!(!rendered.contains("127.0.0.1"));

    let mut page = MetricPage::new();
    render_https_metrics(
        &mut page,
        HttpIngressStatus {
            http1_connections: 3,
            http2_connections: 2,
            active_http2_streams: 4,
            peak_active_http2_streams: 7,
            accepted_websocket_upgrades: 5,
            rejected_websocket_upgrades: 6,
            active_websocket_sessions: 2,
            peak_active_websocket_sessions: 4,
            websocket_idle_timeouts: 1,
            accepted_http2_websocket_sessions: 12,
            rejected_http2_websocket_sessions: 13,
            active_http2_websocket_sessions: 1,
            peak_active_http2_websocket_sessions: 3,
            http2_websocket_idle_timeouts: 4,
            accepted_connect_sessions: 8,
            rejected_connect_sessions: 9,
            active_connect_sessions: 3,
            peak_active_connect_sessions: 5,
            connect_idle_timeouts: 2,
            accepted_http2_connect_sessions: 10,
            rejected_http2_connect_sessions: 11,
            active_http2_connect_sessions: 1,
            peak_active_http2_connect_sessions: 2,
            http2_connect_idle_timeouts: 3,
            accepted_signed_access_requests: 14,
            missing_signed_access_rejections: 15,
            invalid_signed_access_rejections: 16,
            expired_signed_access_rejections: 17,
            signed_access_keyring_generation: 18,
            signed_access_keyring_reload_failed: true,
            signed_access_keyring_reload_successes: 19,
            signed_access_keyring_reload_failures: 20,
            reachability_probe_requests: 23,
            successful_reachability_probes: 21,
            failed_reachability_probes: 2,
            ..HttpIngressStatus::default()
        },
        None,
        0,
        1,
        &None,
    );
    let https = page.text;
    assert!(https.contains("tunnelproxy_edge_https_http1_connections_total 3\n"));
    assert!(https.contains("tunnelproxy_edge_https_http2_connections_total 2\n"));
    assert!(https.contains("tunnelproxy_edge_https_active_http2_streams 4\n"));
    assert!(https.contains("tunnelproxy_edge_https_peak_active_http2_streams 7\n"));
    assert!(https.contains("tunnelproxy_edge_https_websocket_upgrades_total 5\n"));
    assert!(https.contains("tunnelproxy_edge_https_websocket_rejections_total 6\n"));
    assert!(https.contains("tunnelproxy_edge_https_active_websocket_sessions 2\n"));
    assert!(https.contains("tunnelproxy_edge_https_peak_active_websocket_sessions 4\n"));
    assert!(https.contains("tunnelproxy_edge_https_websocket_idle_timeouts_total 1\n"));
    assert!(https.contains("tunnelproxy_edge_https_http2_websocket_sessions_total 12\n"));
    assert!(https.contains("tunnelproxy_edge_https_http2_websocket_rejections_total 13\n"));
    assert!(https.contains("tunnelproxy_edge_https_active_http2_websocket_sessions 1\n"));
    assert!(https.contains("tunnelproxy_edge_https_peak_active_http2_websocket_sessions 3\n"));
    assert!(https.contains("tunnelproxy_edge_https_http2_websocket_idle_timeouts_total 4\n"));
    assert!(https.contains("tunnelproxy_edge_https_connect_sessions_total 8\n"));
    assert!(https.contains("tunnelproxy_edge_https_connect_rejections_total 9\n"));
    assert!(https.contains("tunnelproxy_edge_https_active_connect_sessions 3\n"));
    assert!(https.contains("tunnelproxy_edge_https_peak_active_connect_sessions 5\n"));
    assert!(https.contains("tunnelproxy_edge_https_connect_idle_timeouts_total 2\n"));
    assert!(https.contains("tunnelproxy_edge_https_http2_connect_sessions_total 10\n"));
    assert!(https.contains("tunnelproxy_edge_https_http2_connect_rejections_total 11\n"));
    assert!(https.contains("tunnelproxy_edge_https_active_http2_connect_sessions 1\n"));
    assert!(https.contains("tunnelproxy_edge_https_peak_active_http2_connect_sessions 2\n"));
    assert!(https.contains("tunnelproxy_edge_https_http2_connect_idle_timeouts_total 3\n"));
    assert!(https.contains("tunnelproxy_edge_https_signed_access_requests_total 14\n"));
    assert!(
        https.contains("tunnelproxy_edge_https_signed_access_missing_rejections_total 15\n")
    );
    assert!(
        https.contains("tunnelproxy_edge_https_signed_access_invalid_rejections_total 16\n")
    );
    assert!(
        https.contains("tunnelproxy_edge_https_signed_access_expired_rejections_total 17\n")
    );
    assert!(https.contains("tunnelproxy_edge_https_signed_access_keyring_generation 18\n"));
    assert!(https.contains("tunnelproxy_edge_https_signed_access_keyring_reload_failed 1\n"));
    assert!(https
        .contains("tunnelproxy_edge_https_signed_access_keyring_reload_successes_total 19\n"));
    assert!(https
        .contains("tunnelproxy_edge_https_signed_access_keyring_reload_failures_total 20\n"));
    assert!(https.contains("tunnelproxy_edge_https_reachability_probe_requests_total 23\n"));
    assert!(https.contains("tunnelproxy_edge_https_reachability_probe_successes_total 21\n"));
    assert!(https.contains("tunnelproxy_edge_https_reachability_probe_failures_total 2\n"));
    assert!(https.contains("tunnelproxy_edge_https_request_history_capacity 0\n"));
    for outcome in [
        RequestHistoryOutcome::Forwarded,
        RequestHistoryOutcome::LocalUnavailable,
        RequestHistoryOutcome::Timeout,
        RequestHistoryOutcome::Rejected,
    ] {
        assert!(https.contains(&format!(
            "tunnelproxy_edge_https_request_history_outcomes_total{{outcome=\"{}\"}} 0",
            outcome.as_str()
        )));
    }
    assert!(!https.contains("hostname"));
}

#[test]
fn responses_disable_cache_and_connection_reuse() {
    let response = plain_response(200, "ok\n", false);
    assert_eq!(response.headers.get(CACHE_CONTROL).unwrap(), "no-store");
    assert_eq!(response.headers.get(CONNECTION).unwrap(), "close");
    assert_eq!(
        response.headers.get(CONTENT_TYPE).unwrap(),
        "text/plain; charset=utf-8"
    );
    assert_eq!(response.body, b"ok\n");
    assert!(plain_response(200, "ok\n", true).body.is_empty());
}

#[test]
fn request_history_json_is_versioned_newest_first_and_response_bounded() {
    let mut history = RequestHistory::new(128).unwrap();
    for index in 0..128 {
        history
            .begin(
                "demo.example.test",
                "tunnel-dev",
                "GET",
                &format!("/{index}/{}", "x".repeat(2 * 1024)),
                RequestHistoryProtocol::Http1,
                at(0),
            )
            .finish(&mut history, 200, at(1));
    }
    let body = render_request_history(&history.snapshot(), RequestHistoryQuery::default());
    assert!(body.len() <= MAX_REQUEST_HISTORY_RESPONSE_BYTES);
    let document: serde_json::Value = serde_json::from_str(&body).unwrap();
    assert_eq!(document["version"], 1);
    assert_eq!(document["capacity"], 128);
    assert_eq!(document["retained"], 128);
    assert_eq!(document["eligible"], 128);
    assert_eq!(document["recorded_total"], 128);
    assert_eq!(document["truncated"], true);
    assert_eq!(document["has_more"], true);
    assert!(document["next_before"].as_u64().is_some());
    assert_eq!(document["requests"][0]["request_id"], 128);

    let response =
        request_history_response(&history.snapshot(), RequestHistoryQuery::default(), false);
    assert_eq!(response.status, 200);
    assert_eq!(response.headers.get(CACHE_CONTROL).unwrap(), "no-store");
    assert_eq!(
        response.headers.get(CONTENT_TYPE).unwrap(),
        "application/json; charset=utf-8"
    );
}

#[test]
fn request_history_query_is_strict_and_bounded() {
    assert_eq!(
        RequestHistoryQuery::parse(None),
        Ok(RequestHistoryQuery::default())
    );
    assert_eq!(
        RequestHistoryQuery::parse(Some("")),
        Ok(RequestHistoryQuery::default())
    );
    assert_eq!(
        RequestHistoryQuery::parse(Some("limit=8&before=42")),
        Ok(RequestHistoryQuery {
            before: Some(42),
            limit: Some(8),
        })
    );
    for invalid in [
        "limit=0",
        "limit=129",
        "limit=",
        "limit=one",
        "limit=+1",
        "limit=1&limit=2",
        "before=0",
        "before=",
        "before=one",
        "before=+1",
        "before=1&before=2",
        "unknown=1",
        "limit",
        "limit=1&",
        "limit=%31",
    ] {
        assert_eq!(
            RequestHistoryQuery::parse(Some(invalid)),
            Err(InvalidRequestHistoryQuery),
            "query {invalid:?} must fail closed"
        );
    }
}

#[test]
fn request_history_cursor_pages_are_newest_first_without_duplicates() {
    let mut history = RequestHistory::new(5).unwrap();
    for index in 1..=7 {
        history
            .begin(
                "demo.example.test",
                "tunnel-dev",
                "GET",
                &format!("/{index}"),
                RequestHistoryProtocol::Http2,
                at(0),
            )
            .finish(&mut history, 200, at(1));
    }

    let first: serde_json::Value = serde_json::from_str(&render_request_history(
        &history.snapshot(),
        RequestHistoryQuery {
            before: None,
            limit: Some(2),
        },
    ))
    .unwrap();
    assert_eq!(first["retained"], 5);
    assert_eq!(first["eligible"], 5);
    assert_eq!(first["returned"], 2);
    assert_eq!(first["has_more"], true);
    assert_eq!(first["next_before"], 6);
    assert_eq!(first["requests"][0]["request_id"], 7);
    assert_eq!(first["requests"][1]["request_id"], 6);

    let second: serde_json::Value = serde_json::from_str(&render_request_history(
        &history.snapshot(),
        RequestHistoryQuery {
            before: first["next_before"].as_u64(),
            limit: Some(2),
        },
    ))
    .unwrap();
    assert_eq!(second["eligible"], 3);
    assert_eq!(second["returned"], 2);
    assert_eq!(second["next_before"], 4);
    assert_eq!(second["requests"][0]["request_id"], 5);
    assert_eq!(second["requests"][1]["request_id"], 4);

    let final_page: serde_json::Value = serde_json::from_str(&render_request_history(
        &history.snapshot(),
        RequestHistoryQuery {
            before: second["next_before"].as_u64(),
            limit: Some(2),
        },
    ))
    .unwrap();
    assert_eq!(final_page["eligible"], 1);
    assert_eq!(final_page["returned"], 1);
    assert_eq!(final_page["has_more"], false);
    assert_eq!(final_page["next_before"], serde_json::Value::Null);
    assert_eq!(final_page["requests"][0]["request_id"], 3);

    let evicted_cursor: serde_json::Value = serde_json::from_str(&render_request_history(
        &history.snapshot(),
        RequestHistoryQuery {
            before: Some(2),
            limit: Some(5),
        },
    ))
    .unwrap();
    assert_eq!(evicted_cursor["eligible"], 0);
    assert_eq!(evicted_cursor["returned"], 0);
    assert_eq!(evicted_cursor["has_more"], false);
}

#[test]
fn texts_are_escaped_as_json_asks() {
    let mut history = RequestHistory::new(1).unwrap();
    record(
        &mut history,
        "/\"\\\u{8}\t\n\u{c}\r\u{1f}\u{0}\u{7f}/é",
        RequestHistoryOutcome::Forwarded,
    );
    let body = render_request_history(&history.snapshot(), RequestHistoryQuery::default());
    assert!(body.contains(
        ",\"path\":\"/\\\"\\\\\\b\\t\\n\\f\\r\\u001f\\u0000\u{7f}/é\","
    ));
}

#[test]
fn following_the_pages_shows_every_request_once() {
    let mut history = RequestHistory::new(128).unwrap();
    for index in 0..130 {
        record(
            &mut history,
            &format!("/{index}/{}", "x".repeat(2 * 1024)),
            RequestHistoryOutcome::Forwarded,
        );
    }
    for limit in [None, Some(1), Some(7)] {
        let mut shown = Vec::new();
        let mut before = None;
        loop {
            let page: serde_json::Value = serde_json::from_str(&render_request_history(
                &history.snapshot(),
                RequestHistoryQuery { before, limit },
            ))
            .unwrap();
            for request in page["requests"].as_array().unwrap() {
                shown.push(request["request_id"].as_u64().unwrap());
            }
            before = page["next_before"].as_u64();
            if page["has_more"] == false {
                break;
            }
        }
        assert_eq!(before, None);
        let newest_first: Vec<u64> = (3..=130).rev().collect();
        assert_eq!(shown, newest_first);
    }
}

#[test]
fn histories_are_written_as_json_texts() {
    let mut history = RequestHistory::new(2).unwrap();
    record(&mut history, "/\"quoted\"\n\\é", RequestHistoryOutcome::Timeout);
    let body = render_request_history(&history.snapshot(), RequestHistoryQuery::default());
    let document: serde_json::Value = serde_json::from_str(&body).unwrap();
    let request = &document["requests"][0];
    assert_eq!(request["path"], "/\"quoted\"\n\\é");
    assert_eq!(request["hostname"], "demo.example.test");
    assert_eq!(request["tunnel_id"], "tunnel-dev");
    assert_eq!(request["method"], "GET");
    assert_eq!(request["response_status"], 200);
    assert_eq!(request["response_header_ms"], 3);
    assert_eq!(request["outcome"], "timeout");
    assert_eq!(document["has_more"], false);
    assert_eq!(document["next_before"], serde_json::Value::Null);
}

fn dynamic(health: HttpsRouteSourceHealth) -> HttpHostRoutes {
    HttpHostRoutes::dynamic(HttpsRouteCatalog {
        version: 4,
        health,
        routes: vec![HttpsRouteRecord {
            hostname: HttpHostname::from_canonical(String::from("demo.example.test")),
            tunnel_id: TunnelId::from_checked(String::from("tunnel-dev")),
            status: HttpsRouteStatus::Enabled,
        }],
    })
}

#[test]
fn readiness_needs_routes_and_agents_and_no_draining() {
    let tunnel = |name: &str| TunnelId::from_checked(String::from(name));
    let own = tunnel("tunnel-dev");
    let connected = vec![tunnel("tunnel-other"), tunnel("tunnel-dev")];
    let others = vec![tunnel("tunnel-other")];
    assert!(tunnel_is_connected(&connected, &own));
    assert!(!tunnel_is_connected(&others, &own));
    assert!(ingress_ready(false, &None, &connected, &own));
    assert!(!ingress_ready(false, &None, &others, &own));
    assert!(!ingress_ready(false, &None, &vec![], &own));
    assert!(!ingress_ready(true, &None, &connected, &own));
    let fixed = Some(HttpHostRoutes::single(
        HttpHostname::from_canonical(String::from("demo.example.test")),
        tunnel("tunnel-dev"),
    ));
    assert!(ingress_ready(false, &fixed, &connected, &own));
    assert!(!ingress_ready(false, &fixed, &others, &own));
    assert!(!ingress_tunnel_connected(&fixed, &others, &own));
    let expired = Some(dynamic(HttpsRouteSourceHealth::Expired));
    assert!(!ingress_ready(false, &expired, &connected, &own));
    let live = Some(dynamic(HttpsRouteSourceHealth::Live));
    assert!(ingress_ready(false, &live, &vec![], &own));
}

#[test]
fn operations_requests_are_answered_by_path() {
    assert_eq!(
        read_operations_request(b"POST", b"/healthz", None, false),
        OperationsRequest::MethodNotAllowed
    );
    assert_eq!(
        read_operations_request(b"GET", b"/healthz", None, false),
        OperationsRequest::Health
    );
    assert_eq!(
        read_operations_request(b"HEAD", b"/readyz", None, false),
        OperationsRequest::Readiness
    );
    assert_eq!(
        read_operations_request(b"GET", b"/metrics", None, false),
        OperationsRequest::Metrics
    );
    assert_eq!(
        read_operations_request(b"GET", b"/elsewhere", None, false),
        OperationsRequest::NotFound
    );
    let mut counters = operations_counters();
    let health = serve_request(
        OperationsRequest::Health,
        false,
        &metric_snapshot(),
        &None,
        &mut counters,
    );
    assert_eq!(health.status, 200);
    assert_eq!(health.body, b"ok\n");
    let missing = serve_request(
        OperationsRequest::NotFound,
        false,
        &metric_snapshot(),
        &None,
        &mut counters,
    );
    assert_eq!(missing.status, 404);
    let mut unready = metric_snapshot();
    unready.ready = false;
    let readiness = serve_request(
        OperationsRequest::Readiness,
        false,
        &unready,
        &None,
        &mut counters,
    );
    assert_eq!(readiness.status, 503);
}

#[test]
fn metrics_are_collected_from_what_the_edge_knows() {
    let routes = dynamic(HttpsRouteSourceHealth::Live);
    let ingress = https_metric_snapshot(HttpIngressStatus::default(), &routes, None);
    let snapshot = collect_metrics(
        false,
        &Some(routes),
        &vec![TunnelId::from_checked(String::from("tunnel-dev"))],
        &TunnelId::from_checked(String::from("tunnel-other")),
        EdgeAuthorizationStatus {
            version: Some(9),
            source: AuthorizationSourceStatus::Stale,
            revoked_sessions: 4,
        },
        no_logging(),
        no_transport(),
        operations_counters(),
        ingress,
    );
    assert!(snapshot.tunnel_connected);
    assert_eq!(snapshot.authorization_version, 9);
    let text = render_metrics(&snapshot);
    assert!(text.contains("tunnelproxy_edge_authorization_source{source=\"stale\"} 1\n"));
    assert!(text.contains("tunnelproxy_edge_tunnel_connected 1\n"));
}

#[test]
fn operations_listeners_hold_so_many_connections() {
    let mut config = EdgeOperationsConfig::loopback(loopback(9090));
    config.max_concurrent_connections = 1;
    let mut runtime = EdgeOperationsRuntime::bind(config, Ok(loopback(9090))).unwrap();
    assert_eq!(runtime.step(OperationsEvent::Accepted), OperationsStep::Serve);
    assert_eq!(runtime.step(OperationsEvent::Accepted), OperationsStep::Close);
    assert_eq!(
        runtime.step(OperationsEvent::ConnectionEnded),
        OperationsStep::Wait
    );
    assert_eq!(
        runtime.step(OperationsEvent::ShutdownRequested),
        OperationsStep::Stop
    );
    runtime.control.begin_draining();
    assert!(runtime.control.draining);
    let outcome = runtime.finish(3, Some(1)).unwrap();
    assert_eq!(outcome.accepted_connections, 1);
    assert_eq!(outcome.capacity_rejections, 1);
    assert_eq!(
        outcome.shutdown,
        RuntimeShutdownOutcome::Forced {
            completed_tasks: 2,
            aborted_tasks: 1
        }
    );
    assert!(outcome.was_forced());
    let mut failing = EdgeOperationsRuntime::bind(config, Ok(loopback(9090))).unwrap();
    assert_eq!(
        failing.step(OperationsEvent::AcceptFailed(std::io::Error::other("gone"))),
        OperationsStep::Stop
    );
    let error = failing.finish(0, None).unwrap_err();
    assert_eq!(error.message(), "operations listener accept failed: gone");
    config.max_headers = 0;
    assert!(matches!(
        EdgeOperationsRuntime::bind(config, Ok(loopback(9090))),
        Err(EdgeOperationsError::InvalidConfig(_))
    ));
}
