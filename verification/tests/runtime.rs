//! The edge as a process: its configuration, its supervision and its end.

use tunnelproxy_edge::clock::Duration;
use tunnelproxy_edge::http_routes::{HttpsRouteCatalog, HttpsRouteSourceHealth};
use tunnelproxy_edge::multiplex::SnapshotSourceHealth;
use tunnelproxy_edge::names::TunnelId;
use tunnelproxy_edge::net::{IpAddr, SocketAddr};
use tunnelproxy_edge::protocol::TransportSessionId;
use tunnelproxy_edge::runtime::RegistrationGrants;
use tunnelproxy_edge::shutdown::{DrainEvent, DrainProgress};
use tunnelproxy_edge::snapshot_runtime::{
    finish_run, prepare, prepare_with_https_routes, SnapshotBootstrapSource, SnapshotRunEnd,
};
use tunnelproxy_edge::supervision::{
    operations_startup_failure, EdgeSupervisor, StopAction, StopCause, StopReports, TunnelChange,
};
use tunnelproxy_edge::{
    EdgeOperationsConfig, EdgeOperationsError, EdgeRegistrationPolicy, EdgeRuntime,
    EdgeRuntimeConfig, EdgeRuntimeConfigError, EdgeRuntimeError, EdgeRuntimeOutcome,
    EdgeTransportSecurity, RawIngressExposurePolicy, RawIngressRouteError, RuntimeShutdownConfig,
    RuntimeShutdownOutcome, SnapshotAwareEdgeRuntime, SnapshotAwareEdgeRuntimeError,
};

fn loopback(port: u16) -> SocketAddr {
    SocketAddr::new(IpAddr::v4(127, 0, 0, 1), port)
}

fn tunnel(name: &str) -> TunnelId {
    TunnelId::from_checked(name.to_string())
}

fn session(value: u64) -> TransportSessionId {
    TransportSessionId::new(value).unwrap()
}

fn drained(completed_tasks: usize) -> RuntimeShutdownOutcome {
    RuntimeShutdownOutcome::Drained { completed_tasks }
}

#[test]
fn defaults_are_single_agent_and_valid() {
    let config = EdgeRuntimeConfig::dev_defaults();
    assert_eq!(config.multiplex.agent_listener.max_agent_sessions, 1);
    assert!(config.validate().is_ok());
}

#[test]
fn public_raw_listener_requires_explicit_secure_dynamic_policy() {
    let mut config = EdgeRuntimeConfig::dev_defaults();
    config.raw_listen_addr = SocketAddr::new(IpAddr::v4(0, 0, 0, 0), 7000);
    assert!(matches!(
        config.validate(),
        Err(EdgeRuntimeConfigError::NonLoopbackRawListener(_))
    ));
    config.raw_exposure = RawIngressExposurePolicy::Public {
        max_connections_per_ip: 1,
    };
    assert!(matches!(
        config.validate(),
        Err(EdgeRuntimeConfigError::PublicRawRequiresMutualTls)
    ));
    config.raw_exposure = RawIngressExposurePolicy::Public {
        max_connections_per_ip: 0,
    };
    assert!(matches!(
        config.validate(),
        Err(EdgeRuntimeConfigError::ZeroRawConnectionsPerIp)
    ));
    config.raw_exposure = RawIngressExposurePolicy::Public {
        max_connections_per_ip: 33,
    };
    assert!(matches!(
        config.validate(),
        Err(EdgeRuntimeConfigError::RawConnectionsPerIpExceedGlobal)
    ));
}

#[test]
fn raw_tunnel_must_exist_in_registration_policy() {
    let mut config = EdgeRuntimeConfig::dev_defaults();
    config.tunnel_id = tunnel("unconfigured-tunnel");
    assert!(matches!(
        config.validate(),
        Err(EdgeRuntimeConfigError::RawTunnelNotAuthorized(_))
    ));
}

#[test]
fn shutdown_report_detects_forced_stage() {
    let report = EdgeRuntimeOutcome {
        agent_addr: loopback(7100),
        raw_addr: None,
        agent_sessions_seen: 1,
        route_generations: 1,
        successful_recoveries: 0,
        raw_routes: drained(0),
        https_ingress: None,
        operations: None,
        agent_sessions: RuntimeShutdownOutcome::Forced {
            completed_tasks: 0,
            aborted_tasks: 1,
        },
    };
    assert!(report.was_forced());
}

#[test]
fn further_runtime_faults_are_reported() {
    let mut config = EdgeRuntimeConfig::dev_defaults();
    config.multiplex.agent_listener.max_agent_sessions = 2;
    let fault = config.validate().unwrap_err();
    assert!(matches!(
        fault,
        EdgeRuntimeConfigError::AgentCapacityMustBeOne
    ));
    assert_eq!(
        EdgeRuntimeError::InvalidConfig(fault).message(""),
        "invalid Edge runtime config: single-tunnel Edge requires max_agent_sessions = 1"
    );
    let mut config = EdgeRuntimeConfig::dev_defaults();
    config.max_raw_connections = 0;
    assert!(matches!(
        config.validate(),
        Err(EdgeRuntimeConfigError::ZeroRawConnections)
    ));
    let mut config = EdgeRuntimeConfig::dev_defaults();
    config.max_raw_connections = u32::MAX as usize + 1;
    assert!(matches!(
        config.validate(),
        Err(EdgeRuntimeConfigError::RawConnectionLimitTooLarge)
    ));
    let mut config = EdgeRuntimeConfig::dev_defaults();
    config.operations = Some(EdgeOperationsConfig::loopback(SocketAddr::new(
        IpAddr::v4(10, 0, 0, 1),
        1,
    )));
    assert!(matches!(
        config.validate(),
        Err(EdgeRuntimeConfigError::Operations(_))
    ));
    let mut config = EdgeRuntimeConfig::dev_defaults();
    config.shutdown = RuntimeShutdownConfig::new(Duration { nanos: 0 });
    assert!(matches!(
        config.validate(),
        Err(EdgeRuntimeConfigError::ZeroDrainTimeout)
    ));
    let mut config = EdgeRuntimeConfig::dev_defaults();
    config.raw_exposure = RawIngressExposurePolicy::Public {
        max_connections_per_ip: 1,
    };
    config.multiplex.security = EdgeTransportSecurity::MutualTls;
    config.multiplex.registration = EdgeRegistrationPolicy::MutualTls;
    assert!(matches!(
        config.validate(),
        Err(EdgeRuntimeConfigError::PublicRawRequiresLiveAuthorization)
    ));
    config.grants.dynamic_snapshots = true;
    assert!(config.validate().is_ok());
    assert!(config.raw_route().validate().is_ok());
    assert!(config.https_endpoint().is_none());
    config.operations = Some(EdgeOperationsConfig::loopback(loopback(9090)));
    config.shutdown = RuntimeShutdownConfig::new(Duration::from_secs(3));
    let endpoint = config.operations_endpoint().unwrap();
    assert_eq!(endpoint.shutdown.drain_timeout, Duration::from_secs(3));
    assert_eq!(endpoint.listen_addr, loopback(9090));
}

fn raw_edge() -> EdgeSupervisor {
    let edge = EdgeRuntime::bind(
        EdgeRuntimeConfig::dev_defaults(),
        Ok(loopback(7100)),
        None,
        None,
    )
    .unwrap();
    assert_eq!(edge.agent_addr(), loopback(7100));
    assert!(edge.router().connected_session_ids().is_empty());
    edge.start(Some(loopback(7000)))
}

#[test]
fn sessions_are_counted_as_they_come() {
    let mut edge = raw_edge();
    let served = |id| vec![(tunnel("other"), session(9)), (tunnel("tunnel-dev"), session(id))];
    assert_eq!(
        edge.watch.tunnels_changed(&served(1)),
        TunnelChange::Connected(session(1))
    );
    assert_eq!(
        edge.watch.tunnels_changed(&served(1)),
        TunnelChange::Unchanged
    );
    assert_eq!(
        edge.watch.tunnels_changed(&Vec::new()),
        TunnelChange::Disconnected
    );
    assert_eq!(
        edge.watch.tunnels_changed(&served(2)),
        TunnelChange::Connected(session(2))
    );
    assert_eq!(edge.watch.agent_sessions_seen, 2);
    assert_eq!(
        edge.begin_stop(&StopCause::Requested),
        vec![
            StopAction::MarkDraining,
            StopAction::StopRoutes,
            StopAction::StopOperations,
            StopAction::StopTransport
        ]
    );
    let outcome = edge
        .finish_stop(
            StopCause::Requested,
            StopReports {
                routes: Some(Ok(drained(1))),
                https: None,
                operations: None,
                transport: Some(Ok(Ok(drained(2)))),
            },
        )
        .unwrap();
    assert_eq!(outcome.agent_sessions_seen, 2);
    assert_eq!(outcome.successful_recoveries, 1);
    assert_eq!(outcome.raw_addr, Some(loopback(7000)));
    assert_eq!(outcome.raw_routes, drained(1));
    assert_eq!(outcome.agent_sessions, drained(2));
    assert!(!outcome.was_forced());
}

#[test]
fn unasked_ends_are_failures() {
    let edge = raw_edge();
    let ended = StopCause::TransportEnded(Ok(Ok(drained(0))));
    assert_eq!(
        edge.begin_stop(&ended),
        vec![
            StopAction::MarkDraining,
            StopAction::StopRoutes,
            StopAction::StopOperations
        ]
    );
    assert!(matches!(
        edge.finish_stop(
            ended,
            StopReports {
                routes: Some(Ok(drained(1))),
                https: None,
                operations: None,
                transport: None,
            },
        ),
        Err(EdgeRuntimeError::TransportStopped)
    ));
    let edge = EdgeSupervisor::start(
        loopback(7100),
        Some(loopback(7000)),
        true,
        tunnel("tunnel-dev"),
    );
    assert!(matches!(
        edge.finish_stop(
            StopCause::OperationsEnded(Err(String::from("panicked"))),
            StopReports {
                routes: Some(Err(RawIngressRouteError::ManagerShuttingDown)),
                https: None,
                operations: None,
                transport: Some(Ok(Ok(drained(0)))),
            },
        ),
        Err(EdgeRuntimeError::RouteShutdown(
            RawIngressRouteError::ManagerShuttingDown
        ))
    ));
    let https = EdgeSupervisor::start(loopback(7100), None, false, tunnel("tunnel-dev"));
    let error = https
        .finish_stop(
            StopCause::HttpsEnded(Err(String::from("panicked"))),
            StopReports {
                routes: None,
                https: None,
                operations: None,
                transport: Some(Ok(Ok(drained(0)))),
            },
        )
        .unwrap_err();
    assert_eq!(error.message(""), "HTTPS ingress task failed: panicked");
    assert!(https.begin_stop(&StopCause::TunnelsClosed).is_empty());
    let failure = operations_startup_failure(
        EdgeOperationsError::Bind(std::io::Error::other("in use")),
        Err(RawIngressRouteError::ManagerShuttingDown),
    );
    assert_eq!(
        failure.message(""),
        "operations endpoint startup failed (operations listener bind failed: in use) and raw-route rollback also failed (raw ingress route manager is shutting down)"
    );
}

fn granted() -> RegistrationGrants {
    RegistrationGrants {
        tunnels: vec![tunnel("tunnel-dev")],
        live_updates: true,
        dynamic_snapshots: true,
    }
}

#[test]
fn snapshot_edges_start_from_what_was_granted() {
    let mut base = EdgeRuntimeConfig::dev_defaults();
    base.multiplex.security = EdgeTransportSecurity::MutualTls;
    let config = prepare(base, Ok(granted())).unwrap();
    assert_eq!(
        config.multiplex.registration,
        EdgeRegistrationPolicy::MutualTls
    );
    let runtime = SnapshotAwareEdgeRuntime::bind(
        config,
        Ok(loopback(7100)),
        3,
        SnapshotSourceHealth::Stale,
        SnapshotBootstrapSource::DiskCache,
    )
    .unwrap();
    assert_eq!(runtime.agent_addr(), loopback(7100));
    assert_eq!(runtime.router().authorization_status().version, Some(3));
    assert_eq!(
        runtime.bootstrap_source().as_str(),
        "snapshot-stale-cache"
    );
    assert_eq!(
        prepare(EdgeRuntimeConfig::dev_defaults(), Err(String::from("refused")))
            .unwrap_err()
            .message(""),
        "Edge snapshot bootstrap failed: refused"
    );
    let catalog = || HttpsRouteCatalog {
        version: 1,
        health: HttpsRouteSourceHealth::Live,
        routes: Vec::new(),
    };
    assert!(matches!(
        prepare_with_https_routes(
            EdgeRuntimeConfig::dev_defaults(),
            Ok(granted()),
            Ok(catalog())
        ),
        Err(SnapshotAwareEdgeRuntimeError::MissingHttpsIngress)
    ));
    assert!(matches!(
        prepare_with_https_routes(
            EdgeRuntimeConfig::dev_defaults(),
            Ok(granted()),
            Err(String::from("refused"))
        ),
        Err(SnapshotAwareEdgeRuntimeError::HttpsRouteBootstrap(_))
    ));
}

fn well() -> EdgeRuntimeOutcome {
    EdgeRuntimeOutcome {
        agent_addr: loopback(7100),
        raw_addr: None,
        agent_sessions_seen: 0,
        route_generations: 1,
        successful_recoveries: 0,
        raw_routes: drained(0),
        https_ingress: None,
        operations: None,
        agent_sessions: drained(0),
    }
}

#[test]
fn losing_the_snapshot_service_is_a_failure() {
    assert!(finish_run(SnapshotRunEnd::Requested {
        edge: Ok(Ok(well())),
        snapshots: Ok(Ok(())),
        routes: None,
    })
    .is_ok());
    assert!(finish_run(SnapshotRunEnd::EdgeEnded(Ok(Ok(well())))).is_ok());
    assert!(matches!(
        finish_run(SnapshotRunEnd::SnapshotsEnded {
            snapshots: Ok(Ok(())),
            edge: Ok(Ok(well())),
        }),
        Err(SnapshotAwareEdgeRuntimeError::SnapshotStopped)
    ));
    assert!(matches!(
        finish_run(SnapshotRunEnd::SnapshotsEnded {
            snapshots: Ok(Err(String::from("gone"))),
            edge: Err(()),
        }),
        Err(SnapshotAwareEdgeRuntimeError::EdgeTask)
    ));
    assert!(matches!(
        finish_run(SnapshotRunEnd::RoutesEnded(Err(()))),
        Err(SnapshotAwareEdgeRuntimeError::HttpsRouteTask)
    ));
    assert!(matches!(
        finish_run(SnapshotRunEnd::Requested {
            edge: Ok(Ok(well())),
            snapshots: Ok(Ok(())),
            routes: Some(Ok(Err(String::from("gone")))),
        }),
        Err(SnapshotAwareEdgeRuntimeError::HttpsRoute(_))
    ));
}

#[test]
fn draining_counts_what_ended_and_what_did_not() {
    let mut drain = DrainProgress::start();
    assert_eq!(drain.step(DrainEvent::TaskEnded), None);
    assert_eq!(drain.step(DrainEvent::TaskEnded), None);
    assert_eq!(
        drain.step(DrainEvent::DeadlinePassed { left: 3 }),
        Some(RuntimeShutdownOutcome::Forced {
            completed_tasks: 2,
            aborted_tasks: 3
        })
    );
    assert_eq!(drain.step(DrainEvent::NoneLeft), Some(drained(2)));
}
