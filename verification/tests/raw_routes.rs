//! Raw ingress routes.

use tunnelproxy_edge::clock::Duration;
use tunnelproxy_edge::net::{IpAddr, SocketAddr};
use tunnelproxy_edge::protocol::TransportSessionId;
use tunnelproxy_edge::raw_ingress::{
    RouteEvent, RouteListener, RouteStep, RouteWaitEvent,
};
use tunnelproxy_edge::names::TunnelId;
use tunnelproxy_edge::{
    RawIngressConfigError, RawIngressExposurePolicy, RawIngressManagerConfig,
    RawIngressRouteConfig, RawIngressRouteError, RawIngressRouteId, RawIngressRouteManager,
    RawIngressRouteState, RawIngressRouteTarget, RuntimeShutdownConfig, RuntimeShutdownOutcome,
};

fn loopback(port: u16) -> SocketAddr {
    SocketAddr::new(IpAddr::v4(127, 0, 0, 1), port)
}

fn everywhere(port: u16) -> SocketAddr {
    SocketAddr::new(IpAddr::v4(0, 0, 0, 0), port)
}

fn session(value: u64) -> TransportSessionId {
    TransportSessionId::new(value).unwrap()
}

#[test]
fn route_config_defaults_are_valid() {
    let config = RawIngressRouteConfig::new(loopback(0), session(1));
    assert!(config.validate().is_ok());
}

#[test]
fn public_route_listener_is_rejected() {
    let mut config = RawIngressRouteConfig::new(everywhere(7000), session(1));
    assert!(matches!(
        config.validate(),
        Err(RawIngressConfigError::NonLoopbackListener(_))
    ));
    config.exposure = RawIngressExposurePolicy::Public {
        max_connections_per_ip: 4,
    };
    assert!(config.validate().is_ok());
}

#[test]
fn public_route_per_ip_limit_is_bounded_by_the_global_limit() {
    let mut config = RawIngressRouteConfig::new(everywhere(7000), session(1));
    config.max_concurrent_connections = 4;
    config.exposure = RawIngressExposurePolicy::Public {
        max_connections_per_ip: 0,
    };
    assert_eq!(
        config.validate(),
        Err(RawIngressConfigError::ZeroMaxConnectionsPerIp)
    );
    config.exposure = RawIngressExposurePolicy::Public {
        max_connections_per_ip: 5,
    };
    assert_eq!(
        config.validate(),
        Err(RawIngressConfigError::PerIpLimitExceedsGlobal)
    );
}

#[test]
fn zero_route_bounds_are_rejected() {
    assert!(matches!(
        RawIngressManagerConfig { max_routes: 0 }.validate(),
        Err(RawIngressConfigError::ZeroMaxRoutes)
    ));
    let mut config = RawIngressRouteConfig::new(loopback(0), session(1));
    config.max_concurrent_connections = 0;
    assert!(matches!(
        config.validate(),
        Err(RawIngressConfigError::ZeroMaxConnections)
    ));
    config.max_concurrent_connections = 1;
    config.drain_timeout = Duration { nanos: 0 };
    assert!(matches!(
        config.validate(),
        Err(RawIngressConfigError::ZeroDrainTimeout)
    ));
    config.drain_timeout = Duration::from_secs(1);
    config.target = RawIngressRouteTarget::TransportSession(TransportSessionId::invalid());
    assert!(matches!(
        config.validate(),
        Err(RawIngressConfigError::InvalidTargetSession)
    ));
}

#[test]
fn managers_hold_so_many_routes_under_growing_ids() {
    let mut manager = RawIngressRouteManager::new(RawIngressManagerConfig { max_routes: 2 }).unwrap();
    let config = RawIngressRouteConfig::for_tunnel(
        loopback(0),
        TunnelId::from_checked(String::from("tunnel-dev")),
    );
    assert!(manager.check_route(&config, false).is_ok());
    let pinned = RawIngressRouteConfig::new(loopback(0), session(3));
    assert!(matches!(
        manager.check_route(&pinned, false),
        Err(RawIngressRouteError::TargetSessionNotConnected(id)) if id == session(3)
    ));
    let first = manager.add_route(&config, loopback(1)).unwrap();
    let second = manager.add_route(&pinned, loopback(2)).unwrap();
    assert_eq!(first.route_id.get(), 1);
    assert_eq!(second.route_id.get(), 2);
    assert_eq!(first.route_id.to_string(), "raw-route#1");
    assert!(matches!(
        manager.add_route(&config, loopback(3)),
        Err(RawIngressRouteError::RouteCapacityExceeded)
    ));
    assert_eq!(manager.list_routes().len(), 2);
    assert_eq!(
        manager.get_route(first.route_id).unwrap().state,
        RawIngressRouteState::Active
    );
    assert_eq!(
        manager.remove_route(first.route_id).unwrap(),
        Duration::from_secs(10)
    );
    manager.route_removed(first.route_id);
    let missing = manager.get_route(first.route_id).unwrap_err();
    assert_eq!(
        missing.message(""),
        "raw ingress route raw-route#1 was not found"
    );
    let count = manager
        .begin_shutdown(RuntimeShutdownConfig::new(Duration::from_secs(1)))
        .unwrap();
    assert_eq!(count, 1);
    assert!(manager.routes[0].stop);
    assert_eq!(manager.routes[0].drain_timeout, Duration::from_secs(10));
    assert!(matches!(
        manager.add_route(&config, loopback(4)),
        Err(RawIngressRouteError::ManagerShuttingDown)
    ));
    manager.route_removed(second.route_id);
    assert_eq!(
        manager.finish_shutdown(count),
        RuntimeShutdownOutcome::Drained { completed_tasks: 1 }
    );
}

#[test]
fn waiting_for_a_route_ends_as_the_route_does() {
    let id = RawIngressRouteId(4);
    let draining = RouteWaitEvent::State(RawIngressRouteState::Draining);
    assert!(RawIngressRouteManager::drain_route(id, draining).is_none());
    assert!(matches!(
        RawIngressRouteManager::drain_route(id, RouteWaitEvent::State(RawIngressRouteState::Removed)),
        Some(Ok(()))
    ));
    assert!(matches!(
        RawIngressRouteManager::drain_route(id, RouteWaitEvent::TimedOut),
        Some(Err(RawIngressRouteError::DrainTimeout(route))) if route == id
    ));
    assert!(matches!(
        RawIngressRouteManager::wait_until_removed(id, RouteWaitEvent::State(RawIngressRouteState::Removed)),
        Some(Ok(()))
    ));
}

#[test]
fn routes_serve_sources_up_to_their_bounds() {
    let mut manager = RawIngressRouteManager::new(RawIngressManagerConfig { max_routes: 1 }).unwrap();
    let mut config = RawIngressRouteConfig::new(everywhere(7000), session(1));
    config.exposure = RawIngressExposurePolicy::Public {
        max_connections_per_ip: 1,
    };
    let route = manager.add_route(&config, everywhere(7000)).unwrap();
    let status = manager.get_route(route.route_id).unwrap();
    let (mut listener, started) = RouteListener::start(status, config.exposure, true);
    assert!(matches!(started, RouteStep::Continue));
    let peer = IpAddr::v4(10, 0, 0, 1);
    let RouteStep::Serve(permit) = listener.step(RouteEvent::Accepted {
        peer,
        permit_free: true,
    }) else {
        panic!("the first connection is served");
    };
    assert!(matches!(
        listener.step(RouteEvent::Accepted {
            peer,
            permit_free: true
        }),
        RouteStep::Refuse
    ));
    assert_eq!(listener.status.per_ip_capacity_rejections, 1);
    assert!(matches!(
        listener.step(RouteEvent::Accepted {
            peer,
            permit_free: false
        }),
        RouteStep::Refuse
    ));
    assert_eq!(listener.status.global_capacity_rejections, 1);
    listener.connection_ended(None, permit);
    assert_eq!(listener.status.active_connections, 0);
    assert!(matches!(
        listener.step(RouteEvent::SessionsChanged { connected: false }),
        RouteStep::Stop
    ));
    assert_eq!(
        listener.status.state,
        RawIngressRouteState::TargetDisconnected
    );
    listener.finish();
    assert_eq!(listener.status.state, RawIngressRouteState::Removed);
}

#[test]
fn routes_are_shown_as_their_listeners_report() {
    let mut manager =
        RawIngressRouteManager::new(RawIngressManagerConfig { max_routes: 2 }).unwrap();
    let config = RawIngressRouteConfig::for_tunnel(
        loopback(0),
        TunnelId::from_checked(String::from("tunnel-dev")),
    );
    assert_eq!(config.target.to_text(""), "tunnel:tunnel-dev");
    let pinned = RawIngressRouteTarget::TransportSession(TransportSessionId::new(7).unwrap());
    assert_eq!(pinned.to_text("session#7"), "session#7");
    let first = manager.add_route(&config, loopback(1)).unwrap();
    let second = manager.add_route(&config, loopback(2)).unwrap();
    let untouched = manager.get_route(second.route_id).unwrap();
    let status = manager.get_route(first.route_id).unwrap();
    let (mut listener, _) = RouteListener::start(status, config.exposure, true);
    listener.step(RouteEvent::Accepted {
        peer: loopback(9).ip(),
        permit_free: true,
    });
    manager.status_changed(listener.status.clone());
    let shown = manager.get_route(first.route_id).unwrap();
    assert_eq!(shown.active_connections, 1);
    assert_eq!(shown, listener.status);
    assert_eq!(manager.get_route(second.route_id).unwrap(), untouched);
    manager.remove_route(first.route_id).unwrap();
    listener.step(RouteEvent::Stop(true));
    manager.status_changed(listener.status.clone());
    let shown = manager.get_route(first.route_id).unwrap();
    assert_eq!(shown.state, RawIngressRouteState::Draining);
    assert!(manager.routes[0].stop);
    manager.route_removed(first.route_id);
    manager.status_changed(listener.status.clone());
    assert_eq!(manager.list_routes(), vec![untouched]);
}
