//! Echo, relay and forwarding.

use tunnelproxy_edge::clock::{Duration, Instant};
use tunnelproxy_edge::forward::{
    forward_after_dial, forward_from_relay, handle_echo_event, CopyProgress, CopyStep,
    DialOutcome, EchoEvent, EchoStep, RelayEvent, RelayProgress, RelayStep,
    DEFAULT_RELAY_IDLE_TIMEOUT, MAX_RELAY_IDLE_TIMEOUT,
};
use tunnelproxy_edge::net::{IpAddr, SocketAddr};
use tunnelproxy_edge::{
    ConnectionId, ConnectionIdAllocator, ConnectionLifecycle, ConnectionOutcome, EchoConfig,
    EchoConfigError, ForwardConfig, ForwardConfigError, ForwardError, Forwarder, RelayDirection,
    RelayError, RelayStats,
};

fn loopback(port: u16) -> SocketAddr {
    SocketAddr::new(IpAddr::v4(127, 0, 0, 1), port)
}

fn idle_default() -> Duration {
    Duration {
        nanos: DEFAULT_RELAY_IDLE_TIMEOUT,
    }
}

fn idle_too_long() -> Duration {
    Duration {
        nanos: MAX_RELAY_IDLE_TIMEOUT + 1_000_000,
    }
}

#[test]
fn connection_id_allocator_is_monotonic() {
    let mut alloc = ConnectionIdAllocator::new();
    let a = alloc.next_id();
    let b = alloc.next_id();
    let c = alloc.next_id();
    assert_eq!(a, ConnectionId(1));
    assert_eq!(b, ConnectionId(2));
    assert_eq!(c, ConnectionId(3));
    assert_eq!(a.to_string(), "conn#1");
}

#[test]
fn dev_defaults_validate() {
    ForwardConfig::dev_defaults()
        .validate()
        .expect("dev defaults must be valid");
}

#[test]
fn echo_config_is_strict_and_bounded() {
    EchoConfig::default()
        .validate()
        .expect("echo defaults must be valid");

    let config = EchoConfig {
        max_connections: 0,
        ..EchoConfig::default()
    };
    assert_eq!(config.validate(), Err(EchoConfigError::ZeroMaxConnections));

    let config = EchoConfig {
        max_connections: tokio::sync::Semaphore::MAX_PERMITS + 1,
        ..EchoConfig::default()
    };
    assert_eq!(config.validate(), Err(EchoConfigError::TooManyConnections));

    let config = EchoConfig {
        max_connections: 1,
        idle_timeout: Duration { nanos: 0 },
    };
    assert_eq!(config.validate(), Err(EchoConfigError::IdleTimeoutTooSmall));

    let config = EchoConfig {
        idle_timeout: idle_too_long(),
        ..config
    };
    assert_eq!(config.validate(), Err(EchoConfigError::IdleTimeoutTooLarge));

    let most = EchoConfig {
        max_connections: tokio::sync::Semaphore::MAX_PERMITS,
        ..EchoConfig::default()
    };
    assert_eq!(most.validate(), Ok(()));
}

#[test]
fn validate_rejects_zero_max_connections() {
    let cfg = ForwardConfig {
        listen_addr: loopback(0),
        upstream_addr: loopback(1),
        max_connections: 0,
        connect_timeout: Duration::from_secs(5),
        relay_idle_timeout: idle_default(),
    };
    assert_eq!(cfg.validate(), Err(ForwardConfigError::ZeroMaxConnections));
}

#[test]
fn validate_rejects_zero_connect_timeout() {
    let cfg = ForwardConfig {
        listen_addr: loopback(0),
        upstream_addr: loopback(1),
        max_connections: 16,
        connect_timeout: Duration { nanos: 0 },
        relay_idle_timeout: idle_default(),
    };
    assert_eq!(cfg.validate(), Err(ForwardConfigError::ZeroConnectTimeout));
}

#[test]
fn validate_rejects_relay_idle_timeout_outside_bounds() {
    let mut cfg = ForwardConfig::dev_defaults();
    cfg.relay_idle_timeout = Duration { nanos: 0 };
    assert_eq!(
        cfg.validate(),
        Err(ForwardConfigError::RelayIdleTimeoutTooSmall)
    );

    cfg.relay_idle_timeout = idle_too_long();
    assert_eq!(
        cfg.validate(),
        Err(ForwardConfigError::RelayIdleTimeoutTooLarge)
    );
}

#[test]
fn forward_error_categories_and_phases_are_stable() {
    let cap = ForwardError::CapacityExhausted;
    assert_eq!(cap.category(), "capacity_exhausted");
    assert_eq!(cap.phase(), ConnectionLifecycle::CapacityRejected);

    let io = std::io::Error::other("x");
    let up = ForwardError::UpstreamConnect { source: io };
    assert_eq!(up.category(), "upstream_connect_failed");
    assert_eq!(up.phase(), ConnectionLifecycle::UpstreamConnectFailed);

    let to = ForwardError::UpstreamConnectTimeout;
    assert_eq!(to.category(), "upstream_connect_timeout");
    assert_eq!(to.phase(), ConnectionLifecycle::UpstreamConnectTimeout);

    let relay = ForwardError::RelayIo {
        from: RelayDirection::Downstream,
        to: RelayDirection::Upstream,
        source: std::io::Error::other("x"),
    };
    assert_eq!(relay.category(), "relay_io_failed");
    assert_eq!(relay.phase(), ConnectionLifecycle::RelayIoFailed);

    let idle = ForwardError::RelayIdleTimeout {
        idle_timeout: idle_default(),
    };
    assert_eq!(idle.category(), "relay_idle_timeout");
    assert_eq!(idle.phase(), ConnectionLifecycle::RelayIdleTimeout);
}

#[test]
fn relay_stats_default_is_zero() {
    let stats = RelayStats::default();
    assert_eq!(stats.bytes_downstream_to_upstream, 0);
    assert_eq!(stats.bytes_upstream_to_downstream, 0);
}

#[test]
fn relay_error_display_does_not_leak_payloads() {
    let err = RelayError::UpstreamConnect {
        upstream: loopback(1),
        source: std::io::Error::new(std::io::ErrorKind::ConnectionRefused, "refused"),
    };
    let rendered = err.message("127.0.0.1:1");
    assert!(rendered.contains("upstream"));
    assert!(rendered.contains("refused"));
}

#[test]
fn relays_end_when_both_sides_have_ended() {
    let now = Instant { nanos: 5 };
    let mut relay = RelayProgress::start(now, Duration::from_secs(1));
    assert_eq!(relay.deadline, Instant { nanos: 1_000_000_005 });
    assert!(matches!(
        relay.step(RelayEvent::Activity(Instant { nanos: 500 })),
        RelayStep::Wait
    ));
    assert_eq!(relay.deadline, Instant { nanos: 1_000_000_500 });
    assert!(matches!(
        relay.step(RelayEvent::Ended {
            from: RelayDirection::Downstream,
            bytes: 7
        }),
        RelayStep::Wait
    ));
    match relay.step(RelayEvent::Ended {
        from: RelayDirection::Upstream,
        bytes: 9,
    }) {
        RelayStep::Completed(stats) => {
            assert_eq!(stats.bytes_downstream_to_upstream, 7);
            assert_eq!(stats.bytes_upstream_to_downstream, 9);
        }
        other => panic!("{other:?}"),
    }
    let mut idle = RelayProgress::start(now, Duration::from_secs(1));
    assert!(matches!(idle.step(RelayEvent::Idle), RelayStep::IdleTimeout));
    let mut failing = RelayProgress::start(now, Duration::from_secs(1));
    assert!(matches!(
        failing.step(RelayEvent::Failed {
            from: RelayDirection::Upstream
        }),
        RelayStep::CopyFailed {
            from: RelayDirection::Upstream,
            to: RelayDirection::Downstream
        }
    ));
    let mut copy = CopyProgress::start();
    assert!(matches!(copy.read(5), CopyStep::Write(5)));
    copy.written(5);
    assert!(matches!(copy.read(0), CopyStep::ShutDown));
    assert_eq!(copy.transferred, 5);
}

#[test]
fn echo_writes_back_what_it_read() {
    assert!(matches!(
        handle_echo_event(EchoEvent::Read(3)),
        EchoStep::WriteBack(3)
    ));
    assert!(matches!(
        handle_echo_event(EchoEvent::Read(0)),
        EchoStep::Close
    ));
    assert!(matches!(
        handle_echo_event(EchoEvent::Written),
        EchoStep::ResetIdle
    ));
    assert!(matches!(handle_echo_event(EchoEvent::Idle), EchoStep::Close));
}

#[test]
fn forwarders_refuse_what_they_cannot_hold() {
    let config = ForwardConfig {
        max_connections: 1,
        ..ForwardConfig::dev_defaults()
    };
    let mut forwarder = Forwarder::new(config).unwrap();
    assert_eq!(forwarder.available_permits(), 1);
    let (first, accepted) = forwarder.accept();
    assert_eq!(first, ConnectionId(1));
    assert!(accepted.is_ok());
    assert_eq!(forwarder.available_permits(), 0);
    let (second, refused) = forwarder.accept();
    assert_eq!(second, ConnectionId(2));
    assert!(matches!(refused, Err(ForwardError::CapacityExhausted)));
    forwarder.release();
    assert_eq!(forwarder.available_permits(), 1);
    assert_eq!(forwarder.config().max_connections, 1);
    let invalid = ForwardConfig {
        max_connections: 0,
        ..ForwardConfig::dev_defaults()
    };
    assert!(Forwarder::new(invalid).is_err());
}

#[test]
fn outcomes_name_their_final_phase() {
    assert!(forward_after_dial(DialOutcome::Connected).is_none());
    assert!(matches!(
        forward_after_dial(DialOutcome::TimedOut),
        Some(ForwardError::UpstreamConnectTimeout)
    ));
    let failed = forward_after_dial(DialOutcome::Failed(std::io::Error::other("no route"))).unwrap();
    assert_eq!(failed.phase(), ConnectionLifecycle::UpstreamConnectFailed);
    assert!(failed.message().contains("no route"));
    let idle = forward_from_relay(RelayError::IdleTimeout {
        idle_timeout: Duration::from_secs(3),
    });
    assert_eq!(idle.category(), "relay_idle_timeout");
    let mut outcome = ConnectionOutcome {
        connection_id: ConnectionId(1),
        peer: loopback(1),
        upstream: loopback(2),
        outcome: Ok(RelayStats::default()),
        duration: Duration::from_secs(1),
    };
    assert_eq!(outcome.final_phase(), ConnectionLifecycle::Closed);
    outcome.outcome = Err(idle);
    assert_eq!(
        outcome.final_phase(),
        ConnectionLifecycle::RelayIdleTimeout
    );
    assert_eq!(ConnectionLifecycle::Relaying.as_str(), "relaying");
}

#[test]
fn idle_timeouts_are_written_in_full() {
    let text = |nanos: u128| {
        RelayError::IdleTimeout {
            idle_timeout: Duration { nanos },
        }
        .message("")
    };
    assert_eq!(text(1_999_999), "relay idle timeout after 1 ms");
    assert_eq!(
        text((1 << 64) * 1_000_000),
        "relay idle timeout after 18446744073709551616 ms"
    );
}
