//! Agents: their handshake, their sessions and their streams.

use tunnelproxy_edge::agent_transport::{
    registered_payload, AgentListenerBindError, AgentListenerConfig, AgentListenerConfigError,
    AgentTransportError, AgentTransportListener, Handshake, HandshakeErrorCode, HandshakeEvent,
    HandshakeState, HandshakeStep, ProtocolViolation, TransportSessionIdAllocator,
};
use tunnelproxy_edge::clock::Duration;
use tunnelproxy_edge::edge_session::{Delivery, EdgeSession, SessionFrame, SessionStep};
use tunnelproxy_edge::ingress_stream::{
    refusal_error, restarts_idle_time, IngressStream, OpeningEvent, StreamEvent, StreamRefusal, StreamStep,
};
use tunnelproxy_edge::multiplex::{
    SnapshotSourceHealth, MULTIPLEXED_DATA_PAYLOAD_SIZE,
};
use tunnelproxy_edge::multiplex_runtime::{
    secure_transport, AgentRejection, FrameWriter, QueueEvent, TlsHandshakeEnd, TransportEvent,
    TransportStartError, TransportStep, WriterStep,
};
use tunnelproxy_edge::names::TunnelId;
use tunnelproxy_edge::net::{IpAddr, SocketAddr};
use tunnelproxy_edge::protocol::{FrameType, StreamId, StreamResetCode, TransportSessionId};
use tunnelproxy_edge::router::{finish_open, stream_requested, LiveSession, QueueOutcome};
use tunnelproxy_edge::{
    AuthorizationSourceStatus, EdgeAuthorizationStatus, EdgeSessionRouter, EdgeTransportSecurity,
    MultiplexedEdgeConfig, MultiplexedEdgeConfigError, MultiplexedEdgeRuntime, RouteError,
    RoutedStream, RoutedStreamCloseReason,
};

fn loopback(port: u16) -> SocketAddr {
    SocketAddr::new(IpAddr::v4(127, 0, 0, 1), port)
}

fn session(value: u64) -> TransportSessionId {
    TransportSessionId::new(value).unwrap()
}

fn tunnel(name: &str) -> TunnelId {
    TunnelId::from_checked(name.to_string())
}

#[test]
fn agent_listener_config_dev_defaults_valid() {
    let cfg = AgentListenerConfig::dev_defaults();
    assert!(cfg.validate().is_ok());
}

#[test]
fn agent_listener_config_rejects_zero_sessions() {
    let cfg = AgentListenerConfig {
        listen_addr: loopback(0),
        max_agent_sessions: 0,
        handshake_timeout: Duration::from_secs(10),
    };
    assert_eq!(
        cfg.validate(),
        Err(AgentListenerConfigError::ZeroMaxSessions)
    );
}

#[test]
fn agent_listener_config_rejects_zero_timeout() {
    let cfg = AgentListenerConfig {
        listen_addr: loopback(0),
        max_agent_sessions: 10,
        handshake_timeout: Duration { nanos: 0 },
    };
    assert_eq!(
        cfg.validate(),
        Err(AgentListenerConfigError::ZeroHandshakeTimeout)
    );
}

#[test]
fn transport_session_id_allocator_starts_at_one() {
    let mut alloc = TransportSessionIdAllocator::new();
    let id1 = alloc.next_id();
    let id2 = alloc.next_id();
    assert!(id1.is_some());
    assert!(id2.is_some());
    assert!(id1.unwrap() != id2.unwrap());
    assert!(!id1.unwrap().is_invalid());
    assert!(!id2.unwrap().is_invalid());
    assert_eq!(id1.unwrap().get(), 1);
    assert_eq!(id2.unwrap().get(), 2);
}

#[test]
fn transport_session_id_allocator_monotonic() {
    let mut alloc = TransportSessionIdAllocator::new();
    let ids: Vec<_> = (0..100).filter_map(|_| alloc.next_id()).collect();
    for window in ids.windows(2) {
        assert!(window[0] < window[1]);
    }
    assert_eq!(ids.len(), 100);
}

#[test]
fn session_ids_are_never_zero() {
    let mut alloc = TransportSessionIdAllocator { counter: u64::MAX };
    assert_eq!(alloc.next_id(), None);
    assert!(TransportSessionId::new(0).is_none());
    assert!(TransportSessionId::invalid().is_invalid());
}

#[test]
fn handshake_state_as_str() {
    assert_eq!(HandshakeState::AwaitHello.as_str(), "await_hello");
    assert_eq!(HandshakeState::AwaitRegister.as_str(), "await_register");
    assert_eq!(HandshakeState::Established.as_str(), "established");
    assert_eq!(HandshakeState::Closed.as_str(), "closed");
}

#[test]
fn defaults_are_bounded_and_valid() {
    let config = MultiplexedEdgeConfig::dev_defaults();
    assert!(config.validate().is_ok());
    assert!(config.data_queue_capacity * MULTIPLEXED_DATA_PAYLOAD_SIZE < 4 * 1024 * 1024);
}

#[test]
fn public_listener_is_rejected() {
    let mut config = MultiplexedEdgeConfig::dev_defaults();
    config.agent_listener.listen_addr = SocketAddr::new(IpAddr::v4(0, 0, 0, 0), 7100);
    assert!(matches!(
        config.validate(),
        Err(MultiplexedEdgeConfigError::NonLoopbackAgentListener(_))
    ));
}

#[test]
fn each_transport_fault_is_reported() {
    let base = MultiplexedEdgeConfig::dev_defaults();
    let zero = Duration { nanos: 0 };
    let cases = [
        (
            MultiplexedEdgeConfig {
                security: EdgeTransportSecurity::MutualTls,
                ..base
            },
            MultiplexedEdgeConfigError::SecurityRegistrationMismatch,
        ),
        (
            MultiplexedEdgeConfig {
                max_streams_per_session: 0,
                ..base
            },
            MultiplexedEdgeConfigError::ZeroMaxStreams,
        ),
        (
            MultiplexedEdgeConfig {
                session_command_capacity: 0,
                ..base
            },
            MultiplexedEdgeConfigError::ZeroSessionCommandQueue,
        ),
        (
            MultiplexedEdgeConfig {
                per_stream_queue_capacity: 0,
                ..base
            },
            MultiplexedEdgeConfigError::ZeroPerStreamQueue,
        ),
        (
            MultiplexedEdgeConfig {
                control_queue_capacity: 0,
                ..base
            },
            MultiplexedEdgeConfigError::ZeroControlQueue,
        ),
        (
            MultiplexedEdgeConfig {
                data_queue_capacity: 0,
                ..base
            },
            MultiplexedEdgeConfigError::ZeroDataQueue,
        ),
        (
            MultiplexedEdgeConfig {
                stream_open_timeout: zero,
                ..base
            },
            MultiplexedEdgeConfigError::ZeroOpenTimeout,
        ),
        (
            MultiplexedEdgeConfig {
                stream_idle_timeout: zero,
                ..base
            },
            MultiplexedEdgeConfigError::ZeroIdleTimeout,
        ),
    ];
    for (config, fault) in cases {
        assert_eq!(config.validate(), Err(fault));
    }
    assert_eq!(
        MultiplexedEdgeConfigError::NonLoopbackAgentListener(loopback(1)).message("10.0.0.1:1"),
        "Agent listener must use a loopback address, got 10.0.0.1:1"
    );
}

fn hello() -> HandshakeEvent {
    HandshakeEvent::Frame {
        frame_type: FrameType::Hello,
        payload: vec![7],
    }
}

fn register() -> HandshakeEvent {
    HandshakeEvent::Frame {
        frame_type: FrameType::Register,
        payload: Vec::new(),
    }
}

#[test]
fn handshakes_need_hello_and_register_in_order() {
    let mut ids = TransportSessionIdAllocator::new();
    let mut handshake = Handshake::start();
    assert_eq!(
        handshake.perform_handshake(hello(), 7, &mut ids),
        HandshakeStep::Await
    );
    assert_eq!(handshake.state, HandshakeState::AwaitRegister);
    assert_eq!(
        handshake.perform_handshake(register(), 7, &mut ids),
        HandshakeStep::Register(session(1))
    );
    assert_eq!(handshake.state, HandshakeState::Established);

    let mut reversed = Handshake::start();
    assert_eq!(
        reversed.perform_handshake(register(), 7, &mut ids),
        HandshakeStep::Reject {
            code: HandshakeErrorCode::UnexpectedFrame,
            error: AgentTransportError::ProtocolViolation {
                reason: ProtocolViolation::ExpectedHello
            }
        }
    );
    let mut foreign = Handshake::start();
    assert_eq!(
        foreign.perform_handshake(hello(), 8, &mut ids),
        HandshakeStep::Reject {
            code: HandshakeErrorCode::InvalidHello,
            error: AgentTransportError::ProtocolViolation {
                reason: ProtocolViolation::UnknownHelloRole
            }
        }
    );
    let mut gone = Handshake::start();
    let HandshakeStep::Fail(error) = gone.perform_handshake(HandshakeEvent::EndOfInput, 7, &mut ids)
    else {
        panic!("an ended connection has no session");
    };
    assert_eq!(error.message(""), "unexpected EOF in state AwaitHello");
    assert_eq!(registered_payload(session(258)), vec![0, 0, 0, 0, 0, 0, 1, 2]);
}

#[test]
fn agent_listeners_hold_so_many_sessions() {
    let config = AgentListenerConfig {
        max_agent_sessions: 1,
        ..AgentListenerConfig::dev_defaults()
    };
    let mut listener = AgentTransportListener::bind(config, Ok(loopback(7100))).unwrap();
    assert_eq!(listener.local_addr(), loopback(7100));
    assert!(listener.accept());
    assert!(!listener.accept());
    listener.session_ended();
    assert!(listener.accept());
    let invalid = AgentListenerConfig {
        max_agent_sessions: 0,
        ..config
    };
    assert!(matches!(
        AgentTransportListener::bind(invalid, Ok(loopback(1))),
        Err(AgentListenerBindError::InvalidConfig(
            AgentListenerConfigError::ZeroMaxSessions
        ))
    ));
    assert!(matches!(
        AgentTransportListener::bind(config, Err(std::io::Error::other("in use"))),
        Err(AgentListenerBindError::Bind(_))
    ));
}

fn frame(frame_type: FrameType, stream: u32, payload_len: usize) -> SessionFrame {
    SessionFrame {
        frame_type,
        stream_id: StreamId { value: stream },
        payload_len,
        heartbeat: None,
        reset: None,
    }
}

#[test]
fn sessions_open_streams_up_to_their_bound() {
    let mut edge = EdgeSession::start(session(1), 1);
    let first = edge.open_requested().unwrap();
    assert_eq!(
        edge.open_requested(),
        Err(RouteError::CapacityExceeded(session(1)))
    );
    let data = frame(FrameType::Data, first.get(), 10);
    assert!(matches!(edge.frame_received(data), SessionStep::Deliver));
    assert!(matches!(
        edge.frame_delivered(frame(FrameType::Data, first.get(), 10), Delivery::Full),
        SessionStep::Reset {
            code: StreamResetCode::FlowControlExceeded,
            ..
        }
    ));
    assert!(edge.streams.is_empty());
    let second = edge.open_requested().unwrap();
    assert!(second.get() > first.get());
    assert!(matches!(edge.begin_drain(), SessionStep::Continue));
    assert_eq!(
        edge.open_requested(),
        Err(RouteError::RuntimeDraining)
    );
    assert!(matches!(edge.stream_closed(second), SessionStep::Stop));
}

#[test]
fn streams_end_gracefully_when_both_sides_have() {
    let mut stream = IngressStream::start(session(1), StreamId { value: 2 });
    assert!(matches!(
        stream.opening(OpeningEvent::Inbound(frame(FrameType::OpenStream, 2, 0))),
        StreamStep::Opened
    ));
    let StreamStep::Refused { refusal, .. } = stream.opening(OpeningEvent::TimedOut) else {
        panic!("a stream that is not opened in time is refused");
    };
    assert_eq!(refusal, StreamRefusal::OpenTimeout);
    assert_eq!(
        refusal_error(&stream, refusal),
        RouteError::OpenTimeout(StreamId { value: 2 })
    );
    assert!(matches!(
        stream.step(StreamEvent::IngressRead(5)),
        StreamStep::SendData(5)
    ));
    assert!(matches!(
        stream.step(StreamEvent::IngressRead(0)),
        StreamStep::SendEnd
    ));
    assert!(matches!(
        stream.step(StreamEvent::Sent { sent: true }),
        StreamStep::Continue
    ));
    assert!(matches!(
        stream.step(StreamEvent::Inbound(frame(FrameType::EndStream, 2, 0))),
        StreamStep::EndIngress
    ));
    assert!(matches!(
        stream.step(StreamEvent::IngressEnded { ended: true }),
        StreamStep::Closed {
            reset: None,
            reason: RoutedStreamCloseReason::Graceful
        }
    ));
}

#[test]
fn frames_and_bytes_start_the_idle_time_anew() {
    assert!(restarts_idle_time(StreamEvent::Inbound(frame(
        FrameType::Data,
        2,
        5
    ))));
    assert!(restarts_idle_time(StreamEvent::Inbound(frame(
        FrameType::EndStream,
        2,
        0
    ))));
    assert!(restarts_idle_time(StreamEvent::IngressRead(1)));
    assert!(!restarts_idle_time(StreamEvent::IngressRead(0)));
    assert!(!restarts_idle_time(StreamEvent::IngressReadFailed));
    assert!(!restarts_idle_time(StreamEvent::Sent { sent: true }));
    assert!(!restarts_idle_time(StreamEvent::Idle));
}

fn live_status() -> EdgeAuthorizationStatus {
    EdgeAuthorizationStatus {
        version: Some(1),
        source: AuthorizationSourceStatus::Live,
        revoked_sessions: 0,
    }
}

#[test]
fn registries_keep_order_and_forget_what_ended() {
    let mut router = EdgeSessionRouter::new(live_status());
    for (id, name) in [(3, "b"), (1, "c"), (2, "a")] {
        assert!(router.publish_session(
            LiveSession {
                session_id: session(id),
                tunnel_id: tunnel(name),
                certified: true,
            },
            true,
        ));
    }
    assert_eq!(
        router.connected_session_ids(),
        vec![session(1), session(2), session(3)]
    );
    let names: Vec<String> = router
        .connected_tunnels()
        .iter()
        .map(|binding| binding.tunnel_id.as_str().to_string())
        .collect();
    assert_eq!(names, ["a", "b", "c"]);
    assert_eq!(router.resolve_tunnel(&tunnel("b")), Some(session(3)));
    assert_eq!(router.check_tunnel(&tunnel("b")), Ok(session(3)));
    router.remove_session(session(3));
    assert!(!router.is_connected(session(3)));
    assert_eq!(
        router.check_tunnel(&tunnel("b")),
        Err(RouteError::TunnelNotConnected(tunnel("b")))
    );
    assert_eq!(
        router.check_session(session(3)),
        Err(RouteError::SessionNotFound(session(3)))
    );
    assert!(!router.publish_session(
        LiveSession {
            session_id: session(9),
            tunnel_id: tunnel("z"),
            certified: true,
        },
        false,
    ));
    let revoked = router.reconcile_authorization_snapshot(
        2,
        AuthorizationSourceStatus::Stale,
        &vec![session(1)],
    );
    assert_eq!(revoked, vec![session(2)]);
    assert_eq!(router.connected_session_ids(), vec![session(1)]);
    assert_eq!(router.authorization_status().revoked_sessions, 1);
    assert_eq!(router.authorization_status().version, Some(2));
    assert_eq!(router.begin_drain(), vec![session(1)]);
    assert_eq!(
        router.check_session(session(1)),
        Err(RouteError::RuntimeDraining)
    );
    router.finish_drain();
    assert!(router.connected_session_ids().is_empty());
}

#[test]
fn stream_requests_fail_as_their_session_does() {
    assert_eq!(stream_requested(session(1), QueueOutcome::Queued), Ok(()));
    assert_eq!(
        stream_requested(session(1), QueueOutcome::Full),
        Err(RouteError::SessionBusy(session(1)))
    );
    assert_eq!(
        stream_requested(session(1), QueueOutcome::Closed),
        Err(RouteError::SessionClosing(session(1)))
    );
    assert_eq!(
        finish_open(session(1), None),
        Err(RouteError::SessionClosing(session(1)))
    );
    assert_eq!(
        finish_open(session(1), Some(Ok(StreamId { value: 4 }))),
        Ok(StreamId { value: 4 })
    );
    assert_eq!(
        RouteError::SessionBusy(session(1)).message("session#1"),
        "transport session session#1 command queue is full"
    );
    assert_eq!(
        RouteError::OpenTimeout(StreamId { value: 12 }).message(""),
        "stream 12 open timed out"
    );
}

#[test]
fn streams_are_opened_of_whichever_session_serves_a_tunnel() {
    let mut router = EdgeSessionRouter::new(live_status());
    router.publish_session(
        LiveSession {
            session_id: session(4),
            tunnel_id: tunnel("a"),
            certified: true,
        },
        true,
    );
    let stream = StreamId { value: 2 };
    let opened = router
        .open_tunnel_stream_tracked(&tunnel("a"), QueueOutcome::Queued, Some(Ok(stream)))
        .unwrap();
    assert_eq!(
        opened,
        RoutedStream {
            session_id: session(4),
            stream_id: stream
        }
    );
    assert_eq!(
        opened.wait_closed(None),
        RoutedStreamCloseReason::SessionClosed
    );
    assert_eq!(
        opened.wait_closed(Some(RoutedStreamCloseReason::Graceful)),
        RoutedStreamCloseReason::Graceful
    );
    assert_eq!(
        router.open_tunnel_stream_tracked(&tunnel("b"), QueueOutcome::Queued, None),
        Err(RouteError::TunnelNotConnected(tunnel("b")))
    );
    assert_eq!(
        router.open_stream(session(4), QueueOutcome::Full, None),
        Err(RouteError::SessionBusy(session(4)))
    );
    assert_eq!(
        router.open_stream(session(4), QueueOutcome::Queued, None),
        Err(RouteError::SessionClosing(session(4)))
    );
    assert_eq!(
        router.open_stream_tracked(session(5), QueueOutcome::Queued, None),
        Err(RouteError::SessionNotFound(session(5)))
    );
    router.begin_drain();
    assert_eq!(
        router.open_stream(session(4), QueueOutcome::Queued, Some(Ok(stream))),
        Err(RouteError::RuntimeDraining)
    );
}

#[test]
fn agent_transports_follow_their_snapshots() {
    let mut config = MultiplexedEdgeConfig::dev_defaults();
    config.agent_listener.max_agent_sessions = 1;
    let mut runtime = MultiplexedEdgeRuntime::bind(
        config,
        Ok(loopback(7100)),
        Some(1),
        Some(SnapshotSourceHealth::Live),
        true,
    )
    .unwrap();
    assert_eq!(runtime.agent_addr(), loopback(7100));
    assert_eq!(
        runtime.router.authorization_status().source,
        AuthorizationSourceStatus::Live
    );
    assert!(matches!(
        runtime.step(TransportEvent::Accepted),
        TransportStep::Serve
    ));
    assert!(matches!(
        runtime.step(TransportEvent::Accepted),
        TransportStep::Close
    ));
    runtime.router.publish_session(
        LiveSession {
            session_id: session(1),
            tunnel_id: tunnel("a"),
            certified: true,
        },
        true,
    );
    let TransportStep::Revoke(revoked) = runtime.step(TransportEvent::SnapshotChanged {
        version: 2,
        health: SnapshotSourceHealth::Live,
        granted: Vec::new(),
    }) else {
        panic!("a snapshot revokes");
    };
    assert_eq!(revoked, vec![session(1)]);
    assert!(matches!(
        runtime.step(TransportEvent::SnapshotsClosed),
        TransportStep::Wait
    ));
    assert_eq!(
        runtime.router.authorization_status().source,
        AuthorizationSourceStatus::Stale
    );
    assert!(!runtime.snapshots_open);
    runtime.step(TransportEvent::ConnectionEnded);
    assert_eq!(runtime.open_connections, 0);
    assert!(matches!(
        runtime.step(TransportEvent::ShutdownRequested),
        TransportStep::Drain(_)
    ));
    assert!(matches!(
        runtime.step(TransportEvent::AcceptFailed(std::io::Error::other("x"))),
        TransportStep::Fail(_)
    ));
    config.data_queue_capacity = 0;
    assert!(matches!(
        MultiplexedEdgeRuntime::bind(config, Ok(loopback(1)), None, None, false),
        Err(TransportStartError::InvalidConfig(_))
    ));
}

#[test]
fn agents_must_speak_the_tunnel_protocol() {
    let tls = EdgeTransportSecurity::MutualTls;
    assert_eq!(
        secure_transport(EdgeTransportSecurity::PlaintextLoopback, None, b"tunnel/1"),
        Ok(false)
    );
    let established = |protocol: Option<&[u8]>| TlsHandshakeEnd::Established {
        protocol: protocol.map(|name| name.to_vec()),
        certified: true,
    };
    assert_eq!(
        secure_transport(tls, Some(established(Some(b"tunnel/1"))), b"tunnel/1"),
        Ok(true)
    );
    assert_eq!(
        secure_transport(tls, Some(established(Some(b"h2"))), b"tunnel/1"),
        Err(AgentRejection::WrongProtocol)
    );
    assert_eq!(
        secure_transport(tls, Some(established(None)), b"tunnel/1"),
        Err(AgentRejection::WrongProtocol)
    );
    assert_eq!(
        secure_transport(tls, Some(TlsHandshakeEnd::Failed), b"tunnel/1"),
        Err(AgentRejection::NotAuthenticated)
    );
    assert_eq!(
        secure_transport(tls, Some(TlsHandshakeEnd::TimedOut), b"tunnel/1"),
        Err(AgentRejection::TlsTimeout)
    );
}

#[test]
fn writers_end_when_both_queues_have() {
    let mut writer = FrameWriter::start();
    assert_eq!(writer.step(QueueEvent::Control), WriterStep::WriteControl);
    assert_eq!(writer.step(QueueEvent::Data), WriterStep::WriteData);
    assert_eq!(writer.step(QueueEvent::ControlClosed), WriterStep::Wait);
    assert_eq!(writer.step(QueueEvent::Data), WriterStep::WriteData);
    assert_eq!(writer.step(QueueEvent::DataClosed), WriterStep::Shutdown);
}
