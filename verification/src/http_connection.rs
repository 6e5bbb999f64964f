//! The course of one client connection: its admission, its protocol, its
//! requests, and the bodies and sessions that outlive a response's head.

use vstd::prelude::*;
use vstd::string::*;

use crate::admission::{acquired, held, PeerAdmission, PeerAdmissionPermit};
use crate::bytes::{is_text, lower, same_bytes};
use crate::http_config::{Http2IngressConfig, HttpIngressConfig, HttpIngressExposurePolicy};
use crate::http_counting::{completed, count_completed, count_rejected, rejected};
use crate::http_headers::{
    header_fields, insert_header, plain_name, remove_header, MAX_HEADER_NAMES,
};
use crate::http_rejection::SWITCHING_PROTOCOLS;
use crate::http_sanitize::{has_room, headers_have_room};
use crate::http_request::NegotiatedHttpProtocol;
use crate::http_status::{
    bump, bumped, connection_opened, ActiveConnectionGuard, HttpIngressCounters,
};
use crate::net::IpAddr;

verus! {

/// How a new connection is received.
#[derive(Debug, PartialEq, Eq, Structural)]
pub enum ConnectionAdmission {
    /// Too many connections are open.
    GlobalCapacity,
    /// Too many connections of that source are open.
    PerIpCapacity,
    /// The connection is served, with the permit of its source where sources are
    /// limited.
    Admitted(Option<PeerAdmissionPermit>),
}

/// The admission of sources that an exposure asks for.
pub fn source_admission(exposure: HttpIngressExposurePolicy) -> (admission: Option<PeerAdmission>)
    ensures
        match exposure {
            HttpIngressExposurePolicy::LoopbackOnly => admission is None,
            HttpIngressExposurePolicy::Public { max_connections_per_ip } => admission matches Some(
                sources,
            ) && sources.wf() && sources.max_connections_per_ip == max_connections_per_ip
                && sources@.dom().len() == 0,
        },
{
    match exposure {
        HttpIngressExposurePolicy::LoopbackOnly => None,
        HttpIngressExposurePolicy::Public { max_connections_per_ip } => Some(
            PeerAdmission::new(max_connections_per_ip),
        ),
    }
}

/// Whether a source may open a connection more.
pub open spec fn source_has_room(sources: Option<PeerAdmission>, peer: IpAddr) -> bool {
    sources matches Some(sources) ==> held(sources@, peer) < sources.max_connections_per_ip
}

/// Receives a new connection, where `permit_free` says whether one of the
/// connections that may be open at a time is free.
pub fn admit_connection(
    permit_free: bool,
    sources: &mut Option<PeerAdmission>,
    peer: IpAddr,
    counters: &mut HttpIngressCounters,
) -> (admission: ConnectionAdmission)
    requires
        *old(sources) matches Some(sources) ==> sources.wf(),
    ensures
        *final(sources) matches Some(sources) ==> sources.wf(),
        if !permit_free {
            &&& admission == ConnectionAdmission::GlobalCapacity
            &&& *final(sources) == *old(sources)
            &&& *final(counters) == (HttpIngressCounters {
                global_capacity_rejections: bumped(old(counters).global_capacity_rejections),
                ..*old(counters)
            })
        } else if !source_has_room(*old(sources), peer) {
            &&& admission == ConnectionAdmission::PerIpCapacity
            &&& *final(sources) is Some && (*final(sources))->0@ == (*old(sources))->0@
            &&& (*final(sources))->0.max_connections_per_ip == (
            *old(sources))->0.max_connections_per_ip
            &&& *final(counters) == (HttpIngressCounters {
                per_ip_capacity_rejections: bumped(old(counters).per_ip_capacity_rejections),
                ..*old(counters)
            })
        } else {
            &&& *final(counters) == connection_opened(
                HttpIngressCounters {
                    accepted_connections: bumped(old(counters).accepted_connections),
                    ..*old(counters)
                },
            )
            &&& match (*old(sources), *final(sources)) {
                (Some(before), Some(after)) => after@ == acquired(before@, peer)
                    && after.max_connections_per_ip == before.max_connections_per_ip && admission
                    == ConnectionAdmission::Admitted(Some(PeerAdmissionPermit { peer })),
                (None, None) => admission == ConnectionAdmission::Admitted(None),
                _ => false,
            }
        },
{
    if !permit_free {
        counters.global_capacity_rejections = bump(counters.global_capacity_rejections);
        return ConnectionAdmission::GlobalCapacity;
    }
    let permit: Option<PeerAdmissionPermit> = match sources {
        None => None,
        Some(sources) => match sources.try_acquire(peer) {
            Some(permit) => Some(permit),
            None => {
                counters.per_ip_capacity_rejections = bump(counters.per_ip_capacity_rejections);
                return ConnectionAdmission::PerIpCapacity;
            },
        },
    };
    counters.accepted_connections = bump(counters.accepted_connections);
    let _ = ActiveConnectionGuard::new(counters);
    ConnectionAdmission::Admitted(permit)
}

/// The protocol that a TLS handshake agreed on: HTTP/1.1 where it named none.
pub open spec fn protocol_of(alpn: Option<Seq<u8>>, http2_enabled: bool) -> Option<
    NegotiatedHttpProtocol,
> {
    match alpn {
        None => Some(NegotiatedHttpProtocol::Http1),
        Some(name) => if name == "http/1.1".spec_bytes() {
            Some(NegotiatedHttpProtocol::Http1)
        } else if name == "h2".spec_bytes() && http2_enabled {
            Some(NegotiatedHttpProtocol::Http2)
        } else {
            None
        },
    }
}

/// Counts a connection by its protocol, or as refused where it agreed on none
/// that is served.
pub fn negotiate_protocol(
    alpn: Option<&[u8]>,
    http2_enabled: bool,
    counters: &mut HttpIngressCounters,
) -> (protocol: Option<NegotiatedHttpProtocol>)
    ensures
        protocol == protocol_of(
            match alpn {
                Some(name) => Some(name@),
                None => None,
            },
            http2_enabled,
        ),
        *final(counters) == (match protocol {
            None => HttpIngressCounters {
                tls_rejections: bumped(old(counters).tls_rejections),
                ..*old(counters)
            },
            Some(NegotiatedHttpProtocol::Http1) => HttpIngressCounters {
                http1_connections: bumped(old(counters).http1_connections),
                ..*old(counters)
            },
            Some(NegotiatedHttpProtocol::Http2) => HttpIngressCounters {
                http2_connections: bumped(old(counters).http2_connections),
                ..*old(counters)
            },
        }),
{
    let http1: bool = match alpn {
        None => true,
        Some(name) => same_bytes(name, "http/1.1".as_bytes()),
    };
    if http1 {
        counters.http1_connections = bump(counters.http1_connections);
        return Some(NegotiatedHttpProtocol::Http1);
    }
    let http2: bool = match alpn {
        None => false,
        Some(name) => same_bytes(name, "h2".as_bytes()),
    };
    if http2 && http2_enabled {
        counters.http2_connections = bump(counters.http2_connections);
        return Some(NegotiatedHttpProtocol::Http2);
    }
    counters.tls_rejections = bump(counters.tls_rejections);
    None
}

/// Counts a connection whose TLS handshake failed or took too long.
pub fn count_tls_rejection(counters: &mut HttpIngressCounters)
    ensures
        *final(counters) == (HttpIngressCounters {
            tls_rejections: bumped(old(counters).tls_rejections),
            ..*old(counters)
        }),
{
    counters.tls_rejections = bump(counters.tls_rejections);
}

/// How many sessions of one connection may wait for a relay.
pub fn relay_capacity(
    protocol: NegotiatedHttpProtocol,
    http2: Option<Http2IngressConfig>,
) -> (capacity: usize)
    ensures
        capacity == (match (protocol, http2) {
            (NegotiatedHttpProtocol::Http2, Some(http2)) => http2.max_concurrent_streams as usize,
            _ => 1,
        }),
{
    match (protocol, http2) {
        (NegotiatedHttpProtocol::Http2, Some(http2)) => http2.max_concurrent_streams as usize,
        _ => 1,
    }
}

/// The most bytes that one HTTP/2 stream may have in flight.
pub const MAX_HTTP2_STREAM_WINDOW: usize = 64 * 1024;

/// The flow-control windows of HTTP/2: for one stream, and for all of a
/// connection's streams.
pub fn http2_windows(duplex_capacity: usize, max_concurrent_streams: u32) -> (windows: (u32, u32))
    ensures
        windows.0 == (if duplex_capacity <= MAX_HTTP2_STREAM_WINDOW {
            duplex_capacity as int
        } else {
            MAX_HTTP2_STREAM_WINDOW as int
        }),
        windows.1 == (if windows.0 * max_concurrent_streams > u32::MAX {
            u32::MAX as int
        } else {
            windows.0 * max_concurrent_streams
        }),
{
    let stream: u32 = if duplex_capacity <= MAX_HTTP2_STREAM_WINDOW {
        duplex_capacity as u32
    } else {
        MAX_HTTP2_STREAM_WINDOW as u32
    };
    let connection: u32 = match stream.checked_mul(max_concurrent_streams) {
        Some(product) => product,
        None => u32::MAX,
    };
    (stream, connection)
}

/// Whether an HTTP/1.1 connection is kept for more than one request.
pub fn keeps_alive(config: &HttpIngressConfig) -> (yes: bool)
    ensures
        yes == (config.max_requests_per_connection > 1 || (config.connect is Some
            && config.connect->0.enable_http1)),
{
    config.max_requests_per_connection > 1 || match config.connect {
        Some(connect) => connect.enable_http1,
        None => false,
    }
}

/// Whether a request is served, and whether its connection closes after it.
#[derive(Debug, Clone, Copy, PartialEq, Eq, Structural)]
pub enum RequestTurn {
    /// The connection has had as many requests as it may.
    Refused,
    Served { close_after: bool },
}

/// The turn of a connection's next request. HTTP/1.1 connections have a limit of
/// requests; the last one closes the connection.
pub open spec fn turn_of(
    protocol: NegotiatedHttpProtocol,
    earlier: usize,
    max_requests: usize,
) -> RequestTurn {
    match protocol {
        NegotiatedHttpProtocol::Http2 => RequestTurn::Served { close_after: false },
        NegotiatedHttpProtocol::Http1 => if earlier + 1 > max_requests {
            RequestTurn::Refused
        } else {
            RequestTurn::Served { close_after: earlier + 1 == max_requests }
        },
    }
}

/// What a connection's next request adds to the counters.
pub open spec fn turn_counted(
    counters: HttpIngressCounters,
    protocol: NegotiatedHttpProtocol,
    earlier: usize,
    max_requests: usize,
) -> HttpIngressCounters {
    match protocol {
        NegotiatedHttpProtocol::Http2 => counters,
        NegotiatedHttpProtocol::Http1 => if earlier + 1 > max_requests {
            rejected(counters)
        } else if earlier > 0 {
            HttpIngressCounters { reused_requests: bumped(counters.reused_requests), ..counters }
        } else {
            counters
        },
    }
}

/// Takes a connection's next request, where `earlier` requests came before it.
pub fn take_turn(
    protocol: NegotiatedHttpProtocol,
    earlier: &mut usize,
    max_requests: usize,
    counters: &mut HttpIngressCounters,
) -> (turn: RequestTurn)
    requires
        *old(earlier) < usize::MAX,
    ensures
        turn == turn_of(protocol, *old(earlier), max_requests),
        *final(counters) == turn_counted(*old(counters), protocol, *old(earlier), max_requests),
        *final(earlier) == (match protocol {
            NegotiatedHttpProtocol::Http1 => *old(earlier) + 1,
            NegotiatedHttpProtocol::Http2 => *old(earlier) as int,
        }),
{
    match protocol {
        NegotiatedHttpProtocol::Http2 => RequestTurn::Served { close_after: false },
        NegotiatedHttpProtocol::Http1 => {
            let number: usize = *earlier + 1;
            *earlier = number;
            if number > max_requests {
                count_rejected(counters);
                return RequestTurn::Refused;
            }
            if number > 1 {
                counters.reused_requests = bump(counters.reused_requests);
            }
            RequestTurn::Served { close_after: number == max_requests }
        },
    }
}

/// Counts a request that was not answered in time.
pub fn count_request_timeout(counters: &mut HttpIngressCounters)
    ensures
        *final(counters) == rejected(
            HttpIngressCounters {
                request_timeouts: bumped(old(counters).request_timeouts),
                ..*old(counters)
            },
        ),
{
    counters.request_timeouts = bump(counters.request_timeouts);
    count_rejected(counters);
}

/// The fields of a response as its protocol and its connection need them: the
/// last response of an HTTP/1.1 connection says so, unless it opens a session, and
/// HTTP/2 has no `Connection` field.
pub open spec fn finished_fields(
    fields: Map<Seq<u8>, Seq<Seq<u8>>>,
    status: u16,
    opens_session: bool,
    close_after: bool,
    protocol: NegotiatedHttpProtocol,
) -> Map<Seq<u8>, Seq<Seq<u8>>> {
    let marked = if close_after && status != SWITCHING_PROTOCOLS && !opens_session {
        fields.insert("connection".spec_bytes(), seq!["close".spec_bytes()])
    } else {
        fields
    };
    match protocol {
        NegotiatedHttpProtocol::Http1 => marked,
        NegotiatedHttpProtocol::Http2 => marked.remove("connection".spec_bytes()),
    }
}

/// Makes a response's fields those that its protocol and its connection need.
pub fn finish_protocol_response(
    headers: &mut hyper::HeaderMap,
    status: u16,
    opens_session: bool,
    close_after: bool,
    protocol: NegotiatedHttpProtocol,
)
    requires
        header_fields(*old(headers)).dom().len() <= MAX_HEADER_NAMES,
    ensures
        header_fields(*final(headers)) == finished_fields(
            header_fields(*old(headers)),
            status,
            opens_session,
            close_after,
            protocol,
        ),
{
    proof {
        reveal_strlit("connection");
        reveal_strlit("close");
        is_ascii_spec_bytes("connection");
        is_ascii_spec_bytes("close");
        assert(plain_name("connection".spec_bytes()));
        assert(is_text("close".spec_bytes()));
        assert(lower("connection".spec_bytes()) =~= "connection".spec_bytes());
    }
    if close_after && status != SWITCHING_PROTOCOLS && !opens_session {
        insert_header(headers, "connection".as_bytes(), "close".as_bytes());
    }
    if protocol == NegotiatedHttpProtocol::Http2 {
        remove_header(headers, "connection".as_bytes());
    }
}

/// Finishes a response as [`finish_protocol_response`] does, unless it has so many
/// header names that none can be added: nothing is done to such a response.
pub fn try_finish_protocol_response(
    headers: &mut hyper::HeaderMap,
    status: u16,
    opens_session: bool,
    close_after: bool,
    protocol: NegotiatedHttpProtocol,
) -> (finished: bool)
    ensures
        finished == has_room(header_fields(*old(headers))),
        header_fields(*final(headers)) == (if finished {
            finished_fields(
                header_fields(*old(headers)),
                status,
                opens_session,
                close_after,
                protocol,
            )
        } else {
            header_fields(*old(headers))
        }),
{
    if !headers_have_room(headers) {
        return false;
    }
    finish_protocol_response(headers, status, opens_session, close_after, protocol);
    true
}

/// What polling a response body gave.
#[derive(Debug, Clone, Copy, PartialEq, Eq, Structural)]
pub enum BodyPoll {
    Pending,
    /// A frame, which may be the last.
    Frame { last: bool },
    Failed,
    End,
}

/// What a polled response body hands on.
#[derive(Debug, Clone, Copy, PartialEq, Eq, Structural)]
pub enum BodyStep {
    /// What the polled body gave.
    PassOn,
    /// Nothing yet.
    Pending,
    /// The deadline has passed.
    TimedOut,
    /// Nothing more.
    Ended,
}

/// A response body under its request's deadline.
#[derive(Debug, Clone, Copy, PartialEq, Eq, Structural)]
pub struct RequestDeadlineBody {
    pub timeout_recorded: bool,
    pub completion_recorded: bool,
}

/// What polling a response body leads to.
pub open spec fn poll_leads_to(
    body: RequestDeadlineBody,
    poll: BodyPoll,
    deadline_passed: bool,
) -> (RequestDeadlineBody, BodyStep) {
    if body.timeout_recorded {
        (body, BodyStep::Ended)
    } else if poll != BodyPoll::Pending {
        (
            RequestDeadlineBody {
                timeout_recorded: false,
                completion_recorded: body.completion_recorded || poll == BodyPoll::End || poll == (
                BodyPoll::Frame { last: true }),
            },
            BodyStep::PassOn,
        )
    } else if deadline_passed {
        (RequestDeadlineBody { timeout_recorded: true, ..body }, BodyStep::TimedOut)
    } else {
        (body, BodyStep::Pending)
    }
}

impl RequestDeadlineBody {
    /// A body that has not been polled; an empty one is complete at once.
    pub fn new(ended: bool, counters: &mut HttpIngressCounters) -> (body: RequestDeadlineBody)
        ensures
            !body.timeout_recorded,
            body.completion_recorded == ended,
            *final(counters) == (if ended { completed(*old(counters)) } else { *old(counters) }),
    {
        if ended {
            count_completed(counters);
        }
        RequestDeadlineBody { timeout_recorded: false, completion_recorded: ended }
    }

    /// Takes what polling gave. The end is counted once; where nothing is there
    /// and the deadline has passed, the body ends with a timeout, counted once.
    pub fn polled(
        &mut self,
        poll: BodyPoll,
        deadline_passed: bool,
        counters: &mut HttpIngressCounters,
    ) -> (step: BodyStep)
        ensures
            (*final(self), step) == poll_leads_to(*old(self), poll, deadline_passed),
            if old(self).timeout_recorded {
                &&& step == BodyStep::Ended
                &&& *final(self) == *old(self)
                &&& *final(counters) == *old(counters)
            } else if poll != BodyPoll::Pending {
                &&& step == BodyStep::PassOn
                &&& !final(self).timeout_recorded
                &&& final(self).completion_recorded == (old(self).completion_recorded || poll
                    == BodyPoll::End || poll == (BodyPoll::Frame { last: true }))
                &&& *final(counters) == (if final(self).completion_recorded
                    && !old(self).completion_recorded {
                    completed(*old(counters))
                } else {
                    *old(counters)
                })
            } else if deadline_passed {
                &&& step == BodyStep::TimedOut
                &&& final(self).timeout_recorded
                &&& final(self).completion_recorded == old(self).completion_recorded
                &&& *final(counters) == (HttpIngressCounters {
                    request_timeouts: bumped(old(counters).request_timeouts),
                    ..*old(counters)
                })
            } else {
                &&& step == BodyStep::Pending
                &&& *final(self) == *old(self)
                &&& *final(counters) == *old(counters)
            },
    {
        if self.timeout_recorded {
            return BodyStep::Ended;
        }
        let ended: bool = match poll {
            BodyPoll::Pending => {
                if deadline_passed {
                    counters.request_timeouts = bump(counters.request_timeouts);
                    self.timeout_recorded = true;
                    return BodyStep::TimedOut;
                }
                return BodyStep::Pending;
            },
            BodyPoll::End => true,
            BodyPoll::Frame { last } => last,
            BodyPoll::Failed => false,
        };
        if ended && !self.completion_recorded {
            count_completed(counters);
            self.completion_recorded = true;
        }
        BodyStep::PassOn
    }
}

/// How an opaque relay ended.
#[derive(Debug, Clone, Copy, PartialEq, Eq, Structural)]
pub enum OpaqueRelayOutcome {
    Completed,
    IdleTimeout,
    IoError,
}

/// A side of an opaque relay.
#[derive(Debug, Clone, Copy, PartialEq, Eq, Structural)]
pub enum OpaqueSide {
    Client,
    Local,
}

/// What happened on an opaque relay.
#[derive(Debug, Clone, Copy, PartialEq, Eq, Structural)]
pub enum OpaqueEvent {
    /// So many bytes came from that side; none means that its input has ended.
    Read(OpaqueSide, usize),
    ReadFailed,
    /// The bytes read were written in full.
    Written,
    WriteFailed,
    /// The other side's input was closed, or could not be; either will do.
    ShutDown,
    /// Nothing moved for too long.
    TimedOut,
}

/// What an opaque relay does next.
#[derive(Debug, Clone, Copy, PartialEq, Eq, Structural)]
pub enum OpaqueStep {
    /// Write the bytes read to that side.
    Write(OpaqueSide, usize),
    /// Close that side's input.
    ShutDown(OpaqueSide),
    /// Wait for bytes, idle for a whole timeout at most.
    WaitAnew,
    /// Wait for bytes, idle as before.
    Wait,
    End(OpaqueRelayOutcome),
}

/// An opaque relay: which sides may still send.
#[derive(Debug, Clone, Copy, PartialEq, Eq, Structural)]
pub struct OpaqueRelay {
    pub client_open: bool,
    pub local_open: bool,
}

/// The side that a side's bytes go to.
pub open spec fn opposite(side: OpaqueSide) -> OpaqueSide {
    match side {
        OpaqueSide::Client => OpaqueSide::Local,
        OpaqueSide::Local => OpaqueSide::Client,
    }
}

/// What becomes of an opaque relay.
pub open spec fn opaque_step(relay: OpaqueRelay, event: OpaqueEvent) -> (OpaqueRelay, OpaqueStep) {
    match event {
        OpaqueEvent::Read(side, count) => if count > 0 {
            (relay, OpaqueStep::Write(opposite(side), count))
        } else {
            (
                match side {
                    OpaqueSide::Client => OpaqueRelay { client_open: false, ..relay },
                    OpaqueSide::Local => OpaqueRelay { local_open: false, ..relay },
                },
                OpaqueStep::ShutDown(opposite(side)),
            )
        },
        OpaqueEvent::Written => (relay, OpaqueStep::WaitAnew),
        OpaqueEvent::ShutDown => (
            relay,
            if relay.client_open || relay.local_open {
                OpaqueStep::Wait
            } else {
                OpaqueStep::End(OpaqueRelayOutcome::Completed)
            },
        ),
        OpaqueEvent::ReadFailed => (relay, OpaqueStep::End(OpaqueRelayOutcome::IoError)),
        OpaqueEvent::WriteFailed => (relay, OpaqueStep::End(OpaqueRelayOutcome::IoError)),
        OpaqueEvent::TimedOut => (relay, OpaqueStep::End(OpaqueRelayOutcome::IdleTimeout)),
    }
}

impl OpaqueRelay {
    /// A relay both of whose sides may send.
    pub fn start() -> (relay: OpaqueRelay)
        ensures
            relay == (OpaqueRelay { client_open: true, local_open: true }),
    {
        OpaqueRelay { client_open: true, local_open: true }
    }

    /// Takes what happened, and says what the relay does next.
    pub fn step(&mut self, event: OpaqueEvent) -> (step: OpaqueStep)
        ensures
            (*final(self), step) == opaque_step(*old(self), event),
    {
        match event {
            OpaqueEvent::Read(side, count) => {
                let other: OpaqueSide = match side {
                    OpaqueSide::Client => OpaqueSide::Local,
                    OpaqueSide::Local => OpaqueSide::Client,
                };
                if count > 0 {
                    return OpaqueStep::Write(other, count);
                }
                match side {
                    OpaqueSide::Client => {
                        self.client_open = false;
                    },
                    OpaqueSide::Local => {
                        self.local_open = false;
                    },
                }
                OpaqueStep::ShutDown(other)
            },
            OpaqueEvent::Written => OpaqueStep::WaitAnew,
            OpaqueEvent::ShutDown => {
                if self.client_open || self.local_open {
                    OpaqueStep::Wait
                } else {
                    OpaqueStep::End(OpaqueRelayOutcome::Completed)
                }
            },
            OpaqueEvent::ReadFailed | OpaqueEvent::WriteFailed => OpaqueStep::End(
                OpaqueRelayOutcome::IoError,
            ),
            OpaqueEvent::TimedOut => OpaqueStep::End(OpaqueRelayOutcome::IdleTimeout),
        }
    }
}

/// A connection that may have so many requests serves just so many: the one
/// after them is refused, and the last of them closes the connection.
pub proof fn connections_serve_just_so_many_requests(earlier: usize, max_requests: usize)
    ensures
        turn_of(NegotiatedHttpProtocol::Http1, earlier, max_requests) is Served <==> earlier
            < max_requests,
        turn_of(NegotiatedHttpProtocol::Http1, earlier, max_requests)
            == (RequestTurn::Served { close_after: true }) <==> earlier + 1 == max_requests,
{
}

/// A client that names no protocol, or HTTP/1.1, gets HTTP/1.1; one that names HTTP/2 gets
/// it just where it is enabled, and no other name is served.
pub proof fn protocols_are_those_agreed_on(name: Seq<u8>, http2_enabled: bool)
    ensures
        protocol_of(None, http2_enabled) == Some(NegotiatedHttpProtocol::Http1),
        name == "http/1.1".spec_bytes() ==> protocol_of(Some(name), http2_enabled) == Some(
            NegotiatedHttpProtocol::Http1,
        ),
        name == "h2".spec_bytes() ==> protocol_of(Some(name), http2_enabled) == (
        if http2_enabled {
            Some(NegotiatedHttpProtocol::Http2)
        } else {
            None
        }),
        name != "http/1.1".spec_bytes() && name != "h2".spec_bytes() ==> protocol_of(
            Some(name),
            http2_enabled,
        ) is None,
{
    reveal_strlit("http/1.1");
    reveal_strlit("h2");
    is_ascii_spec_bytes("http/1.1");
    is_ascii_spec_bytes("h2");
}

/// Requests over HTTP/2 are all served, and none of them ends its connection.
pub proof fn http2_requests_are_never_the_last(earlier: usize, max_requests: usize)
    ensures
        turn_of(NegotiatedHttpProtocol::Http2, earlier, max_requests) == (RequestTurn::Served {
            close_after: false,
        }),
{
}

/// A response keeps every field but `Connection`. Over HTTP/2 it has none; over HTTP/1.1
/// the last response of a connection says `close`, and any other, like one that opens a
/// session, says what it said.
pub proof fn responses_say_when_their_connection_ends(
    fields: Map<Seq<u8>, Seq<Seq<u8>>>,
    status: u16,
    opens_session: bool,
    close_after: bool,
    protocol: NegotiatedHttpProtocol,
    name: Seq<u8>,
)
    ensures
        ({
            let finished = finished_fields(fields, status, opens_session, close_after, protocol);
            let connection = "connection".spec_bytes();
            &&& name != connection ==> (finished.dom().contains(name) <==> fields.dom().contains(
                name,
            )) && (fields.dom().contains(name) ==> finished[name] == fields[name])
            &&& protocol == NegotiatedHttpProtocol::Http2 ==> !finished.dom().contains(connection)
            &&& protocol == NegotiatedHttpProtocol::Http1 && close_after && !opens_session && status
                != 101 ==> finished.dom().contains(connection) && finished[connection] == seq![
                "close".spec_bytes(),
            ]
            &&& protocol == NegotiatedHttpProtocol::Http1 && (!close_after || opens_session
                || status == 101) ==> finished == fields
        }),
{
}

/// What one side of an opaque relay sends is written to the other side, as many bytes as
/// came; where its input ends, the other side's is closed, and the relay goes on until
/// both have ended.
pub proof fn opaque_relays_carry_both_ways(relay: OpaqueRelay, count: usize)
    ensures
        count > 0 ==> opaque_step(relay, OpaqueEvent::Read(OpaqueSide::Client, count)) == (
            relay,
            OpaqueStep::Write(OpaqueSide::Local, count),
        ),
        count > 0 ==> opaque_step(relay, OpaqueEvent::Read(OpaqueSide::Local, count)) == (
            relay,
            OpaqueStep::Write(OpaqueSide::Client, count),
        ),
        opaque_step(relay, OpaqueEvent::Read(OpaqueSide::Client, 0)) == (
            OpaqueRelay { client_open: false, local_open: relay.local_open },
            OpaqueStep::ShutDown(OpaqueSide::Local),
        ),
        opaque_step(relay, OpaqueEvent::Read(OpaqueSide::Local, 0)) == (
            OpaqueRelay { client_open: relay.client_open, local_open: false },
            OpaqueStep::ShutDown(OpaqueSide::Client),
        ),
        opaque_step(relay, OpaqueEvent::Written) == (relay, OpaqueStep::WaitAnew),
        opaque_step(relay, OpaqueEvent::ShutDown).0 == relay,
        opaque_step(relay, OpaqueEvent::ShutDown).1 == OpaqueStep::End(
            OpaqueRelayOutcome::Completed,
        ) <==> !relay.client_open && !relay.local_open,
        opaque_step(relay, OpaqueEvent::ShutDown).1 == OpaqueStep::Wait <==> relay.client_open
            || relay.local_open,
        opaque_step(relay, OpaqueEvent::TimedOut).1 == OpaqueStep::End(
            OpaqueRelayOutcome::IdleTimeout,
        ),
        opaque_step(relay, OpaqueEvent::ReadFailed).1 == OpaqueStep::End(
            OpaqueRelayOutcome::IoError,
        ),
        opaque_step(relay, OpaqueEvent::WriteFailed).1 == OpaqueStep::End(
            OpaqueRelayOutcome::IoError,
        ),
{
}

/// Whatever a response body gives is passed on, deadline or not; only one that gives
/// nothing is cut off at its deadline, and then it gives nothing more.
pub proof fn bodies_are_passed_on(body: RequestDeadlineBody, poll: BodyPoll, deadline_passed: bool)
    requires
        !body.timeout_recorded,
    ensures
        poll != BodyPoll::Pending ==> poll_leads_to(body, poll, deadline_passed).1
            == BodyStep::PassOn,
        poll_leads_to(body, BodyPoll::Pending, false) == (body, BodyStep::Pending),
        poll_leads_to(body, BodyPoll::Pending, true).1 == BodyStep::TimedOut,
        poll_leads_to(poll_leads_to(body, BodyPoll::Pending, true).0, poll, deadline_passed).1
            == BodyStep::Ended,
        poll_leads_to(body, BodyPoll::End, deadline_passed).0.completion_recorded,
        poll_leads_to(body, BodyPoll::Frame { last: true }, deadline_passed).0.completion_recorded,
        !body.completion_recorded ==> !poll_leads_to(
            body,
            BodyPoll::Frame { last: false },
            deadline_passed,
        ).0.completion_recorded,
{
}

/// A request that comes over HTTP/1.1 when its connection has had as many as it may is
/// refused and counted as rejected; each later one of a connection counts as reused; over
/// HTTP/2 nothing of this is counted.
pub proof fn turns_are_counted(
    counters: HttpIngressCounters,
    protocol: NegotiatedHttpProtocol,
    earlier: usize,
    max_requests: usize,
)
    requires
        counters.rejected_requests < u64::MAX,
        counters.reused_requests < u64::MAX,
    ensures
        ({
            let after = turn_counted(counters, protocol, earlier, max_requests);
            let refused = turn_of(protocol, earlier, max_requests) is Refused;
            let http1 = protocol is Http1;
            &&& refused <==> http1 && earlier >= max_requests
            &&& after.rejected_requests == counters.rejected_requests + (if refused {
                1int
            } else {
                0
            })
            &&& after.reused_requests == counters.reused_requests + (if http1 && !refused && earlier
                > 0 {
                1int
            } else {
                0
            })
            &&& after.admitted_requests == counters.admitted_requests
            &&& after.completed_requests == counters.completed_requests
        }),
{
}

} // verus!
