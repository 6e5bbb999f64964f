//! What each turn of a request adds to the ingress's counters.

use vstd::prelude::*;
use vstd::string::*;

use crate::bytes::{eq_ignore_ascii_case, lower, same_bytes};
use crate::http_headers::header_fields;
use crate::http_prepare::ReachabilityNames;
use crate::http_rate_limit::HttpRateLimitRejection;
use crate::http_rejection::RejectionReason;
use crate::http_request::{NegotiatedHttpProtocol, RequestHead, Version};
use crate::http_sanitize::{is_http2_websocket, PreparedRequestKind};
use crate::http_status::{
    bump, bumped, connect_closed, connect_opened, websocket_closed, websocket_opened,
    ConnectSessionGuard, HttpIngressCounters, WebSocketSessionGuard,
};
use crate::http_websocket::{has_websocket_intent, websocket_intent, WebSocketHandshake};

verus! {

/// What a request seems to ask for, before it is checked.
#[derive(Debug, Clone, Copy, PartialEq, Eq, Structural)]
pub struct RequestIntent {
    pub reachability: bool,
    pub websocket: bool,
    pub http2_websocket: bool,
    pub connect: bool,
    pub http2_connect: bool,
}

/// What a request seems to ask for.
pub open spec fn intent_of(head: RequestHead, names: ReachabilityNames) -> RequestIntent {
    let http2_websocket = head.version == Version::Http2 && head.extended_protocol is Some && lower(
        head.extended_protocol->0@,
    ) == lower("websocket".spec_bytes());
    let connect = head.method@ == "CONNECT".spec_bytes() && head.extended_protocol is None;
    RequestIntent {
        reachability: head.spec_path() == names.path@,
        websocket: websocket_intent(header_fields(head.headers)) || http2_websocket,
        http2_websocket,
        connect,
        http2_connect: connect && head.version == Version::Http2,
    }
}

/// What a request seems to ask for.
pub fn request_intent(head: &RequestHead, names: &ReachabilityNames) -> (intent: RequestIntent)
    ensures
        intent == intent_of(*head, *names),
{
    let path: Vec<u8> = head.path();
    let http2_websocket: bool = head.version == Version::Http2 && match &head.extended_protocol {
        Some(protocol) => eq_ignore_ascii_case(protocol.as_slice(), "websocket".as_bytes()),
        None => false,
    };
    let websocket: bool = has_websocket_intent(&head.headers) || http2_websocket;
    let connect: bool = same_bytes(head.method.as_slice(), "CONNECT".as_bytes())
        && head.extended_protocol.is_none();
    RequestIntent {
        reachability: same_bytes(path.as_slice(), names.path.as_slice()),
        websocket,
        http2_websocket,
        connect,
        http2_connect: connect && head.version == Version::Http2,
    }
}

/// One request rejected.
pub open spec fn rejected(c: HttpIngressCounters) -> HttpIngressCounters {
    HttpIngressCounters { rejected_requests: bumped(c.rejected_requests), ..c }
}

/// One request admitted.
pub open spec fn admitted(c: HttpIngressCounters) -> HttpIngressCounters {
    HttpIngressCounters { admitted_requests: bumped(c.admitted_requests), ..c }
}

/// One request completed.
pub open spec fn completed(c: HttpIngressCounters) -> HttpIngressCounters {
    HttpIngressCounters { completed_requests: bumped(c.completed_requests), ..c }
}

/// One reachability probe received.
pub open spec fn probed(c: HttpIngressCounters) -> HttpIngressCounters {
    HttpIngressCounters { reachability_probe_requests: bumped(c.reachability_probe_requests), ..c }
}

/// One reachability probe failed.
pub open spec fn probe_failed(c: HttpIngressCounters) -> HttpIngressCounters {
    HttpIngressCounters { failed_reachability_probes: bumped(c.failed_reachability_probes), ..c }
}

/// One WebSocket session refused.
pub open spec fn websocket_rejected(c: HttpIngressCounters, http2: bool) -> HttpIngressCounters {
    HttpIngressCounters {
        rejected_websocket_upgrades: bumped(c.rejected_websocket_upgrades),
        rejected_http2_websocket_sessions: if http2 {
            bumped(c.rejected_http2_websocket_sessions)
        } else {
            c.rejected_http2_websocket_sessions
        },
        ..c
    }
}

/// One CONNECT session refused.
pub open spec fn connect_rejected(c: HttpIngressCounters, http2: bool) -> HttpIngressCounters {
    HttpIngressCounters {
        rejected_connect_sessions: bumped(c.rejected_connect_sessions),
        rejected_http2_connect_sessions: if http2 {
            bumped(c.rejected_http2_connect_sessions)
        } else {
            c.rejected_http2_connect_sessions
        },
        ..c
    }
}

/// What a request that was refused before it was prepared adds.
pub open spec fn refused_unprepared(
    c: HttpIngressCounters,
    intent: RequestIntent,
) -> HttpIngressCounters {
    let c1 = rejected(c);
    let c2 = if intent.reachability { probe_failed(probed(c1)) } else { c1 };
    let c3 = if intent.websocket { websocket_rejected(c2, intent.http2_websocket) } else { c2 };
    if intent.connect { connect_rejected(c3, intent.http2_connect) } else { c3 }
}

/// The session that a request of that kind asked for was refused.
pub open spec fn session_rejected(
    c: HttpIngressCounters,
    kind: PreparedRequestKind,
) -> HttpIngressCounters {
    match kind {
        PreparedRequestKind::WebSocket(_) => websocket_rejected(
            c,
            kind.spec_is_http2_websocket(),
        ),
        PreparedRequestKind::Connect(protocol) => connect_rejected(
            c,
            protocol == NegotiatedHttpProtocol::Http2,
        ),
        _ => c,
    }
}

/// What a signature or a target that was refused adds for the session that the
/// request asked for.
pub open spec fn protocol_rejected(
    c: HttpIngressCounters,
    kind: PreparedRequestKind,
) -> HttpIngressCounters {
    match kind {
        PreparedRequestKind::WebSocket(_) => websocket_rejected(
            c,
            kind.spec_is_http2_websocket(),
        ),
        PreparedRequestKind::Connect(_) => connect_rejected(c, false),
        _ => c,
    }
}

/// What a request that came too soon adds.
pub open spec fn rate_limited(
    c: HttpIngressCounters,
    intent: RequestIntent,
    kind: PreparedRequestKind,
    rejection: HttpRateLimitRejection,
) -> HttpIngressCounters {
    let c1 = rejected(c);
    let c2 = if intent.reachability { probe_failed(probed(c1)) } else { c1 };
    let c3 = session_rejected(c2, kind);
    match rejection {
        HttpRateLimitRejection::Global { .. } => HttpIngressCounters {
            global_rate_limit_rejections: bumped(c3.global_rate_limit_rejections),
            ..c3
        },
        HttpRateLimitRejection::PerIp { .. } => HttpIngressCounters {
            per_ip_rate_limit_rejections: bumped(c3.per_ip_rate_limit_rejections),
            ..c3
        },
        HttpRateLimitRejection::PeerTableFull { .. } => HttpIngressCounters {
            rate_limit_peer_capacity_rejections: bumped(c3.rate_limit_peer_capacity_rejections),
            ..c3
        },
    }
}

/// What an answered reachability probe adds.
pub open spec fn probe_answered(c: HttpIngressCounters, connected: bool) -> HttpIngressCounters {
    if connected {
        let c1 = completed(admitted(c));
        HttpIngressCounters {
            successful_reachability_probes: bumped(c1.successful_reachability_probes),
            ..c1
        }
    } else {
        probe_failed(rejected(c))
    }
}

/// What a refused signature adds.
pub open spec fn signature_refused(
    c: HttpIngressCounters,
    kind: PreparedRequestKind,
    reason: RejectionReason,
) -> HttpIngressCounters {
    let c1 = rejected(c);
    let c2 = match reason {
        RejectionReason::SignedAccessMissing => HttpIngressCounters {
            missing_signed_access_rejections: bumped(c1.missing_signed_access_rejections),
            ..c1
        },
        RejectionReason::SignedAccessExpired => HttpIngressCounters {
            expired_signed_access_rejections: bumped(c1.expired_signed_access_rejections),
            ..c1
        },
        _ => HttpIngressCounters {
            invalid_signed_access_rejections: bumped(c1.invalid_signed_access_rejections),
            ..c1
        },
    };
    protocol_rejected(c2, kind)
}

/// One signature accepted.
pub open spec fn signature_accepted(c: HttpIngressCounters) -> HttpIngressCounters {
    HttpIngressCounters {
        accepted_signed_access_requests: bumped(c.accepted_signed_access_requests),
        ..c
    }
}

/// The session that a request of that kind asked for is open.
pub open spec fn session_opened(
    c: HttpIngressCounters,
    kind: PreparedRequestKind,
) -> HttpIngressCounters {
    match kind {
        PreparedRequestKind::WebSocket(handshake) => websocket_opened(c, handshake.protocol),
        PreparedRequestKind::Connect(protocol) => connect_opened(c, protocol),
        _ => c,
    }
}

/// The session that a request of that kind asked for is closed.
pub open spec fn session_closed(
    c: HttpIngressCounters,
    kind: PreparedRequestKind,
) -> HttpIngressCounters {
    match kind {
        PreparedRequestKind::WebSocket(handshake) => websocket_closed(c, handshake.protocol),
        PreparedRequestKind::Connect(protocol) => connect_closed(c, protocol),
        _ => c,
    }
}

/// The session that a request of that kind asked for has been handed to a relay.
pub open spec fn session_accepted(
    c: HttpIngressCounters,
    kind: PreparedRequestKind,
) -> HttpIngressCounters {
    match kind {
        PreparedRequestKind::WebSocket(handshake) => HttpIngressCounters {
            accepted_websocket_upgrades: bumped(c.accepted_websocket_upgrades),
            accepted_http2_websocket_sessions: if handshake.protocol
                == NegotiatedHttpProtocol::Http2 {
                bumped(c.accepted_http2_websocket_sessions)
            } else {
                c.accepted_http2_websocket_sessions
            },
            ..c
        },
        PreparedRequestKind::Connect(protocol) => HttpIngressCounters {
            accepted_connect_sessions: bumped(c.accepted_connect_sessions),
            accepted_http2_connect_sessions: if protocol == NegotiatedHttpProtocol::Http2 {
                bumped(c.accepted_http2_connect_sessions)
            } else {
                c.accepted_http2_connect_sessions
            },
            ..c
        },
        _ => c,
    }
}

/// A session ended because nothing moved for too long.
pub open spec fn session_idled(
    c: HttpIngressCounters,
    kind: PreparedRequestKind,
) -> HttpIngressCounters {
    match kind {
        PreparedRequestKind::WebSocket(handshake) => HttpIngressCounters {
            websocket_idle_timeouts: bumped(c.websocket_idle_timeouts),
            http2_websocket_idle_timeouts: if handshake.protocol == NegotiatedHttpProtocol::Http2 {
                bumped(c.http2_websocket_idle_timeouts)
            } else {
                c.http2_websocket_idle_timeouts
            },
            ..c
        },
        PreparedRequestKind::Connect(protocol) => HttpIngressCounters {
            connect_idle_timeouts: bumped(c.connect_idle_timeouts),
            http2_connect_idle_timeouts: if protocol == NegotiatedHttpProtocol::Http2 {
                bumped(c.http2_connect_idle_timeouts)
            } else {
                c.http2_connect_idle_timeouts
            },
            ..c
        },
        _ => c,
    }
}

pub(crate) fn count_rejected(c: &mut HttpIngressCounters)
    ensures
        *final(c) == rejected(*old(c)),
{
    c.rejected_requests = bump(c.rejected_requests);
}

pub(crate) fn count_completed(c: &mut HttpIngressCounters)
    ensures
        *final(c) == completed(*old(c)),
{
    c.completed_requests = bump(c.completed_requests);
}

pub(crate) fn count_admitted(c: &mut HttpIngressCounters)
    ensures
        *final(c) == admitted(*old(c)),
{
    c.admitted_requests = bump(c.admitted_requests);
}

pub(crate) fn count_probed(c: &mut HttpIngressCounters)
    ensures
        *final(c) == probed(*old(c)),
{
    c.reachability_probe_requests = bump(c.reachability_probe_requests);
}

fn count_probe_failed(c: &mut HttpIngressCounters)
    ensures
        *final(c) == probe_failed(*old(c)),
{
    c.failed_reachability_probes = bump(c.failed_reachability_probes);
}

fn count_websocket_rejected(c: &mut HttpIngressCounters, http2: bool)
    ensures
        *final(c) == websocket_rejected(*old(c), http2),
{
    c.rejected_websocket_upgrades = bump(c.rejected_websocket_upgrades);
    if http2 {
        c.rejected_http2_websocket_sessions = bump(c.rejected_http2_websocket_sessions);
    }
}

fn count_connect_rejected(c: &mut HttpIngressCounters, http2: bool)
    ensures
        *final(c) == connect_rejected(*old(c), http2),
{
    c.rejected_connect_sessions = bump(c.rejected_connect_sessions);
    if http2 {
        c.rejected_http2_connect_sessions = bump(c.rejected_http2_connect_sessions);
    }
}

/// Counts a request that was refused before it was prepared.
pub fn count_refused_unprepared(c: &mut HttpIngressCounters, intent: RequestIntent)
    ensures
        *final(c) == refused_unprepared(*old(c), intent),
{
    count_rejected(c);
    if intent.reachability {
        count_probed(c);
        count_probe_failed(c);
    }
    if intent.websocket {
        count_websocket_rejected(c, intent.http2_websocket);
    }
    if intent.connect {
        count_connect_rejected(c, intent.http2_connect);
    }
}

/// Counts the refused session of a request.
pub fn count_session_rejected(c: &mut HttpIngressCounters, kind: &PreparedRequestKind)
    ensures
        *final(c) == session_rejected(*old(c), *kind),
{
    match kind {
        PreparedRequestKind::WebSocket(_) => count_websocket_rejected(c, is_http2_websocket(kind)),
        PreparedRequestKind::Connect(protocol) => count_connect_rejected(
            c,
            *protocol == NegotiatedHttpProtocol::Http2,
        ),
        _ => {},
    }
}

/// Counts the session of a request whose signature or target was refused.
pub fn record_protocol_rejection(c: &mut HttpIngressCounters, kind: &PreparedRequestKind)
    ensures
        *final(c) == protocol_rejected(*old(c), *kind),
{
    match kind {
        PreparedRequestKind::WebSocket(_) => count_websocket_rejected(c, is_http2_websocket(kind)),
        PreparedRequestKind::Connect(_) => count_connect_rejected(c, false),
        _ => {},
    }
}

/// Counts a request that came too soon.
pub fn count_rate_limited(
    c: &mut HttpIngressCounters,
    intent: RequestIntent,
    kind: &PreparedRequestKind,
    rejection: HttpRateLimitRejection,
)
    ensures
        *final(c) == rate_limited(*old(c), intent, *kind, rejection),
{
    count_rejected(c);
    if intent.reachability {
        count_probed(c);
        count_probe_failed(c);
    }
    count_session_rejected(c, kind);
    match rejection {
        HttpRateLimitRejection::Global { .. } => {
            c.global_rate_limit_rejections = bump(c.global_rate_limit_rejections);
        },
        HttpRateLimitRejection::PerIp { .. } => {
            c.per_ip_rate_limit_rejections = bump(c.per_ip_rate_limit_rejections);
        },
        HttpRateLimitRejection::PeerTableFull { .. } => {
            c.rate_limit_peer_capacity_rejections = bump(c.rate_limit_peer_capacity_rejections);
        },
    }
}

/// Counts an answered reachability probe.
pub fn count_probe_answered(c: &mut HttpIngressCounters, connected: bool)
    ensures
        *final(c) == probe_answered(*old(c), connected),
{
    if connected {
        count_admitted(c);
        count_completed(c);
        c.successful_reachability_probes = bump(c.successful_reachability_probes);
    } else {
        count_rejected(c);
        count_probe_failed(c);
    }
}

/// Counts a refused signature.
pub fn count_signature_refused(
    c: &mut HttpIngressCounters,
    kind: &PreparedRequestKind,
    reason: RejectionReason,
)
    ensures
        *final(c) == signature_refused(*old(c), *kind, reason),
{
    count_rejected(c);
    match reason {
        RejectionReason::SignedAccessMissing => {
            c.missing_signed_access_rejections = bump(c.missing_signed_access_rejections);
        },
        RejectionReason::SignedAccessExpired => {
            c.expired_signed_access_rejections = bump(c.expired_signed_access_rejections);
        },
        _ => {
            c.invalid_signed_access_rejections = bump(c.invalid_signed_access_rejections);
        },
    }
    record_protocol_rejection(c, kind);
}

pub(crate) fn count_signature_accepted(c: &mut HttpIngressCounters)
    ensures
        *final(c) == signature_accepted(*old(c)),
{
    c.accepted_signed_access_requests = bump(c.accepted_signed_access_requests);
}

pub(crate) fn open_session(c: &mut HttpIngressCounters, kind: &PreparedRequestKind)
    ensures
        *final(c) == session_opened(*old(c), *kind),
{
    match kind {
        PreparedRequestKind::WebSocket(handshake) => {
            let _ = WebSocketSessionGuard::new(c, handshake.protocol);
        },
        PreparedRequestKind::Connect(protocol) => {
            let _ = ConnectSessionGuard::new(c, *protocol);
        },
        _ => {},
    }
}

pub(crate) fn close_session(c: &mut HttpIngressCounters, kind: &PreparedRequestKind)
    ensures
        *final(c) == session_closed(*old(c), *kind),
{
    match kind {
        PreparedRequestKind::WebSocket(handshake) => {
            WebSocketSessionGuard { protocol: handshake.protocol }.release(c);
        },
        PreparedRequestKind::Connect(protocol) => {
            ConnectSessionGuard { protocol: *protocol }.release(c);
        },
        _ => {},
    }
}

pub(crate) fn count_session_accepted(c: &mut HttpIngressCounters, kind: &PreparedRequestKind)
    ensures
        *final(c) == session_accepted(*old(c), *kind),
{
    match kind {
        PreparedRequestKind::WebSocket(handshake) => {
            c.accepted_websocket_upgrades = bump(c.accepted_websocket_upgrades);
            if handshake.protocol == NegotiatedHttpProtocol::Http2 {
                c.accepted_http2_websocket_sessions = bump(c.accepted_http2_websocket_sessions);
            }
        },
        PreparedRequestKind::Connect(protocol) => {
            c.accepted_connect_sessions = bump(c.accepted_connect_sessions);
            if *protocol == NegotiatedHttpProtocol::Http2 {
                c.accepted_http2_connect_sessions = bump(c.accepted_http2_connect_sessions);
            }
        },
        _ => {},
    }
}

pub(crate) fn count_session_idled(c: &mut HttpIngressCounters, kind: &PreparedRequestKind)
    ensures
        *final(c) == session_idled(*old(c), *kind),
{
    match kind {
        PreparedRequestKind::WebSocket(handshake) => {
            c.websocket_idle_timeouts = bump(c.websocket_idle_timeouts);
            if handshake.protocol == NegotiatedHttpProtocol::Http2 {
                c.http2_websocket_idle_timeouts = bump(c.http2_websocket_idle_timeouts);
            }
        },
        PreparedRequestKind::Connect(protocol) => {
            c.connect_idle_timeouts = bump(c.connect_idle_timeouts);
            if *protocol == NegotiatedHttpProtocol::Http2 {
                c.http2_connect_idle_timeouts = bump(c.http2_connect_idle_timeouts);
            }
        },
        _ => {},
    }
}

/// A request that is refused counts as rejected, once, and as nothing that was admitted or
/// completed; what it asked for is counted as refused beside it.
pub proof fn refused_requests_are_counted_once(
    c: HttpIngressCounters,
    intent: RequestIntent,
    kind: PreparedRequestKind,
    rejection: HttpRateLimitRejection,
    reason: RejectionReason,
)
    requires
        c.rejected_requests < u64::MAX,
    ensures
        refused_unprepared(c, intent).rejected_requests == c.rejected_requests + 1,
        refused_unprepared(c, intent).admitted_requests == c.admitted_requests,
        refused_unprepared(c, intent).completed_requests == c.completed_requests,
        rate_limited(c, intent, kind, rejection).rejected_requests == c.rejected_requests + 1,
        rate_limited(c, intent, kind, rejection).admitted_requests == c.admitted_requests,
        rate_limited(c, intent, kind, rejection).completed_requests == c.completed_requests,
        signature_refused(c, kind, reason).rejected_requests == c.rejected_requests + 1,
        signature_refused(c, kind, reason).admitted_requests == c.admitted_requests,
        rejected(c).rejected_requests == c.rejected_requests + 1,
        !intent.websocket ==> refused_unprepared(c, intent).rejected_websocket_upgrades
            == c.rejected_websocket_upgrades,
        intent.websocket && c.rejected_websocket_upgrades < u64::MAX ==> refused_unprepared(
            c,
            intent,
        ).rejected_websocket_upgrades == c.rejected_websocket_upgrades + 1,
        !intent.connect ==> refused_unprepared(c, intent).rejected_connect_sessions
            == c.rejected_connect_sessions,
        intent.connect && c.rejected_connect_sessions < u64::MAX ==> refused_unprepared(
            c,
            intent,
        ).rejected_connect_sessions == c.rejected_connect_sessions + 1,
        intent.reachability && c.failed_reachability_probes < u64::MAX ==> refused_unprepared(
            c,
            intent,
        ).failed_reachability_probes == c.failed_reachability_probes + 1,
{
}

/// A request that comes too soon is counted by the limit that refused it, and by no other.
pub proof fn rate_limits_are_counted_apart(
    c: HttpIngressCounters,
    intent: RequestIntent,
    kind: PreparedRequestKind,
    rejection: HttpRateLimitRejection,
)
    requires
        c.global_rate_limit_rejections < u64::MAX,
        c.per_ip_rate_limit_rejections < u64::MAX,
        c.rate_limit_peer_capacity_rejections < u64::MAX,
    ensures
        rate_limited(c, intent, kind, rejection).global_rate_limit_rejections
            == c.global_rate_limit_rejections + (if rejection is Global { 1int } else { 0 }),
        rate_limited(c, intent, kind, rejection).per_ip_rate_limit_rejections
            == c.per_ip_rate_limit_rejections + (if rejection is PerIp { 1int } else { 0 }),
        rate_limited(c, intent, kind, rejection).rate_limit_peer_capacity_rejections
            == c.rate_limit_peer_capacity_rejections + (if rejection is PeerTableFull {
            1int
        } else {
            0
        }),
{
}

/// Sessions are counted by what they are and by their protocol: opening one, accepting
/// one, refusing one and losing one to idleness each move their own counters by one, and
/// those of HTTP/2 just for HTTP/2.
pub proof fn sessions_are_counted_by_kind(c: HttpIngressCounters, kind: PreparedRequestKind)
    requires
        c.active_websocket_sessions < usize::MAX,
        c.active_connect_sessions < usize::MAX,
        c.accepted_websocket_upgrades < u64::MAX,
        c.accepted_connect_sessions < u64::MAX,
        c.rejected_websocket_upgrades < u64::MAX,
        c.rejected_connect_sessions < u64::MAX,
        c.websocket_idle_timeouts < u64::MAX,
        c.connect_idle_timeouts < u64::MAX,
    ensures
        session_opened(c, kind).active_websocket_sessions == c.active_websocket_sessions + (if kind
            is WebSocket { 1int } else { 0 }),
        session_opened(c, kind).active_connect_sessions == c.active_connect_sessions + (if kind
            is Connect { 1int } else { 0 }),
        session_accepted(c, kind).accepted_websocket_upgrades == c.accepted_websocket_upgrades + (
        if kind is WebSocket { 1int } else { 0 }),
        session_accepted(c, kind).accepted_connect_sessions == c.accepted_connect_sessions + (
        if kind is Connect { 1int } else { 0 }),
        session_rejected(c, kind).rejected_websocket_upgrades == c.rejected_websocket_upgrades + (
        if kind is WebSocket { 1int } else { 0 }),
        session_rejected(c, kind).rejected_connect_sessions == c.rejected_connect_sessions + (
        if kind is Connect { 1int } else { 0 }),
        session_idled(c, kind).websocket_idle_timeouts == c.websocket_idle_timeouts + (if kind
            is WebSocket { 1int } else { 0 }),
        session_idled(c, kind).connect_idle_timeouts == c.connect_idle_timeouts + (if kind
            is Connect { 1int } else { 0 }),
        kind is Regular ==> session_opened(c, kind) == c && session_closed(c, kind) == c
            && session_rejected(c, kind) == c && session_accepted(c, kind) == c,
        kind matches PreparedRequestKind::Connect(protocol) && protocol
            == NegotiatedHttpProtocol::Http1 ==> session_opened(c, kind).active_http2_connect_sessions
            == c.active_http2_connect_sessions,
        kind matches PreparedRequestKind::WebSocket(handshake) && handshake.protocol
            == NegotiatedHttpProtocol::Http1 ==> session_opened(
            c,
            kind,
        ).active_http2_websocket_sessions == c.active_http2_websocket_sessions,
{
}

/// A signature that is refused is counted by its reason, and one that is accepted as such.
pub proof fn signatures_are_counted_by_reason(
    c: HttpIngressCounters,
    kind: PreparedRequestKind,
    reason: RejectionReason,
)
    requires
        c.missing_signed_access_rejections < u64::MAX,
        c.expired_signed_access_rejections < u64::MAX,
        c.invalid_signed_access_rejections < u64::MAX,
        c.accepted_signed_access_requests < u64::MAX,
    ensures
        ({
            let after = signature_refused(c, kind, reason);
            let missing = reason is SignedAccessMissing;
            let expired = reason is SignedAccessExpired;
            &&& after.missing_signed_access_rejections == c.missing_signed_access_rejections + (
            if missing { 1int } else { 0 })
            &&& after.expired_signed_access_rejections == c.expired_signed_access_rejections + (
            if expired { 1int } else { 0 })
            &&& after.invalid_signed_access_rejections == c.invalid_signed_access_rejections + (
            if !missing && !expired { 1int } else { 0 })
            &&& after.accepted_signed_access_requests == c.accepted_signed_access_requests
        }),
        signature_accepted(c).accepted_signed_access_requests == c.accepted_signed_access_requests
            + 1,
        signature_accepted(c).rejected_requests == c.rejected_requests,
{
}

/// A probe that finds its tunnel is admitted and completed and counts as a success; one
/// that does not is rejected and counts as a failure.
pub proof fn probes_are_counted_by_their_answer(c: HttpIngressCounters, connected: bool)
    requires
        c.admitted_requests < u64::MAX,
        c.completed_requests < u64::MAX,
        c.rejected_requests < u64::MAX,
        c.successful_reachability_probes < u64::MAX,
        c.failed_reachability_probes < u64::MAX,
        c.reachability_probe_requests < u64::MAX,
    ensures
        ({
            let after = probe_answered(c, connected);
            let found: int = if connected { 1 } else { 0 };
            &&& after.admitted_requests == c.admitted_requests + found
            &&& after.completed_requests == c.completed_requests + found
            &&& after.successful_reachability_probes == c.successful_reachability_probes + found
            &&& after.failed_reachability_probes == c.failed_reachability_probes + 1 - found
            &&& after.rejected_requests == c.rejected_requests + 1 - found
        }),
        probed(c).reachability_probe_requests == c.reachability_probe_requests + 1,
        probed(c).admitted_requests == c.admitted_requests,
        admitted(c).admitted_requests == c.admitted_requests + 1,
        completed(c).completed_requests == c.completed_requests + 1,
{
}

/// What concerns a session over HTTP/2 is counted once more beside what concerns all
/// sessions of its kind, and nothing of a session over HTTP/1.1 is.
pub proof fn http2_sessions_are_counted_beside(
    c: HttpIngressCounters,
    kind: PreparedRequestKind,
    handshake: WebSocketHandshake,
    protocol: NegotiatedHttpProtocol,
)
    requires
        kind == PreparedRequestKind::WebSocket(handshake) && protocol == handshake.protocol || kind
            == PreparedRequestKind::Connect(protocol),
        c.accepted_http2_websocket_sessions < u64::MAX,
        c.accepted_http2_connect_sessions < u64::MAX,
        c.rejected_http2_websocket_sessions < u64::MAX,
        c.rejected_http2_connect_sessions < u64::MAX,
        c.http2_websocket_idle_timeouts < u64::MAX,
        c.http2_connect_idle_timeouts < u64::MAX,
        c.active_http2_websocket_sessions < usize::MAX,
        c.active_http2_connect_sessions < usize::MAX,
    ensures
        ({
            let w: int = if kind is WebSocket && protocol == NegotiatedHttpProtocol::Http2 {
                1
            } else {
                0
            };
            let t: int = if kind is Connect && protocol == NegotiatedHttpProtocol::Http2 {
                1
            } else {
                0
            };
            &&& session_accepted(c, kind).accepted_http2_websocket_sessions
                == c.accepted_http2_websocket_sessions + w
            &&& session_accepted(c, kind).accepted_http2_connect_sessions
                == c.accepted_http2_connect_sessions + t
            &&& session_rejected(c, kind).rejected_http2_websocket_sessions
                == c.rejected_http2_websocket_sessions + w
            &&& session_rejected(c, kind).rejected_http2_connect_sessions
                == c.rejected_http2_connect_sessions + t
            &&& session_idled(c, kind).http2_websocket_idle_timeouts
                == c.http2_websocket_idle_timeouts + w
            &&& session_idled(c, kind).http2_connect_idle_timeouts == c.http2_connect_idle_timeouts
                + t
            &&& session_opened(c, kind).active_http2_websocket_sessions
                == c.active_http2_websocket_sessions + w
            &&& session_opened(c, kind).active_http2_connect_sessions
                == c.active_http2_connect_sessions + t
        }),
{
}

/// What a request asks for shows in its head: a probe in its path, a tunnel in its method,
/// a WebSocket over HTTP/2 in its protocol.
pub proof fn intents_show_in_the_head(head: RequestHead, names: ReachabilityNames)
    ensures
        ({
            let intent = intent_of(head, names);
            &&& intent.reachability <==> head.spec_path() == names.path@
            &&& intent.connect <==> head.method@ == "CONNECT".spec_bytes()
                && head.extended_protocol is None
            &&& intent.http2_connect <==> intent.connect && head.version is Http2
            &&& intent.http2_websocket ==> intent.websocket && head.version is Http2
                && head.extended_protocol is Some
            &&& head.version is Http2 && head.extended_protocol is Some
                && head.extended_protocol->0@ == "websocket".spec_bytes() ==> intent.http2_websocket
            &&& websocket_intent(header_fields(head.headers)) ==> intent.websocket
        }),
{
}

} // verus!
