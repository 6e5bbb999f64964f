//! The course of one request through the ingress. Each step takes the outcome of
//! the work that the step before asked for, counts it, and says what to do next.

use vstd::prelude::*;
use vstd::string::StringSliceAdditionalSpecFns;

use crate::bytes::{is_text, NUMBER_SIGN, SLASH};
use crate::clock::{Duration, Instant};
use crate::http_config::HttpIngressConfig;
use crate::http_counting::{
    close_session, count_admitted, count_completed, count_probe_answered, count_probed,
    count_rate_limited, count_refused_unprepared, count_rejected, count_session_accepted,
    count_session_idled, count_session_rejected, count_signature_accepted,
    count_signature_refused, open_session, record_protocol_rejection, request_intent, admitted,
    completed, intent_of, probe_answered, probed, protocol_rejected, rate_limited,
    refused_unprepared, rejected, session_accepted, session_closed, session_idled, session_opened,
    session_rejected, signature_accepted, signature_refused, RequestIntent,
};
use crate::http_headers::{end_to_end, header_fields};
use crate::http_prepare::{
    entropy_is_asked_for, kind_asked, prepare_request, request_verdict, PreparedRequest,
    ReachabilityNames, RequestReadings,
};
use crate::http_rate_limit::{admission, HttpRequestRateLimiter};
use crate::http_rejection::{
    RejectionReason, BAD_GATEWAY, OK, PAYLOAD_TOO_LARGE, SERVICE_UNAVAILABLE, SWITCHING_PROTOCOLS,
    UNAUTHORIZED,
};
use crate::http_request::{opt_view, NegotiatedHttpProtocol, RequestHead, ResponseHead, Version};
use crate::http_response::{route_error_status, route_status};
use crate::http_sanitize::{
    has_room, headers_have_room, request_fields, sanitize_response_headers, sanitize_websocket_response,
    websocket_response_fault, websocket_response_fields, PreparedRequestKind,
};
use crate::http_status::HttpIngressCounters;
use crate::http_target::{
    authorize_signed_access, authorized_target, finalize_request, forwarded_target,
    SignedAccessVerdict,
};
use crate::names::{HttpHostname, TunnelId};
use crate::net::IpAddr;
use crate::protocol::RouteError;

verus! {

/// How a request is answered.
#[derive(Debug, Clone, Copy, PartialEq, Eq, Structural)]
pub enum ProxyAnswer {
    /// An error response with that status.
    Error(u16),
    /// An error response with that status, which no cache may keep.
    NoStoreError(u16),
    /// The response to a request that came too soon.
    RateLimited(Duration),
    /// The answer to a reachability probe.
    ProbeProof,
    /// The response that opens a CONNECT session.
    Connected,
    /// The local service's response, cleaned.
    Forward,
    /// The response that opens a WebSocket session.
    Upgraded,
}

/// What to do next for a request.
#[derive(Debug, Clone, Copy, PartialEq, Eq, Structural)]
pub enum ProxyAction {
    /// Find out whether a session serves the tunnel.
    FindTunnel,
    /// Check the signature that the request carries.
    CheckSignature,
    /// Forward the request.
    Forward,
    /// Try to get a permit for the session.
    AcquirePermit,
    /// Open a stream to the tunnel.
    OpenTunnel,
    /// Hand the session to a relay.
    HandOver,
    /// Speak HTTP/1.1 to the local service.
    ConnectLocally,
    /// Send the request to the local service.
    SendRequest,
    /// Answer the client.
    Answer(ProxyAnswer),
}

/// How far a request has come.
#[derive(Debug, Clone, Copy, PartialEq, Eq, Structural)]
pub enum ProxyStage {
    Probing,
    Authorizing,
    Ready,
    WaitingForPermit,
    OpeningTunnel,
    HandingOver,
    ConnectingLocally,
    WaitingForResponse,
    Relaying,
    Answered,
}

/// A request that was prepared and admitted.
#[derive(Debug)]
pub struct ProxyExchange {
    pub hostname: HttpHostname,
    pub tunnel_id: TunnelId,
    pub kind: PreparedRequestKind,
    pub stage: ProxyStage,
}

/// A request that was received: answered at once, or on its way.
#[derive(Debug)]
pub enum ReceivedRequest {
    Answered(ProxyAnswer),
    Exchange(ProxyExchange),
}

/// Whether a request of that kind asks for a session.
pub open spec fn wants_session(kind: PreparedRequestKind) -> bool {
    kind is WebSocket || kind is Connect
}

/// Whether a session is open for a request at that stage, and no relay has it.
pub open spec fn session_is_open(kind: PreparedRequestKind, stage: ProxyStage) -> bool {
    wants_session(kind) && (stage == ProxyStage::OpeningTunnel || stage == ProxyStage::HandingOver
        || stage == ProxyStage::ConnectingLocally || stage == ProxyStage::WaitingForResponse)
}

/// Where a request starts: probes are looked at first, then signatures.
pub open spec fn first_stage(kind: PreparedRequestKind, signed: bool) -> ProxyStage {
    if kind is ReachabilityProbe {
        ProxyStage::Probing
    } else if signed {
        ProxyStage::Authorizing
    } else {
        ProxyStage::Ready
    }
}

/// What a request at that stage waits for.
pub open spec fn stage_action(stage: ProxyStage) -> Option<ProxyAction> {
    match stage {
        ProxyStage::Probing => Some(ProxyAction::FindTunnel),
        ProxyStage::Authorizing => Some(ProxyAction::CheckSignature),
        ProxyStage::Ready => Some(ProxyAction::Forward),
        ProxyStage::WaitingForPermit => Some(ProxyAction::AcquirePermit),
        ProxyStage::OpeningTunnel => Some(ProxyAction::OpenTunnel),
        ProxyStage::HandingOver => Some(ProxyAction::HandOver),
        ProxyStage::ConnectingLocally => Some(ProxyAction::ConnectLocally),
        ProxyStage::WaitingForResponse => Some(ProxyAction::SendRequest),
        ProxyStage::Relaying => None,
        ProxyStage::Answered => None,
    }
}

/// Receives a request: prepares it, asks the rate limiter, and decides where it
/// starts.
pub fn receive_request(
    request: &RequestHead,
    readings: &RequestReadings,
    server_name: Option<&HttpHostname>,
    config: &HttpIngressConfig,
    names: &ReachabilityNames,
    limiter: &mut HttpRequestRateLimiter,
    peer: IpAddr,
    now: Instant,
    counters: &mut HttpIngressCounters,
) -> (received: ReceivedRequest)
    requires
        old(limiter).wf(),
    ensures
        final(limiter).wf(),
        final(limiter).config == old(limiter).config,
        ({
            let intent = intent_of(*request, *names);
            let verdict = request_verdict(
                *request,
                *readings,
                match server_name {
                    Some(name) => Some(name@),
                    None => None,
                },
                *config,
                *names,
            );
            let (limited, admitted_by_rate) = admission(
                old(limiter).config,
                old(limiter)@,
                peer,
                now,
            );
            match received {
                ReceivedRequest::Answered(ProxyAnswer::RateLimited(wait)) => {
                    &&& verdict is Ok
                    &&& final(limiter)@ == limited
                    &&& admitted_by_rate matches Err(refusal) && wait == refusal.wait() && exists|
                        kind: PreparedRequestKind,
                    |
                        #![trigger rate_limited(*old(counters), intent, kind, refusal)]
                        kind_asked(
                            kind,
                            *request,
                            *names,
                            readings.challenge_proof,
                            config.websocket,
                            config.connect,
                        ) && *final(counters) == rate_limited(
                            *old(counters),
                            intent,
                            kind,
                            refusal,
                        )
                },
                ReceivedRequest::Answered(answer) => {
                    &&& final(limiter)@ == old(limiter)@
                    &&& *final(counters) == refused_unprepared(*old(counters), intent)
                    &&& {
                        ||| verdict is Err && answer == ProxyAnswer::Error(
                            verdict->Err_0.status(),
                        )
                        ||| answer == ProxyAnswer::Error(
                            RejectionReason::WebSocketEntropyUnavailable.status(),
                        ) && entropy_is_asked_for(*request, *readings, *config, *names)
                    }
                },
                ReceivedRequest::Exchange(exchange) => {
                    &&& verdict == Ok::<_, RejectionReason>(
                        (exchange.hostname@, exchange.tunnel_id@),
                    )
                    &&& admitted_by_rate is Ok
                    &&& final(limiter)@ == limited
                    &&& exchange.kind.wf()
                    &&& kind_asked(
                        exchange.kind,
                        *request,
                        *names,
                        readings.challenge_proof,
                        config.websocket,
                        config.connect,
                    )
                    &&& exchange.stage == first_stage(exchange.kind, config.signed_access is Some)
                    &&& *final(counters) == (if exchange.kind is ReachabilityProbe {
                        probed(*old(counters))
                    } else {
                        *old(counters)
                    })
                    &&& header_fields(request.headers).dom().finite()
                    &&& header_fields(request.headers).dom().len() <= config.max_headers
                },
            }
        }),
{
    let intent: RequestIntent = request_intent(request, names);
    let prepared: PreparedRequest = match prepare_request(
        request,
        readings,
        server_name,
        config,
        names,
    ) {
        Ok(prepared) => prepared,
        Err(error) => {
            count_refused_unprepared(counters, intent);
            return ReceivedRequest::Answered(ProxyAnswer::Error(error.status));
        },
    };
    match limiter.try_admit_at(peer, now) {
        Ok(()) => {},
        Err(refusal) => {
            count_rate_limited(counters, intent, &prepared.kind, refusal);
            return ReceivedRequest::Answered(ProxyAnswer::RateLimited(refusal.retry_after()));
        },
    }
    let probe: bool = match &prepared.kind {
        PreparedRequestKind::ReachabilityProbe(_) => true,
        _ => false,
    };
    let stage: ProxyStage = if probe {
        count_probed(counters);
        ProxyStage::Probing
    } else if config.signed_access.is_some() {
        ProxyStage::Authorizing
    } else {
        ProxyStage::Ready
    };
    ReceivedRequest::Exchange(
        ProxyExchange {
            hostname: prepared.hostname,
            tunnel_id: prepared.tunnel_id,
            kind: prepared.kind,
            stage,
        },
    )
}

/// Why a checked request cannot be forwarded.
pub open spec fn forward_fault(
    head: RequestHead,
    peer: Seq<u8>,
    hostname: Seq<u8>,
    kind: PreparedRequestKind,
) -> Option<RejectionReason> {
    if kind is Connect {
        None
    } else if !is_text(peer) {
        Some(RejectionReason::InvalidPeerAddress)
    } else if !is_text(hostname) {
        Some(RejectionReason::InvalidCanonicalHost)
    } else if forwarded_target(head) is None {
        Some(RejectionReason::InvalidRequestTarget)
    } else {
        None
    }
}

/// Whether a body may be longer than allowed.
pub open spec fn body_too_large(head: RequestHead, max_request_body_bytes: usize) -> bool {
    head.body_size_limit is Some && head.body_size_limit->0 > max_request_body_bytes
}

/// What becomes of a request, and what it is answered or waits for, when it is made
/// the one that the local service is sent.
pub open spec fn forwarding(
    before: ProxyExchange,
    after: ProxyExchange,
    request_before: RequestHead,
    request_after: RequestHead,
    peer: Seq<u8>,
    max_request_body_bytes: usize,
    counters_before: HttpIngressCounters,
    counters_after: HttpIngressCounters,
    action: ProxyAction,
) -> bool {
    let kind = before.kind;
    let fault = forward_fault(request_before, peer, before.hostname.bytes(), kind);
    &&& match fault {
        Some(reason) => {
            &&& action == ProxyAction::Answer(ProxyAnswer::Error(reason.status()))
            &&& after == before.at(ProxyStage::Answered)
            &&& counters_after == protocol_rejected(rejected(counters_before), kind)
        },
        None => if wants_session(kind) {
            &&& action == ProxyAction::AcquirePermit
            &&& after == before.at(ProxyStage::WaitingForPermit)
            &&& counters_after == admitted(counters_before)
        } else if body_too_large(request_before, max_request_body_bytes) {
            &&& action == ProxyAction::Answer(ProxyAnswer::Error(PAYLOAD_TOO_LARGE))
            &&& after == before.at(ProxyStage::Answered)
            &&& counters_after == rejected(admitted(counters_before))
        } else {
            &&& action == ProxyAction::OpenTunnel
            &&& after == before.at(ProxyStage::OpeningTunnel)
            &&& counters_after == admitted(counters_before)
        },
    }
    &&& kind is Connect ==> request_after == request_before
    &&& !(kind is Connect) && fault is None ==> {
        &&& header_fields(request_after.headers) == request_fields(
            header_fields(request_before.headers),
            peer,
            before.hostname.bytes(),
            kind,
        )
        &&& opt_view(request_after.path_and_query) == forwarded_target(request_before)
        &&& request_before.path_and_query is None ==> opt_view(request_after.path_and_query)
            == Some(seq![SLASH])
        &&& request_before.path_and_query is Some && !request_before.path_and_query->0@.contains(
            NUMBER_SIGN,
        ) ==> opt_view(request_after.path_and_query) == opt_view(request_before.path_and_query)
        &&& request_after.scheme is None
        &&& request_after.authority is None
        &&& request_after.version == Version::Http11
        &&& request_after.method@ == (if kind is WebSocket {
            "GET".spec_bytes()
        } else {
            request_before.method@
        })
        &&& request_after.extended_protocol == request_before.extended_protocol
        &&& request_after.body_size_limit == request_before.body_size_limit
    }
}

/// What becomes of the local service's response: it is passed on cleaned, or it opens
/// the WebSocket session that was asked for, or it is refused.
pub open spec fn response_taken(
    before: ProxyExchange,
    after: ProxyExchange,
    response_before: ResponseHead,
    response_after: ResponseHead,
    counters_before: HttpIngressCounters,
    counters_after: HttpIngressCounters,
    action: ProxyAction,
) -> bool {
    let fields = header_fields(response_before.headers);
    match before.kind {
        PreparedRequestKind::WebSocket(handshake) => if response_before.status
            != SWITCHING_PROTOCOLS {
            &&& action == ProxyAction::Answer(ProxyAnswer::Forward)
            &&& after == before.at(ProxyStage::Answered)
            &&& counters_after == session_closed(
                session_rejected(counters_before, before.kind),
                before.kind,
            )
            &&& response_after.status == response_before.status
            &&& response_after.version == response_before.version
            &&& header_fields(response_after.headers) == end_to_end(fields)
        } else if websocket_response_fault(
            response_before.version,
            fields,
            handshake@,
        ) is Some {
            &&& action == ProxyAction::Answer(ProxyAnswer::Error(BAD_GATEWAY))
            &&& after == before.at(ProxyStage::Answered)
            &&& counters_after == session_closed(
                session_rejected(rejected(counters_before), before.kind),
                before.kind,
            )
            &&& response_after == response_before
        } else {
            &&& action == ProxyAction::HandOver
            &&& after == before.at(ProxyStage::HandingOver)
            &&& counters_after == counters_before
            &&& header_fields(response_after.headers) == websocket_response_fields(
                fields,
                handshake@,
            )
            &&& match handshake.protocol {
                NegotiatedHttpProtocol::Http1 => response_after.status
                    == SWITCHING_PROTOCOLS && response_after.version == Version::Http11,
                NegotiatedHttpProtocol::Http2 => response_after.status == OK
                    && response_after.version == Version::Http2,
            }
        },
        _ => {
            &&& action == ProxyAction::Answer(ProxyAnswer::Forward)
            &&& after == before.at(ProxyStage::Answered)
            &&& counters_after == counters_before
            &&& response_after.status == response_before.status
            &&& response_after.version == response_before.version
            &&& header_fields(response_after.headers) == end_to_end(fields)
        },
    }
}

/// What came of the work that a request waited for.
pub enum ProxyOutcome {
    TunnelFound(bool),
    Permit { granted: bool, too_large: bool },
    TunnelOpened(Result<(), RouteError>),
    HandedOver(bool),
    LocallyConnected(bool),
    LocalFailed,
}

/// Where a request of that kind goes on, and what is done next.
pub open spec fn outcome_leads_to(kind: PreparedRequestKind, outcome: ProxyOutcome) -> (
    ProxyStage,
    ProxyAction,
) {
    match outcome {
        ProxyOutcome::TunnelFound(connected) => (
            ProxyStage::Answered,
            ProxyAction::Answer(
                if connected {
                    ProxyAnswer::ProbeProof
                } else {
                    ProxyAnswer::NoStoreError(SERVICE_UNAVAILABLE)
                },
            ),
        ),
        ProxyOutcome::Permit { granted, too_large } => if !granted {
            (
                ProxyStage::Answered,
                ProxyAction::Answer(ProxyAnswer::Error(SERVICE_UNAVAILABLE)),
            )
        } else if too_large {
            (ProxyStage::Answered, ProxyAction::Answer(ProxyAnswer::Error(PAYLOAD_TOO_LARGE)))
        } else {
            (ProxyStage::OpeningTunnel, ProxyAction::OpenTunnel)
        },
        ProxyOutcome::TunnelOpened(Err(error)) => (
            ProxyStage::Answered,
            ProxyAction::Answer(ProxyAnswer::Error(route_status(error))),
        ),
        ProxyOutcome::TunnelOpened(Ok(_)) => if kind is Connect {
            (ProxyStage::HandingOver, ProxyAction::HandOver)
        } else {
            (ProxyStage::ConnectingLocally, ProxyAction::ConnectLocally)
        },
        ProxyOutcome::HandedOver(accepted) => if accepted {
            (
                ProxyStage::Relaying,
                ProxyAction::Answer(
                    if kind is Connect {
                        ProxyAnswer::Connected
                    } else {
                        ProxyAnswer::Upgraded
                    },
                ),
            )
        } else {
            (
                ProxyStage::Answered,
                ProxyAction::Answer(ProxyAnswer::Error(SERVICE_UNAVAILABLE)),
            )
        },
        ProxyOutcome::LocallyConnected(connected) => if connected {
            (ProxyStage::WaitingForResponse, ProxyAction::SendRequest)
        } else {
            (ProxyStage::Answered, ProxyAction::Answer(ProxyAnswer::Error(BAD_GATEWAY)))
        },
        ProxyOutcome::LocalFailed => (
            ProxyStage::Answered,
            ProxyAction::Answer(ProxyAnswer::Error(BAD_GATEWAY)),
        ),
    }
}

impl ProxyExchange {
    /// The same request, at another stage.
    pub open spec fn at(self, stage: ProxyStage) -> ProxyExchange {
        ProxyExchange { stage, ..self }
    }

    /// What the request waits for.
    pub fn action(&self) -> (action: Option<ProxyAction>)
        ensures
            action == stage_action(self.stage),
    {
        match self.stage {
            ProxyStage::Probing => Some(ProxyAction::FindTunnel),
            ProxyStage::Authorizing => Some(ProxyAction::CheckSignature),
            ProxyStage::Ready => Some(ProxyAction::Forward),
            ProxyStage::WaitingForPermit => Some(ProxyAction::AcquirePermit),
            ProxyStage::OpeningTunnel => Some(ProxyAction::OpenTunnel),
            ProxyStage::HandingOver => Some(ProxyAction::HandOver),
            ProxyStage::ConnectingLocally => Some(ProxyAction::ConnectLocally),
            ProxyStage::WaitingForResponse => Some(ProxyAction::SendRequest),
            ProxyStage::Relaying => None,
            ProxyStage::Answered => None,
        }
    }

    /// Answers a probe, once it is known whether a session serves its tunnel.
    pub fn tunnel_found(&mut self, connected: bool, counters: &mut HttpIngressCounters) -> (action:
        ProxyAction)
        requires
            old(self).stage == ProxyStage::Probing,
        ensures
            (final(self).stage, action) == outcome_leads_to(
                old(self).kind,
                ProxyOutcome::TunnelFound(connected),
            ),
            *final(self) == old(self).at(ProxyStage::Answered),
            *final(counters) == probe_answered(*old(counters), connected),
            action == ProxyAction::Answer(
                if connected {
                    ProxyAnswer::ProbeProof
                } else {
                    ProxyAnswer::NoStoreError(SERVICE_UNAVAILABLE)
                },
            ),
    {
        self.stage = ProxyStage::Answered;
        count_probe_answered(counters, connected);
        if connected {
            ProxyAction::Answer(ProxyAnswer::ProbeProof)
        } else {
            ProxyAction::Answer(ProxyAnswer::NoStoreError(SERVICE_UNAVAILABLE))
        }
    }

    /// Goes on or refuses, once the signature has been checked; what the request
    /// carries decides first.
    pub fn signature_checked(
        &mut self,
        request: &mut RequestHead,
        verdict: SignedAccessVerdict,
        counters: &mut HttpIngressCounters,
    ) -> (action: ProxyAction)
        requires
            old(self).stage == ProxyStage::Authorizing,
        ensures
            match authorized_target(*old(request), verdict) {
                Ok(target) => {
                    &&& action == ProxyAction::Forward
                    &&& *final(self) == old(self).at(ProxyStage::Ready)
                    &&& *final(counters) == signature_accepted(*old(counters))
                    &&& opt_view(final(request).path_and_query) == Some(target)
                    &&& *final(request) == (RequestHead {
                        path_and_query: final(request).path_and_query,
                        ..*old(request)
                    })
                },
                Err(reason) => {
                    &&& action == ProxyAction::Answer(ProxyAnswer::NoStoreError(UNAUTHORIZED))
                    &&& *final(self) == old(self).at(ProxyStage::Answered)
                    &&& *final(counters) == signature_refused(*old(counters), old(self).kind, reason)
                    &&& *final(request) == *old(request)
                },
            },
    {
        match authorize_signed_access(request, verdict) {
            Ok(()) => {
                count_signature_accepted(counters);
                self.stage = ProxyStage::Ready;
                ProxyAction::Forward
            },
            Err(error) => {
                count_signature_refused(counters, &self.kind, error.reason);
                self.stage = ProxyStage::Answered;
                ProxyAction::Answer(ProxyAnswer::NoStoreError(UNAUTHORIZED))
            },
        }
    }

    /// Makes the request the one that the local service is sent, and admits it.
    /// `peer` is how the client's address is written.
    pub fn forward(
        &mut self,
        request: &mut RequestHead,
        peer: &[u8],
        max_request_body_bytes: usize,
        counters: &mut HttpIngressCounters,
    ) -> (action: ProxyAction)
        requires
            old(self).stage == ProxyStage::Ready,
            old(self).kind.wf(),
            has_room(header_fields(old(request).headers)),
        ensures
            forwarding(
                *old(self),
                *final(self),
                *old(request),
                *final(request),
                peer@,
                max_request_body_bytes,
                *old(counters),
                *final(counters),
                action,
            ),
    {
        match finalize_request(request, peer, &self.hostname, &self.kind) {
            Ok(()) => {},
            Err(error) => {
                count_rejected(counters);
                record_protocol_rejection(counters, &self.kind);
                self.stage = ProxyStage::Answered;
                return ProxyAction::Answer(ProxyAnswer::Error(error.status));
            },
        }
        count_admitted(counters);
        match &self.kind {
            PreparedRequestKind::WebSocket(_) | PreparedRequestKind::Connect(_) => {
                self.stage = ProxyStage::WaitingForPermit;
                ProxyAction::AcquirePermit
            },
            _ => self.check_body(request, max_request_body_bytes, counters),
        }
    }

    fn check_body(
        &mut self,
        request: &RequestHead,
        max_request_body_bytes: usize,
        counters: &mut HttpIngressCounters,
    ) -> (action: ProxyAction)
        ensures
            if body_too_large(*request, max_request_body_bytes) {
                &&& action == ProxyAction::Answer(ProxyAnswer::Error(PAYLOAD_TOO_LARGE))
                &&& *final(self) == old(self).at(ProxyStage::Answered)
                &&& *final(counters) == rejected(*old(counters))
            } else {
                &&& action == ProxyAction::OpenTunnel
                &&& *final(self) == old(self).at(ProxyStage::OpeningTunnel)
                &&& *final(counters) == *old(counters)
            },
    {
        if let Some(length) = request.body_size_limit {
            if length > max_request_body_bytes as u64 {
                count_rejected(counters);
                self.stage = ProxyStage::Answered;
                return ProxyAction::Answer(ProxyAnswer::Error(PAYLOAD_TOO_LARGE));
            }
        }
        self.stage = ProxyStage::OpeningTunnel;
        ProxyAction::OpenTunnel
    }

    /// Opens the session, where a permit for it was free.
    pub fn permit_tried(
        &mut self,
        granted: bool,
        request: &RequestHead,
        max_request_body_bytes: usize,
        counters: &mut HttpIngressCounters,
    ) -> (action: ProxyAction)
        requires
            old(self).stage == ProxyStage::WaitingForPermit,
        ensures
            (final(self).stage, action) == outcome_leads_to(
                old(self).kind,
                ProxyOutcome::Permit {
                    granted,
                    too_large: body_too_large(*request, max_request_body_bytes),
                },
            ),
            if !granted {
                &&& action == ProxyAction::Answer(ProxyAnswer::Error(SERVICE_UNAVAILABLE))
                &&& *final(self) == old(self).at(ProxyStage::Answered)
                &&& *final(counters) == session_rejected(rejected(*old(counters)), old(self).kind)
            } else if body_too_large(*request, max_request_body_bytes) {
                &&& action == ProxyAction::Answer(ProxyAnswer::Error(PAYLOAD_TOO_LARGE))
                &&& *final(self) == old(self).at(ProxyStage::Answered)
                &&& *final(counters) == session_closed(
                    rejected(session_opened(*old(counters), old(self).kind)),
                    old(self).kind,
                )
            } else {
                &&& action == ProxyAction::OpenTunnel
                &&& *final(self) == old(self).at(ProxyStage::OpeningTunnel)
                &&& *final(counters) == session_opened(*old(counters), old(self).kind)
            },
    {
        if !granted {
            count_rejected(counters);
            count_session_rejected(counters, &self.kind);
            self.stage = ProxyStage::Answered;
            return ProxyAction::Answer(ProxyAnswer::Error(SERVICE_UNAVAILABLE));
        }
        open_session(counters, &self.kind);
        let action: ProxyAction = self.check_body(request, max_request_body_bytes, counters);
        if let ProxyAction::Answer(_) = action {
            close_session(counters, &self.kind);
        }
        action
    }

    /// Goes on or gives up, once a stream to the tunnel was asked for.
    pub fn tunnel_opened(
        &mut self,
        result: Result<(), RouteError>,
        counters: &mut HttpIngressCounters,
    ) -> (action: ProxyAction)
        requires
            old(self).stage == ProxyStage::OpeningTunnel,
        ensures
            (final(self).stage, action) == outcome_leads_to(
                old(self).kind,
                ProxyOutcome::TunnelOpened(result),
            ),
            match result {
                Err(error) => {
                    &&& action == ProxyAction::Answer(ProxyAnswer::Error(route_status(error)))
                    &&& *final(self) == old(self).at(ProxyStage::Answered)
                    &&& *final(counters) == session_closed(
                        session_rejected(rejected(*old(counters)), old(self).kind),
                        old(self).kind,
                    )
                },
                Ok(()) => {
                    &&& *final(counters) == *old(counters)
                    &&& if old(self).kind is Connect {
                        &&& action == ProxyAction::HandOver
                        &&& *final(self) == old(self).at(ProxyStage::HandingOver)
                    } else {
                        &&& action == ProxyAction::ConnectLocally
                        &&& *final(self) == old(self).at(ProxyStage::ConnectingLocally)
                    }
                },
            },
    {
        match result {
            Err(error) => {
                count_rejected(counters);
                count_session_rejected(counters, &self.kind);
                close_session(counters, &self.kind);
                self.stage = ProxyStage::Answered;
                ProxyAction::Answer(ProxyAnswer::Error(route_error_status(&error)))
            },
            Ok(()) => {
                if let PreparedRequestKind::Connect(_) = &self.kind {
                    self.stage = ProxyStage::HandingOver;
                    ProxyAction::HandOver
                } else {
                    self.stage = ProxyStage::ConnectingLocally;
                    ProxyAction::ConnectLocally
                }
            },
        }
    }

    /// Answers the client, once a relay was asked to take the session.
    pub fn handed_over(&mut self, accepted: bool, counters: &mut HttpIngressCounters) -> (action:
        ProxyAction)
        requires
            old(self).stage == ProxyStage::HandingOver,
            wants_session(old(self).kind),
        ensures
            (final(self).stage, action) == outcome_leads_to(
                old(self).kind,
                ProxyOutcome::HandedOver(accepted),
            ),
            if accepted {
                &&& action == ProxyAction::Answer(
                    if old(self).kind is Connect {
                        ProxyAnswer::Connected
                    } else {
                        ProxyAnswer::Upgraded
                    },
                )
                &&& *final(self) == old(self).at(ProxyStage::Relaying)
                &&& *final(counters) == session_accepted(*old(counters), old(self).kind)
            } else {
                &&& action == ProxyAction::Answer(ProxyAnswer::Error(SERVICE_UNAVAILABLE))
                &&& *final(self) == old(self).at(ProxyStage::Answered)
                &&& *final(counters) == session_closed(
                    session_rejected(rejected(*old(counters)), old(self).kind),
                    old(self).kind,
                )
            },
    {
        if accepted {
            count_session_accepted(counters, &self.kind);
            self.stage = ProxyStage::Relaying;
            if let PreparedRequestKind::Connect(_) = &self.kind {
                ProxyAction::Answer(ProxyAnswer::Connected)
            } else {
                ProxyAction::Answer(ProxyAnswer::Upgraded)
            }
        } else {
            count_rejected(counters);
            count_session_rejected(counters, &self.kind);
            close_session(counters, &self.kind);
            self.stage = ProxyStage::Answered;
            ProxyAction::Answer(ProxyAnswer::Error(SERVICE_UNAVAILABLE))
        }
    }

    /// Goes on or gives up, once HTTP was spoken to the local service.
    pub fn locally_connected(
        &mut self,
        connected: bool,
        counters: &mut HttpIngressCounters,
    ) -> (action: ProxyAction)
        requires
            old(self).stage == ProxyStage::ConnectingLocally,
        ensures
            (final(self).stage, action) == outcome_leads_to(
                old(self).kind,
                ProxyOutcome::LocallyConnected(connected),
            ),
            if connected {
                &&& action == ProxyAction::SendRequest
                &&& *final(self) == old(self).at(ProxyStage::WaitingForResponse)
                &&& *final(counters) == *old(counters)
            } else {
                &&& action == ProxyAction::Answer(ProxyAnswer::Error(BAD_GATEWAY))
                &&& *final(self) == old(self).at(ProxyStage::Answered)
                &&& *final(counters) == session_closed(rejected(*old(counters)), old(self).kind)
            },
    {
        if connected {
            self.stage = ProxyStage::WaitingForResponse;
            ProxyAction::SendRequest
        } else {
            count_rejected(counters);
            close_session(counters, &self.kind);
            self.stage = ProxyStage::Answered;
            ProxyAction::Answer(ProxyAnswer::Error(BAD_GATEWAY))
        }
    }

    /// Gives up, where the local service did not answer.
    pub fn local_failed(&mut self, counters: &mut HttpIngressCounters) -> (action: ProxyAction)
        requires
            old(self).stage == ProxyStage::WaitingForResponse,
            !(old(self).kind is Connect),
        ensures
            (final(self).stage, action) == outcome_leads_to(
                old(self).kind,
                ProxyOutcome::LocalFailed,
            ),
            action == ProxyAction::Answer(ProxyAnswer::Error(BAD_GATEWAY)),
            *final(self) == old(self).at(ProxyStage::Answered),
            *final(counters) == session_closed(
                session_rejected(rejected(*old(counters)), old(self).kind),
                old(self).kind,
            ),
    {
        count_rejected(counters);
        count_session_rejected(counters, &self.kind);
        close_session(counters, &self.kind);
        self.stage = ProxyStage::Answered;
        ProxyAction::Answer(ProxyAnswer::Error(BAD_GATEWAY))
    }

    /// Takes the local service's response: it is passed on cleaned, or it opens
    /// the WebSocket session that was asked for, or it is refused.
    pub fn local_responded(
        &mut self,
        response: &mut ResponseHead,
        counters: &mut HttpIngressCounters,
    ) -> (action: ProxyAction)
        requires
            old(self).stage == ProxyStage::WaitingForResponse,
            old(self).kind is Regular || old(self).kind is WebSocket,
            old(self).kind.wf(),
            has_room(header_fields(old(response).headers)),
        ensures
            response_taken(
                *old(self),
                *final(self),
                *old(response),
                *final(response),
                *old(counters),
                *final(counters),
                action,
            ),
    {
        if let PreparedRequestKind::WebSocket(handshake) = &self.kind {
            if response.status != SWITCHING_PROTOCOLS {
                count_session_rejected(counters, &self.kind);
                close_session(counters, &self.kind);
                self.stage = ProxyStage::Answered;
                sanitize_response_headers(response);
                return ProxyAction::Answer(ProxyAnswer::Forward);
            }
            if sanitize_websocket_response(response, handshake).is_err() {
                count_rejected(counters);
                count_session_rejected(counters, &self.kind);
                close_session(counters, &self.kind);
                self.stage = ProxyStage::Answered;
                return ProxyAction::Answer(ProxyAnswer::Error(BAD_GATEWAY));
            }
            self.stage = ProxyStage::HandingOver;
            return ProxyAction::HandOver;
        }
        self.stage = ProxyStage::Answered;
        sanitize_response_headers(response);
        ProxyAction::Answer(ProxyAnswer::Forward)
    }

    /// Takes the local service's response as [`ProxyExchange::local_responded`] does,
    /// unless it has so many header names that none can be added: nothing is done to
    /// such a response.
    pub fn try_local_responded(
        &mut self,
        response: &mut ResponseHead,
        counters: &mut HttpIngressCounters,
    ) -> (action: Option<ProxyAction>)
        requires
            old(self).stage == ProxyStage::WaitingForResponse,
            old(self).kind is Regular || old(self).kind is WebSocket,
            old(self).kind.wf(),
        ensures
            action is Some <==> has_room(header_fields(old(response).headers)),
            action is None ==> *final(self) == *old(self) && *final(response) == *old(response)
                && *final(counters) == *old(counters),
            action matches Some(taken) ==> response_taken(
                *old(self),
                *final(self),
                *old(response),
                *final(response),
                *old(counters),
                *final(counters),
                taken,
            ),
    {
        if !headers_have_room(&response.headers) {
            return None;
        }
        Some(self.local_responded(response, counters))
    }

    /// Makes the request the one that the local service is sent, as
    /// [`ProxyExchange::forward`] does, unless it has so many header names that none
    /// can be added: nothing is done to such a request.
    pub fn try_forward(
        &mut self,
        request: &mut RequestHead,
        peer: &[u8],
        max_request_body_bytes: usize,
        counters: &mut HttpIngressCounters,
    ) -> (action: Option<ProxyAction>)
        requires
            old(self).stage == ProxyStage::Ready,
            old(self).kind.wf(),
        ensures
            action is Some <==> has_room(header_fields(old(request).headers)),
            action is None ==> *final(self) == *old(self) && *final(request) == *old(request)
                && *final(counters) == *old(counters),
            action matches Some(taken) ==> forwarding(
                *old(self),
                *final(self),
                *old(request),
                *final(request),
                peer@,
                max_request_body_bytes,
                *old(counters),
                *final(counters),
                taken,
            ),
    {
        if !headers_have_room(&request.headers) {
            return None;
        }
        Some(self.forward(request, peer, max_request_body_bytes, counters))
    }

    /// Gives the request up wherever it is, as when its deadline has passed: a session
    /// that was opened for it, and that no relay has, is closed.
    pub fn abandoned(&mut self, counters: &mut HttpIngressCounters)
        ensures
            *final(self) == (if old(self).stage == ProxyStage::Relaying {
                *old(self)
            } else {
                old(self).at(ProxyStage::Answered)
            }),
            *final(counters) == (if session_is_open(old(self).kind, old(self).stage) {
                session_closed(*old(counters), old(self).kind)
            } else {
                *old(counters)
            }),
    {
        match self.stage {
            ProxyStage::Relaying => {
                return;
            },
            ProxyStage::OpeningTunnel
            | ProxyStage::HandingOver
            | ProxyStage::ConnectingLocally
            | ProxyStage::WaitingForResponse => {
                close_session(counters, &self.kind);
            },
            _ => {},
        }
        self.stage = ProxyStage::Answered;
    }

    /// Counts a session that a relay ran to its end, which may be that nothing
    /// moved for too long.
    pub fn relay_ended(&mut self, idle_timeout: bool, counters: &mut HttpIngressCounters)
        requires
            old(self).stage == ProxyStage::Relaying,
            wants_session(old(self).kind),
        ensures
            *final(self) == old(self).at(ProxyStage::Answered),
            *final(counters) == session_closed(
                completed(
                    if idle_timeout {
                        session_idled(*old(counters), old(self).kind)
                    } else {
                        *old(counters)
                    },
                ),
                old(self).kind,
            ),
    {
        if idle_timeout {
            count_session_idled(counters, &self.kind);
        }
        count_completed(counters);
        close_session(counters, &self.kind);
        self.stage = ProxyStage::Answered;
    }
}

/// A session that was opened and given up leaves the number of open sessions as
/// it was, whatever was counted meanwhile.
pub proof fn given_up_sessions_are_released(
    counters: HttpIngressCounters,
    kind: PreparedRequestKind,
)
    ensures
        ({
            let after = session_closed(
                session_rejected(rejected(session_opened(counters, kind)), kind),
                kind,
            );
            &&& after.active_websocket_sessions == counters.active_websocket_sessions
            &&& after.active_http2_websocket_sessions == counters.active_http2_websocket_sessions
            &&& after.active_connect_sessions == counters.active_connect_sessions
            &&& after.active_http2_connect_sessions == counters.active_http2_connect_sessions
        }),
{
}

/// A session that a relay ran leaves the number of open sessions as it was, and
/// counts as accepted and completed.
pub proof fn relayed_sessions_are_released(
    counters: HttpIngressCounters,
    kind: PreparedRequestKind,
    idle_timeout: bool,
)
    ensures
        ({
            let accepted = session_accepted(session_opened(counters, kind), kind);
            let idled = if idle_timeout { session_idled(accepted, kind) } else { accepted };
            let after = session_closed(completed(idled), kind);
            &&& after.active_websocket_sessions == counters.active_websocket_sessions
            &&& after.active_http2_websocket_sessions == counters.active_http2_websocket_sessions
            &&& after.active_connect_sessions == counters.active_connect_sessions
            &&& after.active_http2_connect_sessions == counters.active_http2_connect_sessions
            &&& after.rejected_requests == counters.rejected_requests
            &&& after.completed_requests == completed(counters).completed_requests
        }),
{
}

/// An ordinary request that can be forwarded goes to its tunnel, unless its body may be
/// larger than allowed: then it is answered 413 and goes nowhere.
pub proof fn ordinary_requests_go_to_their_tunnel(
    before: ProxyExchange,
    after: ProxyExchange,
    request_before: RequestHead,
    request_after: RequestHead,
    peer: Seq<u8>,
    max_request_body_bytes: usize,
    counters_before: HttpIngressCounters,
    counters_after: HttpIngressCounters,
    action: ProxyAction,
)
    requires
        forwarding(
            before,
            after,
            request_before,
            request_after,
            peer,
            max_request_body_bytes,
            counters_before,
            counters_after,
            action,
        ),
        before.kind is Regular,
        is_text(peer),
        is_text(before.hostname.bytes()),
        forwarded_target(request_before) is Some,
    ensures
        request_before.body_size_limit is None || request_before.body_size_limit->0
            <= max_request_body_bytes ==> action == ProxyAction::OpenTunnel && after.stage
            == ProxyStage::OpeningTunnel && counters_after.rejected_requests
            == counters_before.rejected_requests,
        request_before.body_size_limit is Some && request_before.body_size_limit->0
            > max_request_body_bytes ==> action == ProxyAction::Answer(ProxyAnswer::Error(413))
            && after.stage == ProxyStage::Answered,
        after.tunnel_id == before.tunnel_id,
        after.hostname == before.hostname,
        after.kind == before.kind,
        request_after.method@ == request_before.method@,
        request_after.version == Version::Http11,
        request_before.path_and_query is Some && !request_before.path_and_query->0@.contains(35)
            ==> request_after.spec_path() == request_before.spec_path()
            && request_after.spec_query() == request_before.spec_query(),
{
}

/// A request for a session waits for a permit before its tunnel is opened, and goes to
/// the tunnel that it was prepared for.
pub proof fn sessions_wait_for_a_permit(
    before: ProxyExchange,
    after: ProxyExchange,
    request_before: RequestHead,
    request_after: RequestHead,
    peer: Seq<u8>,
    max_request_body_bytes: usize,
    counters_before: HttpIngressCounters,
    counters_after: HttpIngressCounters,
    action: ProxyAction,
)
    requires
        forwarding(
            before,
            after,
            request_before,
            request_after,
            peer,
            max_request_body_bytes,
            counters_before,
            counters_after,
            action,
        ),
        before.kind is WebSocket || before.kind is Connect,
        is_text(peer),
        is_text(before.hostname.bytes()),
        forwarded_target(request_before) is Some,
    ensures
        action == ProxyAction::AcquirePermit,
        after.stage == ProxyStage::WaitingForPermit,
        after.tunnel_id == before.tunnel_id,
        before.kind is Connect ==> request_after == request_before,
        before.kind is WebSocket ==> request_after.method@ == "GET".spec_bytes(),
{
}

/// The response of the local service to an ordinary request reaches the client: with its
/// status, its version, and every field that concerns more than one connection.
pub proof fn clients_get_the_response_of_the_local_service(
    before: ProxyExchange,
    after: ProxyExchange,
    response_before: ResponseHead,
    response_after: ResponseHead,
    counters_before: HttpIngressCounters,
    counters_after: HttpIngressCounters,
    action: ProxyAction,
    name: Seq<u8>,
)
    requires
        response_taken(
            before,
            after,
            response_before,
            response_after,
            counters_before,
            counters_after,
            action,
        ),
        before.kind is Regular || before.kind is WebSocket && response_before.status != 101,
    ensures
        action == ProxyAction::Answer(ProxyAnswer::Forward),
        after.stage == ProxyStage::Answered,
        response_after.status == response_before.status,
        response_after.version == response_before.version,
        header_fields(response_after.headers).dom().contains(name) <==> end_to_end(
            header_fields(response_before.headers),
        ).dom().contains(name),
        header_fields(response_after.headers).dom().contains(name) ==> header_fields(
            response_after.headers,
        )[name] == header_fields(response_before.headers)[name],
        before.kind is Regular ==> counters_after == counters_before,
{
}

/// A WebSocket session is handed over just where the local service gave the right answer;
/// a wrong answer is a bad gateway, and the session is not opened.
pub proof fn sessions_are_handed_over_on_the_right_answer(
    before: ProxyExchange,
    after: ProxyExchange,
    response_before: ResponseHead,
    response_after: ResponseHead,
    counters_before: HttpIngressCounters,
    counters_after: HttpIngressCounters,
    action: ProxyAction,
)
    requires
        response_taken(
            before,
            after,
            response_before,
            response_after,
            counters_before,
            counters_after,
            action,
        ),
        before.kind is WebSocket,
        response_before.status == 101,
    ensures
        ({
            let handshake = before.kind->WebSocket_0;
            let right = websocket_response_fault(
                response_before.version,
                header_fields(response_before.headers),
                handshake@,
            ) is None;
            &&& right ==> action == ProxyAction::HandOver && after.stage
                == ProxyStage::HandingOver
            &&& !right ==> action == ProxyAction::Answer(ProxyAnswer::Error(502)) && after.stage
                == ProxyStage::Answered
            &&& right && handshake.protocol == NegotiatedHttpProtocol::Http1
                ==> response_after.status == 101 && response_after.version == Version::Http11
            &&& right && handshake.protocol == NegotiatedHttpProtocol::Http2
                ==> response_after.status == 200 && response_after.version == Version::Http2
        }),
{
}

/// A probe is looked at before anything else, and where signatures are required no other
/// request goes on without one.
pub proof fn requests_start_where_they_must(kind: PreparedRequestKind, signed: bool)
    ensures
        first_stage(kind, signed) == ProxyStage::Probing <==> kind is ReachabilityProbe,
        signed && !(kind is ReachabilityProbe) ==> first_stage(kind, signed)
            == ProxyStage::Authorizing,
        !signed && !(kind is ReachabilityProbe) ==> first_stage(kind, signed)
            == ProxyStage::Ready,
        stage_action(ProxyStage::Probing) == Some(ProxyAction::FindTunnel),
        stage_action(ProxyStage::Authorizing) == Some(ProxyAction::CheckSignature),
        stage_action(ProxyStage::Ready) == Some(ProxyAction::Forward),
        stage_action(ProxyStage::WaitingForPermit) == Some(ProxyAction::AcquirePermit),
        stage_action(ProxyStage::OpeningTunnel) == Some(ProxyAction::OpenTunnel),
        stage_action(ProxyStage::ConnectingLocally) == Some(ProxyAction::ConnectLocally),
        stage_action(ProxyStage::WaitingForResponse) == Some(ProxyAction::SendRequest),
        stage_action(ProxyStage::HandingOver) == Some(ProxyAction::HandOver),
        stage_action(ProxyStage::Answered) is None,
        stage_action(ProxyStage::Relaying) is None,
{
}

/// Work that succeeds brings a request on: to its tunnel once it has its permit, to the
/// local service once the tunnel is open, or straight to the relay for a CONNECT, and to
/// the relay once a session is handed over.
pub proof fn successes_bring_requests_on(kind: PreparedRequestKind)
    ensures
        outcome_leads_to(kind, ProxyOutcome::Permit { granted: true, too_large: false }) == (
            ProxyStage::OpeningTunnel,
            ProxyAction::OpenTunnel,
        ),
        kind is Connect ==> outcome_leads_to(kind, ProxyOutcome::TunnelOpened(Ok(()))) == (
            ProxyStage::HandingOver,
            ProxyAction::HandOver,
        ),
        !(kind is Connect) ==> outcome_leads_to(kind, ProxyOutcome::TunnelOpened(Ok(()))) == (
            ProxyStage::ConnectingLocally,
            ProxyAction::ConnectLocally,
        ),
        outcome_leads_to(kind, ProxyOutcome::LocallyConnected(true)) == (
            ProxyStage::WaitingForResponse,
            ProxyAction::SendRequest,
        ),
        outcome_leads_to(kind, ProxyOutcome::HandedOver(true)).0 == ProxyStage::Relaying,
        kind is Connect ==> outcome_leads_to(kind, ProxyOutcome::HandedOver(true)).1
            == ProxyAction::Answer(ProxyAnswer::Connected),
        kind is WebSocket ==> outcome_leads_to(kind, ProxyOutcome::HandedOver(true)).1
            == ProxyAction::Answer(ProxyAnswer::Upgraded),
        outcome_leads_to(kind, ProxyOutcome::TunnelFound(true)).1 == ProxyAction::Answer(
            ProxyAnswer::ProbeProof,
        ),
{
}

/// Work that fails answers the request with an error and ends it: 503 where no permit, no
/// tunnel or no relay can be had, 504 where the tunnel does not open in time, 502 where
/// the local service fails, and 413 where the body is too large.
pub proof fn failures_answer_requests(kind: PreparedRequestKind, error: RouteError)
    ensures
        outcome_leads_to(kind, ProxyOutcome::Permit { granted: false, too_large: false }) == (
            ProxyStage::Answered,
            ProxyAction::Answer(ProxyAnswer::Error(503)),
        ),
        outcome_leads_to(kind, ProxyOutcome::Permit { granted: true, too_large: true }) == (
            ProxyStage::Answered,
            ProxyAction::Answer(ProxyAnswer::Error(413)),
        ),
        outcome_leads_to(kind, ProxyOutcome::TunnelOpened(Err(error))) == (
            ProxyStage::Answered,
            ProxyAction::Answer(
                ProxyAnswer::Error(
                    if error is OpenTimeout {
                        504
                    } else {
                        503
                    },
                ),
            ),
        ),
        outcome_leads_to(kind, ProxyOutcome::LocallyConnected(false)) == (
            ProxyStage::Answered,
            ProxyAction::Answer(ProxyAnswer::Error(502)),
        ),
        outcome_leads_to(kind, ProxyOutcome::LocalFailed) == (
            ProxyStage::Answered,
            ProxyAction::Answer(ProxyAnswer::Error(502)),
        ),
        outcome_leads_to(kind, ProxyOutcome::HandedOver(false)) == (
            ProxyStage::Answered,
            ProxyAction::Answer(ProxyAnswer::Error(503)),
        ),
        outcome_leads_to(kind, ProxyOutcome::TunnelFound(false)) == (
            ProxyStage::Answered,
            ProxyAction::Answer(ProxyAnswer::NoStoreError(503)),
        ),
{
}

} // verus!
