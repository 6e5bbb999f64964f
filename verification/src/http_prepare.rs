//! Deciding what a request asks for and which tunnel serves it.

use vstd::prelude::*;
use vstd::string::*;

use crate::bytes::{is_header_text, is_text, lower, same_bytes, views};
use crate::http_config::{ConnectIngressConfig, HttpIngressConfig, WebSocketIngressConfig};
use crate::http_headers::{
    counted_size, field_count, has_header, header_count, header_fields, header_values,
    headers_size, lemma_plain_is_lower, values_of,
};
use crate::http_rejection::{reject, rejection, RejectionReason, RequestRejection};
use crate::http_request::{NegotiatedHttpProtocol, RequestHead, Version};
use crate::http_routes::lookup;
use crate::http_sanitize::PreparedRequestKind;
use crate::http_target::{authority_host, authority_port, host_of_authority, port_of_authority};
use crate::http_websocket::{
    has_websocket_intent, http1_handshake, http2_handshake, http2_offer,
    intent_shows_in_the_fields, lemma_field_names, valid_key,
    validate_http2_websocket_handshake, validate_websocket_handshake, websocket_intent,
};
use crate::names::{HttpHostname, TunnelId};

verus! {

/// Where reachability probes are answered, and which header carries their
/// challenge.
#[derive(Debug)]
pub struct ReachabilityNames {
    pub path: Vec<u8>,
    pub challenge_header: Vec<u8>,
}

/// What the rules for hostnames and for reachability challenges make of a
/// request: the hostname that its `Host` value names, the one that its target
/// names, and the proof that answers its challenge; `None` where they refuse, or
/// where there is nothing to read.
#[derive(Debug)]
pub struct RequestReadings {
    pub host: Option<HttpHostname>,
    pub authority: Option<HttpHostname>,
    pub challenge_proof: Option<String>,
}

/// A request that was checked: its hostname, the tunnel that serves it, and what
/// it asks for.
#[derive(Debug)]
pub struct PreparedRequest {
    pub hostname: HttpHostname,
    pub tunnel_id: TunnelId,
    pub kind: PreparedRequestKind,
}

/// What is wrong with a reachability probe: it is a plain GET without a query or
/// a body, and carries one challenge, for which there is a proof.
pub open spec fn probe_fault(
    head: RequestHead,
    challenge_header: Seq<u8>,
    proof: Option<String>,
) -> Option<RejectionReason> {
    let fields = header_fields(head.headers);
    let lengths = values_of(fields, "content-length".spec_bytes());
    let challenges = values_of(fields, challenge_header);
    if head.method@ != "GET".spec_bytes() || head.spec_query() is Some || fields.dom().contains(
        lower("transfer-encoding".spec_bytes()),
    ) {
        Some(RejectionReason::InvalidReachabilityProbe)
    } else if lengths.len() > 0 && lengths[0] != "0".spec_bytes() {
        Some(RejectionReason::ReachabilityProbeBody)
    } else if challenges.len() == 0 {
        Some(RejectionReason::MissingReachabilityChallenge)
    } else if challenges.len() > 1 {
        Some(RejectionReason::DuplicateReachabilityChallenge)
    } else if !is_text(challenges[0]) || proof is None {
        Some(RejectionReason::InvalidReachabilityChallenge)
    } else {
        None
    }
}

/// Checks a reachability probe, and gives the proof that answers it.
pub fn validate_reachability_probe(
    request: &RequestHead,
    challenge_header: &[u8],
    challenge_proof: &Option<String>,
) -> (result: Result<String, RequestRejection>)
    ensures
        match probe_fault(*request, challenge_header@, *challenge_proof) {
            Some(reason) => result == Err::<String, _>(rejection(reason)),
            None => result is Ok && *challenge_proof is Some && result->Ok_0@
                == (*challenge_proof)->0@,
        },
{
    let query: Option<Vec<u8>> = request.query();
    if !same_bytes(request.method.as_slice(), "GET".as_bytes()) || query.is_some() || has_header(
        &request.headers,
        "transfer-encoding".as_bytes(),
    ) {
        return Err(reject(RejectionReason::InvalidReachabilityProbe));
    }
    let lengths: Vec<Vec<u8>> = header_values(&request.headers, "content-length".as_bytes());
    if lengths.len() > 0 && !same_bytes(lengths[0].as_slice(), "0".as_bytes()) {
        proof {
            assert(views(lengths@)[0] == lengths@[0]@);
        }
        return Err(reject(RejectionReason::ReachabilityProbeBody));
    }
    let challenges: Vec<Vec<u8>> = header_values(&request.headers, challenge_header);
    proof {
        assert(lengths@.len() > 0 ==> views(lengths@)[0] == lengths@[0]@);
        assert(challenges@.len() > 0 ==> views(challenges@)[0] == challenges@[0]@);
    }
    if challenges.len() == 0 {
        return Err(reject(RejectionReason::MissingReachabilityChallenge));
    }
    if challenges.len() > 1 {
        return Err(reject(RejectionReason::DuplicateReachabilityChallenge));
    }
    if !is_header_text(challenges[0].as_slice()) {
        return Err(reject(RejectionReason::InvalidReachabilityChallenge));
    }
    match challenge_proof {
        None => Err(reject(RejectionReason::InvalidReachabilityChallenge)),
        Some(proof_text) => Ok(proof_text.clone()),
    }
}

/// Whether a request could have a body: a length that is not zero, several
/// lengths, or an encoding.
pub open spec fn may_have_body(fields: Map<Seq<u8>, Seq<Seq<u8>>>) -> bool {
    let lengths = values_of(fields, "content-length".spec_bytes());
    ||| lengths.len() > 1
    ||| lengths.len() == 1 && lengths[0] != "0".spec_bytes()
    ||| fields.dom().contains(lower("transfer-encoding".spec_bytes()))
}

/// Whether the header fields allow a body.
pub fn headers_allow_body(headers: &hyper::HeaderMap) -> (yes: bool)
    ensures
        yes == may_have_body(header_fields(*headers)),
{
    let lengths: Vec<Vec<u8>> = header_values(headers, "content-length".as_bytes());
    proof {
        assert(lengths@.len() > 0 ==> views(lengths@)[0] == lengths@[0]@);
    }
    lengths.len() > 1 || (lengths.len() == 1 && !same_bytes(
        lengths[0].as_slice(),
        "0".as_bytes(),
    )) || has_header(headers, "transfer-encoding".as_bytes())
}

/// What a CONNECT request comes to: it is allowed over the protocols for which it
/// is enabled, without a body and without any sign of an upgrade.
pub open spec fn connect_verdict(
    head: RequestHead,
    connect: Option<ConnectIngressConfig>,
) -> Result<NegotiatedHttpProtocol, RejectionReason> {
    let fields = header_fields(head.headers);
    match (connect, head.version) {
        (None, _) => Err(RejectionReason::ConnectNotEnabledForProtocol),
        (Some(connect), Version::Http11) => if !connect.enable_http1 {
            Err(RejectionReason::ConnectNotEnabledForProtocol)
        } else if websocket_intent(fields) {
            Err(RejectionReason::ConnectUpgradeHeadersNotAllowed)
        } else if may_have_body(fields) || (head.body_size_limit is Some && head.body_size_limit->0
            != 0) {
            Err(RejectionReason::ConnectRequestBodyNotAllowed)
        } else {
            Ok(NegotiatedHttpProtocol::Http1)
        },
        (Some(connect), Version::Http2) => if !connect.enable_http2 {
            Err(RejectionReason::ConnectNotEnabledForProtocol)
        } else if head.extended_protocol is Some {
            Err(RejectionReason::ExtendedConnectNotSupported)
        } else if may_have_body(fields) || websocket_intent(fields) {
            Err(RejectionReason::InvalidHttp2ConnectHeaders)
        } else {
            Ok(NegotiatedHttpProtocol::Http2)
        },
        (Some(_), _) => Err(RejectionReason::ConnectProtocolNotSupported),
    }
}

/// Checks a CONNECT request.
pub fn validate_connect_request(
    request: &RequestHead,
    connect: Option<ConnectIngressConfig>,
) -> (result: Result<NegotiatedHttpProtocol, RequestRejection>)
    ensures
        result == (match connect_verdict(*request, connect) {
            Ok(protocol) => Ok(protocol),
            Err(reason) => Err(rejection(reason)),
        }),
{
    let connect: ConnectIngressConfig = match connect {
        None => return Err(reject(RejectionReason::ConnectNotEnabledForProtocol)),
        Some(connect) => connect,
    };
    match request.version {
        Version::Http11 => {
            if !connect.enable_http1 {
                return Err(reject(RejectionReason::ConnectNotEnabledForProtocol));
            }
            if has_websocket_intent(&request.headers) {
                return Err(reject(RejectionReason::ConnectUpgradeHeadersNotAllowed));
            }
            let sized: bool = match request.body_size_limit {
                Some(size) => size != 0,
                None => false,
            };
            if headers_allow_body(&request.headers) || sized {
                return Err(reject(RejectionReason::ConnectRequestBodyNotAllowed));
            }
            Ok(NegotiatedHttpProtocol::Http1)
        },
        Version::Http2 => {
            if !connect.enable_http2 {
                return Err(reject(RejectionReason::ConnectNotEnabledForProtocol));
            }
            if request.extended_protocol.is_some() {
                return Err(reject(RejectionReason::ExtendedConnectNotSupported));
            }
            if headers_allow_body(&request.headers) || has_websocket_intent(&request.headers) {
                return Err(reject(RejectionReason::InvalidHttp2ConnectHeaders));
            }
            Ok(NegotiatedHttpProtocol::Http2)
        },
        _ => Err(reject(RejectionReason::ConnectProtocolNotSupported)),
    }
}

/// Whether a request is an extended CONNECT over HTTP/2.
pub open spec fn is_extended_connect(head: RequestHead) -> bool {
    head.method@ == "CONNECT".spec_bytes() && head.version == Version::Http2
        && head.extended_protocol is Some
}

/// What is wrong with what a request asks for, randomness aside.
pub open spec fn kind_fault(
    head: RequestHead,
    names: ReachabilityNames,
    proof: Option<String>,
    websocket: Option<WebSocketIngressConfig>,
    connect: Option<ConnectIngressConfig>,
) -> Option<RejectionReason> {
    if head.spec_path() == names.path@ {
        probe_fault(head, names.challenge_header@, proof)
    } else if is_extended_connect(head) {
        match http2_offer(head, websocket) {
            Err(reason) => Some(reason),
            Ok(_) => None,
        }
    } else if head.method@ == "CONNECT".spec_bytes() {
        match connect_verdict(head, connect) {
            Err(reason) => Some(reason),
            Ok(_) => None,
        }
    } else if websocket_intent(header_fields(head.headers)) {
        match http1_handshake(head, websocket) {
            Err(reason) => Some(reason),
            Ok(_) => None,
        }
    } else {
        None
    }
}

/// Whether `kind` is what a faultless request asks for.
pub open spec fn kind_asked(
    kind: PreparedRequestKind,
    head: RequestHead,
    names: ReachabilityNames,
    proof: Option<String>,
    websocket: Option<WebSocketIngressConfig>,
    connect: Option<ConnectIngressConfig>,
) -> bool {
    if head.spec_path() == names.path@ {
        kind matches PreparedRequestKind::ReachabilityProbe(answer) && proof is Some && answer@
            == proof->0@
    } else if is_extended_connect(head) {
        kind matches PreparedRequestKind::WebSocket(handshake) && valid_key(handshake@.key)
            && exists|nonce: Seq<u8>|
            #![trigger http2_handshake(nonce, http2_offer(head, websocket)->Ok_0)]
            nonce.len() == 16 && handshake@ == http2_handshake(
                nonce,
                http2_offer(head, websocket)->Ok_0,
            )
    } else if head.method@ == "CONNECT".spec_bytes() {
        kind matches PreparedRequestKind::Connect(protocol) && connect_verdict(head, connect) == Ok::<
            _,
            RejectionReason,
        >(protocol)
    } else if websocket_intent(header_fields(head.headers)) {
        kind matches PreparedRequestKind::WebSocket(handshake) && handshake@ == http1_handshake(
            head,
            websocket,
        )->Ok_0
    } else {
        kind is Regular
    }
}

/// What a request asks for.
pub fn request_kind(
    request: &RequestHead,
    names: &ReachabilityNames,
    challenge_proof: &Option<String>,
    websocket: Option<WebSocketIngressConfig>,
    connect: Option<ConnectIngressConfig>,
) -> (result: Result<PreparedRequestKind, RequestRejection>)
    ensures
        match kind_fault(*request, *names, *challenge_proof, websocket, connect) {
            Some(reason) => result == Err::<PreparedRequestKind, _>(rejection(reason)),
            None => match result {
                Ok(kind) => kind.wf() && kind_asked(
                    kind,
                    *request,
                    *names,
                    *challenge_proof,
                    websocket,
                    connect,
                ),
                Err(error) => error == rejection(RejectionReason::WebSocketEntropyUnavailable)
                    && request.spec_path() != names.path@ && is_extended_connect(*request),
            },
        },
{
    let path: Vec<u8> = request.path();
    let connect_method: bool = same_bytes(request.method.as_slice(), "CONNECT".as_bytes());
    if same_bytes(path.as_slice(), names.path.as_slice()) {
        let answer: String = validate_reachability_probe(
            request,
            names.challenge_header.as_slice(),
            challenge_proof,
        )?;
        Ok(PreparedRequestKind::ReachabilityProbe(answer))
    } else if connect_method && request.version == Version::Http2
        && request.extended_protocol.is_some() {
        match validate_http2_websocket_handshake(request, websocket) {
            Ok(handshake) => Ok(PreparedRequestKind::WebSocket(handshake)),
            Err(error) => Err(error),
        }
    } else if connect_method {
        let protocol: NegotiatedHttpProtocol = validate_connect_request(request, connect)?;
        Ok(PreparedRequestKind::Connect(protocol))
    } else if has_websocket_intent(&request.headers) {
        match validate_websocket_handshake(request, websocket) {
            Ok(handshake) => Ok(PreparedRequestKind::WebSocket(handshake)),
            Err(error) => Err(error),
        }
    } else {
        Ok(PreparedRequestKind::Regular)
    }
}

/// The one `Host` value.
pub open spec fn host_values(head: RequestHead) -> Seq<Seq<u8>> {
    values_of(header_fields(head.headers), "host".spec_bytes())
}

/// What is wrong with the authority of a CONNECT request: its target is an
/// authority alone, which names the configured port, and so does its `Host`.
pub open spec fn connect_target_fault(
    head: RequestHead,
    connect: ConnectIngressConfig,
) -> Option<RejectionReason> {
    let hosts = host_values(head);
    if head.authority is None {
        Some(RejectionReason::MissingConnectAuthority)
    } else if head.scheme is Some || head.path_and_query is Some || authority_port(
        head.authority->0@,
    ) != Some(connect.authority_port) {
        Some(RejectionReason::InvalidConnectAuthority)
    } else if hosts.len() > 0 && authority_port(hosts[0]) != Some(connect.authority_port) {
        Some(RejectionReason::ConnectHostPortMismatch)
    } else {
        None
    }
}

/// The hostname that a request is for. Its `Host` value and its target's
/// authority must agree where both are there, and with the name in the TLS
/// handshake. `connect` is there where the request is a CONNECT.
pub open spec fn request_hostname(
    head: RequestHead,
    host: Option<HttpHostname>,
    authority: Option<HttpHostname>,
    server_name: Option<Seq<char>>,
    connect: Option<ConnectIngressConfig>,
) -> Result<Seq<char>, RejectionReason> {
    let hosts = host_values(head);
    if hosts.len() > 1 {
        Err(RejectionReason::DuplicateHost)
    } else if hosts.len() == 1 && !(is_text(hosts[0]) && authority_host(hosts[0]) is Some
        && host is Some) {
        Err(RejectionReason::InvalidHost)
    } else if head.authority is Some && !(authority_host(head.authority->0@) is Some
        && authority is Some) {
        Err(RejectionReason::InvalidUriAuthority)
    } else if connect is Some && connect_target_fault(head, connect->0) is Some {
        Err(connect_target_fault(head, connect->0)->0)
    } else if head.version != Version::Http2 && hosts.len() == 0 {
        Err(RejectionReason::MissingHost)
    } else if hosts.len() == 1 && head.authority is Some && host->0@ != authority->0@ {
        Err(RejectionReason::HostAuthorityMismatch)
    } else if hosts.len() == 0 && head.authority is None {
        Err(RejectionReason::MissingAuthority)
    } else {
        let hostname = if hosts.len() == 1 { host->0@ } else { authority->0@ };
        match server_name {
            None => Err(RejectionReason::MissingSni),
            Some(name) => if name != hostname {
                Err(RejectionReason::SniHostMismatch)
            } else {
                Ok(hostname)
            },
        }
    }
}

/// The hostname that a request is for.
pub fn identify_host(
    request: &RequestHead,
    readings: &RequestReadings,
    server_name: Option<&HttpHostname>,
    connect: Option<ConnectIngressConfig>,
) -> (result: Result<HttpHostname, RequestRejection>)
    ensures
        match (
            result,
            request_hostname(
                *request,
                readings.host,
                readings.authority,
                match server_name {
                    Some(name) => Some(name@),
                    None => None,
                },
                connect,
            ),
        ) {
            (Ok(hostname), Ok(expected)) => hostname@ == expected,
            (Err(error), Err(reason)) => error == rejection(reason),
            _ => false,
        },
{
    let hosts: Vec<Vec<u8>> = header_values(&request.headers, "host".as_bytes());
    proof {
        assert(hosts@.len() > 0 ==> views(hosts@)[0] == hosts@[0]@);
    }
    if hosts.len() > 1 {
        return Err(reject(RejectionReason::DuplicateHost));
    }
    let mut found_host: Option<&HttpHostname> = None;
    if hosts.len() == 1 {
        let value: &[u8] = hosts[0].as_slice();
        if !is_header_text(value) || host_of_authority(value).is_none() {
            return Err(reject(RejectionReason::InvalidHost));
        }
        match &readings.host {
            None => return Err(reject(RejectionReason::InvalidHost)),
            Some(name) => {
                found_host = Some(name);
            },
        }
    }
    let mut found_authority: Option<&HttpHostname> = None;
    if let Some(text) = &request.authority {
        if host_of_authority(text.as_slice()).is_none() {
            return Err(reject(RejectionReason::InvalidUriAuthority));
        }
        match &readings.authority {
            None => return Err(reject(RejectionReason::InvalidUriAuthority)),
            Some(name) => {
                found_authority = Some(name);
            },
        }
    }
    if let Some(connect) = connect {
        match &request.authority {
            None => return Err(reject(RejectionReason::MissingConnectAuthority)),
            Some(text) => {
                if request.scheme.is_some() || request.path_and_query.is_some() || !port_is(
                    port_of_authority(text.as_slice()),
                    connect.authority_port,
                ) {
                    return Err(reject(RejectionReason::InvalidConnectAuthority));
                }
            },
        }
        if hosts.len() == 1 && !port_is(
            port_of_authority(hosts[0].as_slice()),
            connect.authority_port,
        ) {
            return Err(reject(RejectionReason::ConnectHostPortMismatch));
        }
    }
    if request.version != Version::Http2 && hosts.len() == 0 {
        return Err(reject(RejectionReason::MissingHost));
    }
    let hostname: &HttpHostname = match (found_host, found_authority) {
        (Some(host), Some(authority)) => {
            if !host.same(authority) {
                return Err(reject(RejectionReason::HostAuthorityMismatch));
            }
            host
        },
        (Some(host), None) => host,
        (None, Some(authority)) => authority,
        (None, None) => return Err(reject(RejectionReason::MissingAuthority)),
    };
    match server_name {
        None => Err(reject(RejectionReason::MissingSni)),
        Some(name) => {
            if !hostname.same(name) {
                Err(reject(RejectionReason::SniHostMismatch))
            } else {
                Ok(hostname.clone())
            }
        },
    }
}

fn port_is(port: Option<u16>, wanted: u16) -> (yes: bool)
    ensures
        yes == (port == Some(wanted)),
{
    match port {
        Some(port) => port == wanted,
        None => false,
    }
}

/// What is wrong with the number or the size of the header fields.
pub open spec fn header_bounds_fault(
    head: RequestHead,
    config: HttpIngressConfig,
) -> Option<RejectionReason> {
    if field_count(header_fields(head.headers)) > config.max_headers {
        Some(RejectionReason::TooManyHeaders)
    } else if counted_size(header_fields(head.headers)) > config.max_header_bytes {
        Some(RejectionReason::HeadersTooLarge)
    } else {
        None
    }
}

/// The CONNECT rules, where the request is a CONNECT.
pub open spec fn connect_rules(
    head: RequestHead,
    names: ReachabilityNames,
    config: HttpIngressConfig,
) -> Option<ConnectIngressConfig> {
    if head.spec_path() != names.path@ && !is_extended_connect(head) && head.method@
        == "CONNECT".spec_bytes() {
        config.connect
    } else {
        None
    }
}

/// The hostname and the tunnel of a request in which nothing is wrong, randomness
/// aside.
pub open spec fn request_verdict(
    head: RequestHead,
    readings: RequestReadings,
    server_name: Option<Seq<char>>,
    config: HttpIngressConfig,
    names: ReachabilityNames,
) -> Result<(Seq<char>, Seq<char>), RejectionReason> {
    let kind = kind_fault(
        head,
        names,
        readings.challenge_proof,
        config.websocket,
        config.connect,
    );
    let hostname = request_hostname(
        head,
        readings.host,
        readings.authority,
        server_name,
        connect_rules(head, names, config),
    );
    if header_bounds_fault(head, config) is Some {
        Err(header_bounds_fault(head, config)->0)
    } else if kind is Some {
        Err(kind->0)
    } else if hostname is Err {
        Err(hostname->Err_0)
    } else {
        match lookup(config.routes@, hostname->Ok_0) {
            None => Err(RejectionReason::UnknownHost),
            Some(tunnel) => Ok((hostname->Ok_0, tunnel)),
        }
    }
}

/// Whether a request is checked as far as to need randomness for a WebSocket key: it
/// asks for a WebSocket over HTTP/2, and nothing is wrong in how it asks.
pub open spec fn entropy_is_asked_for(
    head: RequestHead,
    readings: RequestReadings,
    config: HttpIngressConfig,
    names: ReachabilityNames,
) -> bool {
    &&& header_bounds_fault(head, config) is None
    &&& kind_fault(
        head,
        names,
        readings.challenge_proof,
        config.websocket,
        config.connect,
    ) is None
    &&& head.spec_path() != names.path@
    &&& is_extended_connect(head)
}

/// Checks a request, and finds the tunnel that serves it. The one rejection that
/// rests on chance is that no randomness could be had for a WebSocket key.
pub fn prepare_request(
    request: &RequestHead,
    readings: &RequestReadings,
    server_name: Option<&HttpHostname>,
    config: &HttpIngressConfig,
    names: &ReachabilityNames,
) -> (result: Result<PreparedRequest, RequestRejection>)
    ensures
        ({
            let verdict = request_verdict(
                *request,
                *readings,
                match server_name {
                    Some(name) => Some(name@),
                    None => None,
                },
                *config,
                *names,
            );
            match result {
                Ok(prepared) => {
                    &&& verdict == Ok::<_, RejectionReason>(
                        (prepared.hostname@, prepared.tunnel_id@),
                    )
                    &&& prepared.kind.wf()
                    &&& kind_asked(
                        prepared.kind,
                        *request,
                        *names,
                        readings.challenge_proof,
                        config.websocket,
                        config.connect,
                    )
                    &&& header_fields(request.headers).dom().finite()
                    &&& header_fields(request.headers).dom().len() <= config.max_headers
                },
                Err(error) => {
                    ||| verdict is Err && error == rejection(verdict->Err_0)
                    ||| error == rejection(RejectionReason::WebSocketEntropyUnavailable)
                        && entropy_is_asked_for(*request, *readings, *config, *names)
                },
            }
        }),
{
    if header_count(&request.headers) > config.max_headers {
        return Err(reject(RejectionReason::TooManyHeaders));
    }
    if headers_size(&request.headers) > config.max_header_bytes {
        return Err(reject(RejectionReason::HeadersTooLarge));
    }
    let kind: PreparedRequestKind = request_kind(
        request,
        names,
        &readings.challenge_proof,
        config.websocket,
        config.connect,
    )?;
    let connect: Option<ConnectIngressConfig> = match &kind {
        PreparedRequestKind::Connect(_) => config.connect,
        _ => None,
    };
    let hostname: HttpHostname = match identify_host(request, readings, server_name, connect) {
        Ok(hostname) => hostname,
        Err(error) => return Err(error),
    };
    match config.routes.resolve(&hostname) {
        None => Err(reject(RejectionReason::UnknownHost)),
        Some(tunnel_id) => {
            proof {
                assert(header_fields(request.headers).dom().finite());
            }
            Ok(PreparedRequest { hostname, tunnel_id, kind })
        },
    }
}

/// A CONNECT request is only ever prepared for the authority and port of a
/// configured route: neither its target nor its `Host` names another port, and it
/// is served by the route of the hostname that its client named in the TLS
/// handshake.
pub proof fn connect_is_bound_to_its_route(
    head: RequestHead,
    readings: RequestReadings,
    server_name: Option<Seq<char>>,
    config: HttpIngressConfig,
    names: ReachabilityNames,
)
    requires
        head.method@ == "CONNECT".spec_bytes(),
        head.extended_protocol is None,
        head.spec_path() != names.path@,
        request_verdict(head, readings, server_name, config, names) is Ok,
    ensures
        config.connect is Some,
        head.authority is Some && head.scheme is None && head.path_and_query is None,
        authority_port(head.authority->0@) == Some(config.connect->0.authority_port),
        host_values(head).len() <= 1,
        host_values(head).len() == 1 ==> authority_port(host_values(head)[0]) == Some(
            config.connect->0.authority_port,
        ),
        server_name == Some(request_verdict(head, readings, server_name, config, names)->Ok_0.0),
        lookup(
            config.routes@,
            request_verdict(head, readings, server_name, config, names)->Ok_0.0,
        ) == Some(request_verdict(head, readings, server_name, config, names)->Ok_0.1),
{
}

/// Whatever a request asks for, it is served only by the route of the hostname
/// that its client named in the TLS handshake.
pub proof fn requests_stay_on_their_server_name(
    head: RequestHead,
    readings: RequestReadings,
    server_name: Option<Seq<char>>,
    config: HttpIngressConfig,
    names: ReachabilityNames,
)
    ensures
        request_verdict(head, readings, server_name, config, names) matches Ok((hostname, tunnel))
            ==> server_name == Some(hostname) && lookup(config.routes@, hostname) == Some(tunnel),
{
}

/// A CONNECT is admitted over each protocol only where that protocol is enabled for it,
/// over no other version, and as the protocol that it came over.
pub proof fn connect_is_opted_in_for_each_protocol(
    head: RequestHead,
    connect: Option<ConnectIngressConfig>,
)
    ensures
        connect_verdict(head, connect) is Ok ==> connect is Some,
        connect_verdict(head, connect) == Ok::<_, RejectionReason>(NegotiatedHttpProtocol::Http1)
            ==> head.version == Version::Http11 && connect->0.enable_http1,
        connect_verdict(head, connect) == Ok::<_, RejectionReason>(NegotiatedHttpProtocol::Http2)
            ==> head.version == Version::Http2 && connect->0.enable_http2
            && head.extended_protocol is None,
        connect is None || head.version == Version::Http11 && !connect->0.enable_http1
            || head.version == Version::Http2 && !connect->0.enable_http2 ==> connect_verdict(
            head,
            connect,
        ) == Err::<NegotiatedHttpProtocol, _>(RejectionReason::ConnectNotEnabledForProtocol),
        connect is Some && head.version != Version::Http11 && head.version != Version::Http2
            ==> connect_verdict(head, connect) == Err::<NegotiatedHttpProtocol, _>(
            RejectionReason::ConnectProtocolNotSupported,
        ),
{
}

/// A plain CONNECT, without a body and without any field of an upgrade, is admitted over
/// each protocol for which it is enabled, whatever is enabled for the other one.
pub proof fn plain_connects_are_admitted(head: RequestHead, connect: ConnectIngressConfig)
    requires
        ({
            let fields = header_fields(head.headers);
            &&& !fields.dom().contains("content-length".spec_bytes())
            &&& !fields.dom().contains("transfer-encoding".spec_bytes())
            &&& !fields.dom().contains("connection".spec_bytes())
            &&& !fields.dom().contains("upgrade".spec_bytes())
            &&& !fields.dom().contains("sec-websocket-key".spec_bytes())
            &&& !fields.dom().contains("sec-websocket-version".spec_bytes())
            &&& !fields.dom().contains("sec-websocket-protocol".spec_bytes())
            &&& !fields.dom().contains("sec-websocket-extensions".spec_bytes())
        }),
        head.body_size_limit is None || head.body_size_limit == Some(0u64),
        head.extended_protocol is None,
    ensures
        head.version == Version::Http11 ==> (connect_verdict(head, Some(connect)) == Ok::<
            _,
            RejectionReason,
        >(NegotiatedHttpProtocol::Http1) <==> connect.enable_http1),
        head.version == Version::Http2 ==> (connect_verdict(head, Some(connect)) == Ok::<
            _,
            RejectionReason,
        >(NegotiatedHttpProtocol::Http2) <==> connect.enable_http2),
{
    lemma_field_names();
    intent_shows_in_the_fields(header_fields(head.headers));
}

/// A CONNECT that is admitted has no body, and nothing of a WebSocket handshake.
pub proof fn connects_carry_nothing_else(
    head: RequestHead,
    connect: Option<ConnectIngressConfig>,
)
    requires
        connect_verdict(head, connect) is Ok,
    ensures
        ({
            let fields = header_fields(head.headers);
            &&& !fields.dom().contains("upgrade".spec_bytes())
            &&& !fields.dom().contains("sec-websocket-key".spec_bytes())
            &&& !fields.dom().contains("sec-websocket-version".spec_bytes())
            &&& !fields.dom().contains("sec-websocket-protocol".spec_bytes())
            &&& !fields.dom().contains("sec-websocket-extensions".spec_bytes())
            &&& !fields.dom().contains("transfer-encoding".spec_bytes())
            &&& fields.dom().contains("content-length".spec_bytes()) ==> fields[
            "content-length".spec_bytes()].len() <= 1
            &&& fields.dom().contains("content-length".spec_bytes()) && fields[
            "content-length".spec_bytes()].len() == 1 ==> fields["content-length".spec_bytes()][0]
                == "0".spec_bytes()
            &&& head.version == Version::Http11 ==> head.body_size_limit is None
                || head.body_size_limit == Some(0u64)
        }),
{
    lemma_field_names();
    intent_shows_in_the_fields(header_fields(head.headers));
}

/// A request is what it asks for: a probe on the probe's path, a CONNECT or a WebSocket
/// over HTTP/2 by its method, a WebSocket over HTTP/1.1 by its fields, and an ordinary
/// request else.
pub proof fn requests_are_what_they_ask_for(
    kind: PreparedRequestKind,
    head: RequestHead,
    names: ReachabilityNames,
    proof_text: Option<String>,
    websocket: Option<WebSocketIngressConfig>,
    connect: Option<ConnectIngressConfig>,
)
    requires
        kind_fault(head, names, proof_text, websocket, connect) is None,
        kind_asked(kind, head, names, proof_text, websocket, connect),
    ensures
        kind is ReachabilityProbe <==> head.spec_path() == names.path@,
        kind matches PreparedRequestKind::ReachabilityProbe(answer) ==> proof_text is Some
            && answer@ == proof_text->0@,
        kind is Connect ==> head.method@ == "CONNECT".spec_bytes(),
        kind matches PreparedRequestKind::Connect(protocol) ==> protocol == (if head.version
            == Version::Http2 {
            NegotiatedHttpProtocol::Http2
        } else {
            NegotiatedHttpProtocol::Http1
        }),
        kind matches PreparedRequestKind::WebSocket(handshake) ==> (handshake@.protocol
            == NegotiatedHttpProtocol::Http2 <==> head.method@ == "CONNECT".spec_bytes()),
        kind is Regular ==> head.method@ != "CONNECT".spec_bytes(),
        kind is Regular ==> !header_fields(head.headers).dom().contains("upgrade".spec_bytes()),
        head.spec_path() != names.path@ && head.method@ != "CONNECT".spec_bytes()
            && !websocket_intent(header_fields(head.headers)) ==> kind is Regular,
{
    intent_shows_in_the_fields(header_fields(head.headers));
}

/// In a request that asks for nothing special nothing is wrong by itself, whatever is
/// enabled.
pub proof fn ordinary_requests_are_faultless(
    head: RequestHead,
    names: ReachabilityNames,
    proof_text: Option<String>,
    websocket: Option<WebSocketIngressConfig>,
    connect: Option<ConnectIngressConfig>,
)
    requires
        head.spec_path() != names.path@,
        head.method@ != "CONNECT".spec_bytes(),
        !websocket_intent(header_fields(head.headers)),
    ensures
        kind_fault(head, names, proof_text, websocket, connect) is None,
{
}

/// A probe is answered only where it is a GET without a query and without a body that
/// carries one challenge; such a probe is never refused where there is a proof for it.
pub proof fn probes_are_plain(head: RequestHead, challenge_header: Seq<u8>, proof_text: Option<String>)
    requires
        forall|i: int|
            0 <= i < challenge_header.len() ==> !(65 <= #[trigger] challenge_header[i] <= 90),
    ensures
        ({
            let fields = header_fields(head.headers);
            let length = "content-length".spec_bytes();
            &&& probe_fault(head, challenge_header, proof_text) is None ==> {
                &&& head.method@ == "GET".spec_bytes()
                &&& head.spec_query() is None
                &&& !fields.dom().contains("transfer-encoding".spec_bytes())
                &&& fields.dom().contains(length) && fields[length].len() > 0 ==> fields[length][0]
                    == "0".spec_bytes()
                &&& fields.dom().contains(challenge_header)
                &&& fields[challenge_header].len() == 1
                &&& proof_text is Some
            }
            &&& head.method@ == "GET".spec_bytes() && head.spec_query() is None
                && !fields.dom().contains("transfer-encoding".spec_bytes())
                && !fields.dom().contains(length) && fields.dom().contains(challenge_header)
                && fields[challenge_header].len() == 1 && is_text(fields[challenge_header][0])
                && proof_text is Some ==> probe_fault(head, challenge_header, proof_text) is None
        }),
{
    lemma_field_names();
    lemma_plain_is_lower(challenge_header);
}

/// A request is for one hostname only: that of its `Host` value, that of its target and
/// the one that its client named in the TLS handshake must be the same where they are
/// there, and the last must be there.
pub proof fn hosts_agree(
    head: RequestHead,
    host: Option<HttpHostname>,
    authority: Option<HttpHostname>,
    server_name: Option<Seq<char>>,
    connect: Option<ConnectIngressConfig>,
)
    ensures
        request_hostname(head, host, authority, server_name, connect) matches Ok(hostname) ==> {
            let fields = header_fields(head.headers);
            &&& server_name == Some(hostname)
            &&& fields.dom().contains("host".spec_bytes()) ==> fields["host".spec_bytes()].len()
                <= 1
            &&& fields.dom().contains("host".spec_bytes()) && fields["host".spec_bytes()].len() == 1
                ==> host is Some && host->0@ == hostname
            &&& head.authority is Some ==> authority is Some && authority->0@ == hostname
            &&& head.version != Version::Http2 ==> fields.dom().contains("host".spec_bytes())
                && fields["host".spec_bytes()].len() == 1
        },
{
    lemma_field_names();
}

/// An ordinary request with one `Host` value that names the hostname of its TLS handshake
/// is for that hostname.
pub proof fn ordinary_hosts_are_found(
    head: RequestHead,
    hostname: HttpHostname,
    authority: Option<HttpHostname>,
)
    requires
        header_fields(head.headers).dom().contains("host".spec_bytes()),
        header_fields(head.headers)["host".spec_bytes()].len() == 1,
        is_text(header_fields(head.headers)["host".spec_bytes()][0]),
        authority_host(header_fields(head.headers)["host".spec_bytes()][0]) is Some,
        head.authority is None,
    ensures
        request_hostname(head, Some(hostname), authority, Some(hostname@), None) == Ok::<
            _,
            RejectionReason,
        >(hostname@),
        request_hostname(head, Some(hostname), authority, None, None) == Err::<Seq<char>, _>(
            RejectionReason::MissingSni,
        ),
        forall|other: Seq<char>|
            other != hostname@ ==> #[trigger] request_hostname(
                head,
                Some(hostname),
                authority,
                Some(other),
                None,
            ) == Err::<Seq<char>, _>(RejectionReason::SniHostMismatch),
{
    lemma_field_names();
}

/// A request with more header fields, or with more bytes of them, than the configuration
/// allows is refused before anything else is looked at.
pub proof fn large_headers_are_refused_first(
    head: RequestHead,
    readings: RequestReadings,
    server_name: Option<Seq<char>>,
    config: HttpIngressConfig,
    names: ReachabilityNames,
)
    ensures
        field_count(header_fields(head.headers)) > config.max_headers ==> request_verdict(
            head,
            readings,
            server_name,
            config,
            names,
        ) == Err::<(Seq<char>, Seq<char>), _>(RejectionReason::TooManyHeaders),
        field_count(header_fields(head.headers)) <= config.max_headers && counted_size(
            header_fields(head.headers),
        ) > config.max_header_bytes ==> request_verdict(head, readings, server_name, config, names)
            == Err::<(Seq<char>, Seq<char>), _>(RejectionReason::HeadersTooLarge),
        request_verdict(head, readings, server_name, config, names) is Ok ==> field_count(
            header_fields(head.headers),
        ) <= config.max_headers && counted_size(header_fields(head.headers))
            <= config.max_header_bytes,
{
}

/// A request in which nothing is wrong is served by the tunnel of its hostname's route,
/// and one whose hostname no route names is refused for that.
pub proof fn faultless_requests_are_served(
    head: RequestHead,
    readings: RequestReadings,
    hostname: Seq<char>,
    config: HttpIngressConfig,
    names: ReachabilityNames,
    tunnel: Seq<char>,
)
    requires
        field_count(header_fields(head.headers)) <= config.max_headers,
        counted_size(header_fields(head.headers)) <= config.max_header_bytes,
        head.spec_path() != names.path@,
        head.method@ != "CONNECT".spec_bytes(),
        !websocket_intent(header_fields(head.headers)),
        request_hostname(head, readings.host, readings.authority, Some(hostname), None) == Ok::<
            _,
            RejectionReason,
        >(hostname),
    ensures
        request_verdict(head, readings, Some(hostname), config, names) == Ok::<_, RejectionReason>(
            (hostname, tunnel),
        ) <==> lookup(config.routes@, hostname) == Some(tunnel),
        lookup(config.routes@, hostname) is None ==> request_verdict(
            head,
            readings,
            Some(hostname),
            config,
            names,
        ) == Err::<(Seq<char>, Seq<char>), _>(RejectionReason::UnknownHost),
{
}

} // verus!
