//! Why a request is refused before it reaches a tunnel, and with which status.

use vstd::prelude::*;

verus! {

pub const SWITCHING_PROTOCOLS: u16 = 101;

pub const OK: u16 = 200;

pub const NO_CONTENT: u16 = 204;

pub const BAD_REQUEST: u16 = 400;

pub const UNAUTHORIZED: u16 = 401;

pub const NOT_FOUND: u16 = 404;

pub const METHOD_NOT_ALLOWED: u16 = 405;

pub const PAYLOAD_TOO_LARGE: u16 = 413;

pub const MISDIRECTED_REQUEST: u16 = 421;

pub const TOO_MANY_REQUESTS: u16 = 429;

pub const REQUEST_HEADER_FIELDS_TOO_LARGE: u16 = 431;

pub const NOT_IMPLEMENTED: u16 = 501;

pub const BAD_GATEWAY: u16 = 502;

pub const SERVICE_UNAVAILABLE: u16 = 503;

pub const GATEWAY_TIMEOUT: u16 = 504;

pub const HTTP_VERSION_NOT_SUPPORTED: u16 = 505;

/// The rule that a refused request breaks.
#[derive(Debug, Clone, Copy, PartialEq, Eq, Structural)]
pub enum RejectionReason {
    TooManyHeaders,
    HeadersTooLarge,
    DuplicateHost,
    InvalidHost,
    InvalidUriAuthority,
    MissingConnectAuthority,
    InvalidConnectAuthority,
    ConnectHostPortMismatch,
    MissingHost,
    HostAuthorityMismatch,
    MissingAuthority,
    MissingSni,
    SniHostMismatch,
    UnknownHost,
    InvalidReachabilityProbe,
    ReachabilityProbeBody,
    MissingReachabilityChallenge,
    DuplicateReachabilityChallenge,
    InvalidReachabilityChallenge,
    SignedAccessMissing,
    SignedAccessMalformed,
    SignedAccessClock,
    SignedAccessExpired,
    SignedAccessInvalid,
    InvalidRequestTarget,
    ConnectNotEnabledForProtocol,
    ConnectUpgradeHeadersNotAllowed,
    ConnectRequestBodyNotAllowed,
    ExtendedConnectNotSupported,
    InvalidHttp2ConnectHeaders,
    ConnectProtocolNotSupported,
    WebSocketNotEnabledForProtocol,
    InvalidWebSocketMethod,
    InvalidWebSocketUpgrade,
    InvalidWebSocketVersion,
    MissingWebSocketKey,
    InvalidWebSocketKey,
    WebSocketExtensionsNotSupported,
    WebSocketRequestBodyNotAllowed,
    MissingExtendedConnectProtocol,
    ExtendedConnectProtocolNotSupported,
    InvalidHttp2WebSocketTarget,
    InvalidHttp2WebSocketHeaders,
    WebSocketEntropyUnavailable,
    DuplicateWebSocketHeader,
    InvalidWebSocketHeader,
    InvalidWebSocketProtocol,
    InvalidPeerAddress,
    InvalidCanonicalHost,
}

impl RejectionReason {
    /// The name under which the reason is logged.
    pub open spec fn text(self) -> Seq<char> {
        match self {
            RejectionReason::TooManyHeaders => "too_many_headers"@,
            RejectionReason::HeadersTooLarge => "headers_too_large"@,
            RejectionReason::DuplicateHost => "duplicate_host"@,
            RejectionReason::InvalidHost => "invalid_host"@,
            RejectionReason::InvalidUriAuthority => "invalid_uri_authority"@,
            RejectionReason::MissingConnectAuthority => "missing_connect_authority"@,
            RejectionReason::InvalidConnectAuthority => "invalid_connect_authority"@,
            RejectionReason::ConnectHostPortMismatch => "connect_host_port_mismatch"@,
            RejectionReason::MissingHost => "missing_host"@,
            RejectionReason::HostAuthorityMismatch => "host_authority_mismatch"@,
            RejectionReason::MissingAuthority => "missing_authority"@,
            RejectionReason::MissingSni => "missing_sni"@,
            RejectionReason::SniHostMismatch => "sni_host_mismatch"@,
            RejectionReason::UnknownHost => "unknown_host"@,
            RejectionReason::InvalidReachabilityProbe => "invalid_reachability_probe"@,
            RejectionReason::ReachabilityProbeBody => "reachability_probe_body"@,
            RejectionReason::MissingReachabilityChallenge => "missing_reachability_challenge"@,
            RejectionReason::DuplicateReachabilityChallenge => "duplicate_reachability_challenge"@,
            RejectionReason::InvalidReachabilityChallenge => "invalid_reachability_challenge"@,
            RejectionReason::SignedAccessMissing => "signed_access_missing"@,
            RejectionReason::SignedAccessMalformed => "signed_access_malformed"@,
            RejectionReason::SignedAccessClock => "signed_access_clock"@,
            RejectionReason::SignedAccessExpired => "signed_access_expired"@,
            RejectionReason::SignedAccessInvalid => "signed_access_invalid"@,
            RejectionReason::InvalidRequestTarget => "invalid_request_target"@,
            RejectionReason::ConnectNotEnabledForProtocol => "connect_not_enabled_for_protocol"@,
            RejectionReason::ConnectUpgradeHeadersNotAllowed => "connect_upgrade_headers_not_allowed"@,
            RejectionReason::ConnectRequestBodyNotAllowed => "connect_request_body_not_allowed"@,
            RejectionReason::ExtendedConnectNotSupported => "extended_connect_not_supported"@,
            RejectionReason::InvalidHttp2ConnectHeaders => "invalid_http2_connect_headers"@,
            RejectionReason::ConnectProtocolNotSupported => "connect_protocol_not_supported"@,
            RejectionReason::WebSocketNotEnabledForProtocol => "websocket_not_enabled_for_protocol"@,
            RejectionReason::InvalidWebSocketMethod => "invalid_websocket_method"@,
            RejectionReason::InvalidWebSocketUpgrade => "invalid_websocket_upgrade"@,
            RejectionReason::InvalidWebSocketVersion => "invalid_websocket_version"@,
            RejectionReason::MissingWebSocketKey => "missing_websocket_key"@,
            RejectionReason::InvalidWebSocketKey => "invalid_websocket_key"@,
            RejectionReason::WebSocketExtensionsNotSupported => "websocket_extensions_not_supported"@,
            RejectionReason::WebSocketRequestBodyNotAllowed => "websocket_request_body_not_allowed"@,
            RejectionReason::MissingExtendedConnectProtocol => "missing_extended_connect_protocol"@,
            RejectionReason::ExtendedConnectProtocolNotSupported => "extended_connect_protocol_not_supported"@,
            RejectionReason::InvalidHttp2WebSocketTarget => "invalid_http2_websocket_target"@,
            RejectionReason::InvalidHttp2WebSocketHeaders => "invalid_http2_websocket_headers"@,
            RejectionReason::WebSocketEntropyUnavailable => "websocket_entropy_unavailable"@,
            RejectionReason::DuplicateWebSocketHeader => "duplicate_websocket_header"@,
            RejectionReason::InvalidWebSocketHeader => "invalid_websocket_header"@,
            RejectionReason::InvalidWebSocketProtocol => "invalid_websocket_protocol"@,
            RejectionReason::InvalidPeerAddress => "invalid_peer_address"@,
            RejectionReason::InvalidCanonicalHost => "invalid_canonical_host"@,
        }
    }

    /// The status with which the request is answered.
    pub open spec fn status(self) -> u16 {
        match self {
            RejectionReason::TooManyHeaders => REQUEST_HEADER_FIELDS_TOO_LARGE,
            RejectionReason::HeadersTooLarge => REQUEST_HEADER_FIELDS_TOO_LARGE,
            RejectionReason::ConnectHostPortMismatch => MISDIRECTED_REQUEST,
            RejectionReason::HostAuthorityMismatch => MISDIRECTED_REQUEST,
            RejectionReason::MissingSni => MISDIRECTED_REQUEST,
            RejectionReason::SniHostMismatch => MISDIRECTED_REQUEST,
            RejectionReason::UnknownHost => NOT_FOUND,
            RejectionReason::SignedAccessMissing => UNAUTHORIZED,
            RejectionReason::SignedAccessMalformed => UNAUTHORIZED,
            RejectionReason::SignedAccessClock => UNAUTHORIZED,
            RejectionReason::SignedAccessExpired => UNAUTHORIZED,
            RejectionReason::SignedAccessInvalid => UNAUTHORIZED,
            RejectionReason::ConnectNotEnabledForProtocol => NOT_IMPLEMENTED,
            RejectionReason::ExtendedConnectNotSupported => NOT_IMPLEMENTED,
            RejectionReason::ConnectProtocolNotSupported => HTTP_VERSION_NOT_SUPPORTED,
            RejectionReason::WebSocketNotEnabledForProtocol => NOT_IMPLEMENTED,
            RejectionReason::ExtendedConnectProtocolNotSupported => NOT_IMPLEMENTED,
            RejectionReason::WebSocketEntropyUnavailable => SERVICE_UNAVAILABLE,
            _ => BAD_REQUEST,
        }
    }

    /// The name under which the reason is logged.
    pub fn as_str(self) -> (name: &'static str)
        ensures
            name@ == self.text(),
    {
        match self {
            RejectionReason::TooManyHeaders => "too_many_headers",
            RejectionReason::HeadersTooLarge => "headers_too_large",
            RejectionReason::DuplicateHost => "duplicate_host",
            RejectionReason::InvalidHost => "invalid_host",
            RejectionReason::InvalidUriAuthority => "invalid_uri_authority",
            RejectionReason::MissingConnectAuthority => "missing_connect_authority",
            RejectionReason::InvalidConnectAuthority => "invalid_connect_authority",
            RejectionReason::ConnectHostPortMismatch => "connect_host_port_mismatch",
            RejectionReason::MissingHost => "missing_host",
            RejectionReason::HostAuthorityMismatch => "host_authority_mismatch",
            RejectionReason::MissingAuthority => "missing_authority",
            RejectionReason::MissingSni => "missing_sni",
            RejectionReason::SniHostMismatch => "sni_host_mismatch",
            RejectionReason::UnknownHost => "unknown_host",
            RejectionReason::InvalidReachabilityProbe => "invalid_reachability_probe",
            RejectionReason::ReachabilityProbeBody => "reachability_probe_body",
            RejectionReason::MissingReachabilityChallenge => "missing_reachability_challenge",
            RejectionReason::DuplicateReachabilityChallenge => "duplicate_reachability_challenge",
            RejectionReason::InvalidReachabilityChallenge => "invalid_reachability_challenge",
            RejectionReason::SignedAccessMissing => "signed_access_missing",
            RejectionReason::SignedAccessMalformed => "signed_access_malformed",
            RejectionReason::SignedAccessClock => "signed_access_clock",
            RejectionReason::SignedAccessExpired => "signed_access_expired",
            RejectionReason::SignedAccessInvalid => "signed_access_invalid",
            RejectionReason::InvalidRequestTarget => "invalid_request_target",
            RejectionReason::ConnectNotEnabledForProtocol => "connect_not_enabled_for_protocol",
            RejectionReason::ConnectUpgradeHeadersNotAllowed => "connect_upgrade_headers_not_allowed",
            RejectionReason::ConnectRequestBodyNotAllowed => "connect_request_body_not_allowed",
            RejectionReason::ExtendedConnectNotSupported => "extended_connect_not_supported",
            RejectionReason::InvalidHttp2ConnectHeaders => "invalid_http2_connect_headers",
            RejectionReason::ConnectProtocolNotSupported => "connect_protocol_not_supported",
            RejectionReason::WebSocketNotEnabledForProtocol => "websocket_not_enabled_for_protocol",
            RejectionReason::InvalidWebSocketMethod => "invalid_websocket_method",
            RejectionReason::InvalidWebSocketUpgrade => "invalid_websocket_upgrade",
            RejectionReason::InvalidWebSocketVersion => "invalid_websocket_version",
            RejectionReason::MissingWebSocketKey => "missing_websocket_key",
            RejectionReason::InvalidWebSocketKey => "invalid_websocket_key",
            RejectionReason::WebSocketExtensionsNotSupported => "websocket_extensions_not_supported",
            RejectionReason::WebSocketRequestBodyNotAllowed => "websocket_request_body_not_allowed",
            RejectionReason::MissingExtendedConnectProtocol => "missing_extended_connect_protocol",
            RejectionReason::ExtendedConnectProtocolNotSupported => "extended_connect_protocol_not_supported",
            RejectionReason::InvalidHttp2WebSocketTarget => "invalid_http2_websocket_target",
            RejectionReason::InvalidHttp2WebSocketHeaders => "invalid_http2_websocket_headers",
            RejectionReason::WebSocketEntropyUnavailable => "websocket_entropy_unavailable",
            RejectionReason::DuplicateWebSocketHeader => "duplicate_websocket_header",
            RejectionReason::InvalidWebSocketHeader => "invalid_websocket_header",
            RejectionReason::InvalidWebSocketProtocol => "invalid_websocket_protocol",
            RejectionReason::InvalidPeerAddress => "invalid_peer_address",
            RejectionReason::InvalidCanonicalHost => "invalid_canonical_host",
        }
    }
}

/// A refused request: the answer's status, and why.
#[derive(Debug, Clone, Copy, PartialEq, Eq, Structural)]
pub struct RequestRejection {
    pub status: u16,
    pub reason: RejectionReason,
}

/// The rejection for a reason.
pub open spec fn rejection(reason: RejectionReason) -> RequestRejection {
    RequestRejection { status: reason.status(), reason }
}

/// The rejection for a reason.
pub fn reject(reason: RejectionReason) -> (r: RequestRejection)
    ensures
        r == rejection(reason),
{
    let status: u16 = match reason {
        RejectionReason::TooManyHeaders => REQUEST_HEADER_FIELDS_TOO_LARGE,
        RejectionReason::HeadersTooLarge => REQUEST_HEADER_FIELDS_TOO_LARGE,
        RejectionReason::ConnectHostPortMismatch => MISDIRECTED_REQUEST,
        RejectionReason::HostAuthorityMismatch => MISDIRECTED_REQUEST,
        RejectionReason::MissingSni => MISDIRECTED_REQUEST,
        RejectionReason::SniHostMismatch => MISDIRECTED_REQUEST,
        RejectionReason::UnknownHost => NOT_FOUND,
        RejectionReason::SignedAccessMissing => UNAUTHORIZED,
        RejectionReason::SignedAccessMalformed => UNAUTHORIZED,
        RejectionReason::SignedAccessClock => UNAUTHORIZED,
        RejectionReason::SignedAccessExpired => UNAUTHORIZED,
        RejectionReason::SignedAccessInvalid => UNAUTHORIZED,
        RejectionReason::ConnectNotEnabledForProtocol => NOT_IMPLEMENTED,
        RejectionReason::ExtendedConnectNotSupported => NOT_IMPLEMENTED,
        RejectionReason::ConnectProtocolNotSupported => HTTP_VERSION_NOT_SUPPORTED,
        RejectionReason::WebSocketNotEnabledForProtocol => NOT_IMPLEMENTED,
        RejectionReason::ExtendedConnectProtocolNotSupported => NOT_IMPLEMENTED,
        RejectionReason::WebSocketEntropyUnavailable => SERVICE_UNAVAILABLE,
        _ => BAD_REQUEST,
    };
    RequestRejection { status, reason }
}

/// Each refusal has the status that says whose fault it is: too large header fields are
/// 431, a request on the wrong connection is 421, an unknown hostname 404, a signature
/// that does not hold 401, what is not enabled 501, an HTTP version that cannot be served
/// 505, and every other fault of a request 400.
pub proof fn refusals_have_their_status(reason: RejectionReason)
    ensures
        reason.status() == 431 <==> reason is TooManyHeaders || reason is HeadersTooLarge,
        reason.status() == 421 <==> reason is ConnectHostPortMismatch || reason
            is HostAuthorityMismatch || reason is MissingSni || reason is SniHostMismatch,
        reason.status() == 404 <==> reason is UnknownHost,
        reason.status() == 401 <==> reason is SignedAccessMissing || reason is SignedAccessMalformed
            || reason is SignedAccessClock || reason is SignedAccessExpired || reason
            is SignedAccessInvalid,
        reason.status() == 501 <==> reason is ConnectNotEnabledForProtocol || reason
            is ExtendedConnectNotSupported || reason is WebSocketNotEnabledForProtocol || reason
            is ExtendedConnectProtocolNotSupported,
        reason.status() == 505 <==> reason is ConnectProtocolNotSupported,
        reason.status() == 503 <==> reason is WebSocketEntropyUnavailable,
        reason.status() == 431 || reason.status() == 421 || reason.status() == 404
            || reason.status() == 401 || reason.status() == 501 || reason.status() == 505
            || reason.status() == 503 || reason.status() == 400,
{
}

} // verus!
