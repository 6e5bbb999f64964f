//! WebSocket handshakes, over HTTP/1.1 and over HTTP/2.

use vstd::prelude::*;
use vstd::string::*;

use crate::bytes::{
    copy_of, eq_ignore_ascii_case, is_header_text, is_text, lower, same_bytes, views, SLASH,
};
use crate::http_config::WebSocketIngressConfig;
use crate::http_headers::{
    has_header, header_fields, header_has_token, header_values, is_http_token, is_token,
    lemma_plain_is_lower, list_members, members_of, names_member, values_of,
};
use crate::http_rejection::{reject, rejection, RejectionReason, RequestRejection};
use crate::http_request::{opt_view, NegotiatedHttpProtocol, RequestHead, Version};

verus! {

/// What a key is joined with before it is hashed.
pub open spec fn websocket_guid() -> Seq<u8> {
    "258EAFA5-E914-47DA-95CA-C5AB0DC85B11".spec_bytes()
}

/// What base64 makes of bytes.
pub uninterp spec fn base64_encoded(data: Seq<u8>) -> Seq<u8>;

/// What bytes base64 text stands for, where it is base64 text.
pub uninterp spec fn base64_decoded(text: Seq<u8>) -> Option<Seq<u8>>;

/// The SHA-1 digest of bytes.
pub uninterp spec fn sha1_digest(message: Seq<u8>) -> Seq<u8>;

/// `Engine::encode` of the standard base64 engine writes bytes as text of
/// letters, digits, `+`, `/` and `=`, which decodes to the same bytes.
#[verifier::external_body]
pub(crate) fn encode_base64(data: &[u8]) -> (text: Vec<u8>)
    requires
        data@.len() <= 0x1000_0000,
    ensures
        text@ == base64_encoded(data@),
        is_text(text@),
        base64_decoded(text@) == Some(data@),
{
    base64::Engine::encode(&base64::engine::general_purpose::STANDARD, data).into_bytes()
}

/// `Engine::decode` of the standard base64 engine reads such text back, and
/// refuses what is none.
#[verifier::external_body]
pub(crate) fn decode_base64(text: &[u8]) -> (data: Option<Vec<u8>>)
    ensures
        opt_view(data) == base64_decoded(text@),
{
    base64::Engine::decode(&base64::engine::general_purpose::STANDARD, text).ok()
}

/// `Digest::digest` of `Sha1` gives the 20 bytes of a message's SHA-1.
#[verifier::external_body]
pub(crate) fn sha1_of(message: &[u8]) -> (digest: Vec<u8>)
    ensures
        digest@ == sha1_digest(message@),
        digest@.len() == 20,
{
    <sha1::Sha1 as sha1::Digest>::digest(message).to_vec()
}

/// `getrandom` fills a buffer with random bytes, or fails.
#[verifier::external_body]
pub(crate) fn random_nonce() -> (nonce: Option<Vec<u8>>)
    ensures
        nonce is Some ==> nonce->0@.len() == 16,
{
    let mut nonce = [0u8; 16];
    getrandom::getrandom(&mut nonce).ok().map(|_| nonce.to_vec())
}

/// A handshake that was accepted: over which protocol, the key that the local
/// service is sent, the answer that it owes, and the protocols it may choose from.
#[derive(Debug)]
pub struct WebSocketHandshake {
    pub protocol: NegotiatedHttpProtocol,
    pub key: Vec<u8>,
    pub expected_accept: Vec<u8>,
    pub offered_protocols: Vec<Vec<u8>>,
}

/// What a handshake holds.
#[verifier::ext_equal]
pub struct HandshakeView {
    pub protocol: NegotiatedHttpProtocol,
    pub key: Seq<u8>,
    pub expected_accept: Seq<u8>,
    pub offered_protocols: Seq<Seq<u8>>,
}

impl View for WebSocketHandshake {
    type V = HandshakeView;

    open spec fn view(&self) -> HandshakeView {
        HandshakeView {
            protocol: self.protocol,
            key: self.key@,
            expected_accept: self.expected_accept@,
            offered_protocols: views(self.offered_protocols@),
        }
    }
}

impl HandshakeView {
    /// The key and the answer are header text, the answer is the key's, and the
    /// offered protocols are distinct tokens.
    pub open spec fn wf(self) -> bool {
        &&& is_text(self.key)
        &&& is_text(self.expected_accept)
        &&& self.expected_accept == accept_for(self.key)
        &&& protocols_ok(self.offered_protocols)
    }
}

/// The answer that a key asks for.
pub open spec fn accept_for(key: Seq<u8>) -> Seq<u8> {
    base64_encoded(sha1_digest(key + websocket_guid()))
}

/// Whether protocols are tokens, none of which stands twice.
pub open spec fn protocols_ok(protocols: Seq<Seq<u8>>) -> bool {
    &&& forall|i: int| 0 <= i < protocols.len() ==> is_token(#[trigger] protocols[i])
    &&& protocols.no_duplicates()
}

/// The answer that a key asks for.
pub fn websocket_accept(key: &[u8]) -> (accept: Vec<u8>)
    ensures
        accept@ == accept_for(key@),
        is_text(accept@),
{
    let mut message: Vec<u8> = copy_of(key);
    message.extend_from_slice("258EAFA5-E914-47DA-95CA-C5AB0DC85B11".as_bytes());
    proof {
        assert(message@ =~= key@ + websocket_guid());
    }
    let digest: Vec<u8> = sha1_of(message.as_slice());
    encode_base64(digest.as_slice())
}

/// The text of a header that may stand once at most.
pub open spec fn single_text(fields: Map<Seq<u8>, Seq<Seq<u8>>>, name: Seq<u8>) -> Result<
    Option<Seq<u8>>,
    RejectionReason,
> {
    let values = values_of(fields, name);
    if values.len() > 1 {
        Err(RejectionReason::DuplicateWebSocketHeader)
    } else if values.len() == 0 {
        Ok(None)
    } else if !is_text(values[0]) {
        Err(RejectionReason::InvalidWebSocketHeader)
    } else {
        Ok(Some(values[0]))
    }
}

/// The value of a header that may stand once at most.
pub fn single_header_value(headers: &hyper::HeaderMap, name: &[u8]) -> (result: Result<
    Option<Vec<u8>>,
    RequestRejection,
>)
    ensures
        match result {
            Ok(None) => values_of(header_fields(*headers), name@).len() == 0,
            Ok(Some(value)) => values_of(header_fields(*headers), name@) == seq![value@],
            Err(error) => values_of(header_fields(*headers), name@).len() > 1 && error == rejection(
                RejectionReason::DuplicateWebSocketHeader,
            ),
        },
{
    let mut values: Vec<Vec<u8>> = header_values(headers, name);
    if values.len() > 1 {
        return Err(reject(RejectionReason::DuplicateWebSocketHeader));
    }
    proof {
        if values@.len() == 1 {
            assert(views(values@) =~= seq![values@[0]@]);
        }
    }
    Ok(values.pop())
}

/// The text of a header that may stand once at most.
pub fn single_header_str(headers: &hyper::HeaderMap, name: &[u8]) -> (result: Result<
    Option<Vec<u8>>,
    RequestRejection,
>)
    ensures
        match (result, single_text(header_fields(*headers), name@)) {
            (Ok(value), Ok(text)) => opt_view(value) == text,
            (Err(error), Err(reason)) => error == rejection(reason),
            _ => false,
        },
{
    match single_header_value(headers, name) {
        Err(error) => Err(error),
        Ok(None) => Ok(None),
        Ok(Some(value)) => {
            if is_header_text(value.as_slice()) {
                Ok(Some(value))
            } else {
                Err(reject(RejectionReason::InvalidWebSocketHeader))
            }
        },
    }
}

/// The protocols that a request offers: all values are text, and their members
/// are distinct tokens.
pub open spec fn offered(fields: Map<Seq<u8>, Seq<Seq<u8>>>) -> Option<Seq<Seq<u8>>> {
    let values = values_of(fields, "sec-websocket-protocol".spec_bytes());
    if (forall|i: int| 0 <= i < values.len() ==> is_text(#[trigger] values[i])) && protocols_ok(
        list_members(values),
    ) {
        Some(list_members(values))
    } else {
        None
    }
}

/// The protocols that a request offers.
pub fn parse_websocket_protocols(headers: &hyper::HeaderMap) -> (result: Result<
    Vec<Vec<u8>>,
    RequestRejection,
>)
    ensures
        match result {
            Ok(protocols) => offered(header_fields(*headers)) == Some(views(protocols@)),
            Err(error) => offered(header_fields(*headers)) is None && error == rejection(
                RejectionReason::InvalidWebSocketProtocol,
            ),
        },
{
    let values: Vec<Vec<u8>> = header_values(headers, "sec-websocket-protocol".as_bytes());
    let mut i: usize = 0;
    while i < values.len()
        invariant
            i <= values@.len(),
            views(values@) == values_of(
                header_fields(*headers),
                "sec-websocket-protocol".spec_bytes(),
            ),
            forall|k: int| 0 <= k < i ==> is_text(#[trigger] views(values@)[k]),
        decreases values@.len() - i,
    {
        if !is_header_text(values[i].as_slice()) {
            proof {
                assert(!is_text(views(values@)[i as int]));
            }
            return Err(reject(RejectionReason::InvalidWebSocketProtocol));
        }
        i = i + 1;
    }
    let protocols: Vec<Vec<u8>> = members_of(&values);
    let ghost all: Seq<Seq<u8>> = views(protocols@);
    let mut i: usize = 0;
    while i < protocols.len()
        invariant
            i <= protocols@.len(),
            all == views(protocols@),
            all == list_members(
                values_of(header_fields(*headers), "sec-websocket-protocol".spec_bytes()),
            ),
            forall|k: int| 0 <= k < i ==> is_token(#[trigger] all[k]),
            forall|j: int, k: int| 0 <= j < k < i ==> all[j] != all[k],
        decreases protocols@.len() - i,
    {
        if !is_http_token(protocols[i].as_slice()) {
            proof {
                assert(!is_token(all[i as int]));
            }
            return Err(reject(RejectionReason::InvalidWebSocketProtocol));
        }
        let mut j: usize = 0;
        while j < i
            invariant
                j <= i < protocols@.len(),
                all == views(protocols@),
                all == list_members(
                    values_of(header_fields(*headers), "sec-websocket-protocol".spec_bytes()),
                ),
                forall|k: int| 0 <= k < j ==> all[k] != all[i as int],
            decreases i - j,
        {
            if same_bytes(protocols[j].as_slice(), protocols[i].as_slice()) {
                proof {
                    assert(all[j as int] == all[i as int]);
                    assert(!all.no_duplicates());
                }
                return Err(reject(RejectionReason::InvalidWebSocketProtocol));
            }
            j = j + 1;
        }
        i = i + 1;
    }
    proof {
        assert(protocols_ok(all));
    }
    Ok(protocols)
}

/// Whether any header that WebSocket handshakes use is present.
pub open spec fn websocket_intent(fields: Map<Seq<u8>, Seq<Seq<u8>>>) -> bool {
    ||| fields.dom().contains(lower("upgrade".spec_bytes()))
    ||| names_member(
        list_members(values_of(fields, "connection".spec_bytes())),
        "upgrade".spec_bytes(),
    )
    ||| fields.dom().contains(lower("sec-websocket-key".spec_bytes()))
    ||| fields.dom().contains(lower("sec-websocket-version".spec_bytes()))
    ||| fields.dom().contains(lower("sec-websocket-protocol".spec_bytes()))
    ||| fields.dom().contains(lower("sec-websocket-extensions".spec_bytes()))
}

/// Whether any header that WebSocket handshakes use is present.
pub fn has_websocket_intent(headers: &hyper::HeaderMap) -> (intent: bool)
    ensures
        intent == websocket_intent(header_fields(*headers)),
{
    has_header(headers, "upgrade".as_bytes()) || header_has_token(
        headers,
        "connection".as_bytes(),
        "upgrade".as_bytes(),
    ) || has_header(headers, "sec-websocket-key".as_bytes()) || has_header(
        headers,
        "sec-websocket-version".as_bytes(),
    ) || has_header(headers, "sec-websocket-protocol".as_bytes()) || has_header(
        headers,
        "sec-websocket-extensions".as_bytes(),
    )
}

/// Whether a key is the canonical base64 text of 16 bytes.
pub open spec fn valid_key(key: Seq<u8>) -> bool {
    &&& is_text(key)
    &&& base64_decoded(key) is Some
    &&& base64_decoded(key)->0.len() == 16
    &&& base64_encoded(base64_decoded(key)->0) == key
}

/// Whether a key is the canonical base64 text of 16 bytes.
pub fn is_valid_websocket_key(key: &[u8]) -> (valid: bool)
    ensures
        valid == valid_key(key@),
{
    if !is_header_text(key) {
        return false;
    }
    match decode_base64(key) {
        None => false,
        Some(decoded) => {
            if decoded.len() != 16 {
                return false;
            }
            let canonical: Vec<u8> = encode_base64(decoded.as_slice());
            same_bytes(canonical.as_slice(), key)
        },
    }
}

/// What the handshake over HTTP/1.1 comes to.
pub open spec fn http1_handshake(
    head: RequestHead,
    websocket: Option<WebSocketIngressConfig>,
) -> Result<HandshakeView, RejectionReason> {
    let fields = header_fields(head.headers);
    let keys = values_of(fields, "sec-websocket-key".spec_bytes());
    let upgrade = single_text(fields, "upgrade".spec_bytes());
    let version = single_text(fields, "sec-websocket-version".spec_bytes());
    let length = single_text(fields, "content-length".spec_bytes());
    if websocket is None || !websocket->0.enable_http1 || head.version != Version::Http11 {
        Err(RejectionReason::WebSocketNotEnabledForProtocol)
    } else if head.method@ != "GET".spec_bytes() {
        Err(RejectionReason::InvalidWebSocketMethod)
    } else if !names_member(
        list_members(values_of(fields, "connection".spec_bytes())),
        "upgrade".spec_bytes(),
    ) {
        Err(RejectionReason::InvalidWebSocketUpgrade)
    } else if upgrade is Err {
        Err(upgrade->Err_0)
    } else if upgrade->Ok_0 is None || lower(upgrade->Ok_0->0) != lower(
        "websocket".spec_bytes(),
    ) {
        Err(RejectionReason::InvalidWebSocketUpgrade)
    } else if version is Err {
        Err(version->Err_0)
    } else if version->Ok_0 != Some("13".spec_bytes()) {
        Err(RejectionReason::InvalidWebSocketVersion)
    } else if keys.len() > 1 {
        Err(RejectionReason::DuplicateWebSocketHeader)
    } else if keys.len() == 0 {
        Err(RejectionReason::MissingWebSocketKey)
    } else if !valid_key(keys[0]) {
        Err(RejectionReason::InvalidWebSocketKey)
    } else if fields.dom().contains(lower("sec-websocket-extensions".spec_bytes())) {
        Err(RejectionReason::WebSocketExtensionsNotSupported)
    } else if fields.dom().contains(lower("transfer-encoding".spec_bytes())) {
        Err(RejectionReason::WebSocketRequestBodyNotAllowed)
    } else if length is Err {
        Err(length->Err_0)
    } else if (length->Ok_0 is Some && length->Ok_0->0 != "0".spec_bytes()) || (
    head.body_size_limit is Some && head.body_size_limit->0 != 0) {
        Err(RejectionReason::WebSocketRequestBodyNotAllowed)
    } else if offered(fields) is None {
        Err(RejectionReason::InvalidWebSocketProtocol)
    } else {
        Ok(
            HandshakeView {
                protocol: NegotiatedHttpProtocol::Http1,
                key: keys[0],
                expected_accept: accept_for(keys[0]),
                offered_protocols: offered(fields)->0,
            },
        )
    }
}

/// Checks a WebSocket handshake over HTTP/1.1.
pub fn validate_websocket_handshake(
    request: &RequestHead,
    websocket: Option<WebSocketIngressConfig>,
) -> (result: Result<WebSocketHandshake, RequestRejection>)
    ensures
        match (result, http1_handshake(*request, websocket)) {
            (Ok(handshake), Ok(expected)) => handshake@ == expected && handshake@.wf(),
            (Err(error), Err(reason)) => error == rejection(reason),
            _ => false,
        },
{
    let enabled: bool = match websocket {
        Some(websocket) => websocket.enable_http1,
        None => false,
    };
    if !enabled || request.version != Version::Http11 {
        return Err(reject(RejectionReason::WebSocketNotEnabledForProtocol));
    }
    if !same_bytes(request.method.as_slice(), "GET".as_bytes()) {
        return Err(reject(RejectionReason::InvalidWebSocketMethod));
    }
    if !header_has_token(&request.headers, "connection".as_bytes(), "upgrade".as_bytes()) {
        return Err(reject(RejectionReason::InvalidWebSocketUpgrade));
    }
    match single_header_str(&request.headers, "upgrade".as_bytes()) {
        Err(error) => return Err(error),
        Ok(None) => return Err(reject(RejectionReason::InvalidWebSocketUpgrade)),
        Ok(Some(value)) => {
            if !eq_ignore_ascii_case(value.as_slice(), "websocket".as_bytes()) {
                return Err(reject(RejectionReason::InvalidWebSocketUpgrade));
            }
        },
    }
    check_websocket_version(&request.headers)?;
    let key: Vec<u8> = match single_header_value(
        &request.headers,
        "sec-websocket-key".as_bytes(),
    ) {
        Err(error) => return Err(error),
        Ok(None) => return Err(reject(RejectionReason::MissingWebSocketKey)),
        Ok(Some(key)) => key,
    };
    if !is_valid_websocket_key(key.as_slice()) {
        return Err(reject(RejectionReason::InvalidWebSocketKey));
    }
    if has_header(&request.headers, "sec-websocket-extensions".as_bytes()) {
        return Err(reject(RejectionReason::WebSocketExtensionsNotSupported));
    }
    if has_header(&request.headers, "transfer-encoding".as_bytes()) {
        return Err(reject(RejectionReason::WebSocketRequestBodyNotAllowed));
    }
    match single_header_str(&request.headers, "content-length".as_bytes()) {
        Err(error) => return Err(error),
        Ok(None) => {},
        Ok(Some(value)) => {
            if !same_bytes(value.as_slice(), "0".as_bytes()) {
                return Err(reject(RejectionReason::WebSocketRequestBodyNotAllowed));
            }
        },
    }
    if let Some(size) = request.body_size_limit {
        if size != 0 {
            return Err(reject(RejectionReason::WebSocketRequestBodyNotAllowed));
        }
    }
    let offered_protocols: Vec<Vec<u8>> = parse_websocket_protocols(&request.headers)?;
    let expected_accept: Vec<u8> = websocket_accept(key.as_slice());
    Ok(
        WebSocketHandshake {
            protocol: NegotiatedHttpProtocol::Http1,
            key,
            expected_accept,
            offered_protocols,
        },
    )
}

/// Checks that the handshake names the one version there is.
fn check_websocket_version(headers: &hyper::HeaderMap) -> (result: Result<(), RequestRejection>)
    ensures
        match single_text(header_fields(*headers), "sec-websocket-version".spec_bytes()) {
            Err(reason) => result == Err::<(), _>(rejection(reason)),
            Ok(version) => result == (if version == Some("13".spec_bytes()) {
                Ok(())
            } else {
                Err(rejection(RejectionReason::InvalidWebSocketVersion))
            }),
        },
{
    match single_header_str(headers, "sec-websocket-version".as_bytes()) {
        Err(error) => Err(error),
        Ok(None) => Err(reject(RejectionReason::InvalidWebSocketVersion)),
        Ok(Some(value)) => {
            if same_bytes(value.as_slice(), "13".as_bytes()) {
                Ok(())
            } else {
                Err(reject(RejectionReason::InvalidWebSocketVersion))
            }
        },
    }
}

/// Whether a header is present that an extended CONNECT may not have.
pub open spec fn forbidden_over_http2(fields: Map<Seq<u8>, Seq<Seq<u8>>>) -> bool {
    ||| fields.dom().contains(lower("connection".spec_bytes()))
    ||| fields.dom().contains(lower("upgrade".spec_bytes()))
    ||| fields.dom().contains(lower("sec-websocket-key".spec_bytes()))
    ||| fields.dom().contains(lower("sec-websocket-accept".spec_bytes()))
    ||| fields.dom().contains(lower("sec-websocket-extensions".spec_bytes()))
    ||| fields.dom().contains(lower("content-length".spec_bytes()))
    ||| fields.dom().contains(lower("te".spec_bytes()))
    ||| fields.dom().contains(lower("trailer".spec_bytes()))
    ||| fields.dom().contains(lower("transfer-encoding".spec_bytes()))
}

/// The protocols that a handshake over HTTP/2 offers, where nothing is wrong
/// with it.
pub open spec fn http2_offer(
    head: RequestHead,
    websocket: Option<WebSocketIngressConfig>,
) -> Result<Seq<Seq<u8>>, RejectionReason> {
    let fields = header_fields(head.headers);
    let version = single_text(fields, "sec-websocket-version".spec_bytes());
    if websocket is None || !websocket->0.enable_http2 {
        Err(RejectionReason::WebSocketNotEnabledForProtocol)
    } else if head.extended_protocol is None {
        Err(RejectionReason::MissingExtendedConnectProtocol)
    } else if lower(head.extended_protocol->0@) != lower("websocket".spec_bytes()) {
        Err(RejectionReason::ExtendedConnectProtocolNotSupported)
    } else if opt_view(head.scheme) != Some("https".spec_bytes()) || head.authority is None
        || head.path_and_query is None || !(head.spec_path().len() > 0 && head.spec_path()[0]
        == SLASH) {
        Err(RejectionReason::InvalidHttp2WebSocketTarget)
    } else if forbidden_over_http2(fields) {
        Err(RejectionReason::InvalidHttp2WebSocketHeaders)
    } else if version is Err {
        Err(version->Err_0)
    } else if version->Ok_0 != Some("13".spec_bytes()) {
        Err(RejectionReason::InvalidWebSocketVersion)
    } else if offered(fields) is None {
        Err(RejectionReason::InvalidWebSocketProtocol)
    } else {
        Ok(offered(fields)->0)
    }
}

/// Checks everything of a handshake over HTTP/2 but the randomness it needs.
pub fn check_http2_websocket(
    request: &RequestHead,
    websocket: Option<WebSocketIngressConfig>,
) -> (result: Result<Vec<Vec<u8>>, RequestRejection>)
    ensures
        match (result, http2_offer(*request, websocket)) {
            (Ok(protocols), Ok(expected)) => views(protocols@) == expected && protocols_ok(
                expected,
            ),
            (Err(error), Err(reason)) => error == rejection(reason),
            _ => false,
        },
{
    let enabled: bool = match websocket {
        Some(websocket) => websocket.enable_http2,
        None => false,
    };
    if !enabled {
        return Err(reject(RejectionReason::WebSocketNotEnabledForProtocol));
    }
    match &request.extended_protocol {
        None => return Err(reject(RejectionReason::MissingExtendedConnectProtocol)),
        Some(protocol) => {
            if !eq_ignore_ascii_case(protocol.as_slice(), "websocket".as_bytes()) {
                return Err(reject(RejectionReason::ExtendedConnectProtocolNotSupported));
            }
        },
    }
    let https: bool = match &request.scheme {
        Some(scheme) => same_bytes(scheme.as_slice(), "https".as_bytes()),
        None => false,
    };
    let path: Vec<u8> = request.path();
    if !https || request.authority.is_none() || request.path_and_query.is_none() || path.len() == 0
        || path[0] != SLASH {
        return Err(reject(RejectionReason::InvalidHttp2WebSocketTarget));
    }
    let headers: &hyper::HeaderMap = &request.headers;
    if has_header(headers, "connection".as_bytes()) || has_header(headers, "upgrade".as_bytes())
        || has_header(headers, "sec-websocket-key".as_bytes()) || has_header(
        headers,
        "sec-websocket-accept".as_bytes(),
    ) || has_header(headers, "sec-websocket-extensions".as_bytes()) || has_header(
        headers,
        "content-length".as_bytes(),
    ) || has_header(headers, "te".as_bytes()) || has_header(headers, "trailer".as_bytes())
        || has_header(headers, "transfer-encoding".as_bytes()) {
        return Err(reject(RejectionReason::InvalidHttp2WebSocketHeaders));
    }
    check_websocket_version(headers)?;
    parse_websocket_protocols(headers)
}

/// The handshake over HTTP/2 whose key is made of the nonce.
pub open spec fn http2_handshake(nonce: Seq<u8>, protocols: Seq<Seq<u8>>) -> HandshakeView {
    HandshakeView {
        protocol: NegotiatedHttpProtocol::Http2,
        key: base64_encoded(nonce),
        expected_accept: accept_for(base64_encoded(nonce)),
        offered_protocols: protocols,
    }
}

/// Makes the handshake over HTTP/2 from a nonce, or refuses where none could be
/// had.
pub fn complete_http2_websocket(
    nonce: Option<Vec<u8>>,
    offered_protocols: Vec<Vec<u8>>,
) -> (result: Result<WebSocketHandshake, RequestRejection>)
    requires
        nonce is Some ==> nonce->0@.len() == 16,
        protocols_ok(views(offered_protocols@)),
    ensures
        match (result, nonce) {
            (Ok(handshake), Some(nonce)) => handshake@ == http2_handshake(
                nonce@,
                views(offered_protocols@),
            ) && handshake@.wf() && valid_key(handshake@.key),
            (Err(error), None) => error == rejection(RejectionReason::WebSocketEntropyUnavailable),
            _ => false,
        },
{
    match nonce {
        None => Err(reject(RejectionReason::WebSocketEntropyUnavailable)),
        Some(nonce) => {
            let key: Vec<u8> = encode_base64(nonce.as_slice());
            let expected_accept: Vec<u8> = websocket_accept(key.as_slice());
            Ok(
                WebSocketHandshake {
                    protocol: NegotiatedHttpProtocol::Http2,
                    key,
                    expected_accept,
                    offered_protocols,
                },
            )
        },
    }
}

/// Checks a WebSocket handshake over HTTP/2, and makes the key for the local
/// service from 16 random bytes.
pub fn validate_http2_websocket_handshake(
    request: &RequestHead,
    websocket: Option<WebSocketIngressConfig>,
) -> (result: Result<WebSocketHandshake, RequestRejection>)
    ensures
        match http2_offer(*request, websocket) {
            Err(reason) => result matches Err(error) && error == rejection(reason),
            Ok(protocols) => match result {
                Err(error) => error == rejection(RejectionReason::WebSocketEntropyUnavailable),
                Ok(handshake) => handshake@.wf() && valid_key(handshake@.key) && exists|
                    nonce: Seq<u8>,
                |
                    #![trigger http2_handshake(nonce, protocols)]
                    nonce.len() == 16 && handshake@ == http2_handshake(nonce, protocols),
            },
        },
{
    let offered_protocols: Vec<Vec<u8>> = check_http2_websocket(request, websocket)?;
    complete_http2_websocket(random_nonce(), offered_protocols)
}

pub(crate) proof fn lemma_field_names()
    ensures
        lower("upgrade".spec_bytes()) == "upgrade".spec_bytes(),
        lower("connection".spec_bytes()) == "connection".spec_bytes(),
        lower("sec-websocket-key".spec_bytes()) == "sec-websocket-key".spec_bytes(),
        lower("sec-websocket-version".spec_bytes()) == "sec-websocket-version".spec_bytes(),
        lower("sec-websocket-protocol".spec_bytes()) == "sec-websocket-protocol".spec_bytes(),
        lower("sec-websocket-extensions".spec_bytes()) == "sec-websocket-extensions".spec_bytes(),
        lower("content-length".spec_bytes()) == "content-length".spec_bytes(),
        lower("transfer-encoding".spec_bytes()) == "transfer-encoding".spec_bytes(),
        lower("host".spec_bytes()) == "host".spec_bytes(),
{
    reveal_strlit("upgrade");
    is_ascii_spec_bytes("upgrade");
    lemma_plain_is_lower("upgrade".spec_bytes());
    reveal_strlit("connection");
    is_ascii_spec_bytes("connection");
    lemma_plain_is_lower("connection".spec_bytes());
    reveal_strlit("sec-websocket-key");
    is_ascii_spec_bytes("sec-websocket-key");
    lemma_plain_is_lower("sec-websocket-key".spec_bytes());
    reveal_strlit("sec-websocket-version");
    is_ascii_spec_bytes("sec-websocket-version");
    lemma_plain_is_lower("sec-websocket-version".spec_bytes());
    reveal_strlit("sec-websocket-protocol");
    is_ascii_spec_bytes("sec-websocket-protocol");
    lemma_plain_is_lower("sec-websocket-protocol".spec_bytes());
    reveal_strlit("sec-websocket-extensions");
    is_ascii_spec_bytes("sec-websocket-extensions");
    lemma_plain_is_lower("sec-websocket-extensions".spec_bytes());
    reveal_strlit("content-length");
    is_ascii_spec_bytes("content-length");
    lemma_plain_is_lower("content-length".spec_bytes());
    reveal_strlit("transfer-encoding");
    is_ascii_spec_bytes("transfer-encoding");
    lemma_plain_is_lower("transfer-encoding".spec_bytes());
    reveal_strlit("host");
    is_ascii_spec_bytes("host");
    lemma_plain_is_lower("host".spec_bytes());
}

/// A request over HTTP/1.1 becomes a WebSocket only where that is enabled for HTTP/1.1 and
/// it asks for one as the protocol says: a GET with the upgrade, version 13 and one valid
/// key, without extensions and without a body. The local service is then sent the client's
/// own key, and owes the answer to it.
pub proof fn http1_websockets_are_asked_for(
    head: RequestHead,
    websocket: Option<WebSocketIngressConfig>,
)
    requires
        http1_handshake(head, websocket) is Ok,
    ensures
        ({
            let fields = header_fields(head.headers);
            let handshake = http1_handshake(head, websocket)->Ok_0;
            &&& websocket is Some && websocket->0.enable_http1
            &&& head.version == Version::Http11
            &&& head.method@ == "GET".spec_bytes()
            &&& fields.dom().contains("upgrade".spec_bytes())
            &&& fields["upgrade".spec_bytes()].len() == 1
            &&& lower(fields["upgrade".spec_bytes()][0]) == lower("websocket".spec_bytes())
            &&& fields.dom().contains("connection".spec_bytes())
            &&& fields.dom().contains("sec-websocket-version".spec_bytes())
            &&& fields["sec-websocket-version".spec_bytes()] == seq!["13".spec_bytes()]
            &&& fields.dom().contains("sec-websocket-key".spec_bytes())
            &&& fields["sec-websocket-key".spec_bytes()] == seq![handshake.key]
            &&& valid_key(handshake.key)
            &&& handshake.expected_accept == accept_for(handshake.key)
            &&& handshake.protocol == NegotiatedHttpProtocol::Http1
            &&& !fields.dom().contains("sec-websocket-extensions".spec_bytes())
            &&& !fields.dom().contains("transfer-encoding".spec_bytes())
            &&& head.body_size_limit is None || head.body_size_limit == Some(0u64)
            &&& handshake.offered_protocols == list_members(
                values_of(fields, "sec-websocket-protocol".spec_bytes()),
            )
        }),
{
    let fields = header_fields(head.headers);
    lemma_field_names();
    assert(list_members(Seq::empty()) =~= Seq::empty());
    let versions = values_of(fields, "sec-websocket-version".spec_bytes());
    assert(versions =~= seq![versions[0]]);
    let keys = values_of(fields, "sec-websocket-key".spec_bytes());
    assert(keys =~= seq![keys[0]]);
}

/// Where WebSockets are enabled for HTTP/1.1, a request that asks for one as the protocol
/// says gets it, whatever is enabled for HTTP/2.
pub proof fn http1_websockets_are_granted(head: RequestHead, websocket: WebSocketIngressConfig)
    requires
        websocket.enable_http1,
        head.version == Version::Http11,
        head.method@ == "GET".spec_bytes(),
        head.body_size_limit is None || head.body_size_limit == Some(0u64),
        ({
            let fields = header_fields(head.headers);
            &&& fields.dom().contains("connection".spec_bytes())
            &&& names_member(
                list_members(fields["connection".spec_bytes()]),
                "upgrade".spec_bytes(),
            )
            &&& fields.dom().contains("upgrade".spec_bytes())
            &&& fields["upgrade".spec_bytes()] == seq!["websocket".spec_bytes()]
            &&& fields.dom().contains("sec-websocket-version".spec_bytes())
            &&& fields["sec-websocket-version".spec_bytes()] == seq!["13".spec_bytes()]
            &&& fields.dom().contains("sec-websocket-key".spec_bytes())
            &&& fields["sec-websocket-key".spec_bytes()].len() == 1
            &&& valid_key(fields["sec-websocket-key".spec_bytes()][0])
            &&& !fields.dom().contains("sec-websocket-extensions".spec_bytes())
            &&& !fields.dom().contains("transfer-encoding".spec_bytes())
            &&& !fields.dom().contains("content-length".spec_bytes())
            &&& !fields.dom().contains("sec-websocket-protocol".spec_bytes())
        }),
    ensures
        http1_handshake(head, Some(websocket)) matches Ok(handshake) && handshake.key
            == header_fields(head.headers)["sec-websocket-key".spec_bytes()][0]
            && handshake.offered_protocols.len() == 0,
{
    let fields = header_fields(head.headers);
    lemma_field_names();
    reveal_strlit("websocket");
    reveal_strlit("13");
    is_ascii_spec_bytes("websocket");
    is_ascii_spec_bytes("13");
    assert(is_text("websocket".spec_bytes()));
    assert(is_text("13".spec_bytes()));
    let values = values_of(fields, "sec-websocket-protocol".spec_bytes());
    assert(values =~= Seq::empty());
    assert(list_members(values) =~= Seq::empty());
    assert(protocols_ok(list_members(values)));
}

/// A request over HTTP/2 becomes a WebSocket only where that is enabled for HTTP/2 and it
/// asks for one by an extended CONNECT of its own origin, with version 13 and without any
/// field of the other handshake.
pub proof fn http2_websockets_are_asked_for(
    head: RequestHead,
    websocket: Option<WebSocketIngressConfig>,
)
    requires
        http2_offer(head, websocket) is Ok,
    ensures
        ({
            let fields = header_fields(head.headers);
            &&& websocket is Some && websocket->0.enable_http2
            &&& head.extended_protocol is Some
            &&& lower(head.extended_protocol->0@) == lower("websocket".spec_bytes())
            &&& opt_view(head.scheme) == Some("https".spec_bytes())
            &&& head.authority is Some
            &&& head.path_and_query is Some
            &&& !fields.dom().contains("connection".spec_bytes())
            &&& !fields.dom().contains("upgrade".spec_bytes())
            &&& !fields.dom().contains("sec-websocket-key".spec_bytes())
            &&& !fields.dom().contains("sec-websocket-extensions".spec_bytes())
            &&& !fields.dom().contains("content-length".spec_bytes())
            &&& !fields.dom().contains("transfer-encoding".spec_bytes())
            &&& fields.dom().contains("sec-websocket-version".spec_bytes())
            &&& fields["sec-websocket-version".spec_bytes()] == seq!["13".spec_bytes()]
            &&& http2_offer(head, websocket)->Ok_0 == list_members(
                values_of(fields, "sec-websocket-protocol".spec_bytes()),
            )
        }),
{
    let fields = header_fields(head.headers);
    lemma_field_names();
    let versions = values_of(fields, "sec-websocket-version".spec_bytes());
    assert(versions =~= seq![versions[0]]);
}

/// Where WebSockets are enabled for HTTP/2, an extended CONNECT that asks for one as the
/// protocol says gets it, whatever is enabled for HTTP/1.1.
pub proof fn http2_websockets_are_granted(head: RequestHead, websocket: WebSocketIngressConfig)
    requires
        websocket.enable_http2,
        head.extended_protocol is Some,
        head.extended_protocol->0@ == "websocket".spec_bytes(),
        opt_view(head.scheme) == Some("https".spec_bytes()),
        head.authority is Some,
        head.path_and_query is Some,
        head.spec_path().len() > 0,
        head.spec_path()[0] == SLASH,
        header_fields(head.headers).dom() == set!["sec-websocket-version".spec_bytes()],
        header_fields(head.headers)["sec-websocket-version".spec_bytes()] == seq![
            "13".spec_bytes(),
        ],
    ensures
        http2_offer(head, Some(websocket)) matches Ok(protocols) && protocols.len() == 0,
{
    let fields = header_fields(head.headers);
    lemma_field_names();
    lemma_http2_names();
    reveal_strlit("13");
    is_ascii_spec_bytes("13");
    assert(is_text("13".spec_bytes()));
    let values = values_of(fields, "sec-websocket-protocol".spec_bytes());
    assert(values =~= Seq::empty());
    assert(list_members(values) =~= Seq::empty());
    assert(protocols_ok(list_members(values)));
}

proof fn lemma_http2_names()
    ensures
        "sec-websocket-version".spec_bytes().len() == 21,
        lower("connection".spec_bytes()).len() == 10,
        lower("upgrade".spec_bytes()).len() == 7,
        lower("sec-websocket-key".spec_bytes()).len() == 17,
        lower("sec-websocket-accept".spec_bytes()).len() == 20,
        lower("sec-websocket-extensions".spec_bytes()).len() == 24,
        lower("sec-websocket-protocol".spec_bytes()).len() == 22,
        lower("content-length".spec_bytes()).len() == 14,
        lower("te".spec_bytes()).len() == 2,
        lower("trailer".spec_bytes()).len() == 7,
        lower("transfer-encoding".spec_bytes()).len() == 17,
{
    reveal_strlit("sec-websocket-version");
    reveal_strlit("connection");
    reveal_strlit("upgrade");
    reveal_strlit("sec-websocket-key");
    reveal_strlit("sec-websocket-accept");
    reveal_strlit("sec-websocket-extensions");
    reveal_strlit("sec-websocket-protocol");
    reveal_strlit("content-length");
    reveal_strlit("te");
    reveal_strlit("trailer");
    reveal_strlit("transfer-encoding");
    is_ascii_spec_bytes("sec-websocket-version");
    is_ascii_spec_bytes("connection");
    is_ascii_spec_bytes("upgrade");
    is_ascii_spec_bytes("sec-websocket-key");
    is_ascii_spec_bytes("sec-websocket-accept");
    is_ascii_spec_bytes("sec-websocket-extensions");
    is_ascii_spec_bytes("sec-websocket-protocol");
    is_ascii_spec_bytes("content-length");
    is_ascii_spec_bytes("te");
    is_ascii_spec_bytes("trailer");
    is_ascii_spec_bytes("transfer-encoding");
}

/// The handshake that is made for a client over HTTP/2 has the key that its nonce is
/// written as, expects the answer to that key, and offers what the client offered.
pub proof fn http2_handshakes_answer_their_own_key(nonce: Seq<u8>, protocols: Seq<Seq<u8>>)
    ensures
        http2_handshake(nonce, protocols).protocol == NegotiatedHttpProtocol::Http2,
        http2_handshake(nonce, protocols).key == base64_encoded(nonce),
        http2_handshake(nonce, protocols).expected_accept == base64_encoded(
            sha1_digest(
                base64_encoded(nonce) + "258EAFA5-E914-47DA-95CA-C5AB0DC85B11".spec_bytes(),
            ),
        ),
        http2_handshake(nonce, protocols).offered_protocols == protocols,
{
}

/// A valid key is the canonical text of sixteen bytes.
pub proof fn keys_are_sixteen_bytes(key: Seq<u8>)
    ensures
        valid_key(key) ==> exists|bytes: Seq<u8>|
            bytes.len() == 16 && base64_decoded(key) == Some(bytes) && #[trigger] base64_encoded(
                bytes,
            ) == key,
        valid_key(key) ==> accept_for(key) == base64_encoded(
            sha1_digest(key + "258EAFA5-E914-47DA-95CA-C5AB0DC85B11".spec_bytes()),
        ),
{
    if valid_key(key) {
        let bytes: Seq<u8> = base64_decoded(key)->0;
        assert(base64_encoded(bytes) == key);
    }
}

/// Anything of a WebSocket handshake shows that one is intended, and a request without
/// any of it intends none.
pub proof fn intent_shows_in_the_fields(fields: Map<Seq<u8>, Seq<Seq<u8>>>)
    ensures
        fields.dom().contains("upgrade".spec_bytes()) || fields.dom().contains(
            "sec-websocket-key".spec_bytes(),
        ) || fields.dom().contains("sec-websocket-version".spec_bytes()) || fields.dom().contains(
            "sec-websocket-protocol".spec_bytes(),
        ) || fields.dom().contains("sec-websocket-extensions".spec_bytes()) ==> websocket_intent(
            fields,
        ),
        !fields.dom().contains("upgrade".spec_bytes()) && !fields.dom().contains(
            "sec-websocket-key".spec_bytes(),
        ) && !fields.dom().contains("sec-websocket-version".spec_bytes()) && !fields.dom().contains(
            "sec-websocket-protocol".spec_bytes(),
        ) && !fields.dom().contains("sec-websocket-extensions".spec_bytes())
            && !fields.dom().contains("connection".spec_bytes()) ==> !websocket_intent(fields),
{
    lemma_field_names();
    assert(list_members(Seq::empty()) =~= Seq::empty());
}

/// What a request offers is a list of distinct tokens, and is what its fields list; a list
/// with anything else in it, or with a protocol twice, is no offer.
pub proof fn offers_are_distinct_tokens(fields: Map<Seq<u8>, Seq<Seq<u8>>>)
    ensures
        ({
            let values = values_of(fields, "sec-websocket-protocol".spec_bytes());
            let members = list_members(values);
            let proper = {
                &&& forall|i: int| 0 <= i < values.len() ==> is_text(#[trigger] values[i])
                &&& forall|i: int| 0 <= i < members.len() ==> is_token(#[trigger] members[i])
                &&& forall|i: int, j: int|
                    0 <= i < j < members.len() ==> #[trigger] members[i] != #[trigger] members[j]
            };
            &&& offered(fields) is Some <==> proper
            &&& offered(fields) is Some ==> offered(fields)->0 == members
        }),
{
    let values = values_of(fields, "sec-websocket-protocol".spec_bytes());
    let members = list_members(values);
    if forall|i: int, j: int|
        0 <= i < j < members.len() ==> #[trigger] members[i] != #[trigger] members[j] {
        assert(members.no_duplicates());
    }
}

/// A field that concerns one connection or a body has no place in a handshake over HTTP/2,
/// nor has the answer to another handshake.
pub proof fn http2_handshakes_are_bare(
    head: RequestHead,
    websocket: Option<WebSocketIngressConfig>,
)
    ensures
        ({
            let fields = header_fields(head.headers);
            fields.dom().contains("te".spec_bytes()) || fields.dom().contains(
                "trailer".spec_bytes(),
            ) || fields.dom().contains("sec-websocket-accept".spec_bytes())
                || fields.dom().contains("transfer-encoding".spec_bytes())
                || fields.dom().contains("content-length".spec_bytes())
                || fields.dom().contains("connection".spec_bytes()) || fields.dom().contains(
                "upgrade".spec_bytes(),
            ) ==> http2_offer(head, websocket) is Err
        }),
{
    lemma_field_names();
    reveal_strlit("te");
    is_ascii_spec_bytes("te");
    lemma_plain_is_lower("te".spec_bytes());
    reveal_strlit("trailer");
    is_ascii_spec_bytes("trailer");
    lemma_plain_is_lower("trailer".spec_bytes());
    reveal_strlit("sec-websocket-accept");
    is_ascii_spec_bytes("sec-websocket-accept");
    lemma_plain_is_lower("sec-websocket-accept".spec_bytes());
}

/// A header that may stand once gives its one value where it is text, and nothing where it
/// is not there; standing twice and being no text are refused apart.
pub proof fn single_headers_stand_once(fields: Map<Seq<u8>, Seq<Seq<u8>>>, name: Seq<u8>)
    ensures
        match single_text(fields, name) {
            Ok(None) => values_of(fields, name).len() == 0,
            Ok(Some(value)) => values_of(fields, name) == seq![value] && is_text(value),
            Err(reason) => if values_of(fields, name).len() > 1 {
                reason is DuplicateWebSocketHeader
            } else {
                reason is InvalidWebSocketHeader && values_of(fields, name).len() == 1 && !is_text(
                    values_of(fields, name)[0],
                )
            },
        },
{
    let values = values_of(fields, name);
    if values.len() == 1 {
        assert(values =~= seq![values[0]]);
    }
}

} // verus!
