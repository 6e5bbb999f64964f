//! The header fields that cross the ingress: what a local service is sent, and
//! what a client is answered.

use vstd::prelude::*;
use vstd::string::*;

use crate::bytes::{
    bytes_without_separator_are_one_piece, eq_ignore_ascii_case, has_prefix, is_header_text,
    is_text, join, joined, lower, same_bytes, split_at_each, starts_with, text_byte, trimmed, views,
};
use crate::http_headers::{
    connection_fields_are_not_passed_on, end_to_end, exact_header, has_header, header_fields, header_has_token, header_names,
    insert_header, is_http_token, is_token, list_members, lists_name_their_members, names_member, plain_name, remove_header,
    remove_hop_by_hop, values_of, MAX_HEADER_NAMES,
};
use crate::http_rejection::{
    reject, rejection, RejectionReason, RequestRejection, OK, SWITCHING_PROTOCOLS,
};
use crate::http_request::{NegotiatedHttpProtocol, ResponseHead, Version};
use crate::http_websocket::{accept_for, HandshakeView, WebSocketHandshake};

verus! {

/// What a request asks for, once it has been checked.
#[derive(Debug)]
pub enum PreparedRequestKind {
    Regular,
    ReachabilityProbe(String),
    WebSocket(WebSocketHandshake),
    Connect(NegotiatedHttpProtocol),
}

impl PreparedRequestKind {
    /// A WebSocket request's handshake is well formed.
    pub open spec fn wf(self) -> bool {
        self matches PreparedRequestKind::WebSocket(handshake) ==> handshake@.wf()
    }

    /// Whether the request is a WebSocket handshake over HTTP/2.
    pub open spec fn spec_is_http2_websocket(self) -> bool {
        self matches PreparedRequestKind::WebSocket(handshake) && handshake.protocol
            == NegotiatedHttpProtocol::Http2
    }
}

/// The protocol that a WebSocket request came over.
pub fn websocket_protocol(kind: &PreparedRequestKind) -> (protocol: NegotiatedHttpProtocol)
    requires
        kind is WebSocket,
    ensures
        kind matches PreparedRequestKind::WebSocket(handshake) && protocol == handshake.protocol,
{
    match kind {
        PreparedRequestKind::WebSocket(handshake) => handshake.protocol,
        _ => NegotiatedHttpProtocol::Http1,
    }
}

/// Whether the request is a WebSocket handshake over HTTP/2.
pub fn is_http2_websocket(kind: &PreparedRequestKind) -> (yes: bool)
    ensures
        yes == kind.spec_is_http2_websocket(),
{
    match kind {
        PreparedRequestKind::WebSocket(handshake) => handshake.protocol
            == NegotiatedHttpProtocol::Http2,
        _ => false,
    }
}

/// Whether there are few enough names that those set here can be added.
pub open spec fn has_room(fields: Map<Seq<u8>, Seq<Seq<u8>>>) -> bool {
    fields.dom().finite() && fields.dom().len() + 16 <= MAX_HEADER_NAMES
}

/// Whether there are few enough names that those set here can be added.
pub fn headers_have_room(headers: &hyper::HeaderMap) -> (yes: bool)
    ensures
        yes == has_room(header_fields(*headers)),
{
    let names: Vec<Vec<u8>> = header_names(headers);
    proof {
        views(names@).unique_seq_to_set();
    }
    names.len() <= MAX_HEADER_NAMES - 16
}

/// The header names that say who forwarded a request.
pub open spec fn forwarding_name(name: Seq<u8>) -> bool {
    name == "forwarded".spec_bytes() || has_prefix(name, "x-forwarded-".spec_bytes())
}

/// The fields that no forwarder set.
pub open spec fn unforwarded(fields: Map<Seq<u8>, Seq<Seq<u8>>>) -> Map<Seq<u8>, Seq<Seq<u8>>> {
    fields.restrict(Set::new(|name: Seq<u8>| !forwarding_name(name)))
}

/// The fields of a forwarded request before its kind is looked at: none that
/// concerns one connection only, none that an earlier forwarder or a client's
/// WebSocket handshake set, and this ingress's own account of the client.
pub open spec fn forwarded_fields(
    fields: Map<Seq<u8>, Seq<Seq<u8>>>,
    peer: Seq<u8>,
    host: Seq<u8>,
) -> Map<Seq<u8>, Seq<Seq<u8>>> {
    unforwarded(end_to_end(fields)).insert("x-forwarded-for".spec_bytes(), seq![peer]).insert(
        "x-forwarded-proto".spec_bytes(),
        seq!["https".spec_bytes()],
    ).insert("x-forwarded-host".spec_bytes(), seq![host]).insert(
        "host".spec_bytes(),
        seq![host],
    ).remove(lower("sec-websocket-key".spec_bytes())).remove(
        lower("sec-websocket-version".spec_bytes()),
    ).remove(lower("sec-websocket-protocol".spec_bytes())).remove(
        lower("sec-websocket-extensions".spec_bytes()),
    )
}

/// The fields with those of the handshake that the local service is sent.
pub open spec fn with_handshake(
    fields: Map<Seq<u8>, Seq<Seq<u8>>>,
    handshake: HandshakeView,
) -> Map<Seq<u8>, Seq<Seq<u8>>> {
    let upgraded = fields.insert("connection".spec_bytes(), seq!["Upgrade".spec_bytes()]).insert(
        "upgrade".spec_bytes(),
        seq!["websocket".spec_bytes()],
    ).insert("sec-websocket-version".spec_bytes(), seq!["13".spec_bytes()]).insert(
        "sec-websocket-key".spec_bytes(),
        seq![handshake.key],
    );
    if handshake.offered_protocols.len() == 0 {
        upgraded
    } else {
        upgraded.insert(
            "sec-websocket-protocol".spec_bytes(),
            seq![joined(handshake.offered_protocols, ", ".spec_bytes())],
        )
    }
}

/// The fields that the local service is sent.
pub open spec fn request_fields(
    fields: Map<Seq<u8>, Seq<Seq<u8>>>,
    peer: Seq<u8>,
    host: Seq<u8>,
    kind: PreparedRequestKind,
) -> Map<Seq<u8>, Seq<Seq<u8>>> {
    let forwarded = forwarded_fields(fields, peer, host);
    match kind {
        PreparedRequestKind::Regular => forwarded.insert(
            "connection".spec_bytes(),
            seq!["close".spec_bytes()],
        ),
        PreparedRequestKind::WebSocket(handshake) => with_handshake(forwarded, handshake@),
        PreparedRequestKind::ReachabilityProbe(_) => forwarded,
        PreparedRequestKind::Connect(_) => forwarded,
    }
}

proof fn lemma_request_names()
    ensures
        plain_name("x-forwarded-for".spec_bytes()),
        plain_name("x-forwarded-proto".spec_bytes()),
        plain_name("x-forwarded-host".spec_bytes()),
        plain_name("host".spec_bytes()),
        plain_name("connection".spec_bytes()),
        plain_name("upgrade".spec_bytes()),
        plain_name("sec-websocket-version".spec_bytes()),
        plain_name("sec-websocket-key".spec_bytes()),
        plain_name("sec-websocket-protocol".spec_bytes()),
        plain_name("sec-websocket-accept".spec_bytes()),
{
    reveal_strlit("x-forwarded-for");
    reveal_strlit("x-forwarded-proto");
    reveal_strlit("x-forwarded-host");
    reveal_strlit("host");
    reveal_strlit("connection");
    reveal_strlit("upgrade");
    reveal_strlit("sec-websocket-version");
    reveal_strlit("sec-websocket-key");
    reveal_strlit("sec-websocket-protocol");
    reveal_strlit("sec-websocket-accept");
    is_ascii_spec_bytes("x-forwarded-for");
    is_ascii_spec_bytes("x-forwarded-proto");
    is_ascii_spec_bytes("x-forwarded-host");
    is_ascii_spec_bytes("host");
    is_ascii_spec_bytes("connection");
    is_ascii_spec_bytes("upgrade");
    is_ascii_spec_bytes("sec-websocket-version");
    is_ascii_spec_bytes("sec-websocket-key");
    is_ascii_spec_bytes("sec-websocket-protocol");
    is_ascii_spec_bytes("sec-websocket-accept");
}

proof fn lemma_fixed_values()
    ensures
        is_text("https".spec_bytes()),
        is_text("close".spec_bytes()),
        is_text("Upgrade".spec_bytes()),
        is_text("websocket".spec_bytes()),
        is_text("13".spec_bytes()),
        is_text(", ".spec_bytes()),
{
    reveal_strlit("https");
    reveal_strlit("close");
    reveal_strlit("Upgrade");
    reveal_strlit("websocket");
    reveal_strlit("13");
    reveal_strlit(", ");
    is_ascii_spec_bytes("https");
    is_ascii_spec_bytes("close");
    is_ascii_spec_bytes("Upgrade");
    is_ascii_spec_bytes("websocket");
    is_ascii_spec_bytes("13");
    is_ascii_spec_bytes(", ");
}

proof fn lemma_joined_is_text(pieces: Seq<Seq<u8>>, sep: Seq<u8>)
    requires
        is_text(sep),
        forall|i: int| 0 <= i < pieces.len() ==> is_token(#[trigger] pieces[i]),
    ensures
        is_text(joined(pieces, sep)),
    decreases pieces.len(),
{
    if pieces.len() == 1 {
        assert(is_token(pieces[0]));
    } else if pieces.len() > 1 {
        lemma_joined_is_text(pieces.drop_last(), sep);
        assert(is_token(pieces[pieces.len() - 1]));
        let front: Seq<u8> = joined(pieces.drop_last(), sep);
        let all: Seq<u8> = joined(pieces, sep);
        assert forall|i: int| 0 <= i < all.len() implies text_byte(#[trigger] all[i]) by {
            if i < front.len() {
                assert(all[i] == front[i]);
            } else if i < front.len() + sep.len() {
                assert(all[i] == sep[i - front.len()]);
            } else {
                assert(all[i] == pieces.last()[i - front.len() - sep.len()]);
            }
        }
    }
}

/// Takes out the fields that say who forwarded a request.
fn remove_forwarding(headers: &mut hyper::HeaderMap)
    ensures
        header_fields(*final(headers)) == unforwarded(header_fields(*old(headers))),
{
    let names: Vec<Vec<u8>> = header_names(headers);
    let ghost before = header_fields(*headers);
    let ghost all: Seq<Seq<u8>> = views(names@);
    let mut i: usize = 0;
    while i < names.len()
        invariant
            i <= names@.len(),
            all == views(names@),
            forall|k: int| 0 <= k < names@.len() ==> lower(#[trigger] names@[k]@) == names@[k]@,
            forall|name: Seq<u8>| #[trigger]
                header_fields(*headers).dom().contains(name) <==> before.dom().contains(name) && !(
                forwarding_name(name) && all.take(i as int).contains(name)),
            forall|name: Seq<u8>| #[trigger]
                header_fields(*headers).dom().contains(name) ==> header_fields(*headers)[name]
                    == before[name],
        decreases names@.len() - i,
    {
        let ghost now = header_fields(*headers);
        let name: &[u8] = names[i].as_slice();
        proof {
            let longer: Seq<Seq<u8>> = all.take(i + 1);
            assert(longer =~= all.take(i as int).push(name@));
            assert forall|other: Seq<u8>| #[trigger]
                longer.contains(other) <==> all.take(i as int).contains(other) || other
                    == name@ by {
                if all.take(i as int).contains(other) {
                    let k: int = choose|k: int|
                        0 <= k < all.take(i as int).len() && all.take(i as int)[k] == other;
                    assert(longer[k] == other);
                }
                if other == name@ {
                    assert(longer[i as int] == other);
                }
            }
        }
        if same_bytes(name, "forwarded".as_bytes()) || starts_with(
            name,
            "x-forwarded-".as_bytes(),
        ) {
            remove_header(headers, name);
        }
        i = i + 1;
    }
    proof {
        assert(all.take(i as int) =~= all);
        assert forall|name: Seq<u8>| #[trigger]
            header_fields(*headers).dom().contains(name) <==> unforwarded(before).dom().contains(
                name,
            ) by {
            if before.dom().contains(name) {
                assert(all.to_set().contains(name));
                assert(all.contains(name));
            }
        }
        assert(header_fields(*headers) =~= unforwarded(before));
    }
}

/// Makes the header fields of a request those that the local service is sent.
/// `peer` is how the client's address is written.
pub fn sanitize_request_headers(
    headers: &mut hyper::HeaderMap,
    peer: &[u8],
    hostname: &[u8],
    kind: &PreparedRequestKind,
) -> (result: Result<(), RequestRejection>)
    requires
        kind.wf(),
        has_room(header_fields(*old(headers))),
    ensures
        result == (if !is_text(peer@) {
            Err(rejection(RejectionReason::InvalidPeerAddress))
        } else if !is_text(hostname@) {
            Err(rejection(RejectionReason::InvalidCanonicalHost))
        } else {
            Ok(())
        }),
        header_fields(*final(headers)) == (if result is Ok {
            request_fields(header_fields(*old(headers)), peer@, hostname@, *kind)
        } else {
            unforwarded(end_to_end(header_fields(*old(headers))))
        }),
{
    let ghost fields = header_fields(*headers);
    remove_hop_by_hop(headers);
    remove_forwarding(headers);
    proof {
        assert(unforwarded(end_to_end(fields)).dom().subset_of(fields.dom()));
        vstd::set_lib::lemma_len_subset(unforwarded(end_to_end(fields)).dom(), fields.dom());
        lemma_request_names();
        lemma_fixed_values();
    }
    if !is_header_text(peer) {
        return Err(reject(RejectionReason::InvalidPeerAddress));
    }
    if !is_header_text(hostname) {
        return Err(reject(RejectionReason::InvalidCanonicalHost));
    }
    insert_header(headers, "x-forwarded-for".as_bytes(), peer);
    insert_header(headers, "x-forwarded-proto".as_bytes(), "https".as_bytes());
    insert_header(headers, "x-forwarded-host".as_bytes(), hostname);
    insert_header(headers, "host".as_bytes(), hostname);
    remove_header(headers, "sec-websocket-key".as_bytes());
    remove_header(headers, "sec-websocket-version".as_bytes());
    remove_header(headers, "sec-websocket-protocol".as_bytes());
    remove_header(headers, "sec-websocket-extensions".as_bytes());
    match kind {
        PreparedRequestKind::ReachabilityProbe(_) => {},
        PreparedRequestKind::Regular => {
            insert_header(headers, "connection".as_bytes(), "close".as_bytes());
        },
        PreparedRequestKind::WebSocket(handshake) => {
            insert_header(headers, "connection".as_bytes(), "Upgrade".as_bytes());
            insert_header(headers, "upgrade".as_bytes(), "websocket".as_bytes());
            insert_header(headers, "sec-websocket-version".as_bytes(), "13".as_bytes());
            insert_header(headers, "sec-websocket-key".as_bytes(), handshake.key.as_slice());
            if handshake.offered_protocols.len() > 0 {
                let protocols: Vec<u8> = join(&handshake.offered_protocols, ", ".as_bytes());
                proof {
                    lemma_joined_is_text(
                        views(handshake.offered_protocols@),
                        ", ".spec_bytes(),
                    );
                }
                insert_header(headers, "sec-websocket-protocol".as_bytes(), protocols.as_slice());
            }
        },
        PreparedRequestKind::Connect(_) => {},
    }
    Ok(())
}

/// A client cannot speak for itself: whatever it sent, the local service reads
/// this ingress's account of the client's address, scheme and hostname, and no
/// other forwarder's.
pub proof fn forwarding_headers_are_replaced(
    fields: Map<Seq<u8>, Seq<Seq<u8>>>,
    peer: Seq<u8>,
    host: Seq<u8>,
    kind: PreparedRequestKind,
    name: Seq<u8>,
)
    requires
        forwarding_name(name),
    ensures
        request_fields(fields, peer, host, kind)["x-forwarded-for".spec_bytes()] == seq![peer],
        request_fields(fields, peer, host, kind)["x-forwarded-host".spec_bytes()] == seq![host],
        request_fields(fields, peer, host, kind)["x-forwarded-proto".spec_bytes()]
            == seq!["https".spec_bytes()],
        request_fields(fields, peer, host, kind)["host".spec_bytes()] == seq![host],
        request_fields(fields, peer, host, kind).dom().contains(name) ==> name
            == "x-forwarded-for".spec_bytes() || name == "x-forwarded-host".spec_bytes() || name
            == "x-forwarded-proto".spec_bytes(),
{
    lemma_request_names();
    lemma_name_starts();
}

proof fn lemma_name_starts()
    ensures
        "x-forwarded-for".spec_bytes() != "x-forwarded-host".spec_bytes(),
        "x-forwarded-for".spec_bytes() != "x-forwarded-proto".spec_bytes(),
        "x-forwarded-host".spec_bytes() != "x-forwarded-proto".spec_bytes(),
        !forwarding_name("host".spec_bytes()),
        !forwarding_name("connection".spec_bytes()),
        !forwarding_name("upgrade".spec_bytes()),
        !forwarding_name("sec-websocket-key".spec_bytes()),
        !forwarding_name("sec-websocket-version".spec_bytes()),
        !forwarding_name("sec-websocket-protocol".spec_bytes()),
        forwarding_name("x-forwarded-for".spec_bytes()),
        forwarding_name("x-forwarded-host".spec_bytes()),
        forwarding_name("x-forwarded-proto".spec_bytes()),
        lower("sec-websocket-key".spec_bytes()) == "sec-websocket-key".spec_bytes(),
        lower("sec-websocket-version".spec_bytes()) == "sec-websocket-version".spec_bytes(),
        lower("sec-websocket-protocol".spec_bytes()) == "sec-websocket-protocol".spec_bytes(),
        lower("sec-websocket-extensions".spec_bytes()) == "sec-websocket-extensions".spec_bytes(),
        !forwarding_name("sec-websocket-extensions".spec_bytes()),
        "host".spec_bytes()[0] == 104,
        "connection".spec_bytes()[0] == 99,
        "upgrade".spec_bytes()[0] == 117,
        "sec-websocket-key".spec_bytes()[0] == 115,
        "sec-websocket-version".spec_bytes()[0] == 115,
        "sec-websocket-protocol".spec_bytes()[0] == 115,
        "sec-websocket-extensions".spec_bytes()[0] == 115,
{
    reveal_strlit("forwarded");
    reveal_strlit("x-forwarded-");
    reveal_strlit("x-forwarded-for");
    reveal_strlit("x-forwarded-proto");
    reveal_strlit("x-forwarded-host");
    reveal_strlit("host");
    reveal_strlit("connection");
    reveal_strlit("upgrade");
    reveal_strlit("sec-websocket-version");
    reveal_strlit("sec-websocket-key");
    reveal_strlit("sec-websocket-protocol");
    reveal_strlit("sec-websocket-extensions");
    is_ascii_spec_bytes("forwarded");
    is_ascii_spec_bytes("x-forwarded-");
    is_ascii_spec_bytes("x-forwarded-for");
    is_ascii_spec_bytes("x-forwarded-proto");
    is_ascii_spec_bytes("x-forwarded-host");
    is_ascii_spec_bytes("host");
    is_ascii_spec_bytes("connection");
    is_ascii_spec_bytes("upgrade");
    is_ascii_spec_bytes("sec-websocket-version");
    is_ascii_spec_bytes("sec-websocket-key");
    is_ascii_spec_bytes("sec-websocket-protocol");
    is_ascii_spec_bytes("sec-websocket-extensions");
    let prefix: Seq<u8> = "x-forwarded-".spec_bytes();
    assert("x-forwarded-for".spec_bytes().take(12) =~= prefix);
    assert("x-forwarded-host".spec_bytes().take(12) =~= prefix);
    assert("x-forwarded-proto".spec_bytes().take(12) =~= prefix);
    assert("x-forwarded-for".spec_bytes()[12] == 102);
    assert("x-forwarded-host".spec_bytes()[12] == 104);
    assert("x-forwarded-proto".spec_bytes()[12] == 112);
    assert(prefix[0] == 120);
    assert("forwarded".spec_bytes()[0] == 102);
    assert("sec-websocket-key".spec_bytes().take(12)[0] == 115);
    assert("sec-websocket-version".spec_bytes().take(12)[0] == 115);
    assert("sec-websocket-protocol".spec_bytes().take(12)[0] == 115);
    assert("sec-websocket-extensions".spec_bytes().take(12)[0] == 115);
    assert(lower("sec-websocket-key".spec_bytes()) =~= "sec-websocket-key".spec_bytes());
    assert(lower("sec-websocket-version".spec_bytes()) =~= "sec-websocket-version".spec_bytes());
    assert(lower("sec-websocket-protocol".spec_bytes()) =~= "sec-websocket-protocol".spec_bytes());
    assert(lower("sec-websocket-extensions".spec_bytes())
        =~= "sec-websocket-extensions".spec_bytes());
}

/// What is wrong with a local service's answer to a WebSocket handshake.
#[derive(Debug, Clone, Copy, PartialEq, Eq, Structural)]
pub enum WebSocketResponseFault {
    InvalidWebSocketHttpVersion,
    MissingConnectionUpgrade,
    InvalidUpgradeHeader,
    InvalidWebSocketAccept,
    WebSocketExtensionsNotSupported,
    InvalidWebSocketProtocol,
}

impl WebSocketResponseFault {
    /// The name under which the fault is logged.
    pub open spec fn text(self) -> Seq<char> {
        match self {
            WebSocketResponseFault::InvalidWebSocketHttpVersion =>
                "invalid_websocket_http_version"@,
            WebSocketResponseFault::MissingConnectionUpgrade => "missing_connection_upgrade"@,
            WebSocketResponseFault::InvalidUpgradeHeader => "invalid_upgrade_header"@,
            WebSocketResponseFault::InvalidWebSocketAccept => "invalid_websocket_accept"@,
            WebSocketResponseFault::WebSocketExtensionsNotSupported =>
                "websocket_extensions_not_supported"@,
            WebSocketResponseFault::InvalidWebSocketProtocol => "invalid_websocket_protocol"@,
        }
    }

    /// The name under which the fault is logged.
    pub fn as_str(self) -> (name: &'static str)
        ensures
            name@ == self.text(),
    {
        match self {
            WebSocketResponseFault::InvalidWebSocketHttpVersion => "invalid_websocket_http_version",
            WebSocketResponseFault::MissingConnectionUpgrade => "missing_connection_upgrade",
            WebSocketResponseFault::InvalidUpgradeHeader => "invalid_upgrade_header",
            WebSocketResponseFault::InvalidWebSocketAccept => "invalid_websocket_accept",
            WebSocketResponseFault::WebSocketExtensionsNotSupported =>
                "websocket_extensions_not_supported",
            WebSocketResponseFault::InvalidWebSocketProtocol => "invalid_websocket_protocol",
        }
    }
}

/// The protocol that a local service chose: none, or one of those offered.
pub open spec fn chosen_protocol(
    fields: Map<Seq<u8>, Seq<Seq<u8>>>,
    handshake: HandshakeView,
) -> Result<Option<Seq<u8>>, WebSocketResponseFault> {
    let values = values_of(fields, "sec-websocket-protocol".spec_bytes());
    if values.len() == 0 {
        Ok(None)
    } else if values.len() == 1 && is_text(values[0]) && is_token(values[0])
        && handshake.offered_protocols.contains(values[0]) {
        Ok(Some(values[0]))
    } else {
        Err(WebSocketResponseFault::InvalidWebSocketProtocol)
    }
}

/// What is wrong with a local service's answer to a handshake.
pub open spec fn websocket_response_fault(
    version: Version,
    fields: Map<Seq<u8>, Seq<Seq<u8>>>,
    handshake: HandshakeView,
) -> Option<WebSocketResponseFault> {
    let upgrade = values_of(fields, "upgrade".spec_bytes());
    if version != Version::Http11 {
        Some(WebSocketResponseFault::InvalidWebSocketHttpVersion)
    } else if !names_member(
        list_members(values_of(fields, "connection".spec_bytes())),
        "upgrade".spec_bytes(),
    ) {
        Some(WebSocketResponseFault::MissingConnectionUpgrade)
    } else if upgrade.len() != 1 || !is_text(upgrade[0]) || lower(upgrade[0]) != lower(
        "websocket".spec_bytes(),
    ) {
        Some(WebSocketResponseFault::InvalidUpgradeHeader)
    } else if values_of(fields, "sec-websocket-accept".spec_bytes()) != seq![
        handshake.expected_accept,
    ] {
        Some(WebSocketResponseFault::InvalidWebSocketAccept)
    } else if fields.dom().contains(lower("sec-websocket-extensions".spec_bytes())) {
        Some(WebSocketResponseFault::WebSocketExtensionsNotSupported)
    } else if chosen_protocol(fields, handshake) is Err {
        Some(WebSocketResponseFault::InvalidWebSocketProtocol)
    } else {
        None
    }
}

/// The fields with which a client is answered that its WebSocket session is open.
pub open spec fn websocket_response_fields(
    fields: Map<Seq<u8>, Seq<Seq<u8>>>,
    handshake: HandshakeView,
) -> Map<Seq<u8>, Seq<Seq<u8>>> {
    let cleaned = end_to_end(fields).remove(lower("sec-websocket-accept".spec_bytes())).remove(
        lower("sec-websocket-key".spec_bytes()),
    ).remove(lower("sec-websocket-protocol".spec_bytes())).remove(
        lower("sec-websocket-version".spec_bytes()),
    ).remove(lower("sec-websocket-extensions".spec_bytes())).remove(
        lower("content-length".spec_bytes()),
    );
    let answered = match handshake.protocol {
        NegotiatedHttpProtocol::Http1 => cleaned.insert(
            "connection".spec_bytes(),
            seq!["Upgrade".spec_bytes()],
        ).insert("upgrade".spec_bytes(), seq!["websocket".spec_bytes()]).insert(
            "sec-websocket-accept".spec_bytes(),
            seq![handshake.expected_accept],
        ),
        NegotiatedHttpProtocol::Http2 => cleaned,
    };
    match chosen_protocol(fields, handshake) {
        Ok(Some(protocol)) => answered.insert(
            "sec-websocket-protocol".spec_bytes(),
            seq![protocol],
        ),
        _ => answered,
    }
}

fn is_offered(offered: &Vec<Vec<u8>>, protocol: &[u8]) -> (yes: bool)
    ensures
        yes == views(offered@).contains(protocol@),
{
    let mut i: usize = 0;
    while i < offered.len()
        invariant
            i <= offered@.len(),
            forall|k: int| 0 <= k < i ==> (#[trigger] views(offered@)[k]) != protocol@,
        decreases offered@.len() - i,
    {
        if same_bytes(offered[i].as_slice(), protocol) {
            proof {
                assert(views(offered@)[i as int] == protocol@);
            }
            return true;
        }
        i = i + 1;
    }
    false
}

/// Checks a local service's answer to a WebSocket handshake, and makes it the
/// answer that the client's own protocol needs.
pub fn sanitize_websocket_response(
    response: &mut ResponseHead,
    handshake: &WebSocketHandshake,
) -> (result: Result<(), WebSocketResponseFault>)
    requires
        handshake@.wf(),
        has_room(header_fields(old(response).headers)),
    ensures
        result == (match websocket_response_fault(
            old(response).version,
            header_fields(old(response).headers),
            handshake@,
        ) {
            Some(fault) => Err(fault),
            None => Ok(()),
        }),
        result is Err ==> *final(response) == *old(response),
        result is Ok ==> header_fields(final(response).headers) == websocket_response_fields(
            header_fields(old(response).headers),
            handshake@,
        ),
        result is Ok ==> match handshake.protocol {
            NegotiatedHttpProtocol::Http1 => final(response).status == SWITCHING_PROTOCOLS
                && final(response).version == Version::Http11,
            NegotiatedHttpProtocol::Http2 => final(response).status == OK && final(response).version
                == Version::Http2,
        },
{
    let ghost fields = header_fields(response.headers);
    if response.version != Version::Http11 {
        return Err(WebSocketResponseFault::InvalidWebSocketHttpVersion);
    }
    if !header_has_token(&response.headers, "connection".as_bytes(), "upgrade".as_bytes()) {
        return Err(WebSocketResponseFault::MissingConnectionUpgrade);
    }
    match exact_header(&response.headers, "upgrade".as_bytes()) {
        None => return Err(WebSocketResponseFault::InvalidUpgradeHeader),
        Some(upgrade) => {
            if !is_header_text(upgrade.as_slice()) || !eq_ignore_ascii_case(
                upgrade.as_slice(),
                "websocket".as_bytes(),
            ) {
                return Err(WebSocketResponseFault::InvalidUpgradeHeader);
            }
        },
    }
    match exact_header(&response.headers, "sec-websocket-accept".as_bytes()) {
        None => return Err(WebSocketResponseFault::InvalidWebSocketAccept),
        Some(accept) => {
            if !same_bytes(accept.as_slice(), handshake.expected_accept.as_slice()) {
                proof {
                    assert(values_of(fields, "sec-websocket-accept".spec_bytes())[0] == accept@);
                }
                return Err(WebSocketResponseFault::InvalidWebSocketAccept);
            }
        },
    }
    if has_header(&response.headers, "sec-websocket-extensions".as_bytes()) {
        return Err(WebSocketResponseFault::WebSocketExtensionsNotSupported);
    }
    let selected: Option<Vec<u8>> = match exact_header(
        &response.headers,
        "sec-websocket-protocol".as_bytes(),
    ) {
        Some(value) => {
            if !is_header_text(value.as_slice()) || !is_http_token(value.as_slice()) || !is_offered(
                &handshake.offered_protocols,
                value.as_slice(),
            ) {
                return Err(WebSocketResponseFault::InvalidWebSocketProtocol);
            }
            Some(value)
        },
        None => {
            if has_header(&response.headers, "sec-websocket-protocol".as_bytes()) {
                return Err(WebSocketResponseFault::InvalidWebSocketProtocol);
            }
            None
        },
    };
    remove_hop_by_hop(&mut response.headers);
    remove_header(&mut response.headers, "sec-websocket-accept".as_bytes());
    remove_header(&mut response.headers, "sec-websocket-key".as_bytes());
    remove_header(&mut response.headers, "sec-websocket-protocol".as_bytes());
    remove_header(&mut response.headers, "sec-websocket-version".as_bytes());
    remove_header(&mut response.headers, "sec-websocket-extensions".as_bytes());
    remove_header(&mut response.headers, "content-length".as_bytes());
    proof {
        assert(end_to_end(fields).dom().subset_of(fields.dom()));
        vstd::set_lib::lemma_len_subset(end_to_end(fields).dom(), fields.dom());
        lemma_request_names();
        lemma_fixed_values();
    }
    match handshake.protocol {
        NegotiatedHttpProtocol::Http1 => {
            response.status = SWITCHING_PROTOCOLS;
            response.version = Version::Http11;
            insert_header(&mut response.headers, "connection".as_bytes(), "Upgrade".as_bytes());
            insert_header(&mut response.headers, "upgrade".as_bytes(), "websocket".as_bytes());
            insert_header(
                &mut response.headers,
                "sec-websocket-accept".as_bytes(),
                handshake.expected_accept.as_slice(),
            );
        },
        NegotiatedHttpProtocol::Http2 => {
            response.status = OK;
            response.version = Version::Http2;
        },
    }
    if let Some(protocol) = selected {
        insert_header(
            &mut response.headers,
            "sec-websocket-protocol".as_bytes(),
            protocol.as_slice(),
        );
    }
    Ok(())
}

/// Cleans the head of an ordinary response: what concerns one connection only
/// is not passed on.
pub fn sanitize_response_headers(response: &mut ResponseHead)
    ensures
        header_fields(final(response).headers) == end_to_end(header_fields(old(response).headers)),
        final(response).status == old(response).status,
        final(response).version == old(response).version,
{
    remove_hop_by_hop(&mut response.headers);
}

proof fn lemma_answer_names()
    ensures
        lower("connection".spec_bytes()) == "connection".spec_bytes(),
        lower("upgrade".spec_bytes()) == "upgrade".spec_bytes(),
        lower("sec-websocket-accept".spec_bytes()) == "sec-websocket-accept".spec_bytes(),
        lower("sec-websocket-key".spec_bytes()) == "sec-websocket-key".spec_bytes(),
        lower("sec-websocket-version".spec_bytes()) == "sec-websocket-version".spec_bytes(),
        lower("sec-websocket-protocol".spec_bytes()) == "sec-websocket-protocol".spec_bytes(),
        lower("sec-websocket-extensions".spec_bytes()) == "sec-websocket-extensions".spec_bytes(),
        lower("content-length".spec_bytes()) == "content-length".spec_bytes(),
        "connection".spec_bytes().len() == 10,
        "upgrade".spec_bytes().len() == 7,
        "host".spec_bytes().len() == 4,
        "sec-websocket-accept".spec_bytes().len() == 20,
        "sec-websocket-key".spec_bytes().len() == 17,
        "sec-websocket-version".spec_bytes().len() == 21,
        "sec-websocket-protocol".spec_bytes().len() == 22,
        "sec-websocket-extensions".spec_bytes().len() == 24,
        "content-length".spec_bytes().len() == 14,
        "x-forwarded-for".spec_bytes().len() == 15,
        "x-forwarded-host".spec_bytes().len() == 16,
        "x-forwarded-proto".spec_bytes().len() == 17,
        "x-forwarded-proto".spec_bytes()[0] == 120,
        "sec-websocket-key".spec_bytes()[0] == 115,
{
    reveal_strlit("connection");
    reveal_strlit("upgrade");
    reveal_strlit("host");
    reveal_strlit("sec-websocket-accept");
    reveal_strlit("sec-websocket-key");
    reveal_strlit("sec-websocket-version");
    reveal_strlit("sec-websocket-protocol");
    reveal_strlit("sec-websocket-extensions");
    reveal_strlit("content-length");
    reveal_strlit("x-forwarded-for");
    reveal_strlit("x-forwarded-host");
    reveal_strlit("x-forwarded-proto");
    is_ascii_spec_bytes("connection");
    is_ascii_spec_bytes("upgrade");
    is_ascii_spec_bytes("host");
    is_ascii_spec_bytes("sec-websocket-accept");
    is_ascii_spec_bytes("sec-websocket-key");
    is_ascii_spec_bytes("sec-websocket-version");
    is_ascii_spec_bytes("sec-websocket-protocol");
    is_ascii_spec_bytes("sec-websocket-extensions");
    is_ascii_spec_bytes("content-length");
    is_ascii_spec_bytes("x-forwarded-for");
    is_ascii_spec_bytes("x-forwarded-host");
    is_ascii_spec_bytes("x-forwarded-proto");
    assert(lower("connection".spec_bytes()) =~= "connection".spec_bytes());
    assert(lower("upgrade".spec_bytes()) =~= "upgrade".spec_bytes());
    assert(lower("sec-websocket-accept".spec_bytes()) =~= "sec-websocket-accept".spec_bytes());
    assert(lower("sec-websocket-key".spec_bytes()) =~= "sec-websocket-key".spec_bytes());
    assert(lower("sec-websocket-version".spec_bytes()) =~= "sec-websocket-version".spec_bytes());
    assert(lower("sec-websocket-protocol".spec_bytes()) =~= "sec-websocket-protocol".spec_bytes());
    assert(lower("sec-websocket-extensions".spec_bytes())
        =~= "sec-websocket-extensions".spec_bytes());
    assert(lower("content-length".spec_bytes()) =~= "content-length".spec_bytes());
}

/// A client that asked over HTTP/1.1 is answered as its handshake needs: with one
/// `Sec-WebSocket-Accept`, which is the answer to its own key, and with the upgrade that
/// it asked for. Over HTTP/2 none of these three is sent.
pub proof fn clients_get_the_answer_to_their_key(
    version: Version,
    fields: Map<Seq<u8>, Seq<Seq<u8>>>,
    handshake: HandshakeView,
)
    requires
        handshake.wf(),
        websocket_response_fault(version, fields, handshake) is None,
    ensures
        handshake.protocol == NegotiatedHttpProtocol::Http1 ==> {
            let answer = websocket_response_fields(fields, handshake);
            &&& answer.dom().contains("sec-websocket-accept".spec_bytes())
            &&& answer["sec-websocket-accept".spec_bytes()] == seq![accept_for(handshake.key)]
            &&& answer.dom().contains("connection".spec_bytes())
            &&& answer["connection".spec_bytes()] == seq!["Upgrade".spec_bytes()]
            &&& answer.dom().contains("upgrade".spec_bytes())
            &&& answer["upgrade".spec_bytes()] == seq!["websocket".spec_bytes()]
        },
        handshake.protocol == NegotiatedHttpProtocol::Http2 ==> {
            let answer = websocket_response_fields(fields, handshake);
            &&& !answer.dom().contains("sec-websocket-accept".spec_bytes())
            &&& !answer.dom().contains("connection".spec_bytes())
            &&& !answer.dom().contains("upgrade".spec_bytes())
        },
{
    lemma_answer_names();
    connection_fields_are_not_passed_on(fields, "upgrade".spec_bytes());
}

/// The answer names the protocol that the local service chose, where it chose one, and
/// repeats nothing of the handshake; every other field of the local service that
/// concerns the client is passed on as it was.
pub proof fn clients_get_the_fields_of_the_local_service(
    version: Version,
    fields: Map<Seq<u8>, Seq<Seq<u8>>>,
    handshake: HandshakeView,
    name: Seq<u8>,
)
    requires
        websocket_response_fault(version, fields, handshake) is None,
    ensures
        ({
            let answer = websocket_response_fields(fields, handshake);
            let chosen = "sec-websocket-protocol".spec_bytes();
            &&& answer.dom().contains(chosen) <==> fields.dom().contains(chosen)
                && fields[chosen].len() > 0
            &&& answer.dom().contains(chosen) ==> answer[chosen] == fields[chosen]
                && answer[chosen].len() == 1 && handshake.offered_protocols.contains(
                answer[chosen][0],
            )
            &&& !answer.dom().contains("sec-websocket-key".spec_bytes())
            &&& !answer.dom().contains("sec-websocket-version".spec_bytes())
            &&& !answer.dom().contains("sec-websocket-extensions".spec_bytes())
            &&& !answer.dom().contains("content-length".spec_bytes())
            &&& name != "connection".spec_bytes() && name != "upgrade".spec_bytes() && name
                != "sec-websocket-accept".spec_bytes() && name != "sec-websocket-key".spec_bytes()
                && name != "sec-websocket-version".spec_bytes() && name != chosen && name
                != "sec-websocket-extensions".spec_bytes() && name != "content-length".spec_bytes()
                ==> (answer.dom().contains(name) <==> end_to_end(fields).dom().contains(name)) && (
            answer.dom().contains(name) ==> answer[name] == fields[name])
        }),
{
    lemma_answer_names();
    let chosen = "sec-websocket-protocol".spec_bytes();
    if fields.dom().contains(chosen) && fields[chosen].len() > 0 {
        assert(fields[chosen] =~= seq![fields[chosen][0]]);
    }
}

/// A local service opens a session only by the right answer: over HTTP/1.1, an upgrade to
/// WebSocket, the answer to the key and no other, no extension, and no protocol but one
/// that was offered.
pub proof fn sessions_open_only_on_the_right_answer(
    version: Version,
    fields: Map<Seq<u8>, Seq<Seq<u8>>>,
    handshake: HandshakeView,
)
    requires
        handshake.wf(),
        websocket_response_fault(version, fields, handshake) is None,
    ensures
        version == Version::Http11,
        fields.dom().contains("sec-websocket-accept".spec_bytes()),
        fields["sec-websocket-accept".spec_bytes()] == seq![accept_for(handshake.key)],
        fields.dom().contains("upgrade".spec_bytes()),
        fields["upgrade".spec_bytes()].len() == 1,
        lower(fields["upgrade".spec_bytes()][0]) == lower("websocket".spec_bytes()),
        fields.dom().contains("connection".spec_bytes()),
        names_member(list_members(fields["connection".spec_bytes()]), "upgrade".spec_bytes()),
        !fields.dom().contains("sec-websocket-extensions".spec_bytes()),
        fields.dom().contains("sec-websocket-protocol".spec_bytes()) ==> fields[
        "sec-websocket-protocol".spec_bytes()].len() <= 1,
        fields.dom().contains("sec-websocket-protocol".spec_bytes()) && fields[
        "sec-websocket-protocol".spec_bytes()].len() == 1
            ==> handshake.offered_protocols.contains(
            fields["sec-websocket-protocol".spec_bytes()][0],
        ),
{
    lemma_answer_names();
    if !fields.dom().contains("connection".spec_bytes()) {
        assert(list_members(Seq::empty()) =~= Seq::empty());
    }
    assert(seq![handshake.expected_accept].len() == 1);
}

/// The right answer opens the session.
pub proof fn the_right_answer_opens_the_session(
    fields: Map<Seq<u8>, Seq<Seq<u8>>>,
    handshake: HandshakeView,
)
    requires
        handshake.wf(),
        fields.dom().contains("connection".spec_bytes()),
        fields["connection".spec_bytes()] == seq!["Upgrade".spec_bytes()],
        fields.dom().contains("upgrade".spec_bytes()),
        fields["upgrade".spec_bytes()] == seq!["websocket".spec_bytes()],
        fields.dom().contains("sec-websocket-accept".spec_bytes()),
        fields["sec-websocket-accept".spec_bytes()] == seq![accept_for(handshake.key)],
        !fields.dom().contains("sec-websocket-extensions".spec_bytes()),
        fields.dom().contains("sec-websocket-protocol".spec_bytes()) ==> fields[
        "sec-websocket-protocol".spec_bytes()].len() == 1 && handshake.offered_protocols.contains(
            fields["sec-websocket-protocol".spec_bytes()][0],
        ),
    ensures
        websocket_response_fault(Version::Http11, fields, handshake) is None,
{
    lemma_answer_names();
    lemma_fixed_values();
    lemma_upgrade_is_one_piece();
    let value: Seq<u8> = "Upgrade".spec_bytes();
    lists_name_their_members(value, "upgrade".spec_bytes());
    assert(split_at_each(value, 44)[0] == value);
    let chosen = values_of(fields, "sec-websocket-protocol".spec_bytes());
    if chosen.len() == 1 {
        let at: int = choose|i: int|
            0 <= i < handshake.offered_protocols.len() && handshake.offered_protocols[i]
                == chosen[0];
        assert(is_token(handshake.offered_protocols[at]));
        assert(is_text(chosen[0]));
    }
}

proof fn lemma_upgrade_is_one_piece()
    ensures
        split_at_each("Upgrade".spec_bytes(), 44) == seq!["Upgrade".spec_bytes()],
        lower(trimmed("Upgrade".spec_bytes())) == lower("upgrade".spec_bytes()),
{
    reveal_strlit("Upgrade");
    reveal_strlit("upgrade");
    is_ascii_spec_bytes("Upgrade");
    is_ascii_spec_bytes("upgrade");
    bytes_without_separator_are_one_piece("Upgrade".spec_bytes(), 44);
    assert(trimmed("Upgrade".spec_bytes()) =~= "Upgrade".spec_bytes());
    assert(lower("Upgrade".spec_bytes()) =~= lower("upgrade".spec_bytes()));
}

/// The local service is sent every field of the client that concerns it, as the client
/// sent it: all but what concerns one connection only, what forwarders set, the `Host`
/// and the handshake, which this ingress sets itself.
pub proof fn the_local_service_gets_the_fields_of_the_client(
    fields: Map<Seq<u8>, Seq<Seq<u8>>>,
    peer: Seq<u8>,
    host: Seq<u8>,
    kind: PreparedRequestKind,
    name: Seq<u8>,
)
    requires
        name != "host".spec_bytes(),
        name != "connection".spec_bytes(),
        name != "upgrade".spec_bytes(),
        name != "forwarded".spec_bytes(),
        !has_prefix(name, "x-forwarded-".spec_bytes()),
        name != "sec-websocket-key".spec_bytes(),
        name != "sec-websocket-version".spec_bytes(),
        name != "sec-websocket-protocol".spec_bytes(),
        name != "sec-websocket-extensions".spec_bytes(),
    ensures
        request_fields(fields, peer, host, kind).dom().contains(name) <==> end_to_end(
            fields,
        ).dom().contains(name),
        request_fields(fields, peer, host, kind).dom().contains(name) ==> request_fields(
            fields,
            peer,
            host,
            kind,
        )[name] == fields[name],
{
    lemma_name_starts();
}

/// An ordinary request is sent with `Connection: close` and nothing of a handshake; one
/// for a WebSocket with the handshake's own key, version 13, the upgrade, and the offered
/// protocols in one list, where there are any.
pub proof fn the_local_service_is_asked_for_what_was_asked(
    fields: Map<Seq<u8>, Seq<Seq<u8>>>,
    peer: Seq<u8>,
    host: Seq<u8>,
    kind: PreparedRequestKind,
)
    ensures
        ({
            let sent = request_fields(fields, peer, host, kind);
            let protocols = "sec-websocket-protocol".spec_bytes();
            &&& kind is Regular ==> {
                &&& sent.dom().contains("connection".spec_bytes())
                &&& sent["connection".spec_bytes()] == seq!["close".spec_bytes()]
                &&& !sent.dom().contains("upgrade".spec_bytes())
                &&& !sent.dom().contains("sec-websocket-key".spec_bytes())
                &&& !sent.dom().contains("sec-websocket-version".spec_bytes())
                &&& !sent.dom().contains("sec-websocket-extensions".spec_bytes())
                &&& !sent.dom().contains(protocols)
            }
            &&& kind matches PreparedRequestKind::WebSocket(handshake) ==> {
                &&& sent.dom().contains("connection".spec_bytes())
                &&& sent["connection".spec_bytes()] == seq!["Upgrade".spec_bytes()]
                &&& sent.dom().contains("upgrade".spec_bytes())
                &&& sent["upgrade".spec_bytes()] == seq!["websocket".spec_bytes()]
                &&& sent.dom().contains("sec-websocket-key".spec_bytes())
                &&& sent["sec-websocket-key".spec_bytes()] == seq![handshake@.key]
                &&& sent.dom().contains("sec-websocket-version".spec_bytes())
                &&& sent["sec-websocket-version".spec_bytes()] == seq!["13".spec_bytes()]
                &&& !sent.dom().contains("sec-websocket-extensions".spec_bytes())
                &&& sent.dom().contains(protocols) <==> handshake@.offered_protocols.len() > 0
                &&& sent.dom().contains(protocols) ==> sent[protocols] == seq![
                    joined(handshake@.offered_protocols, ", ".spec_bytes()),
                ]
            }
            &&& sent.dom().contains("host".spec_bytes())
            &&& sent["host".spec_bytes()] == seq![host]
            &&& sent.dom().contains("x-forwarded-for".spec_bytes())
            &&& sent["x-forwarded-for".spec_bytes()] == seq![peer]
            &&& sent.dom().contains("x-forwarded-host".spec_bytes())
            &&& sent["x-forwarded-host".spec_bytes()] == seq![host]
            &&& sent.dom().contains("x-forwarded-proto".spec_bytes())
            &&& sent["x-forwarded-proto".spec_bytes()] == seq!["https".spec_bytes()]
        }),
{
    lemma_name_starts();
    lemma_answer_names();
    connection_fields_are_not_passed_on(fields, Seq::empty());
}

/// What a client says of who forwarded its request is not passed on: the local service
/// hears of forwarding from this ingress alone.
pub proof fn clients_do_not_speak_of_forwarding(
    fields: Map<Seq<u8>, Seq<Seq<u8>>>,
    peer: Seq<u8>,
    host: Seq<u8>,
    kind: PreparedRequestKind,
    name: Seq<u8>,
)
    requires
        name == "forwarded".spec_bytes() || has_prefix(name, "x-forwarded-".spec_bytes()),
        name != "x-forwarded-for".spec_bytes(),
        name != "x-forwarded-proto".spec_bytes(),
        name != "x-forwarded-host".spec_bytes(),
    ensures
        !request_fields(fields, peer, host, kind).dom().contains(name),
{
    lemma_name_starts();
    assert(forwarding_name(name));
}

} // verus!
