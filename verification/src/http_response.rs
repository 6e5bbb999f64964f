//! The responses that the ingress makes itself.

use vstd::prelude::*;
use vstd::string::*;
use vstd::utf8::*;

use crate::bytes::{copy_of, is_text, text_byte};
use crate::clock::{Duration, NANOS_PER_SEC};
use crate::http_headers::{empty_headers, header_fields, insert_header, no_fields, plain_name};
use crate::http_rejection::{
    GATEWAY_TIMEOUT, NO_CONTENT, SERVICE_UNAVAILABLE, TOO_MANY_REQUESTS, UNAUTHORIZED,
};
use crate::protocol::RouteError;
use crate::text::{decimal, decimal_text, lemma_decimal_digits};

verus! {

/// The phrase that a status code stands for, where it has one.
pub uninterp spec fn status_phrase(status: u16) -> Option<Seq<char>>;

/// `StatusCode::canonical_reason` gives the phrase of a status code.
#[verifier::external_body]
pub(crate) fn canonical_reason(status: u16) -> (phrase: Option<&'static str>)
    ensures
        phrase is Some <==> status_phrase(status) is Some,
        phrase is Some ==> phrase->0@ == status_phrase(status)->0,
{
    hyper::StatusCode::from_u16(status).ok().and_then(|status| status.canonical_reason())
}

/// A response that is complete: its status, its header fields and its body.
#[derive(Debug)]
pub struct LocalResponse {
    pub status: u16,
    pub headers: hyper::HeaderMap,
    pub body: Vec<u8>,
}

/// The text of an error response: the status's phrase, or a fixed text.
pub open spec fn error_text(status: u16) -> Seq<char> {
    match status_phrase(status) {
        Some(phrase) => phrase,
        None => "request rejected"@,
    }
}

/// A number as the value of a header field.
pub open spec fn number_field(n: nat) -> Seq<u8> {
    encode_utf8(decimal(n))
}

/// The fields of an error response.
pub open spec fn error_fields(status: u16) -> Map<Seq<u8>, Seq<Seq<u8>>> {
    no_fields().insert("connection".spec_bytes(), seq!["close".spec_bytes()]).insert(
        "content-length".spec_bytes(),
        seq![number_field(encode_utf8(error_text(status)).len())],
    )
}

proof fn lemma_number_is_text(n: nat)
    ensures
        is_text(number_field(n)),
        number_field(n) == decimal(n).map_values(|c: char| c as u8),
{
    lemma_decimal_digits(n);
    let chars: Seq<char> = decimal(n);
    let digits: Seq<u8> = chars.map_values(|c: char| c as u8);
    assert(is_ascii_chars(chars)) by {
        lemma_decimal_is_ascii(n);
    }
    is_ascii_chars_encode_utf8(chars);
    assert(encode_utf8(chars) =~= digits);
    assert forall|i: int| 0 <= i < digits.len() implies text_byte(#[trigger] digits[i]) by {
        assert(48 <= digits[i] <= 57);
    }
}

proof fn lemma_decimal_is_ascii(n: nat)
    ensures
        is_ascii_chars(decimal(n)),
    decreases n,
{
    if n >= 10 {
        lemma_decimal_is_ascii(n / 10);
    }
}

proof fn lemma_response_names()
    ensures
        plain_name("connection".spec_bytes()),
        plain_name("content-length".spec_bytes()),
        plain_name("cache-control".spec_bytes()),
        plain_name("retry-after".spec_bytes()),
        is_text("close".spec_bytes()),
        is_text("no-store".spec_bytes()),
        is_text("0".spec_bytes()),
{
    reveal_strlit("connection");
    reveal_strlit("content-length");
    reveal_strlit("cache-control");
    reveal_strlit("retry-after");
    reveal_strlit("close");
    reveal_strlit("no-store");
    reveal_strlit("0");
    is_ascii_spec_bytes("connection");
    is_ascii_spec_bytes("content-length");
    is_ascii_spec_bytes("cache-control");
    is_ascii_spec_bytes("retry-after");
    is_ascii_spec_bytes("close");
    is_ascii_spec_bytes("no-store");
    is_ascii_spec_bytes("0");
}

fn number_value(n: u64) -> (value: Vec<u8>)
    ensures
        value@ == number_field(n as nat),
        is_text(value@),
{
    let text: String = decimal_text(n);
    proof {
        lemma_number_is_text(n as nat);
    }
    copy_of(text.as_str().as_bytes())
}

/// An error response, which closes the connection.
pub fn error_response(status: u16) -> (response: LocalResponse)
    ensures
        response.status == status,
        response.body@ == encode_utf8(error_text(status)),
        header_fields(response.headers) == error_fields(status),
{
    let message: &str = match canonical_reason(status) {
        Some(phrase) => phrase,
        None => "request rejected",
    };
    let body: Vec<u8> = copy_of(message.as_bytes());
    let length: Vec<u8> = number_value(body.len() as u64);
    let mut headers: hyper::HeaderMap = empty_headers();
    proof {
        lemma_response_names();
    }
    insert_header(&mut headers, "connection".as_bytes(), "close".as_bytes());
    insert_header(&mut headers, "content-length".as_bytes(), length.as_slice());
    LocalResponse { status, headers, body }
}

/// An error response that no cache may keep.
pub fn no_store_error_response(status: u16) -> (response: LocalResponse)
    ensures
        response.status == status,
        response.body@ == encode_utf8(error_text(status)),
        header_fields(response.headers) == error_fields(status).insert(
            "cache-control".spec_bytes(),
            seq!["no-store".spec_bytes()],
        ),
{
    let mut response: LocalResponse = error_response(status);
    proof {
        lemma_response_names();
    }
    insert_header(&mut response.headers, "cache-control".as_bytes(), "no-store".as_bytes());
    response
}

/// The response to a request whose signature is missing or refused.
pub fn unauthorized_response() -> (response: LocalResponse)
    ensures
        response.status == UNAUTHORIZED,
        response.body@ == encode_utf8(error_text(UNAUTHORIZED)),
        header_fields(response.headers) == error_fields(UNAUTHORIZED).insert(
            "cache-control".spec_bytes(),
            seq!["no-store".spec_bytes()],
        ),
{
    no_store_error_response(UNAUTHORIZED)
}

/// The answer to a reachability probe: the proof, and nothing else.
pub fn reachability_probe_response(
    answer: &[u8],
    proof_header: &[u8],
) -> (response: LocalResponse)
    requires
        is_text(answer@),
        plain_name(proof_header@),
    ensures
        response.status == NO_CONTENT,
        response.body@.len() == 0,
        header_fields(response.headers) == no_fields().insert(
            "connection".spec_bytes(),
            seq!["close".spec_bytes()],
        ).insert("content-length".spec_bytes(), seq!["0".spec_bytes()]).insert(
            "cache-control".spec_bytes(),
            seq!["no-store".spec_bytes()],
        ).insert(proof_header@, seq![answer@]),
{
    let mut headers: hyper::HeaderMap = empty_headers();
    proof {
        lemma_response_names();
    }
    insert_header(&mut headers, "connection".as_bytes(), "close".as_bytes());
    insert_header(&mut headers, "content-length".as_bytes(), "0".as_bytes());
    insert_header(&mut headers, "cache-control".as_bytes(), "no-store".as_bytes());
    insert_header(&mut headers, proof_header, answer);
    LocalResponse { status: NO_CONTENT, headers, body: Vec::new() }
}

/// A wait in whole seconds, rounded up, at least one.
pub open spec fn retry_seconds(wait: Duration) -> nat {
    let seconds = (wait.nanos + NANOS_PER_SEC - 1) / (NANOS_PER_SEC as int);
    if seconds < 1 {
        1
    } else if seconds > u64::MAX {
        u64::MAX as nat
    } else {
        seconds as nat
    }
}

/// The response to a request that comes too soon, with the seconds to wait.
pub fn rate_limited_response(retry_after: Duration) -> (response: LocalResponse)
    ensures
        response.status == TOO_MANY_REQUESTS,
        response.body@ == encode_utf8(error_text(TOO_MANY_REQUESTS)),
        header_fields(response.headers) == error_fields(TOO_MANY_REQUESTS).insert(
            "retry-after".spec_bytes(),
            seq![number_field(retry_seconds(retry_after))],
        ),
{
    let whole: u128 = retry_after.nanos / NANOS_PER_SEC;
    let rest: u128 = retry_after.nanos % NANOS_PER_SEC;
    let rounded: u128 = if rest > 0 { whole + 1 } else { whole };
    let seconds: u64 = if rounded < 1 {
        1
    } else if rounded > u64::MAX as u128 {
        u64::MAX
    } else {
        rounded as u64
    };
    let value: Vec<u8> = number_value(seconds);
    let mut response: LocalResponse = error_response(TOO_MANY_REQUESTS);
    proof {
        lemma_response_names();
    }
    insert_header(&mut response.headers, "retry-after".as_bytes(), value.as_slice());
    response
}

/// The status for a request that no tunnel stream could be opened for.
pub open spec fn route_status(error: RouteError) -> u16 {
    if error is OpenTimeout { GATEWAY_TIMEOUT } else { SERVICE_UNAVAILABLE }
}

/// The status for a request that no tunnel stream could be opened for.
pub fn route_error_status(error: &RouteError) -> (status: u16)
    ensures
        status == route_status(*error),
{
    match error {
        RouteError::OpenTimeout(_) => GATEWAY_TIMEOUT,
        RouteError::RuntimeDraining
        | RouteError::SessionNotFound(_)
        | RouteError::TunnelNotConnected(_)
        | RouteError::SessionBusy(_)
        | RouteError::SessionClosing(_)
        | RouteError::CapacityExceeded(_)
        | RouteError::StreamIdExhausted(_)
        | RouteError::StreamRejected(_) => SERVICE_UNAVAILABLE,
    }
}

/// Waiting the seconds that a response names is waiting long enough, where they
/// can be counted at all, and less than a second longer than needed; a wait of
/// nothing is announced as a second.
pub proof fn announced_wait_is_enough(wait: Duration)
    requires
        wait.nanos <= u64::MAX * NANOS_PER_SEC,
    ensures
        retry_seconds(wait) * NANOS_PER_SEC >= wait.nanos,
        wait.nanos > 0 ==> (retry_seconds(wait) - 1) * NANOS_PER_SEC < wait.nanos,
        retry_seconds(wait) >= 1,
{
}

/// An error response closes its connection and announces just the bytes of its text.
pub proof fn errors_announce_their_text(status: u16)
    ensures
        error_fields(status).dom() =~= set![
            "connection".spec_bytes(),
            "content-length".spec_bytes(),
        ],
        error_fields(status)["connection".spec_bytes()] == seq!["close".spec_bytes()],
        error_fields(status)["content-length".spec_bytes()] == seq![
            encode_utf8(decimal(encode_utf8(error_text(status)).len())),
        ],
        status_phrase(status) is Some ==> error_text(status) == status_phrase(status)->0,
        status_phrase(status) is None ==> error_text(status) == "request rejected"@,
{
    reveal_strlit("connection");
    reveal_strlit("content-length");
    is_ascii_spec_bytes("connection");
    is_ascii_spec_bytes("content-length");
}

/// A tunnel that does not open in time is a gateway's timeout; every other reason why it
/// cannot be reached is that the service is unavailable.
pub proof fn unreachable_tunnels_have_their_status(error: RouteError)
    ensures
        route_status(error) == 504 <==> error is OpenTimeout,
        route_status(error) == 503 <==> !(error is OpenTimeout),
{
}

} // verus!
