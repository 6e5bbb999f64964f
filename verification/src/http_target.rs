//! Request targets: authorities, signed URLs, and the target a local service sees.

use vstd::prelude::*;
use vstd::slice::slice_subrange;
use vstd::string::*;

use crate::bytes::{
    copy_of, find_byte, first_or_len, is_text, join, joined, lemma_first_or_len, same_bytes, split,
    split_at_each, views, AMPERSAND, EQUALS, NUMBER_SIGN, QUESTION_MARK, SLASH,
};
use crate::http_headers::header_fields;
use crate::http_rejection::{reject, rejection, RejectionReason, RequestRejection};
use crate::http_request::{opt_view, path_of, query_of, RequestHead, Version};
use crate::http_sanitize::{
    has_room, request_fields, sanitize_request_headers, PreparedRequestKind,
};
use crate::names::HttpHostname;

verus! {

/// The host part of an authority's text, where it is an authority.
pub uninterp spec fn authority_host(text: Seq<u8>) -> Option<Seq<u8>>;

/// The port that an authority's text names, where it is an authority that names
/// one.
pub uninterp spec fn authority_port(text: Seq<u8>) -> Option<u16>;

/// What a text is as the path and query of a target, where it can be that.
pub uninterp spec fn target_text(text: Seq<u8>) -> Option<Seq<u8>>;

/// `Authority::try_from` reads an authority, and `Authority::host` gives its host.
#[verifier::external_body]
pub(crate) fn host_of_authority(text: &[u8]) -> (host: Option<Vec<u8>>)
    ensures
        opt_view(host) == authority_host(text@),
{
    let authority = hyper::http::uri::Authority::try_from(text).ok();
    authority.map(|authority| authority.host().as_bytes().to_vec())
}

/// `Authority::try_from` reads an authority, and `Authority::port_u16` gives the
/// port that it names.
#[verifier::external_body]
pub(crate) fn port_of_authority(text: &[u8]) -> (port: Option<u16>)
    ensures
        port == authority_port(text@),
{
    hyper::http::uri::Authority::try_from(text).ok().and_then(|authority| authority.port_u16())
}

/// Whether a text is an ordinary path and query: a slash, then bytes that may stand both
/// in a path and in a query, and no more of them than a target may have.
pub open spec fn ordinary_target(text: Seq<u8>) -> bool {
    &&& 1 <= text.len() <= 65_534
    &&& text[0] == SLASH
    &&& forall|i: int|
        0 <= i < text.len() ==> (#[trigger] text[i]) == 33 || 36 <= text[i] <= 59 || text[i] == 61
            || 63 <= text[i] <= 95 || 97 <= text[i] <= 122 || text[i] == 124 || text[i] == 126
}

/// `PathAndQuery::try_from` reads a path and query, and drops a fragment;
/// `PathAndQuery::as_str` gives the text back. A text that has no fragment comes back as
/// it was, and an ordinary path and query is never refused.
#[verifier::external_body]
pub(crate) fn read_target(text: &[u8]) -> (target: Option<Vec<u8>>)
    ensures
        opt_view(target) == target_text(text@),
        target is Some && !text@.contains(NUMBER_SIGN) ==> target->0@ == text@,
        ordinary_target(text@) ==> target is Some,
{
    let target = hyper::http::uri::PathAndQuery::try_from(text).ok();
    target.map(|target| target.as_str().as_bytes().to_vec())
}

/// The host that an authority names, before the rules for hostnames are applied.
pub fn normalize_authority(value: &[u8]) -> (host: Option<Vec<u8>>)
    ensures
        opt_view(host) == authority_host(value@),
{
    host_of_authority(value)
}

/// The query parameter that carries a signature.
pub open spec fn signed_access_parameter() -> Seq<u8> {
    "tp_access".spec_bytes()
}

/// A parameter's name: what stands before the first equals sign.
pub open spec fn parameter_name(parameter: Seq<u8>) -> Seq<u8> {
    parameter.take(first_or_len(parameter, EQUALS))
}

/// A parameter's value: what stands behind the first equals sign.
pub open spec fn parameter_value(parameter: Seq<u8>) -> Seq<u8> {
    let at = first_or_len(parameter, EQUALS);
    if at < parameter.len() { parameter.skip(at + 1) } else { Seq::empty() }
}

/// Whether a parameter carries a signature.
pub open spec fn carries_signature(parameter: Seq<u8>) -> bool {
    parameter_name(parameter) == signed_access_parameter()
}

/// The values of the parameters that carry a signature.
pub open spec fn signatures(parameters: Seq<Seq<u8>>) -> Seq<Seq<u8>>
    decreases parameters.len(),
{
    if parameters.len() == 0 {
        Seq::empty()
    } else {
        let front = signatures(parameters.drop_last());
        if carries_signature(parameters.last()) {
            front.push(parameter_value(parameters.last()))
        } else {
            front
        }
    }
}

/// The parameters that carry no signature, in their order.
pub open spec fn unsigned_parameters(parameters: Seq<Seq<u8>>) -> Seq<Seq<u8>>
    decreases parameters.len(),
{
    if parameters.len() == 0 {
        Seq::empty()
    } else {
        let front = unsigned_parameters(parameters.drop_last());
        if carries_signature(parameters.last()) {
            front
        } else {
            front.push(parameters.last())
        }
    }
}

/// The one signature of a query, which may not be empty.
pub open spec fn query_signature(query: Option<Seq<u8>>) -> Result<Seq<u8>, RejectionReason> {
    match query {
        None => Err(RejectionReason::SignedAccessMissing),
        Some(query) => {
            let found = signatures(split_at_each(query, AMPERSAND));
            if found.len() == 0 {
                Err(RejectionReason::SignedAccessMissing)
            } else if found.len() > 1 || found[0].len() == 0 {
                Err(RejectionReason::SignedAccessMalformed)
            } else {
                Ok(found[0])
            }
        },
    }
}

/// A query taken apart: the signature, and the parameters that are not it.
#[derive(Debug)]
pub struct SignedQuery {
    pub token: Vec<u8>,
    pub retained: Vec<Vec<u8>>,
}

/// Takes the query of a signed URL apart.
pub fn read_signed_query(query: Option<Vec<u8>>) -> (result: Result<SignedQuery, RequestRejection>)
    ensures
        match (result, query_signature(opt_view(query))) {
            (Ok(signed), Ok(token)) => signed.token@ == token && views(signed.retained@)
                == unsigned_parameters(split_at_each(query->0@, AMPERSAND)),
            (Err(error), Err(reason)) => error == rejection(reason),
            _ => false,
        },
{
    let text: Vec<u8> = match query {
        None => return Err(reject(RejectionReason::SignedAccessMissing)),
        Some(text) => text,
    };
    let parameters: Vec<Vec<u8>> = split(text.as_slice(), AMPERSAND);
    let ghost all: Seq<Seq<u8>> = views(parameters@);
    let mut token: Option<Vec<u8>> = None;
    let mut retained: Vec<Vec<u8>> = Vec::new();
    let mut i: usize = 0;
    proof {
        assert(views(retained@) =~= unsigned_parameters(all.take(0)));
        assert(signatures(all.take(0)) =~= Seq::<Seq<u8>>::empty());
    }
    while i < parameters.len()
        invariant
            i <= parameters@.len(),
            all == views(parameters@),
            all == split_at_each(text@, AMPERSAND),
            opt_view(query) == Some(text@),
            views(retained@) == unsigned_parameters(all.take(i as int)),
            match token {
                None => signatures(all.take(i as int)).len() == 0,
                Some(token) => token@.len() > 0 && signatures(all.take(i as int)) == seq![token@],
            },
        decreases parameters@.len() - i,
    {
        let parameter: &[u8] = parameters[i].as_slice();
        let end: usize = parameter.len();
        let (name_end, value_start): (usize, usize) = match find_byte(parameter, EQUALS) {
            Some(at) => (at, at + 1),
            None => (end, end),
        };
        proof {
            lemma_first_or_len(parameter@, EQUALS, name_end as int);
            assert(all.take(i + 1).drop_last() =~= all.take(i as int));
            assert(all.take(i + 1).last() == parameter@);
            assert(parameter@.subrange(0, name_end as int) =~= parameter_name(parameter@));
            assert(parameter@.subrange(value_start as int, end as int) =~= parameter_value(
                parameter@,
            ));
        }
        let name: &[u8] = slice_subrange(parameter, 0, name_end);
        if same_bytes(name, "tp_access".as_bytes()) {
            let value: &[u8] = slice_subrange(parameter, value_start, end);
            if value.len() == 0 || token.is_some() {
                proof {
                    lemma_signatures_prefix(all, i + 1);
                    let found: Seq<Seq<u8>> = signatures(all.take(i + 1));
                    assert(found == signatures(all.take(i as int)).push(value@));
                    assert(found[0] == signatures(all)[0]);
                }
                return Err(reject(RejectionReason::SignedAccessMalformed));
            }
            proof {
                assert(signatures(all.take(i + 1)) =~= seq![value@]);
            }
            token = Some(copy_of(value));
        } else {
            let ghost before: Seq<Seq<u8>> = views(retained@);
            retained.push(copy_of(parameter));
            proof {
                assert(views(retained@) =~= before.push(parameter@));
            }
        }
        i = i + 1;
    }
    proof {
        assert(all.take(i as int) =~= all);
    }
    match token {
        None => Err(reject(RejectionReason::SignedAccessMissing)),
        Some(token) => Ok(SignedQuery { token, retained }),
    }
}

proof fn lemma_signatures_prefix(parameters: Seq<Seq<u8>>, n: int)
    requires
        0 <= n <= parameters.len(),
    ensures
        signatures(parameters.take(n)).len() <= signatures(parameters).len(),
        forall|k: int|
            0 <= k < signatures(parameters.take(n)).len() ==> signatures(parameters)[k]
                == #[trigger] signatures(parameters.take(n))[k],
    decreases parameters.len() - n,
{
    if n == parameters.len() {
        assert(parameters.take(n) =~= parameters);
    } else {
        lemma_signatures_prefix(parameters, n + 1);
        assert(parameters.take(n + 1).drop_last() =~= parameters.take(n));
        let front: Seq<Seq<u8>> = signatures(parameters.take(n));
        let more: Seq<Seq<u8>> = signatures(parameters.take(n + 1));
        assert forall|k: int| 0 <= k < front.len() implies signatures(parameters)[k]
            == #[trigger] front[k] by {
            assert(more[k] == front[k]);
        }
    }
}

/// What is wrong with a signature.
#[derive(Debug, Clone, Copy, PartialEq, Eq, Structural)]
pub enum SignedAccessError {
    Expired,
    NotYetValid,
    LifetimeTooLong,
    InvalidLifetime,
    MalformedToken,
    Untrusted,
}

/// What checking a signature against the key ring and the clock came to.
#[derive(Debug, Clone, Copy, PartialEq, Eq, Structural)]
pub enum SignedAccessVerdict {
    Valid,
    Refused(SignedAccessError),
    ClockUnavailable,
}

/// Why a request with a refused signature is rejected.
pub open spec fn refusal_reason(error: SignedAccessError) -> RejectionReason {
    match error {
        SignedAccessError::MalformedToken => RejectionReason::SignedAccessMalformed,
        SignedAccessError::Untrusted => RejectionReason::SignedAccessInvalid,
        _ => RejectionReason::SignedAccessExpired,
    }
}

/// Why a request with a refused signature is rejected.
pub fn signed_access_rejection_reason(error: SignedAccessError) -> (reason: RejectionReason)
    ensures
        reason == refusal_reason(error),
{
    match error {
        SignedAccessError::Expired
        | SignedAccessError::NotYetValid
        | SignedAccessError::LifetimeTooLong
        | SignedAccessError::InvalidLifetime => RejectionReason::SignedAccessExpired,
        SignedAccessError::MalformedToken => RejectionReason::SignedAccessMalformed,
        SignedAccessError::Untrusted => RejectionReason::SignedAccessInvalid,
    }
}

/// The target without the signature.
pub open spec fn stripped_target(path: Seq<u8>, retained: Seq<Seq<u8>>) -> Seq<u8> {
    if retained.len() == 0 {
        path
    } else {
        path + seq![QUESTION_MARK] + joined(retained, seq![AMPERSAND])
    }
}

/// The target that a request keeps once its signature was checked: the same path
/// and the other parameters, in their order.
pub open spec fn authorized_target(
    head: RequestHead,
    verdict: SignedAccessVerdict,
) -> Result<Seq<u8>, RejectionReason> {
    match query_signature(head.spec_query()) {
        Err(reason) => Err(reason),
        Ok(_) => match verdict {
            SignedAccessVerdict::ClockUnavailable => Err(RejectionReason::SignedAccessClock),
            SignedAccessVerdict::Refused(error) => Err(refusal_reason(error)),
            SignedAccessVerdict::Valid => {
                let parameters = split_at_each(head.spec_query()->0, AMPERSAND);
                let target = stripped_target(head.spec_path(), unsigned_parameters(parameters));
                if target_text(target) is None || head.scheme.is_some()
                    != head.authority.is_some() {
                    Err(RejectionReason::InvalidRequestTarget)
                } else {
                    Ok(target_text(target)->0)
                }
            },
        },
    }
}

/// Whether a request lost its signature and nothing else of its target.
pub open spec fn signature_taken_out(before: RequestHead, after: RequestHead) -> bool {
    before.path_and_query is Some && !before.path_and_query->0@.contains(NUMBER_SIGN) ==> {
        let retained = unsigned_parameters(split_at_each(before.spec_query()->0, AMPERSAND));
        &&& after.spec_path() == before.spec_path()
        &&& after.spec_query() == (if retained.len() == 0 {
            None
        } else {
            Some(joined(retained, seq![AMPERSAND]))
        })
    }
}

/// The signature that a request carries.
pub fn signed_access_token(request: &RequestHead) -> (result: Result<Vec<u8>, RequestRejection>)
    ensures
        match (result, query_signature(request.spec_query())) {
            (Ok(token), Ok(expected)) => token@ == expected,
            (Err(error), Err(reason)) => error == rejection(reason),
            _ => false,
        },
{
    let signed: SignedQuery = read_signed_query(request.query())?;
    Ok(signed.token)
}

/// Admits a request whose one signature was found valid, and takes the signature
/// out of its target. `verdict` is what checking [`signed_access_token`] came to.
pub fn authorize_signed_access(
    request: &mut RequestHead,
    verdict: SignedAccessVerdict,
) -> (result: Result<(), RequestRejection>)
    ensures
        match (result, authorized_target(*old(request), verdict)) {
            (Ok(()), Ok(target)) => opt_view(final(request).path_and_query) == Some(target)
                && *final(request) == (RequestHead {
                path_and_query: final(request).path_and_query,
                ..*old(request)
            }),
            (Err(error), Err(reason)) => error == rejection(reason) && *final(request) == *old(
                request,
            ),
            _ => false,
        },
        result is Ok ==> signature_taken_out(*old(request), *final(request)),
{
    let signed: SignedQuery = match read_signed_query(request.query()) {
        Ok(signed) => signed,
        Err(error) => return Err(error),
    };
    match verdict {
        SignedAccessVerdict::Valid => {},
        SignedAccessVerdict::ClockUnavailable => return Err(
            reject(RejectionReason::SignedAccessClock),
        ),
        SignedAccessVerdict::Refused(error) => return Err(
            reject(signed_access_rejection_reason(error)),
        ),
    }
    let mut target: Vec<u8> = request.path();
    if signed.retained.len() > 0 {
        let mut separator: Vec<u8> = Vec::new();
        separator.push(AMPERSAND);
        proof {
            assert(separator@ =~= seq![AMPERSAND]);
        }
        let query: Vec<u8> = join(&signed.retained, separator.as_slice());
        target.push(QUESTION_MARK);
        target.extend_from_slice(query.as_slice());
    }
    proof {
        assert(target@ =~= stripped_target(request.spec_path(), views(signed.retained@)));
    }
    proof {
        if request.path_and_query is Some {
            lemma_stripped(request.path_and_query->0@);
        }
    }
    let parsed: Vec<u8> = match read_target(target.as_slice()) {
        None => return Err(reject(RejectionReason::InvalidRequestTarget)),
        Some(parsed) => parsed,
    };
    if request.scheme.is_some() != request.authority.is_some() {
        return Err(reject(RejectionReason::InvalidRequestTarget));
    }
    request.path_and_query = Some(parsed);
    Ok(())
}

proof fn lemma_pieces_hold_no(s: Seq<u8>, sep: u8, b: u8)
    requires
        !s.contains(b),
    ensures
        split_at_each(s, sep).len() >= 1,
        forall|i: int|
            0 <= i < split_at_each(s, sep).len() ==> !(#[trigger] split_at_each(s, sep)[i]).contains(
                b,
            ),
    decreases s.len(),
{
    if s.len() > 0 {
        let front: Seq<u8> = s.drop_last();
        assert(!front.contains(b)) by {
            if front.contains(b) {
                let k: int = choose|k: int| 0 <= k < front.len() && front[k] == b;
                assert(s[k] == b);
            }
        }
        lemma_pieces_hold_no(front, sep, b);
        let pieces: Seq<Seq<u8>> = split_at_each(front, sep);
        let all: Seq<Seq<u8>> = split_at_each(s, sep);
        assert(s[s.len() - 1] != b);
        assert forall|i: int| 0 <= i < all.len() implies !(#[trigger] all[i]).contains(b) by {
            if s.last() == sep {
                if i < pieces.len() {
                    assert(all[i] == pieces[i]);
                }
            } else if i < pieces.len() - 1 {
                assert(all[i] == pieces[i]);
            } else {
                let last: Seq<u8> = pieces.last();
                assert(all[i] == last.push(s.last()));
                assert(!last.contains(b)) by {
                    assert(pieces[pieces.len() - 1] == last);
                }
                if all[i].contains(b) {
                    let k: int = choose|k: int| 0 <= k < all[i].len() && all[i][k] == b;
                    if k < last.len() {
                        assert(last[k] == b);
                    }
                }
            }
        }
    }
}

proof fn lemma_joined_holds_no(pieces: Seq<Seq<u8>>, sep: Seq<u8>, b: u8)
    requires
        !sep.contains(b),
        forall|i: int| 0 <= i < pieces.len() ==> !(#[trigger] pieces[i]).contains(b),
    ensures
        !joined(pieces, sep).contains(b),
    decreases pieces.len(),
{
    if pieces.len() == 1 {
        assert(!pieces[0].contains(b));
    } else if pieces.len() > 1 {
        let shorter: Seq<Seq<u8>> = pieces.drop_last();
        lemma_joined_holds_no(shorter, sep, b);
        let front: Seq<u8> = joined(shorter, sep);
        let all: Seq<u8> = joined(pieces, sep);
        assert(!pieces[pieces.len() - 1].contains(b));
        if all.contains(b) {
            let k: int = choose|k: int| 0 <= k < all.len() && all[k] == b;
            if k < front.len() {
                assert(front[k] == b);
            } else if k < front.len() + sep.len() {
                assert(sep[k - front.len()] == b);
            } else {
                assert(pieces.last()[k - front.len() - sep.len()] == b);
            }
        }
    }
}

proof fn lemma_first_place(s: Seq<u8>, wanted: u8)
    ensures
        0 <= first_or_len(s, wanted) <= s.len(),
        forall|k: int| 0 <= k < first_or_len(s, wanted) ==> s[k] != wanted,
        first_or_len(s, wanted) < s.len() ==> s[first_or_len(s, wanted)] == wanted,
    decreases s.len(),
{
    if s.len() > 0 && s[0] != wanted {
        let rest: Seq<u8> = s.skip(1);
        lemma_first_place(rest, wanted);
        assert forall|k: int| 0 <= k < first_or_len(s, wanted) implies s[k] != wanted by {
            if k > 0 {
                assert(rest[k - 1] == s[k]);
            }
        }
    }
}

/// A path with a query behind it has that path and that query.
pub proof fn targets_are_their_path_and_query(path: Seq<u8>, query: Seq<u8>)
    requires
        path.len() > 0,
        !path.contains(QUESTION_MARK),
    ensures
        path_of(Some(path)) == path,
        query_of(Some(path)) is None,
        path_of(Some(path + seq![QUESTION_MARK] + query)) == path,
        query_of(Some(path + seq![QUESTION_MARK] + query)) == Some(query),
{
    let whole: Seq<u8> = path + seq![QUESTION_MARK] + query;
    assert forall|k: int| 0 <= k < path.len() implies path[k] != QUESTION_MARK by {}
    lemma_first_or_len(path, QUESTION_MARK, path.len() as int);
    lemma_first_or_len(whole, QUESTION_MARK, path.len() as int);
    assert(path.take(path.len() as int) =~= path);
    assert(whole.take(path.len() as int) =~= path);
    assert(whole.skip((path.len() + 1) as int) =~= query);
}

proof fn lemma_stripped(target: Seq<u8>)
    requires
        query_of(Some(target)) is Some,
    ensures
        ({
            let path = path_of(Some(target));
            let retained = unsigned_parameters(
                split_at_each(query_of(Some(target))->0, AMPERSAND),
            );
            let stripped = stripped_target(path, retained);
            &&& path_of(Some(stripped)) == path
            &&& query_of(Some(stripped)) == (if retained.len() == 0 {
                None
            } else {
                Some(joined(retained, seq![AMPERSAND]))
            })
            &&& !target.contains(NUMBER_SIGN) ==> !stripped.contains(NUMBER_SIGN)
        }),
{
    let path: Seq<u8> = path_of(Some(target));
    let query: Seq<u8> = query_of(Some(target))->0;
    let parameters: Seq<Seq<u8>> = split_at_each(query, AMPERSAND);
    let retained: Seq<Seq<u8>> = unsigned_parameters(parameters);
    let at: int = first_or_len(target, QUESTION_MARK);
    lemma_first_place(target, QUESTION_MARK);
    assert(!path.contains(QUESTION_MARK)) by {
        if path.contains(QUESTION_MARK) {
            let k: int = choose|k: int| 0 <= k < path.len() && path[k] == QUESTION_MARK;
            if at > 0 {
                assert(target[k] == QUESTION_MARK);
            }
        }
    }
    targets_are_their_path_and_query(path, joined(retained, seq![AMPERSAND]));
    if !target.contains(NUMBER_SIGN) {
        assert(!query.contains(NUMBER_SIGN)) by {
            if query.contains(NUMBER_SIGN) {
                let k: int = choose|k: int| 0 <= k < query.len() && query[k] == NUMBER_SIGN;
                assert(target[at + 1 + k] == NUMBER_SIGN);
            }
        }
        assert(!path.contains(NUMBER_SIGN)) by {
            if path.contains(NUMBER_SIGN) {
                let k: int = choose|k: int| 0 <= k < path.len() && path[k] == NUMBER_SIGN;
                if at > 0 {
                    assert(target[k] == NUMBER_SIGN);
                }
            }
        }
        lemma_pieces_hold_no(query, AMPERSAND, NUMBER_SIGN);
        stripping_removes_only_the_signature(parameters);
        assert forall|i: int| 0 <= i < retained.len() implies !(#[trigger] retained[i]).contains(
            NUMBER_SIGN,
        ) by {
            assert(parameters.contains(retained[i]));
            let k: int = choose|k: int| 0 <= k < parameters.len() && parameters[k] == retained[i];
            assert(!parameters[k].contains(NUMBER_SIGN));
        }
        assert(!seq![AMPERSAND].contains(NUMBER_SIGN));
        lemma_joined_holds_no(retained, seq![AMPERSAND], NUMBER_SIGN);
        let rest: Seq<u8> = joined(retained, seq![AMPERSAND]);
        let stripped: Seq<u8> = stripped_target(path, retained);
        if stripped.contains(NUMBER_SIGN) {
            let k: int = choose|k: int| 0 <= k < stripped.len() && stripped[k] == NUMBER_SIGN;
            if k < path.len() {
                assert(path[k] == NUMBER_SIGN);
            } else if k > path.len() {
                assert(rest[k - path.len() - 1] == NUMBER_SIGN);
            }
        }
    }
}

/// Stripping a signature leaves every other parameter, in order, and no
/// parameter that carries one.
pub proof fn stripping_removes_only_the_signature(parameters: Seq<Seq<u8>>)
    ensures
        unsigned_parameters(parameters).len() + signatures(parameters).len() == parameters.len(),
        forall|i: int|
            0 <= i < unsigned_parameters(parameters).len() ==> !carries_signature(
                #[trigger] unsigned_parameters(parameters)[i],
            ) && parameters.contains(unsigned_parameters(parameters)[i]),
        forall|i: int|
            0 <= i < parameters.len() && !carries_signature(#[trigger] parameters[i])
                ==> unsigned_parameters(parameters).contains(parameters[i]),
    decreases parameters.len(),
{
    if parameters.len() > 0 {
        let shorter: Seq<Seq<u8>> = parameters.drop_last();
        stripping_removes_only_the_signature(shorter);
        let front: Seq<Seq<u8>> = unsigned_parameters(shorter);
        let all: Seq<Seq<u8>> = unsigned_parameters(parameters);
        assert forall|i: int| 0 <= i < all.len() implies !carries_signature(#[trigger] all[i])
            && parameters.contains(all[i]) by {
            if i < front.len() {
                assert(all[i] == front[i]);
                let k: int = choose|k: int| 0 <= k < shorter.len() && shorter[k] == front[i];
                assert(parameters[k] == all[i]);
            } else {
                assert(parameters[parameters.len() - 1] == all[i]);
            }
        }
        assert forall|i: int|
            0 <= i < parameters.len() && !carries_signature(
                #[trigger] parameters[i],
            ) implies all.contains(parameters[i]) by {
            if i < shorter.len() {
                assert(shorter[i] == parameters[i]);
                let k: int = choose|k: int| 0 <= k < front.len() && front[k] == shorter[i];
                assert(all[k] == parameters[i]);
            } else {
                assert(all[all.len() - 1] == parameters[i]);
            }
        }
    }
}

/// What becomes of the target of a forwarded request: its path and query alone,
/// `/` where it has none.
pub open spec fn forwarded_target(head: RequestHead) -> Option<Seq<u8>> {
    target_text(
        match head.path_and_query {
            Some(target) => target@,
            None => "/".spec_bytes(),
        },
    )
}

/// Whether a request that is no CONNECT was made the one that the local service is sent.
pub open spec fn finalized(
    before: RequestHead,
    after: RequestHead,
    peer: Seq<u8>,
    host: Seq<u8>,
    kind: PreparedRequestKind,
) -> bool {
    &&& header_fields(after.headers) == request_fields(
        header_fields(before.headers),
        peer,
        host,
        kind,
    )
    &&& opt_view(after.path_and_query) == forwarded_target(before)
    &&& before.path_and_query is None ==> opt_view(after.path_and_query) == Some(seq![SLASH])
    &&& before.path_and_query is Some && !before.path_and_query->0@.contains(NUMBER_SIGN)
        ==> opt_view(after.path_and_query) == opt_view(before.path_and_query)
    &&& after.scheme is None
    &&& after.authority is None
    &&& after.version == Version::Http11
    &&& after.method@ == (if kind is WebSocket {
        "GET".spec_bytes()
    } else {
        before.method@
    })
    &&& after.extended_protocol == before.extended_protocol
    &&& after.body_size_limit == before.body_size_limit
}

/// Makes a checked request the one that the local service is sent: its own
/// header fields, its path and query alone, over HTTP/1.1. A CONNECT request has
/// nothing to send. `peer` is how the client's address is written.
pub fn finalize_request(
    request: &mut RequestHead,
    peer: &[u8],
    hostname: &HttpHostname,
    kind: &PreparedRequestKind,
) -> (result: Result<(), RequestRejection>)
    requires
        kind.wf(),
        has_room(header_fields(old(request).headers)),
    ensures
        kind is Connect ==> result is Ok && *final(request) == *old(request),
        !(kind is Connect) ==> result == (if !is_text(peer@) {
            Err(rejection(RejectionReason::InvalidPeerAddress))
        } else if !is_text(hostname.bytes()) {
            Err(rejection(RejectionReason::InvalidCanonicalHost))
        } else if forwarded_target(*old(request)) is None {
            Err(rejection(RejectionReason::InvalidRequestTarget))
        } else {
            Ok(())
        }),
        !(kind is Connect) && result is Ok ==> finalized(
            *old(request),
            *final(request),
            peer@,
            hostname.bytes(),
            *kind,
        ),
        is_text(peer@) && is_text(hostname.bytes()) && (old(request).path_and_query matches Some(
            target,
        ) ==> ordinary_target(target@)) ==> result is Ok,
{
    if let PreparedRequestKind::Connect(_) = kind {
        return Ok(());
    }
    sanitize_request_headers(&mut request.headers, peer, hostname.as_bytes(), kind)?;
    if let PreparedRequestKind::WebSocket(_) = kind {
        request.method = copy_of("GET".as_bytes());
    }
    proof {
        reveal_strlit("/");
        is_ascii_spec_bytes("/");
        assert("/".spec_bytes() =~= seq![SLASH]);
    }
    let target: Option<Vec<u8>> = match &request.path_and_query {
        Some(target) => read_target(target.as_slice()),
        None => read_target("/".as_bytes()),
    };
    match target {
        None => Err(reject(RejectionReason::InvalidRequestTarget)),
        Some(target) => {
            request.path_and_query = Some(target);
            request.scheme = None;
            request.authority = None;
            request.version = Version::Http11;
            Ok(())
        },
    }
}

/// A forwarded request keeps its path and its query: the local service is sent the target
/// that the client asked for, whole.
pub proof fn forwarded_requests_keep_path_and_query(
    before: RequestHead,
    after: RequestHead,
    peer: Seq<u8>,
    host: Seq<u8>,
    kind: PreparedRequestKind,
)
    requires
        finalized(before, after, peer, host, kind),
        before.path_and_query is Some,
        !before.path_and_query->0@.contains(NUMBER_SIGN),
    ensures
        after.spec_path() == before.spec_path(),
        after.spec_query() == before.spec_query(),
        opt_view(after.path_and_query) == opt_view(before.path_and_query),
{
}

/// A request without a target of its own is forwarded to the root.
pub proof fn requests_without_a_target_go_to_the_root(
    before: RequestHead,
    after: RequestHead,
    peer: Seq<u8>,
    host: Seq<u8>,
    kind: PreparedRequestKind,
)
    requires
        finalized(before, after, peer, host, kind),
        before.path_and_query is None,
    ensures
        after.spec_path() == seq![SLASH],
        after.spec_query() is None,
{
    assert(!seq![SLASH].contains(QUESTION_MARK));
    targets_are_their_path_and_query(seq![SLASH], Seq::empty());
}

/// The local service is sent a request of its own: over HTTP/1.1, with a target that names
/// no host, and with the client's method, unless a WebSocket is asked for with GET.
pub proof fn forwarded_requests_are_plain(
    before: RequestHead,
    after: RequestHead,
    peer: Seq<u8>,
    host: Seq<u8>,
    kind: PreparedRequestKind,
)
    requires
        finalized(before, after, peer, host, kind),
    ensures
        after.version == Version::Http11,
        after.scheme is None,
        after.authority is None,
        !(kind is WebSocket) ==> after.method@ == before.method@,
        kind is WebSocket ==> after.method@ == "GET".spec_bytes(),
{
}

/// A parameter is its name and its value.
pub proof fn parameters_are_name_and_value(name: Seq<u8>, value: Seq<u8>)
    requires
        !name.contains(EQUALS),
    ensures
        parameter_name(name + seq![EQUALS] + value) == name,
        parameter_value(name + seq![EQUALS] + value) == value,
        parameter_name(name) == name,
        parameter_value(name).len() == 0,
{
    let whole: Seq<u8> = name + seq![EQUALS] + value;
    assert forall|k: int| 0 <= k < name.len() implies name[k] != EQUALS by {}
    lemma_first_or_len(whole, EQUALS, name.len() as int);
    lemma_first_or_len(name, EQUALS, name.len() as int);
    assert(whole.take(name.len() as int) =~= name);
    assert(whole.skip((name.len() + 1) as int) =~= value);
    assert(name.take(name.len() as int) =~= name);
}

/// Whether a parameter is named `tp_access`.
spec fn is_signature(parameter: Seq<u8>) -> bool {
    parameter.take(first_or_len(parameter, 61)) == "tp_access".spec_bytes()
}

proof fn lemma_unsigned(parameters: Seq<Seq<u8>>)
    requires
        forall|i: int| 0 <= i < parameters.len() ==> !is_signature(#[trigger] parameters[i]),
    ensures
        signatures(parameters) == Seq::<Seq<u8>>::empty(),
        unsigned_parameters(parameters) == parameters,
    decreases parameters.len(),
{
    if parameters.len() > 0 {
        let front: Seq<Seq<u8>> = parameters.drop_last();
        assert forall|i: int| 0 <= i < front.len() implies !is_signature(#[trigger] front[i]) by {
            assert(front[i] == parameters[i]);
        }
        lemma_unsigned(front);
        assert(!is_signature(parameters[parameters.len() - 1]));
        assert(front.push(parameters.last()) =~= parameters);
    } else {
        assert(parameters =~= Seq::<Seq<u8>>::empty());
    }
}

proof fn lemma_one_signature(
    earlier: Seq<Seq<u8>>,
    signature: Seq<u8>,
    others: Seq<Seq<u8>>,
)
    requires
        is_signature(signature),
        forall|i: int| 0 <= i < earlier.len() ==> !is_signature(#[trigger] earlier[i]),
        forall|i: int| 0 <= i < others.len() ==> !is_signature(#[trigger] others[i]),
    ensures
        signatures(earlier + seq![signature] + others) == seq![parameter_value(signature)],
        unsigned_parameters(earlier + seq![signature] + others) == earlier + others,
    decreases others.len(),
{
    let all: Seq<Seq<u8>> = earlier + seq![signature] + others;
    if others.len() == 0 {
        lemma_unsigned(earlier);
        assert(all.drop_last() =~= earlier);
        assert(all.last() == signature);
        assert(signatures(all) =~= seq![parameter_value(signature)]);
        assert(earlier + others =~= earlier);
    } else {
        let fewer: Seq<Seq<u8>> = others.drop_last();
        assert forall|i: int| 0 <= i < fewer.len() implies !is_signature(#[trigger] fewer[i]) by {
            assert(fewer[i] == others[i]);
        }
        lemma_one_signature(earlier, signature, fewer);
        assert(all.drop_last() =~= earlier + seq![signature] + fewer);
        assert(all.last() == others.last());
        assert(!is_signature(others[others.len() - 1]));
        assert((earlier + fewer).push(others.last()) =~= earlier + others);
    }
}

/// A query with one parameter `tp_access`, wherever it stands, is signed by that
/// parameter's value; taking the signature out leaves the parameters before and behind
/// it, in their order.
pub proof fn signed_queries_are_read_by_their_parameter(
    query: Seq<u8>,
    earlier: Seq<Seq<u8>>,
    token: Seq<u8>,
    others: Seq<Seq<u8>>,
)
    requires
        token.len() > 0,
        split_at_each(query, AMPERSAND) == earlier + seq![
            "tp_access".spec_bytes() + seq![EQUALS] + token,
        ] + others,
        forall|i: int|
            0 <= i < earlier.len() ==> parameter_name(#[trigger] earlier[i])
                != "tp_access".spec_bytes(),
        forall|i: int|
            0 <= i < others.len() ==> parameter_name(#[trigger] others[i])
                != "tp_access".spec_bytes(),
    ensures
        query_signature(Some(query)) == Ok::<_, RejectionReason>(token),
        unsigned_parameters(split_at_each(query, AMPERSAND)) == earlier + others,
{
    let name: Seq<u8> = "tp_access".spec_bytes();
    let signature: Seq<u8> = name + seq![EQUALS] + token;
    reveal_strlit("tp_access");
    is_ascii_spec_bytes("tp_access");
    assert(!name.contains(EQUALS));
    parameters_are_name_and_value(name, token);
    assert forall|i: int| 0 <= i < earlier.len() implies !is_signature(#[trigger] earlier[i]) by {
        assert(parameter_name(earlier[i]) != name);
    }
    assert forall|i: int| 0 <= i < others.len() implies !is_signature(#[trigger] others[i]) by {
        assert(parameter_name(others[i]) != name);
    }
    lemma_one_signature(earlier, signature, others);
}

/// A request that must be signed passes only with a valid signature, and each refusal
/// says what was wrong: a signature that is missing, several or empty ones, one that is
/// out of its time, one that cannot be read, or one that no key made.
pub proof fn only_valid_signatures_pass(head: RequestHead, verdict: SignedAccessVerdict)
    ensures
        authorized_target(head, verdict) is Ok ==> verdict is Valid && query_signature(
            head.spec_query(),
        ) is Ok,
        head.spec_query() is None ==> authorized_target(head, verdict) == Err::<Seq<u8>, _>(
            RejectionReason::SignedAccessMissing,
        ),
        query_signature(head.spec_query()) is Ok ==> (match verdict {
            SignedAccessVerdict::Valid => true,
            SignedAccessVerdict::ClockUnavailable => authorized_target(head, verdict) == Err::<
                Seq<u8>,
                _,
            >(RejectionReason::SignedAccessClock),
            SignedAccessVerdict::Refused(SignedAccessError::MalformedToken) => authorized_target(
                head,
                verdict,
            ) == Err::<Seq<u8>, _>(RejectionReason::SignedAccessMalformed),
            SignedAccessVerdict::Refused(SignedAccessError::Untrusted) => authorized_target(
                head,
                verdict,
            ) == Err::<Seq<u8>, _>(RejectionReason::SignedAccessInvalid),
            SignedAccessVerdict::Refused(_) => authorized_target(head, verdict) == Err::<
                Seq<u8>,
                _,
            >(RejectionReason::SignedAccessExpired),
        }),
{
}

/// A request that passed by its signature keeps its path and its other parameters.
pub proof fn signed_requests_keep_path_and_parameters(
    before: RequestHead,
    after: RequestHead,
    earlier: Seq<Seq<u8>>,
    token: Seq<u8>,
    others: Seq<Seq<u8>>,
)
    requires
        signature_taken_out(before, after),
        before.path_and_query is Some,
        !before.path_and_query->0@.contains(NUMBER_SIGN),
        before.spec_query() is Some,
        token.len() > 0,
        split_at_each(before.spec_query()->0, AMPERSAND) == earlier + seq![
            "tp_access".spec_bytes() + seq![EQUALS] + token,
        ] + others,
        forall|i: int|
            0 <= i < earlier.len() ==> parameter_name(#[trigger] earlier[i])
                != "tp_access".spec_bytes(),
        forall|i: int|
            0 <= i < others.len() ==> parameter_name(#[trigger] others[i])
                != "tp_access".spec_bytes(),
    ensures
        after.spec_path() == before.spec_path(),
        earlier.len() + others.len() == 0 ==> after.spec_query() is None,
        earlier.len() + others.len() > 0 ==> after.spec_query() == Some(
            joined(earlier + others, seq![AMPERSAND]),
        ),
{
    signed_queries_are_read_by_their_parameter(
        before.spec_query()->0,
        earlier,
        token,
        others,
    );
}

/// A target that has a scheme and no authority, or an authority and no scheme, is none that
/// a signature can be taken out of.
pub proof fn half_targets_are_refused(head: RequestHead, verdict: SignedAccessVerdict)
    requires
        head.scheme is Some <==> head.authority is None,
    ensures
        authorized_target(head, verdict) is Err,
{
}

} // verus!
