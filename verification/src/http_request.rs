//! A request's head as plain values, and the parts of its target.

use vstd::prelude::*;
use vstd::slice::slice_subrange;

use crate::bytes::{
    copy_of, find_byte, first_or_len, lemma_first_or_len, QUESTION_MARK, SLASH,
};

verus! {

/// The HTTP version that a message names.
#[derive(Debug, Clone, Copy, PartialEq, Eq, Structural)]
pub enum Version {
    Http09,
    Http10,
    Http11,
    Http2,
    Http3,
}

/// The protocol that a connection agreed on.
#[derive(Debug, Clone, Copy, PartialEq, Eq, Structural)]
pub enum NegotiatedHttpProtocol {
    Http1,
    Http2,
}

/// The head of a request: its method, its target in parts, its header fields,
/// the protocol that an extended CONNECT names, and how long its body is at most.
#[derive(Debug)]
pub struct RequestHead {
    pub method: Vec<u8>,
    pub version: Version,
    pub scheme: Option<Vec<u8>>,
    pub authority: Option<Vec<u8>>,
    pub path_and_query: Option<Vec<u8>>,
    pub extended_protocol: Option<Vec<u8>>,
    pub headers: hyper::HeaderMap,
    pub body_size_limit: Option<u64>,
}

/// The head of a response.
#[derive(Debug)]
pub struct ResponseHead {
    pub status: u16,
    pub version: Version,
    pub headers: hyper::HeaderMap,
}

/// The path of a target: what stands before the question mark, `/` where that is
/// nothing, and nothing where there is no target.
pub open spec fn path_of(path_and_query: Option<Seq<u8>>) -> Seq<u8> {
    match path_and_query {
        None => Seq::empty(),
        Some(target) => if first_or_len(target, QUESTION_MARK) == 0 {
            seq![SLASH]
        } else {
            target.take(first_or_len(target, QUESTION_MARK))
        },
    }
}

/// The query of a target: what stands behind the question mark.
pub open spec fn query_of(path_and_query: Option<Seq<u8>>) -> Option<Seq<u8>> {
    match path_and_query {
        None => None,
        Some(target) => if first_or_len(target, QUESTION_MARK) < target.len() {
            Some(target.skip(first_or_len(target, QUESTION_MARK) + 1))
        } else {
            None
        },
    }
}

/// The bytes that an optional byte string holds.
pub open spec fn opt_view(value: Option<Vec<u8>>) -> Option<Seq<u8>> {
    match value {
        Some(v) => Some(v@),
        None => None,
    }
}

impl RequestHead {
    /// The target's path.
    pub open spec fn spec_path(self) -> Seq<u8> {
        path_of(opt_view(self.path_and_query))
    }

    /// The target's query.
    pub open spec fn spec_query(self) -> Option<Seq<u8>> {
        query_of(opt_view(self.path_and_query))
    }

    /// The target's path.
    pub fn path(&self) -> (path: Vec<u8>)
        ensures
            path@ == self.spec_path(),
    {
        match &self.path_and_query {
            None => Vec::new(),
            Some(target) => {
                let end: usize = match find_byte(target.as_slice(), QUESTION_MARK) {
                    Some(at) => at,
                    None => target.len(),
                };
                proof {
                    lemma_first_or_len(target@, QUESTION_MARK, end as int);
                }
                if end == 0 {
                    let mut root: Vec<u8> = Vec::new();
                    root.push(SLASH);
                    proof {
                        assert(root@ =~= seq![SLASH]);
                    }
                    root
                } else {
                    copy_of(slice_subrange(target.as_slice(), 0, end))
                }
            },
        }
    }

    /// The target's query.
    pub fn query(&self) -> (query: Option<Vec<u8>>)
        ensures
            opt_view(query) == self.spec_query(),
    {
        match &self.path_and_query {
            None => None,
            Some(target) => {
                let end: usize = target.len();
                match find_byte(target.as_slice(), QUESTION_MARK) {
                    Some(at) => {
                        proof {
                            lemma_first_or_len(target@, QUESTION_MARK, at as int);
                            assert(target@.subrange(at + 1, target@.len() as int) =~= target@.skip(
                                at + 1,
                            ));
                        }
                        Some(copy_of(slice_subrange(target.as_slice(), at + 1, end)))
                    },
                    None => {
                        proof {
                            lemma_first_or_len(target@, QUESTION_MARK, target@.len() as int);
                        }
                        None
                    },
                }
            },
        }
    }
}

/// A target that has no path is one for the root, and where there is no target there is
/// neither path nor query.
pub proof fn nothing_asked_for_is_the_root(query: Seq<u8>)
    ensures
        path_of(Some(Seq::empty())) == "/"@.map_values(|c: char| c as u8),
        path_of(Some(seq![63u8] + query)) == "/"@.map_values(|c: char| c as u8),
        query_of(Some(seq![63u8] + query)) == Some(query),
        query_of(Some(Seq::empty())) is None,
        path_of(None).len() == 0,
        query_of(None) is None,
{
    reveal_strlit("/");
    let root: Seq<u8> = "/"@.map_values(|c: char| c as u8);
    assert(root =~= seq![SLASH]);
    let whole: Seq<u8> = seq![63u8] + query;
    lemma_first_or_len(whole, QUESTION_MARK, 0);
    lemma_first_or_len(Seq::<u8>::empty(), QUESTION_MARK, 0);
    assert(whole.skip(1) =~= query);
}

} // verus!
