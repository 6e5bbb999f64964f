//! The registry of live sessions and of the tunnels that they serve.

use vstd::prelude::*;
use vstd::string::*;
use vstd::utf8::encode_utf8;

use crate::clock::saturated_u64;
use crate::ingress_stream::RoutedStream;
use crate::multiplex::{AuthorizationSourceStatus, EdgeAuthorizationStatus};
use crate::names::TunnelId;
use crate::protocol::{RouteError, StreamId, TransportSessionId};
use crate::text_order::{
    nothing_precedes_itself, order_is_total, order_is_transitive, precedes, stands_before,
};

verus! {

/// A live session: its identity, the tunnel that it serves, and whether it showed
/// a certificate.
#[derive(Debug, PartialEq, Eq)]
pub struct LiveSession {
    pub session_id: TransportSessionId,
    pub tunnel_id: TunnelId,
    pub certified: bool,
}

impl Clone for LiveSession {
    fn clone(&self) -> (copy: LiveSession)
        ensures
            copy == *self,
    {
        LiveSession {
            session_id: self.session_id,
            tunnel_id: self.tunnel_id.clone(),
            certified: self.certified,
        }
    }
}

/// A tunnel and the session that serves it.
#[derive(Debug, PartialEq, Eq)]
pub struct TunnelBinding {
    pub tunnel_id: TunnelId,
    pub session_id: TransportSessionId,
}

impl Clone for TunnelBinding {
    fn clone(&self) -> (copy: TunnelBinding)
        ensures
            copy == *self,
    {
        TunnelBinding { tunnel_id: self.tunnel_id.clone(), session_id: self.session_id }
    }
}

/// The live sessions, in the order of their identities, the tunnels that they
/// serve, in the order of their names, the authorization that they are held to,
/// and whether streams are opened at all.
#[derive(Debug)]
pub struct EdgeSessionRouter {
    pub sessions: Vec<LiveSession>,
    pub tunnels: Vec<TunnelBinding>,
    pub authorization: EdgeAuthorizationStatus,
    pub accepting_streams: bool,
}

/// A tunnel's name in bytes.
pub open spec fn name_bytes(tunnel: TunnelId) -> Seq<u8> {
    encode_utf8(tunnel@)
}

/// Whether sessions stand in the order of their identities.
pub open spec fn sessions_ordered(sessions: Seq<LiveSession>) -> bool {
    forall|i: int, j: int|
        0 <= i < j < sessions.len() ==> (#[trigger] sessions[i]).session_id.value < (
        #[trigger] sessions[j]).session_id.value
}

/// Whether bindings stand in the order of their tunnels' names.
pub open spec fn tunnels_ordered(tunnels: Seq<TunnelBinding>) -> bool {
    forall|i: int, j: int|
        0 <= i < j < tunnels.len() ==> stands_before(
            name_bytes((#[trigger] tunnels[i]).tunnel_id),
            name_bytes((#[trigger] tunnels[j]).tunnel_id),
        )
}

/// Whether a session is live.
pub open spec fn is_live(sessions: Seq<LiveSession>, id: TransportSessionId) -> bool {
    exists|i: int| 0 <= i < sessions.len() && #[trigger] sessions[i].session_id == id
}

/// Whether a session serves a tunnel.
pub open spec fn is_bound(
    tunnels: Seq<TunnelBinding>,
    tunnel: Seq<u8>,
    id: TransportSessionId,
) -> bool {
    exists|i: int|
        0 <= i < tunnels.len() && name_bytes((#[trigger] tunnels[i]).tunnel_id) == tunnel
            && tunnels[i].session_id == id
}

/// Whether a binding is to a live session that serves just that tunnel.
pub open spec fn is_served(sessions: Seq<LiveSession>, binding: TunnelBinding) -> bool {
    exists|k: int|
        0 <= k < sessions.len() && (#[trigger] sessions[k]).session_id == binding.session_id
            && name_bytes(sessions[k].tunnel_id) == name_bytes(binding.tunnel_id)
}

/// Whether every binding is to a live session that serves just that tunnel.
pub open spec fn bindings_live(tunnels: Seq<TunnelBinding>, sessions: Seq<LiveSession>) -> bool {
    forall|i: int| 0 <= i < tunnels.len() ==> is_served(sessions, #[trigger] tunnels[i])
}

/// Whether one of the first `n` sessions has that identity and loses its
/// authorization.
pub open spec fn loses_authorization(
    sessions: Seq<LiveSession>,
    n: int,
    granted: Seq<TransportSessionId>,
    id: TransportSessionId,
) -> bool {
    exists|m: int|
        0 <= m < n && (#[trigger] sessions[m]).session_id == id && !keeps_authorization(
            sessions[m],
            granted,
        )
}

/// The identities of sessions.
pub open spec fn session_ids(sessions: Seq<LiveSession>) -> Seq<TransportSessionId> {
    sessions.map_values(|session: LiveSession| session.session_id)
}

/// Whether a session keeps its authorization: it showed a certificate, and the
/// snapshot grants what it registered.
pub open spec fn keeps_authorization(
    session: LiveSession,
    granted: Seq<TransportSessionId>,
) -> bool {
    session.certified && granted.contains(session.session_id)
}

fn contains_id(ids: &Vec<TransportSessionId>, id: TransportSessionId) -> (yes: bool)
    ensures
        yes == ids@.contains(id),
{
    let mut i: usize = 0;
    while i < ids.len()
        invariant
            i <= ids@.len(),
            forall|k: int| 0 <= k < i ==> ids@[k] != id,
        decreases ids@.len() - i,
    {
        if ids[i] == id {
            return true;
        }
        i = i + 1;
    }
    false
}

impl EdgeSessionRouter {
    /// Sessions and tunnels stand in order, so that none stands twice, and every
    /// tunnel is bound to a live session that serves it.
    pub open spec fn wf(self) -> bool {
        &&& sessions_ordered(self.sessions@)
        &&& tunnels_ordered(self.tunnels@)
        &&& bindings_live(self.tunnels@, self.sessions@)
    }

    /// A registry without sessions.
    pub fn new(authorization: EdgeAuthorizationStatus) -> (router: EdgeSessionRouter)
        ensures
            router.wf(),
            router.sessions@.len() == 0,
            router.tunnels@.len() == 0,
            router.authorization == authorization,
            router.accepting_streams,
    {
        EdgeSessionRouter {
            sessions: Vec::new(),
            tunnels: Vec::new(),
            authorization,
            accepting_streams: true,
        }
    }

    /// The identities of the live sessions, in order.
    pub fn connected_session_ids(&self) -> (ids: Vec<TransportSessionId>)
        ensures
            ids@ == session_ids(self.sessions@),
    {
        let mut ids: Vec<TransportSessionId> = Vec::new();
        let mut i: usize = 0;
        while i < self.sessions.len()
            invariant
                i <= self.sessions@.len(),
                ids@ =~= session_ids(self.sessions@.take(i as int)),
            decreases self.sessions@.len() - i,
        {
            ids.push(self.sessions[i].session_id);
            proof {
                assert(session_ids(self.sessions@.take(i + 1)) =~= session_ids(
                    self.sessions@.take(i as int),
                ).push(self.sessions@[i as int].session_id));
            }
            i = i + 1;
        }
        proof {
            assert(self.sessions@.take(i as int) =~= self.sessions@);
        }
        ids
    }

    fn session_at(&self, id: TransportSessionId) -> (at: Option<usize>)
        ensures
            match at {
                Some(i) => i < self.sessions@.len() && self.sessions@[i as int].session_id == id,
                None => !is_live(self.sessions@, id),
            },
    {
        let mut i: usize = 0;
        while i < self.sessions.len()
            invariant
                i <= self.sessions@.len(),
                forall|k: int| 0 <= k < i ==> (#[trigger] self.sessions@[k]).session_id != id,
            decreases self.sessions@.len() - i,
        {
            if self.sessions[i].session_id == id {
                return Some(i);
            }
            i = i + 1;
        }
        None
    }

    /// Whether a session is live.
    pub fn is_connected(&self, id: TransportSessionId) -> (yes: bool)
        ensures
            yes == is_live(self.sessions@, id),
    {
        self.session_at(id).is_some()
    }

    /// The session that serves a tunnel.
    pub fn resolve_tunnel(&self, tunnel: &TunnelId) -> (session: Option<TransportSessionId>)
        requires
            self.wf(),
        ensures
            match session {
                Some(id) => is_bound(self.tunnels@, name_bytes(*tunnel), id) && is_live(
                    self.sessions@,
                    id,
                ),
                None => forall|id: TransportSessionId| !is_bound(
                    self.tunnels@,
                    name_bytes(*tunnel),
                    id,
                ),
            },
    {
        let name: &[u8] = tunnel.text.as_str().as_bytes();
        let mut i: usize = 0;
        while i < self.tunnels.len()
            invariant
                i <= self.tunnels@.len(),
                self.wf(),
                name@ == name_bytes(*tunnel),
                forall|k: int|
                    0 <= k < i ==> name_bytes((#[trigger] self.tunnels@[k]).tunnel_id) != name@,
            decreases self.tunnels@.len() - i,
        {
            if crate::bytes::same_bytes(
                self.tunnels[i].tunnel_id.text.as_str().as_bytes(),
                name,
            ) {
                proof {
                    let binding: TunnelBinding = self.tunnels@[i as int];
                    let k: int = choose|k: int|
                        0 <= k < self.sessions@.len() && (
                        #[trigger] self.sessions@[k]).session_id == binding.session_id && name_bytes(
                            self.sessions@[k].tunnel_id,
                        ) == name_bytes(binding.tunnel_id);
                    assert(self.sessions@[k].session_id == binding.session_id);
                }
                return Some(self.tunnels[i].session_id);
            }
            i = i + 1;
        }
        None
    }

    /// The tunnels that are served and their sessions, in the order of names.
    pub fn connected_tunnels(&self) -> (bindings: Vec<TunnelBinding>)
        ensures
            bindings@ == self.tunnels@,
    {
        let mut bindings: Vec<TunnelBinding> = Vec::new();
        let mut i: usize = 0;
        while i < self.tunnels.len()
            invariant
                i <= self.tunnels@.len(),
                bindings@ =~= self.tunnels@.take(i as int),
            decreases self.tunnels@.len() - i,
        {
            bindings.push(self.tunnels[i].clone());
            i = i + 1;
        }
        proof {
            assert(self.tunnels@.take(i as int) =~= self.tunnels@);
        }
        bindings
    }

    /// The authorization that sessions are held to.
    pub fn authorization_status(&self) -> (status: EdgeAuthorizationStatus)
        ensures
            status == self.authorization,
    {
        self.authorization
    }

    /// Publishes a session and the tunnel that it serves, unless its authorization
    /// was withdrawn meanwhile.
    pub fn publish_session(&mut self, session: LiveSession, still_authorized: bool) -> (published:
        bool)
        requires
            old(self).wf(),
            !is_live(old(self).sessions@, session.session_id),
            forall|id: TransportSessionId| !is_bound(
                old(self).tunnels@,
                name_bytes(session.tunnel_id),
                id,
            ),
        ensures
            final(self).wf(),
            final(self).authorization == old(self).authorization,
            final(self).accepting_streams == old(self).accepting_streams,
            published == still_authorized,
            if published {
                &&& exists|i: int|
                    0 <= i <= old(self).sessions@.len() && final(self).sessions@
                        == #[trigger] old(self).sessions@.insert(i, session)
                &&& exists|i: int|
                    0 <= i <= old(self).tunnels@.len() && final(self).tunnels@
                        == #[trigger] old(self).tunnels@.insert(
                        i,
                        TunnelBinding {
                            tunnel_id: session.tunnel_id,
                            session_id: session.session_id,
                        },
                    )
            } else {
                final(self).sessions@ == old(self).sessions@ && final(self).tunnels@
                    == old(self).tunnels@
            },
    {
        if !still_authorized {
            return false;
        }
        let binding: TunnelBinding = TunnelBinding {
            tunnel_id: session.tunnel_id.clone(),
            session_id: session.session_id,
        };
        let at: usize = self.session_place(session.session_id);
        let place: usize = self.tunnel_place(&session.tunnel_id);
        let ghost sessions: Seq<LiveSession> = self.sessions@;
        let ghost tunnels: Seq<TunnelBinding> = self.tunnels@;
        self.sessions.insert(at, session);
        self.tunnels.insert(place, binding);
        proof {
            let more: Seq<LiveSession> = sessions.insert(at as int, session);
            let bound: Seq<TunnelBinding> = tunnels.insert(place as int, binding);
            assert(self.sessions@ == more);
            assert(self.tunnels@ == bound);
            assert(more[at as int] == session);
            assert forall|i: int| 0 <= i < bound.len() implies is_served(
                more,
                #[trigger] bound[i],
            ) by {
                if i == place {
                    assert(more[at as int].session_id == bound[i].session_id);
                } else {
                    let m: int = if i < place { i } else { i - 1 };
                    assert(bound[i] == tunnels[m]);
                    let k: int = choose|k: int|
                        0 <= k < sessions.len() && (#[trigger] sessions[k]).session_id
                            == tunnels[m].session_id && name_bytes(sessions[k].tunnel_id)
                            == name_bytes(tunnels[m].tunnel_id);
                    let n: int = if k < at { k } else { k + 1 };
                    assert(more[n] == sessions[k]);
                }
            }
        }
        true
    }

    fn session_place(&self, id: TransportSessionId) -> (at: usize)
        requires
            sessions_ordered(self.sessions@),
            !is_live(self.sessions@, id),
        ensures
            at <= self.sessions@.len(),
            forall|session: LiveSession| session.session_id == id ==> sessions_ordered(
                #[trigger] self.sessions@.insert(at as int, session),
            ),
    {
        let mut at: usize = 0;
        while at < self.sessions.len() && self.sessions[at].session_id.value < id.value
            invariant
                at <= self.sessions@.len(),
                forall|k: int|
                    0 <= k < at ==> (#[trigger] self.sessions@[k]).session_id.value < id.value,
            decreases self.sessions@.len() - at,
        {
            at = at + 1;
        }
        proof {
            let before: Seq<LiveSession> = self.sessions@;
            if at < before.len() {
                assert(before[at as int].session_id != id);
            }
            assert forall|session: LiveSession| session.session_id == id implies sessions_ordered(
                #[trigger] before.insert(at as int, session),
            ) by {
                let after: Seq<LiveSession> = before.insert(at as int, session);
                assert forall|i: int, j: int| 0 <= i < j < after.len() implies (
                #[trigger] after[i]).session_id.value < (
                #[trigger] after[j]).session_id.value by {
                    let m: int = if i < at { i } else { i - 1 };
                    let n: int = if j < at { j } else { j - 1 };
                    if i != at {
                        assert(after[i] == before[m]);
                    }
                    if j != at {
                        assert(after[j] == before[n]);
                    }
                    if i == at && n != at {
                        assert(before[at as int].session_id.value < before[n].session_id.value);
                    }
                }
            }
        }
        at
    }

    fn tunnel_place(&self, tunnel: &TunnelId) -> (at: usize)
        requires
            tunnels_ordered(self.tunnels@),
            forall|id: TransportSessionId| !is_bound(self.tunnels@, name_bytes(*tunnel), id),
        ensures
            at <= self.tunnels@.len(),
            forall|binding: TunnelBinding| name_bytes(binding.tunnel_id) == name_bytes(*tunnel)
                ==> tunnels_ordered(#[trigger] self.tunnels@.insert(at as int, binding)),
    {
        let name: &[u8] = tunnel.text.as_str().as_bytes();
        let mut at: usize = 0;
        while at < self.tunnels.len() && precedes(
            self.tunnels[at].tunnel_id.text.as_str().as_bytes(),
            name,
        )
            invariant
                at <= self.tunnels@.len(),
                name@ == name_bytes(*tunnel),
                forall|k: int|
                    0 <= k < at ==> stands_before(
                        name_bytes((#[trigger] self.tunnels@[k]).tunnel_id),
                        name@,
                    ),
            decreases self.tunnels@.len() - at,
        {
            at = at + 1;
        }
        proof {
            let before: Seq<TunnelBinding> = self.tunnels@;
            if at < before.len() {
                let next: TunnelBinding = before[at as int];
                assert(name_bytes(next.tunnel_id) != name@) by {
                    if name_bytes(next.tunnel_id) == name@ {
                        assert(is_bound(before, name@, next.session_id));
                    }
                }
                order_is_total(name_bytes(next.tunnel_id), name@);
            }
            assert forall|binding: TunnelBinding|
                name_bytes(binding.tunnel_id) == name@ implies tunnels_ordered(
                #[trigger] before.insert(at as int, binding),
            ) by {
                let after: Seq<TunnelBinding> = before.insert(at as int, binding);
                assert forall|i: int, j: int| 0 <= i < j < after.len() implies stands_before(
                    name_bytes((#[trigger] after[i]).tunnel_id),
                    name_bytes((#[trigger] after[j]).tunnel_id),
                ) by {
                    let m: int = if i < at { i } else { i - 1 };
                    let n: int = if j < at { j } else { j - 1 };
                    if i != at {
                        assert(after[i] == before[m]);
                    }
                    if j != at {
                        assert(after[j] == before[n]);
                    }
                    if i == at && n != at {
                        order_is_transitive(
                            name@,
                            name_bytes(before[at as int].tunnel_id),
                            name_bytes(before[n].tunnel_id),
                        );
                    }
                }
            }
        }
        at
    }

    /// Forgets a session that has ended, and the binding of its tunnel.
    pub fn remove_session(&mut self, id: TransportSessionId)
        requires
            old(self).wf(),
        ensures
            final(self).wf(),
            final(self).authorization == old(self).authorization,
            final(self).accepting_streams == old(self).accepting_streams,
            forall|session: LiveSession| #[trigger]
                final(self).sessions@.contains(session) <==> old(self).sessions@.contains(session)
                    && session.session_id != id,
            forall|binding: TunnelBinding| #[trigger]
                final(self).tunnels@.contains(binding) <==> old(self).tunnels@.contains(binding)
                    && binding.session_id != id,
    {
        let mut gone: Vec<TransportSessionId> = Vec::new();
        gone.push(id);
        self.drop_sessions(&gone);
        proof {
            assert forall|other: TransportSessionId| gone@.contains(other) <==> other == id by {
                assert(gone@[0] == id);
            }
        }
    }

    fn drop_sessions(&mut self, gone: &Vec<TransportSessionId>)
        requires
            old(self).wf(),
        ensures
            final(self).wf(),
            final(self).authorization == old(self).authorization,
            final(self).accepting_streams == old(self).accepting_streams,
            forall|session: LiveSession| #[trigger]
                final(self).sessions@.contains(session) <==> old(self).sessions@.contains(session)
                    && !gone@.contains(session.session_id),
            forall|binding: TunnelBinding| #[trigger]
                final(self).tunnels@.contains(binding) <==> old(self).tunnels@.contains(binding)
                    && !gone@.contains(binding.session_id),
    {
        let ghost sessions: Seq<LiveSession> = self.sessions@;
        let ghost tunnels: Seq<TunnelBinding> = self.tunnels@;
        let mut kept: Vec<LiveSession> = Vec::new();
        let mut i: usize = 0;
        while i < self.sessions.len()
            invariant
                i <= self.sessions@.len(),
                sessions == self.sessions@,
                sessions_ordered(sessions),
                sessions_ordered(kept@),
                forall|k: int|
                    0 <= k < kept@.len() ==> !gone@.contains(
                        (#[trigger] kept@[k]).session_id,
                    ) && exists|m: int| 0 <= m < i && sessions[m] == kept@[k],
                forall|m: int|
                    0 <= m < i && !gone@.contains((#[trigger] sessions[m]).session_id)
                        ==> kept@.contains(sessions[m]),
            decreases self.sessions@.len() - i,
        {
            let ghost before: Seq<LiveSession> = kept@;
            if !contains_id(gone, self.sessions[i].session_id) {
                kept.push(self.sessions[i].clone());
                proof {
                    assert(kept@[before.len() as int] == sessions[i as int]);
                    assert forall|a: int, b: int| 0 <= a < b < kept@.len() implies (
                    #[trigger] kept@[a]).session_id.value < (
                    #[trigger] kept@[b]).session_id.value by {
                        assert(kept@[a] == before[a]);
                        if b == before.len() {
                            let m: int = choose|m: int| 0 <= m < i && sessions[m] == before[a];
                            assert(sessions[m].session_id.value < sessions[i as int].session_id.value);
                        } else {
                            assert(kept@[b] == before[b]);
                        }
                    }
                    assert forall|k: int| 0 <= k < kept@.len() implies !gone@.contains(
                        (#[trigger] kept@[k]).session_id,
                    ) && exists|m: int| 0 <= m < i + 1 && sessions[m] == kept@[k] by {
                        if k < before.len() {
                            assert(kept@[k] == before[k]);
                            let m: int = choose|m: int| 0 <= m < i && sessions[m] == before[k];
                            assert(sessions[m] == kept@[k]);
                        } else {
                            assert(sessions[i as int] == kept@[k]);
                        }
                    }
                    assert forall|m: int|
                        0 <= m < i + 1 && !gone@.contains(
                            (#[trigger] sessions[m]).session_id,
                        ) implies kept@.contains(sessions[m]) by {
                        if m < i {
                            assert(before.contains(sessions[m]));
                            let k: int = choose|k: int|
                                0 <= k < before.len() && before[k] == sessions[m];
                            assert(kept@[k] == sessions[m]);
                        } else {
                            assert(kept@[before.len() as int] == sessions[m]);
                        }
                    }
                }
            }
            i = i + 1;
        }
        let mut bound: Vec<TunnelBinding> = Vec::new();
        let mut j: usize = 0;
        while j < self.tunnels.len()
            invariant
                j <= self.tunnels@.len(),
                tunnels == self.tunnels@,
                tunnels_ordered(tunnels),
                tunnels_ordered(bound@),
                forall|k: int|
                    0 <= k < bound@.len() ==> !gone@.contains(
                        (#[trigger] bound@[k]).session_id,
                    ) && exists|m: int| 0 <= m < j && tunnels[m] == bound@[k],
                forall|m: int|
                    0 <= m < j && !gone@.contains((#[trigger] tunnels[m]).session_id)
                        ==> bound@.contains(tunnels[m]),
            decreases self.tunnels@.len() - j,
        {
            let ghost before: Seq<TunnelBinding> = bound@;
            if !contains_id(gone, self.tunnels[j].session_id) {
                bound.push(self.tunnels[j].clone());
                proof {
                    assert(bound@[before.len() as int] == tunnels[j as int]);
                    assert forall|a: int, b: int| 0 <= a < b < bound@.len() implies stands_before(
                        name_bytes((#[trigger] bound@[a]).tunnel_id),
                        name_bytes((#[trigger] bound@[b]).tunnel_id),
                    ) by {
                        assert(bound@[a] == before[a]);
                        if b == before.len() {
                            let m: int = choose|m: int| 0 <= m < j && tunnels[m] == before[a];
                            assert(stands_before(
                                name_bytes(tunnels[m].tunnel_id),
                                name_bytes(tunnels[j as int].tunnel_id),
                            ));
                        } else {
                            assert(bound@[b] == before[b]);
                        }
                    }
                    assert forall|k: int| 0 <= k < bound@.len() implies !gone@.contains(
                        (#[trigger] bound@[k]).session_id,
                    ) && exists|m: int| 0 <= m < j + 1 && tunnels[m] == bound@[k] by {
                        if k < before.len() {
                            assert(bound@[k] == before[k]);
                            let m: int = choose|m: int| 0 <= m < j && tunnels[m] == before[k];
                            assert(tunnels[m] == bound@[k]);
                        } else {
                            assert(tunnels[j as int] == bound@[k]);
                        }
                    }
                    assert forall|m: int|
                        0 <= m < j + 1 && !gone@.contains(
                            (#[trigger] tunnels[m]).session_id,
                        ) implies bound@.contains(tunnels[m]) by {
                        if m < j {
                            assert(before.contains(tunnels[m]));
                            let k: int = choose|k: int|
                                0 <= k < before.len() && before[k] == tunnels[m];
                            assert(bound@[k] == tunnels[m]);
                        } else {
                            assert(bound@[before.len() as int] == tunnels[m]);
                        }
                    }
                }
            }
            j = j + 1;
        }
        proof {
            assert forall|session: LiveSession| #[trigger]
                kept@.contains(session) <==> sessions.contains(session) && !gone@.contains(
                    session.session_id,
                ) by {
                if kept@.contains(session) {
                    let k: int = choose|k: int| 0 <= k < kept@.len() && kept@[k] == session;
                    let m: int = choose|m: int| 0 <= m < i && sessions[m] == kept@[k];
                    assert(sessions[m] == session);
                }
                if sessions.contains(session) {
                    let m: int = choose|m: int| 0 <= m < sessions.len() && sessions[m] == session;
                    assert(sessions[m] == session);
                }
            }
            assert forall|binding: TunnelBinding| #[trigger]
                bound@.contains(binding) <==> tunnels.contains(binding) && !gone@.contains(
                    binding.session_id,
                ) by {
                if bound@.contains(binding) {
                    let k: int = choose|k: int| 0 <= k < bound@.len() && bound@[k] == binding;
                    let m: int = choose|m: int| 0 <= m < j && tunnels[m] == bound@[k];
                    assert(tunnels[m] == binding);
                }
                if tunnels.contains(binding) {
                    let m: int = choose|m: int| 0 <= m < tunnels.len() && tunnels[m] == binding;
                    assert(tunnels[m] == binding);
                }
            }
            assert forall|n: int| 0 <= n < bound@.len() implies is_served(
                kept@,
                #[trigger] bound@[n],
            ) by {
                let m: int = choose|m: int| 0 <= m < j && tunnels[m] == bound@[n];
                let k: int = choose|k: int|
                    0 <= k < sessions.len() && (#[trigger] sessions[k]).session_id
                        == tunnels[m].session_id && name_bytes(sessions[k].tunnel_id)
                        == name_bytes(tunnels[m].tunnel_id);
                assert(kept@.contains(sessions[k]));
                let q: int = choose|q: int| 0 <= q < kept@.len() && kept@[q] == sessions[k];
                assert(kept@[q].session_id == bound@[n].session_id);
            }
        }
        self.sessions = kept;
        self.tunnels = bound;
    }

    /// Applies a snapshot of authorizations: every session that it does not grant
    /// is forgotten with its tunnel, and named so that it can be ended.
    /// `granted` are the sessions whose certificate, Agent and tunnel it grants.
    pub fn reconcile_authorization_snapshot(
        &mut self,
        version: u64,
        source: AuthorizationSourceStatus,
        granted: &Vec<TransportSessionId>,
    ) -> (revoked: Vec<TransportSessionId>)
        requires
            old(self).wf(),
        ensures
            final(self).wf(),
            final(self).accepting_streams == old(self).accepting_streams,
            final(self).authorization == (EdgeAuthorizationStatus {
                version: Some(version),
                source,
                revoked_sessions: saturated_u64(
                    (old(self).authorization.revoked_sessions + revoked@.len()) as nat,
                ) as u64,
            }),
            revoked@.no_duplicates(),
            forall|id: TransportSessionId| #[trigger]
                revoked@.contains(id) <==> loses_authorization(
                    old(self).sessions@,
                    old(self).sessions@.len() as int,
                    granted@,
                    id,
                ),
            forall|session: LiveSession| #[trigger]
                final(self).sessions@.contains(session) <==> old(self).sessions@.contains(session)
                    && keeps_authorization(session, granted@),
            forall|binding: TunnelBinding| #[trigger]
                final(self).tunnels@.contains(binding) <==> old(self).tunnels@.contains(binding)
                    && !revoked@.contains(binding.session_id),
    {
        let ghost sessions: Seq<LiveSession> = self.sessions@;
        let mut revoked: Vec<TransportSessionId> = Vec::new();
        let mut i: usize = 0;
        while i < self.sessions.len()
            invariant
                i <= self.sessions@.len(),
                sessions == self.sessions@,
                *self == *old(self),
                self.wf(),
                revoked@.len() <= i,
                revoked@.no_duplicates(),
                forall|k: int|
                    0 <= k < revoked@.len() ==> loses_authorization(
                        sessions,
                        i as int,
                        granted@,
                        #[trigger] revoked@[k],
                    ),
                forall|m: int|
                    0 <= m < i && !keeps_authorization(#[trigger] sessions[m], granted@)
                        ==> revoked@.contains(sessions[m].session_id),
            decreases self.sessions@.len() - i,
        {
            let ghost before: Seq<TransportSessionId> = revoked@;
            let id: TransportSessionId = self.sessions[i].session_id;
            if !(self.sessions[i].certified && contains_id(granted, id)) {
                revoked.push(id);
                proof {
                    assert(revoked@[before.len() as int] == id);
                    assert forall|k: int| 0 <= k < before.len() implies before[k] != id by {
                        assert(loses_authorization(sessions, i as int, granted@, before[k]));
                        let m: int = choose|m: int|
                            0 <= m < i && (#[trigger] sessions[m]).session_id == before[k]
                                && !keeps_authorization(sessions[m], granted@);
                        assert(sessions[m].session_id.value < sessions[i as int].session_id.value);
                    }
                    assert forall|m: int|
                        0 <= m < i + 1 && !keeps_authorization(
                            #[trigger] sessions[m],
                            granted@,
                        ) implies revoked@.contains(sessions[m].session_id) by {
                        if m < i {
                            assert(before.contains(sessions[m].session_id));
                            let k: int = choose|k: int|
                                0 <= k < before.len() && before[k] == sessions[m].session_id;
                            assert(revoked@[k] == sessions[m].session_id);
                        }
                    }
                }
            }
            proof {
                assert forall|k: int| 0 <= k < revoked@.len() implies loses_authorization(
                    sessions,
                    i + 1,
                    granted@,
                    #[trigger] revoked@[k],
                ) by {
                    if k < before.len() {
                        assert(revoked@[k] == before[k]);
                        assert(loses_authorization(sessions, i as int, granted@, before[k]));
                        let m: int = choose|m: int|
                            0 <= m < i && (#[trigger] sessions[m]).session_id == before[k]
                                && !keeps_authorization(sessions[m], granted@);
                        assert(sessions[m].session_id == revoked@[k]);
                    } else {
                        assert(sessions[i as int].session_id == revoked@[k]);
                    }
                }
            }
            i = i + 1;
        }
        self.drop_sessions(&revoked);
        self.authorization = EdgeAuthorizationStatus {
            version: Some(version),
            source,
            revoked_sessions: self.authorization.revoked_sessions.saturating_add(
                revoked.len() as u64,
            ),
        };
        proof {
            assert forall|id: TransportSessionId| #[trigger]
                revoked@.contains(id) <==> loses_authorization(
                    sessions,
                    sessions.len() as int,
                    granted@,
                    id,
                ) by {
                if revoked@.contains(id) {
                    let k: int = choose|k: int| 0 <= k < revoked@.len() && revoked@[k] == id;
                    assert(loses_authorization(sessions, i as int, granted@, revoked@[k]));
                }
                if loses_authorization(sessions, sessions.len() as int, granted@, id) {
                    let m: int = choose|m: int|
                        0 <= m < sessions.len() && (#[trigger] sessions[m]).session_id == id
                            && !keeps_authorization(sessions[m], granted@);
                    assert(revoked@.contains(sessions[m].session_id));
                }
            }
            assert forall|session: LiveSession| #[trigger]
                self.sessions@.contains(session) <==> sessions.contains(session)
                    && keeps_authorization(session, granted@) by {
                if sessions.contains(session) {
                    let n: int = choose|n: int| 0 <= n < sessions.len() && sessions[n] == session;
                    if revoked@.contains(session.session_id) {
                        assert(loses_authorization(
                            sessions,
                            sessions.len() as int,
                            granted@,
                            session.session_id,
                        ));
                        let m: int = choose|m: int|
                            0 <= m < sessions.len() && (#[trigger] sessions[m]).session_id
                                == session.session_id && !keeps_authorization(
                                sessions[m],
                                granted@,
                            );
                        if m < n {
                            assert(sessions[m].session_id.value < sessions[n].session_id.value);
                        } else if n < m {
                            assert(sessions[n].session_id.value < sessions[m].session_id.value);
                        }
                    } else {
                        assert(keeps_authorization(sessions[n], granted@));
                    }
                }
            }
        }
        revoked
    }

    /// Opens no stream from now on, and names the sessions that must drain.
    pub fn begin_drain(&mut self) -> (ids: Vec<TransportSessionId>)
        requires
            old(self).wf(),
        ensures
            final(self).wf(),
            !final(self).accepting_streams,
            final(self).sessions == old(self).sessions,
            final(self).tunnels == old(self).tunnels,
            final(self).authorization == old(self).authorization,
            ids@ == session_ids(old(self).sessions@),
    {
        self.accepting_streams = false;
        self.connected_session_ids()
    }

    /// Forgets everything that is left once sessions have drained.
    pub fn finish_drain(&mut self)
        ensures
            final(self).wf(),
            final(self).sessions@.len() == 0,
            final(self).tunnels@.len() == 0,
            final(self).accepting_streams == old(self).accepting_streams,
            final(self).authorization == old(self).authorization,
    {
        self.sessions.clear();
        self.tunnels.clear();
    }

    /// Whether a stream may be asked of a session.
    pub fn check_session(&self, id: TransportSessionId) -> (result: Result<(), RouteError>)
        ensures
            result == (if !self.accepting_streams {
                Err(RouteError::RuntimeDraining)
            } else if !is_live(self.sessions@, id) {
                Err(RouteError::SessionNotFound(id))
            } else {
                Ok(())
            }),
    {
        if !self.accepting_streams {
            return Err(RouteError::RuntimeDraining);
        }
        if !self.is_connected(id) {
            return Err(RouteError::SessionNotFound(id));
        }
        Ok(())
    }

    /// The session of which a stream to a tunnel may be asked.
    pub fn check_tunnel(&self, tunnel: &TunnelId) -> (result: Result<
        TransportSessionId,
        RouteError,
    >)
        requires
            self.wf(),
        ensures
            match result {
                Ok(id) => self.accepting_streams && is_live(self.sessions@, id) && is_bound(
                    self.tunnels@,
                    name_bytes(*tunnel),
                    id,
                ),
                Err(RouteError::TunnelNotConnected(missing)) => missing == *tunnel && forall|
                    id: TransportSessionId,
                | !is_bound(self.tunnels@, name_bytes(*tunnel), id),
                Err(RouteError::RuntimeDraining) => !self.accepting_streams && exists|
                    id: TransportSessionId,
                | is_bound(self.tunnels@, name_bytes(*tunnel), id),
                Err(_) => false,
            },
    {
        match self.resolve_tunnel(tunnel) {
            None => Err(RouteError::TunnelNotConnected(tunnel.clone())),
            Some(id) => {
                if !self.accepting_streams {
                    return Err(RouteError::RuntimeDraining);
                }
                Ok(id)
            },
        }
    }

    /// Opens a stream of a session, where `queued` says how the session took the
    /// request and `answer` what it answered, if it answered.
    pub fn open_stream(
        &self,
        id: TransportSessionId,
        queued: QueueOutcome,
        answer: Option<Result<StreamId, RouteError>>,
    ) -> (result: Result<StreamId, RouteError>)
        ensures
            result == (if !self.accepting_streams {
                Err(RouteError::RuntimeDraining)
            } else if !is_live(self.sessions@, id) {
                Err(RouteError::SessionNotFound(id))
            } else {
                opening(id, queued, answer)
            }),
    {
        match self.check_session(id) {
            Ok(()) => {},
            Err(error) => return Err(error),
        }
        match stream_requested(id, queued) {
            Ok(()) => finish_open(id, answer),
            Err(error) => Err(error),
        }
    }

    /// Opens a stream of a session as [`EdgeSessionRouter::open_stream`] does, and hands
    /// out what its end is waited for by.
    pub fn open_stream_tracked(
        &self,
        id: TransportSessionId,
        queued: QueueOutcome,
        answer: Option<Result<StreamId, RouteError>>,
    ) -> (result: Result<RoutedStream, RouteError>)
        ensures
            result == (if !self.accepting_streams {
                Err(RouteError::RuntimeDraining)
            } else if !is_live(self.sessions@, id) {
                Err(RouteError::SessionNotFound(id))
            } else {
                match opening(id, queued, answer) {
                    Ok(stream_id) => Ok(RoutedStream { session_id: id, stream_id }),
                    Err(error) => Err(error),
                }
            }),
    {
        match self.open_stream(id, queued, answer) {
            Ok(stream_id) => Ok(RoutedStream { session_id: id, stream_id }),
            Err(error) => Err(error),
        }
    }

    /// Opens a stream to a tunnel, of whichever session serves it.
    pub fn open_tunnel_stream_tracked(
        &self,
        tunnel: &TunnelId,
        queued: QueueOutcome,
        answer: Option<Result<StreamId, RouteError>>,
    ) -> (result: Result<RoutedStream, RouteError>)
        requires
            self.wf(),
        ensures
            (forall|id: TransportSessionId| !is_bound(self.tunnels@, name_bytes(*tunnel), id))
                ==> result == Err::<RoutedStream, _>(RouteError::TunnelNotConnected(*tunnel)),
            forall|id: TransportSessionId| #[trigger]
                is_bound(self.tunnels@, name_bytes(*tunnel), id) ==> result == (
                if !self.accepting_streams {
                    Err(RouteError::RuntimeDraining)
                } else {
                    match opening(id, queued, answer) {
                        Ok(stream_id) => Ok(RoutedStream { session_id: id, stream_id }),
                        Err(error) => Err(error),
                    }
                }),
    {
        match self.resolve_tunnel(tunnel) {
            None => Err(RouteError::TunnelNotConnected(tunnel.clone())),
            Some(id) => {
                proof {
                    assert forall|other: TransportSessionId|
                        is_bound(self.tunnels@, name_bytes(*tunnel), other) implies other == id by {
                        tunnels_have_one_session(self.tunnels@, name_bytes(*tunnel), other, id);
                    }
                }
                self.open_stream_tracked(id, queued, answer)
            },
        }
    }
}

/// How a session took the request for a stream.
#[derive(Debug, Clone, Copy, PartialEq, Eq, Structural)]
pub enum QueueOutcome {
    Queued,
    Full,
    Closed,
}

/// What becomes of a stream that a live session was asked for.
pub open spec fn opening(
    id: TransportSessionId,
    queued: QueueOutcome,
    answer: Option<Result<StreamId, RouteError>>,
) -> Result<StreamId, RouteError> {
    match queued {
        QueueOutcome::Full => Err(RouteError::SessionBusy(id)),
        QueueOutcome::Closed => Err(RouteError::SessionClosing(id)),
        QueueOutcome::Queued => match answer {
            Some(answer) => answer,
            None => Err(RouteError::SessionClosing(id)),
        },
    }
}

/// What becomes of a request for a stream that a session took, or did not.
pub fn stream_requested(id: TransportSessionId, outcome: QueueOutcome) -> (result: Result<
    (),
    RouteError,
>)
    ensures
        result == (match outcome {
            QueueOutcome::Queued => Ok(()),
            QueueOutcome::Full => Err(RouteError::SessionBusy(id)),
            QueueOutcome::Closed => Err(RouteError::SessionClosing(id)),
        }),
{
    match outcome {
        QueueOutcome::Queued => Ok(()),
        QueueOutcome::Full => Err(RouteError::SessionBusy(id)),
        QueueOutcome::Closed => Err(RouteError::SessionClosing(id)),
    }
}

/// The stream that a session opened, or why it did not; a session that never
/// answers is closing.
pub fn finish_open(
    id: TransportSessionId,
    answer: Option<Result<StreamId, RouteError>>,
) -> (result: Result<StreamId, RouteError>)
    ensures
        result == (match answer {
            Some(answer) => answer,
            None => Err(RouteError::SessionClosing(id)),
        }),
{
    match answer {
        Some(answer) => answer,
        None => Err(RouteError::SessionClosing(id)),
    }
}

/// A tunnel is served by one session at most.
pub proof fn tunnels_have_one_session(
    tunnels: Seq<TunnelBinding>,
    name: Seq<u8>,
    a: TransportSessionId,
    b: TransportSessionId,
)
    requires
        tunnels_ordered(tunnels),
        is_bound(tunnels, name, a),
        is_bound(tunnels, name, b),
    ensures
        a == b,
{
    let i: int = choose|i: int|
        0 <= i < tunnels.len() && name_bytes((#[trigger] tunnels[i]).tunnel_id) == name
            && tunnels[i].session_id == a;
    let j: int = choose|j: int|
        0 <= j < tunnels.len() && name_bytes((#[trigger] tunnels[j]).tunnel_id) == name
            && tunnels[j].session_id == b;
    nothing_precedes_itself(name);
    if i < j {
        assert(stands_before(name_bytes(tunnels[i].tunnel_id), name_bytes(tunnels[j].tunnel_id)));
    } else if j < i {
        assert(stands_before(name_bytes(tunnels[j].tunnel_id), name_bytes(tunnels[i].tunnel_id)));
    }
}

/// A snapshot ends just the sessions that it does not grant, and those that never showed
/// a certificate.
pub proof fn only_granted_sessions_stay(
    sessions: Seq<LiveSession>,
    granted: Seq<TransportSessionId>,
    at: int,
)
    requires
        sessions_ordered(sessions),
        0 <= at < sessions.len(),
    ensures
        keeps_authorization(sessions[at], granted) <==> sessions[at].certified && exists|k: int|
            0 <= k < granted.len() && #[trigger] granted[k] == sessions[at].session_id,
        loses_authorization(
            sessions,
            sessions.len() as int,
            granted,
            sessions[at].session_id,
        ) <==> !keeps_authorization(sessions[at], granted),
{
    if granted.contains(sessions[at].session_id) {
        let k: int = choose|k: int| 0 <= k < granted.len() && granted[k] == sessions[at].session_id;
        assert(granted[k] == sessions[at].session_id);
    }
    if loses_authorization(sessions, sessions.len() as int, granted, sessions[at].session_id) {
        let m: int = choose|m: int|
            0 <= m < sessions.len() && (#[trigger] sessions[m]).session_id
                == sessions[at].session_id && !keeps_authorization(sessions[m], granted);
        if m < at {
            assert(sessions[m].session_id.value < sessions[at].session_id.value);
        } else if at < m {
            assert(sessions[at].session_id.value < sessions[m].session_id.value);
        }
    }
}

/// A tunnel that a session registered for is bound to that session and found under its
/// name, and nothing else is.
pub proof fn tunnels_are_found_by_name(
    tunnels: Seq<TunnelBinding>,
    tunnel: TunnelId,
    id: TransportSessionId,
)
    ensures
        is_bound(tunnels, name_bytes(tunnel), id) <==> exists|i: int|
            0 <= i < tunnels.len() && encode_utf8((#[trigger] tunnels[i]).tunnel_id@)
                == encode_utf8(tunnel@) && tunnels[i].session_id == id,
{
    if is_bound(tunnels, name_bytes(tunnel), id) {
        let i: int = choose|i: int|
            0 <= i < tunnels.len() && name_bytes((#[trigger] tunnels[i]).tunnel_id) == name_bytes(
                tunnel,
            ) && tunnels[i].session_id == id;
        assert(encode_utf8(tunnels[i].tunnel_id@) == encode_utf8(tunnel@));
    }
    if exists|i: int|
        0 <= i < tunnels.len() && encode_utf8((#[trigger] tunnels[i]).tunnel_id@) == encode_utf8(
            tunnel@,
        ) && tunnels[i].session_id == id {
        let i: int = choose|i: int|
            0 <= i < tunnels.len() && encode_utf8((#[trigger] tunnels[i]).tunnel_id@)
                == encode_utf8(tunnel@) && tunnels[i].session_id == id;
        assert(name_bytes(tunnels[i].tunnel_id) == name_bytes(tunnel));
    }
}

/// A stream is opened just where the session took the request and answered with it; a
/// session whose queue is full is busy, and one that is gone or never answers is closing.
pub proof fn streams_open_as_their_session_answers(
    id: TransportSessionId,
    stream: StreamId,
    error: RouteError,
    answer: Option<Result<StreamId, RouteError>>,
)
    ensures
        opening(id, QueueOutcome::Queued, Some(Ok(stream))) == Ok::<_, RouteError>(stream),
        opening(id, QueueOutcome::Queued, Some(Err(error))) == Err::<StreamId, _>(error),
        opening(id, QueueOutcome::Queued, None) == Err::<StreamId, _>(
            RouteError::SessionClosing(id),
        ),
        opening(id, QueueOutcome::Full, answer) == Err::<StreamId, _>(RouteError::SessionBusy(id)),
        opening(id, QueueOutcome::Closed, answer) == Err::<StreamId, _>(
            RouteError::SessionClosing(id),
        ),
{
}

} // verus!
