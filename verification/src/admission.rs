//! Shared bounded per-source-IP connection admission.

use vstd::prelude::*;

use crate::net::IpAddr;

verus! {

/// The connections that one source holds.
#[derive(Debug, Clone, Copy, PartialEq, Eq, Structural)]
pub struct PeerConnections {
    pub peer: IpAddr,
    pub count: usize,
}

/// Admits connections, no more than a limit at a time from any one source.
#[derive(Debug)]
pub struct PeerAdmission {
    pub max_connections_per_ip: usize,
    pub active: Vec<PeerConnections>,
}

/// One admitted connection of `peer`. It is given back with
/// [`PeerAdmission::release`].
#[derive(Debug, PartialEq, Eq, Structural)]
pub struct PeerAdmissionPermit {
    pub peer: IpAddr,
}

/// Whether a source stands in the table.
pub open spec fn has_peer(active: Seq<PeerConnections>, peer: IpAddr) -> bool {
    exists|i: int| 0 <= i < active.len() && #[trigger] active[i].peer == peer
}

/// Where a source stands in the table.
pub open spec fn peer_row(active: Seq<PeerConnections>, peer: IpAddr) -> int {
    choose|i: int| 0 <= i < active.len() && #[trigger] active[i].peer == peer
}

/// No source stands in the table twice.
pub open spec fn distinct_rows(active: Seq<PeerConnections>) -> bool {
    forall|i: int, j: int|
        0 <= i < j < active.len() ==> (#[trigger] active[i]).peer != (#[trigger] active[j]).peer
}

/// The sources that hold connections, with how many each holds.
pub open spec fn connections(active: Seq<PeerConnections>) -> Map<IpAddr, usize> {
    Map::new(|peer: IpAddr| has_peer(active, peer), |peer: IpAddr| active[peer_row(active, peer)].count)
}

/// How many connections `peer` holds.
pub open spec fn held(held_by: Map<IpAddr, usize>, peer: IpAddr) -> nat {
    if held_by.dom().contains(peer) { held_by[peer] as nat } else { 0 }
}

/// The table with one connection more for `peer`.
pub open spec fn acquired(held_by: Map<IpAddr, usize>, peer: IpAddr) -> Map<IpAddr, usize> {
    held_by.insert(peer, (held(held_by, peer) + 1) as usize)
}

/// The table with one connection less for `peer`; a source that holds none is
/// not in it.
pub open spec fn released(held_by: Map<IpAddr, usize>, peer: IpAddr) -> Map<IpAddr, usize> {
    if held(held_by, peer) <= 1 {
        held_by.remove(peer)
    } else {
        held_by.insert(peer, (held(held_by, peer) - 1) as usize)
    }
}

impl View for PeerAdmission {
    type V = Map<IpAddr, usize>;

    open spec fn view(&self) -> Map<IpAddr, usize> {
        connections(self.active@)
    }
}

/// Whether a source is granted one connection more, and how many each source holds then.
pub open spec fn admitted(held_by: Map<IpAddr, usize>, most: usize, peer: IpAddr) -> (
    bool,
    Map<IpAddr, usize>,
) {
    if held(held_by, peer) < most {
        (true, acquired(held_by, peer))
    } else {
        (false, held_by)
    }
}

impl PeerAdmission {
    /// Every source in the table holds at least one connection and no more than
    /// the limit, and none stands in it twice.
    pub open spec fn wf(self) -> bool {
        &&& distinct_rows(self.active@)
        &&& forall|i: int|
            0 <= i < self.active@.len() ==> 1 <= (#[trigger] self.active@[i]).count
                <= self.max_connections_per_ip
    }

    /// An admission under which nobody holds a connection.
    pub fn new(max_connections_per_ip: usize) -> (admission: PeerAdmission)
        ensures
            admission.wf(),
            admission.max_connections_per_ip == max_connections_per_ip,
            admission@ == Map::<IpAddr, usize>::empty(),
    {
        let admission = PeerAdmission { max_connections_per_ip, active: Vec::new() };
        proof {
            assert(admission@ =~= Map::<IpAddr, usize>::empty());
        }
        admission
    }

    /// Admits one connection of `peer`, unless it holds as many as it may.
    pub fn try_acquire(&mut self, peer: IpAddr) -> (permit: Option<PeerAdmissionPermit>)
        requires
            old(self).wf(),
        ensures
            (permit is Some, final(self)@) == admitted(
                old(self)@,
                old(self).max_connections_per_ip,
                peer,
            ),
            final(self).wf(),
            final(self).max_connections_per_ip == old(self).max_connections_per_ip,
            permit == (if held(old(self)@, peer) < old(self).max_connections_per_ip {
                Some(PeerAdmissionPermit { peer })
            } else {
                None
            }),
            final(self)@ == (if permit is Some { acquired(old(self)@, peer) } else { old(self)@ }),
    {
        let ghost before: Seq<PeerConnections> = self.active@;
        match self.row_of(peer) {
            Some(row) => {
                let count: usize = self.active[row].count;
                proof {
                    lemma_row(before, peer, row as int);
                }
                if count >= self.max_connections_per_ip {
                    return None;
                }
                self.active.set(row, PeerConnections { peer, count: count + 1 });
                proof {
                    lemma_set(before, peer, row as int, (count + 1) as usize);
                }
            },
            None => {
                if self.max_connections_per_ip == 0 {
                    return None;
                }
                self.active.push(PeerConnections { peer, count: 1 });
                proof {
                    lemma_push(before, peer);
                }
            },
        }
        Some(PeerAdmissionPermit { peer })
    }

    /// Gives an admitted connection back.
    pub fn release(&mut self, permit: PeerAdmissionPermit)
        requires
            old(self).wf(),
        ensures
            final(self).wf(),
            final(self).max_connections_per_ip == old(self).max_connections_per_ip,
            final(self)@ == released(old(self)@, permit.peer),
    {
        let ghost before: Seq<PeerConnections> = self.active@;
        let peer: IpAddr = permit.peer;
        match self.row_of(peer) {
            Some(row) => {
                let count: usize = self.active[row].count;
                proof {
                    lemma_row(before, peer, row as int);
                }
                if count <= 1 {
                    let _ = self.active.remove(row);
                    proof {
                        lemma_remove(before, peer, row as int);
                    }
                } else {
                    self.active.set(row, PeerConnections { peer, count: count - 1 });
                    proof {
                        lemma_set(before, peer, row as int, (count - 1) as usize);
                    }
                }
            },
            None => {
                proof {
                    assert(released(connections(before), peer) =~= connections(before));
                }
            },
        }
    }

    /// How many sources hold connections.
    pub fn active_peers(&self) -> (count: usize)
        requires
            self.wf(),
        ensures
            count == self@.dom().len(),
            self@.dom().finite(),
    {
        proof {
            lemma_dom(self.active@);
        }
        self.active.len()
    }

    fn row_of(&self, peer: IpAddr) -> (row: Option<usize>)
        ensures
            match row {
                Some(i) => i < self.active@.len() && self.active@[i as int].peer == peer,
                None => !has_peer(self.active@, peer),
            },
    {
        let mut i: usize = 0;
        while i < self.active.len()
            invariant
                i <= self.active@.len(),
                forall|k: int| 0 <= k < i ==> (#[trigger] self.active@[k]).peer != peer,
            decreases self.active@.len() - i,
        {
            if self.active[i].peer == peer {
                return Some(i);
            }
            i = i + 1;
        }
        None
    }
}

proof fn lemma_row(active: Seq<PeerConnections>, peer: IpAddr, row: int)
    requires
        distinct_rows(active),
        0 <= row < active.len(),
        active[row].peer == peer,
    ensures
        has_peer(active, peer),
        peer_row(active, peer) == row,
        connections(active).dom().contains(peer),
        connections(active)[peer] == active[row].count,
{
    let i: int = peer_row(active, peer);
    assert(0 <= i < active.len() && active[i].peer == peer);
}

proof fn lemma_set(active: Seq<PeerConnections>, peer: IpAddr, row: int, count: usize)
    requires
        distinct_rows(active),
        0 <= row < active.len(),
        active[row].peer == peer,
    ensures
        connections(active.update(row, PeerConnections { peer, count })) == connections(
            active,
        ).insert(peer, count),
        distinct_rows(active.update(row, PeerConnections { peer, count })),
{
    let after: Seq<PeerConnections> = active.update(row, PeerConnections { peer, count });
    lemma_row(active, peer, row);
    lemma_row(after, peer, row);
    assert forall|ip: IpAddr| ip != peer implies has_peer(after, ip) == has_peer(active, ip) && (
    has_peer(active, ip) ==> peer_row(after, ip) == peer_row(active, ip)) by {
        if has_peer(active, ip) {
            let i: int = peer_row(active, ip);
            assert(after[i].peer == ip);
            lemma_row(after, ip, i);
        }
        if has_peer(after, ip) {
            let i: int = peer_row(after, ip);
            assert(active[i].peer == ip);
        }
    }
    assert(connections(after) =~= connections(active).insert(peer, count));
}

proof fn lemma_push(active: Seq<PeerConnections>, peer: IpAddr)
    requires
        distinct_rows(active),
        !has_peer(active, peer),
    ensures
        connections(active.push(PeerConnections { peer, count: 1 })) == connections(active).insert(
            peer,
            1,
        ),
        distinct_rows(active.push(PeerConnections { peer, count: 1 })),
{
    let after: Seq<PeerConnections> = active.push(PeerConnections { peer, count: 1 });
    assert(distinct_rows(after)) by {
        assert forall|i: int, j: int| 0 <= i < j < after.len() implies (#[trigger] after[i]).peer
            != (#[trigger] after[j]).peer by {
            assert(after[i] == active[i]);
        }
    }
    assert(after[active.len() as int].peer == peer);
    lemma_row(after, peer, active.len() as int);
    assert forall|ip: IpAddr| ip != peer implies has_peer(after, ip) == has_peer(active, ip) && (
    has_peer(active, ip) ==> peer_row(after, ip) == peer_row(active, ip)) by {
        if has_peer(active, ip) {
            let i: int = peer_row(active, ip);
            assert(after[i].peer == ip);
            lemma_row(after, ip, i);
        }
        if has_peer(after, ip) {
            let i: int = peer_row(after, ip);
            assert(active[i].peer == ip);
        }
    }
    assert(connections(after) =~= connections(active).insert(peer, 1));
}

proof fn lemma_remove(active: Seq<PeerConnections>, peer: IpAddr, row: int)
    requires
        distinct_rows(active),
        0 <= row < active.len(),
        active[row].peer == peer,
    ensures
        connections(active.remove(row)) == connections(active).remove(peer),
        distinct_rows(active.remove(row)),
{
    let after: Seq<PeerConnections> = active.remove(row);
    assert forall|i: int| 0 <= i < after.len() implies #[trigger] after[i] == active[if i < row {
        i
    } else {
        i + 1
    }] by {}
    assert forall|ip: IpAddr| has_peer(after, ip) == (has_peer(active, ip) && ip != peer) && (
    has_peer(after, ip) ==> after[peer_row(after, ip)] == active[peer_row(active, ip)]) by {
        if has_peer(active, ip) && ip != peer {
            let i: int = peer_row(active, ip);
            let k: int = if i < row { i } else { i - 1 };
            assert(after[k] == active[i]);
            assert(after[k].peer == ip);
            lemma_row(after, ip, k);
        }
        if has_peer(after, ip) {
            let i: int = peer_row(after, ip);
            let k: int = if i < row { i } else { i + 1 };
            assert(active[k].peer == ip);
            lemma_row(active, ip, k);
        }
    }
    assert(connections(after) =~= connections(active).remove(peer));
}

proof fn lemma_dom(active: Seq<PeerConnections>)
    requires
        distinct_rows(active),
    ensures
        connections(active).dom().finite(),
        connections(active).dom().len() == active.len(),
    decreases active.len(),
{
    if active.len() == 0 {
        assert(connections(active).dom() =~= Set::<IpAddr>::empty());
    } else {
        let row: int = active.len() - 1;
        let peer: IpAddr = active[row].peer;
        lemma_row(active, peer, row);
        lemma_remove(active, peer, row);
        lemma_dom(active.remove(row));
        assert(connections(active).dom() =~= connections(active.remove(row)).dom().insert(peer));
    }
}

/// A connection that is admitted and given back leaves the table as it was.
pub proof fn release_undoes_acquire(held_by: Map<IpAddr, usize>, peer: IpAddr)
    requires
        held(held_by, peer) < usize::MAX,
        held_by.dom().contains(peer) ==> held_by[peer] >= 1,
    ensures
        released(acquired(held_by, peer), peer) == held_by,
{
    assert(released(acquired(held_by, peer), peer) =~= held_by);
}

/// What one source acquires or releases changes nothing for any other source.
pub proof fn sources_are_isolated(held_by: Map<IpAddr, usize>, peer: IpAddr, other: IpAddr)
    requires
        other != peer,
    ensures
        held(acquired(held_by, peer), other) == held(held_by, other),
        held(released(held_by, peer), other) == held(held_by, other),
{
}

/// Each connection that a source is granted counts as one more that it holds, and each one
/// that it gives back as one less; a source that holds none is not in the table.
pub proof fn connections_are_counted_one_by_one(held_by: Map<IpAddr, usize>, peer: IpAddr)
    requires
        held_by.dom().contains(peer) ==> 1 <= held_by[peer] < usize::MAX,
    ensures
        acquired(held_by, peer).dom().contains(peer),
        held_by.dom().contains(peer) ==> acquired(held_by, peer)[peer] == held_by[peer] + 1,
        !held_by.dom().contains(peer) ==> acquired(held_by, peer)[peer] == 1,
        held_by.dom().contains(peer) && held_by[peer] > 1 ==> released(
            held_by,
            peer,
        ).dom().contains(peer) && released(held_by, peer)[peer] == held_by[peer] - 1,
        held_by.dom().contains(peer) && held_by[peer] == 1 ==> !released(
            held_by,
            peer,
        ).dom().contains(peer),
        held_by.dom().contains(peer) ==> held(held_by, peer) == held_by[peer],
        !held_by.dom().contains(peer) ==> held(held_by, peer) == 0,
{
}

/// A source is granted a connection exactly while it holds fewer than it may, so that it
/// never holds more; one that is refused changes nothing, and no other source is affected.
pub proof fn sources_hold_no_more_than_they_may(
    held_by: Map<IpAddr, usize>,
    most: usize,
    peer: IpAddr,
    other: IpAddr,
)
    requires
        held(held_by, peer) <= most,
    ensures
        ({
            let (granted, after) = admitted(held_by, most, peer);
            &&& granted <==> held(held_by, peer) != most
            &&& held(after, peer) - held(held_by, peer) == (if granted {
                1int
            } else {
                0int
            })
            &&& held(after, peer) <= most
            &&& other != peer ==> held(after, other) == held(held_by, other)
            &&& !granted ==> after == held_by
        }),
{
}

} // verus!
