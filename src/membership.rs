use vstd::prelude::*;

use crate::bytes::{bytes_eq, copy_bytes};
use crate::error::PbftError;

verus! {

/// No two members share a peer identifier.
pub open spec fn distinct_peers(m: Seq<Seq<u8>>) -> bool {
    forall|i: int, j: int| 0 <= i < m.len() && 0 <= j < m.len() && i != j ==> m[i] != m[j]
}

/// Some entry of the peer list has node identifier `k`.
pub open spec fn names_node(pairs: Seq<(Vec<u8>, u64)>, k: int) -> bool {
    exists|i: int| 0 <= i < pairs.len() && pairs[i].1 == k
}

/// A peer list describes a membership when its node identifiers are exactly
/// `0..n`, each once, and its peer identifiers are distinct.
pub open spec fn valid_membership(pairs: Seq<(Vec<u8>, u64)>) -> bool {
    &&& pairs.len() >= 1
    &&& forall|i: int| 0 <= i < pairs.len() ==> #[trigger] pairs[i].1 < pairs.len()
    &&& forall|i: int, j: int|
        0 <= i < pairs.len() && 0 <= j < pairs.len() && i != j ==> pairs[i].1 != pairs[j].1
            && pairs[i].0@ != pairs[j].0@
    &&& forall|k: int| 0 <= k < pairs.len() ==> #[trigger] names_node(pairs, k)
}

/// The largest number of faulty members that a network of `n` tolerates.
pub open spec fn fault_bound(n: int) -> int {
    (n - 1) / 3
}

/// What looking a peer identifier up in a membership gives.
pub open spec fn node_id_lookup(m: Seq<Seq<u8>>, peer: Seq<u8>) -> Result<u64, PbftError> {
    if exists|k: int| 0 <= k < m.len() && m[k] == peer {
        Ok((choose|k: int| 0 <= k < m.len() && m[k] == peer) as u64)
    } else {
        Err(PbftError::NodeNotFound)
    }
}

/// The members of the network: the peer identifier of each node, indexed by
/// node identifier. Built once from the configuration and never changed.
#[derive(Debug)]
pub struct Membership {
    peers: Vec<Vec<u8>>,
}

impl View for Membership {
    type V = Seq<Seq<u8>>;

    closed spec fn view(&self) -> Seq<Seq<u8>> {
        self.peers@.map_values(|p: Vec<u8>| p@)
    }
}

impl Membership {
    /// At least one member, and distinct peer identifiers.
    pub open spec fn wf(&self) -> bool {
        self@.len() >= 1 && distinct_peers(self@)
    }

    /// Builds the membership from `(peer identifier, node identifier)` pairs;
    /// fails unless they map `0..n` one to one onto distinct peers.
    pub fn from_peers(pairs: &Vec<(Vec<u8>, u64)>) -> (r: Result<Membership, PbftError>)
        ensures
            r is Ok <==> valid_membership(pairs@),
            r is Err ==> r == Err::<Membership, PbftError>(PbftError::InvalidMembership),
            r matches Ok(m) ==> {
                &&& m.wf()
                &&& m@.len() == pairs@.len()
                &&& forall|i: int|
                    0 <= i < pairs@.len() ==> m@[pairs@[i].1 as int] == #[trigger] pairs@[i].0@
            },
    {
        let n = pairs.len();
        if n == 0 {
            return Err(PbftError::InvalidMembership);
        }
        let mut i: usize = 0;
        while i < n
            invariant
                n == pairs@.len(),
                0 <= i <= n,
                forall|a: int| 0 <= a < i ==> #[trigger] pairs@[a].1 < n,
                forall|a: int, b: int|
                    0 <= a < i && 0 <= b < i && a != b ==> pairs@[a].1 != pairs@[b].1
                        && pairs@[a].0@ != pairs@[b].0@,
            decreases n - i,
        {
            if pairs[i].1 >= n as u64 {
                return Err(PbftError::InvalidMembership);
            }
            let mut j: usize = 0;
            while j < i
                invariant
                    n == pairs@.len(),
                    0 <= j <= i < n,
                    forall|b: int|
                        0 <= b < j ==> pairs@[i as int].1 != pairs@[b].1 && pairs@[i as int].0@
                            != pairs@[b].0@,
                decreases i - j,
            {
                if pairs[i].1 == pairs[j].1 || bytes_eq(
                    pairs[i].0.as_slice(),
                    pairs[j].0.as_slice(),
                ) {
                    return Err(PbftError::InvalidMembership);
                }
                j = j + 1;
            }
            i = i + 1;
        }
        let mut table: Vec<Vec<u8>> = Vec::new();
        let mut k: usize = 0;
        while k < n
            invariant
                n == pairs@.len(),
                0 <= k <= n,
                table@.len() == k,
                forall|a: int| 0 <= a < n ==> #[trigger] pairs@[a].1 < n,
                forall|a: int, b: int|
                    0 <= a < n && 0 <= b < n && a != b ==> pairs@[a].1 != pairs@[b].1
                        && pairs@[a].0@ != pairs@[b].0@,
                forall|a: int|
                    0 <= a < n && pairs@[a].1 < k ==> table@[pairs@[a].1 as int]@
                        == #[trigger] pairs@[a].0@,
                forall|c: int| 0 <= c < k ==> #[trigger] names_node(pairs@, c),
            decreases n - k,
        {
            let mut i: usize = 0;
            while i < n && pairs[i].1 != k as u64
                invariant
                    n == pairs@.len(),
                    0 <= i <= n,
                    forall|a: int| 0 <= a < i ==> pairs@[a].1 != k,
                decreases n - i,
            {
                i = i + 1;
            }
            if i == n {
                assert(!names_node(pairs@, k as int));
                return Err(PbftError::InvalidMembership);
            }
            assert(names_node(pairs@, k as int));
            table.push(copy_bytes(&pairs[i].0));
            k = k + 1;
        }
        let m = Membership { peers: table };
        assert(distinct_peers(m@)) by {
            assert forall|x: int, y: int|
                0 <= x < n && 0 <= y < n && x != y implies m@[x] != m@[y] by {
                assert(names_node(pairs@, x));
                assert(names_node(pairs@, y));
                let a = choose|a: int| 0 <= a < n && pairs@[a].1 == x;
                let b = choose|b: int| 0 <= b < n && pairs@[b].1 == y;
                assert(table@[pairs@[a].1 as int]@ == pairs@[a].0@);
                assert(table@[pairs@[b].1 as int]@ == pairs@[b].0@);
            }
        }
        Ok(m)
    }

    /// The number of members.
    pub fn len(&self) -> (r: u64)
        ensures
            r == self@.len(),
    {
        self.peers.len() as u64
    }

    /// The largest number of faulty members that the network tolerates.
    pub fn fault_bound(&self) -> (r: u64)
        requires
            self.wf(),
        ensures
            r == fault_bound(self@.len() as int),
    {
        ((self.peers.len() - 1) / 3) as u64
    }

    /// The peer identifier of node `node_id`.
    pub fn peer_id(&self, node_id: u64) -> (r: Vec<u8>)
        requires
            node_id < self@.len(),
        ensures
            r@ == self@[node_id as int],
    {
        let n = self.peers.len();
        assert(self@.len() == n);
        assert(self@[node_id as int] == self.peers@[node_id as int]@);
        copy_bytes(&self.peers[node_id as usize])
    }

    /// The peer identifier of the primary of `view`: member `view mod n`.
    pub fn primary_peer_id(&self, view: u64) -> (r: Vec<u8>)
        requires
            self.wf(),
        ensures
            r@ == self@[view as int % self@.len() as int],
    {
        let n = self.peers.len() as u64;
        assert(self@[view as int % n as int] == self.peers@[view as int % n as int]@);
        copy_bytes(&self.peers[(view % n) as usize])
    }

    /// The node identifier of the member with peer identifier `peer`;
    /// `NodeNotFound` when no member has it.
    pub fn node_id_of(&self, peer: &[u8]) -> (r: Result<u64, PbftError>)
        requires
            self.wf(),
        ensures
            r == node_id_lookup(self@, peer@),
    {
        let mut k: usize = 0;
        while k < self.peers.len()
            invariant
                self.wf(),
                0 <= k <= self@.len(),
                forall|j: int| 0 <= j < k ==> self@[j] != peer@,
            decreases self@.len() - k,
        {
            assert(self@[k as int] == self.peers@[k as int]@);
            if bytes_eq(self.peers[k].as_slice(), peer) {
                assert(self@[k as int] == peer@);
                proof {
                    assert(exists|j: int| 0 <= j < self@.len() && self@[j] == peer@);
                    let c = choose|c: int| 0 <= c < self@.len() && self@[c] == peer@;
                    assert(self@[c] == self@[k as int]);
                    assert(c == k);
                }
                return Ok(k as u64);
            }
            k = k + 1;
        }
        Err(PbftError::NodeNotFound)
    }
}

} // verus!
