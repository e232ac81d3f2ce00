//! The membership configuration lattice.
//!
//! A configuration records the state of the group of peers as a pair of
//! grow-only peer sets: the peers ever added and the peers ever removed.
//! It is the product of two ordered-set-union lattices, so merging two
//! configurations unions the added sets and unions the removed sets, each
//! on its own. The current members are derived, never stored: the added
//! peers minus the removed peers. A peer once recorded as removed therefore
//! stays out of the membership for good, however often it is re-added.

use vstd::prelude::*;

use crate::lattice::BoundedJoinSemilattice;
use crate::lattice::LatticeElt;
use crate::lattice::Pair;
use crate::peer_set::PeerSet;
use crate::Peer;

verus! {

/// A lattice element holding one peer set.
pub type PeerSetLE = LatticeElt<PeerSet>;

/// The configuration domain: the product of the added-peers lattice and the
/// removed-peers lattice.
pub type CfgLD = Pair<PeerSet, PeerSet>;

/// A configuration element: a well-formed value of the configuration
/// domain, carrying the added set first and the removed set second.
pub type CfgLE = LatticeElt<CfgLD>;

/// The model of a configuration: the added peers and the removed peers.
pub type CfgModel = (Set<Peer>, Set<Peer>);

/// Helper methods on configuration elements: accessors for the two
/// component sets, the derived membership view, and the two growth-only
/// updates. Only growing updates are offered: taking a peer back out of
/// either component would break the monotonicity that convergence rests on,
/// so no operation here can shrink a component.
pub trait CfgLEExt: Sized {
    /// The peers ever recorded as added.
    spec fn added_model(&self) -> Set<Peer>;

    /// The peers ever recorded as removed.
    spec fn removed_model(&self) -> Set<Peer>;

    /// The added-peers component, as a lattice element of its own domain.
    fn added_peers_elt(&self) -> (r: &PeerSetLE)
        ensures
            r.model() == self.added_model(),
    ;

    /// The removed-peers component, as a lattice element of its own domain.
    fn removed_peers_elt(&self) -> (r: &PeerSetLE)
        ensures
            r.model() == self.removed_model(),
    ;

    /// The set of peers ever added.
    fn added_peers(&self) -> (r: &PeerSet)
        ensures
            r.model() == self.added_model(),
    ;

    /// The set of peers ever removed.
    fn removed_peers(&self) -> (r: &PeerSet)
        ensures
            r.model() == self.removed_model(),
    ;

    /// The current members, recomputed on every call: the peers added and
    /// not removed. A peer in both components is excluded, whatever the
    /// order in which the two facts were learned.
    fn members(&self) -> (r: PeerSet)
        ensures
            r.model() == self.added_model().difference(self.removed_model()),
    ;

    /// Record a peer as added. The added set grows by `p`; the removed set
    /// is untouched.
    fn add_peer(&mut self, p: Peer)
        ensures
            final(self).added_model() == old(self).added_model().insert(p),
            final(self).removed_model() == old(self).removed_model(),
    ;

    /// Record a peer as removed. The removed set grows by `p`; the added
    /// set is untouched. The record is permanent: no later operation takes
    /// a peer out of the removed set.
    fn remove_peer(&mut self, p: Peer)
        ensures
            final(self).added_model() == old(self).added_model(),
            final(self).removed_model() == old(self).removed_model().insert(p),
    ;
}

impl CfgLEExt for CfgLE {
    open spec fn added_model(&self) -> Set<Peer> {
        self.value.fst.model()
    }

    open spec fn removed_model(&self) -> Set<Peer> {
        self.value.snd.model()
    }

    fn added_peers_elt(&self) -> (r: &PeerSetLE) {
        &self.value.fst
    }

    fn removed_peers_elt(&self) -> (r: &PeerSetLE) {
        &self.value.snd
    }

    fn added_peers(&self) -> (r: &PeerSet) {
        &self.value.fst.value
    }

    fn removed_peers(&self) -> (r: &PeerSet) {
        &self.value.snd.value
    }

    fn members(&self) -> (r: PeerSet) {
        self.added_peers().difference(self.removed_peers())
    }

    fn add_peer(&mut self, p: Peer) {
        self.value.fst.value.insert(p);
    }

    fn remove_peer(&mut self, p: Peer) {
        self.value.snd.value.insert(p);
    }
}

/// Merging a configuration with itself changes nothing.
pub proof fn lemma_cfg_join_idempotent(a: CfgModel)
    ensures
        CfgLD::m_join(a, a) == a,
{
    CfgLD::lemma_join_idempotent(a);
}

/// Merging two configurations gives the same result in either order.
pub proof fn lemma_cfg_join_commutative(a: CfgModel, b: CfgModel)
    ensures
        CfgLD::m_join(a, b) == CfgLD::m_join(b, a),
{
    CfgLD::lemma_join_commutative(a, b);
}

/// Merges may be regrouped freely: applying them in any association gives
/// the same configuration.
pub proof fn lemma_cfg_join_associative(a: CfgModel, b: CfgModel, c: CfgModel)
    ensures
        CfgLD::m_join(CfgLD::m_join(a, b), c) == CfgLD::m_join(a, CfgLD::m_join(b, c)),
{
    CfgLD::lemma_join_associative(a, b, c);
}

/// The bottom configuration (nothing added, nothing removed) is the
/// identity of merge.
pub proof fn lemma_cfg_bottom_identity(a: CfgModel)
    ensures
        CfgLD::m_join(CfgLD::m_bottom(), a) == a,
{
    CfgLD::lemma_bottom_identity(a);
}

/// A merge acts on the two components independently: it unions the added
/// sets and unions the removed sets, so both components only ever grow.
pub proof fn lemma_cfg_join_componentwise(a: CfgModel, b: CfgModel)
    ensures
        CfgLD::m_join(a, b).0 == a.0.union(b.0),
        CfgLD::m_join(a, b).1 == a.1.union(b.1),
{
}

/// Removal is permanent: a peer in the removed component is excluded from
/// the derived membership, however often it was added.
pub proof fn lemma_cfg_no_resurrection(a: CfgModel, p: Peer)
    requires
        a.1.contains(p),
    ensures
        !a.0.difference(a.1).contains(p),
{
}

} // verus!
