//! The ordered-set-union lattice over peers: the carrier is a set of peer
//! identifiers, `bottom` is the empty set, `join` is set union and the
//! derived order is the subset order.
//!
//! The set itself is a persistent ordered set from the `im` crate: union
//! builds a fresh set and leaves both inputs untouched, so concurrently held
//! elements may share structure safely. Its contents are modelled by the
//! uninterpreted function `peer_set_of`, and each operation used here is
//! stated over that model in a trusted wrapper.

use vstd::prelude::*;

use crate::lattice::BoundedJoinSemilattice;
use crate::Peer;

verus! {

/// The external ordered set used as the carrier's storage.
#[verifier::external_type_specification]
#[verifier::external_body]
#[verifier::reject_recursive_types(A)]
pub struct ExOrdSet<A>(im::OrdSet<A>);

/// The contents of an `im::OrdSet` of peers, as a mathematical set.
pub uninterp spec fn peer_set_of(s: im::OrdSet<Peer>) -> Set<Peer>;

/// Relies on `im::OrdSet::new`: constructs an empty set.
#[verifier::external_body]
fn ord_set_new() -> (r: im::OrdSet<Peer>)
    ensures
        peer_set_of(r) == Set::<Peer>::empty(),
{
    im::OrdSet::new()
}

/// Relies on `im::OrdSet::insert`: adds one value to the set; a value equal
/// to one already present replaces it, so the contents gain at most `p`.
#[verifier::external_body]
fn ord_set_insert(s: &mut im::OrdSet<Peer>, p: Peer)
    ensures
        peer_set_of(*final(s)) == peer_set_of(*old(s)).insert(p),
{
    let _ = s.insert(p);
}

/// Relies on `im::OrdSet::union` (and `clone`): the result holds every value
/// of either input, and the inputs are left as they were.
#[verifier::external_body]
fn ord_set_union(a: &im::OrdSet<Peer>, b: &im::OrdSet<Peer>) -> (r: im::OrdSet<Peer>)
    ensures
        peer_set_of(r) == peer_set_of(*a).union(peer_set_of(*b)),
{
    a.clone().union(b.clone())
}

/// Relies on `im::OrdSet::relative_complement` (and `clone`): the result
/// holds exactly the values of `a` that do not occur in `b`.
#[verifier::external_body]
fn ord_set_minus(a: &im::OrdSet<Peer>, b: &im::OrdSet<Peer>) -> (r: im::OrdSet<Peer>)
    ensures
        peer_set_of(r) == peer_set_of(*a).difference(peer_set_of(*b)),
{
    a.clone().relative_complement(b.clone())
}

/// Relies on `im::OrdSet::is_subset`: true exactly when every value of `a`
/// also occurs in `b`.
#[verifier::external_body]
fn ord_set_is_subset(a: &im::OrdSet<Peer>, b: &im::OrdSet<Peer>) -> (r: bool)
    ensures
        r == peer_set_of(*a).subset_of(peer_set_of(*b)),
{
    a.is_subset(b)
}

/// Relies on `im::OrdSet::contains`: true exactly when `p` occurs in `s`.
#[verifier::external_body]
fn ord_set_contains(s: &im::OrdSet<Peer>, p: Peer) -> (r: bool)
    ensures
        r == peer_set_of(*s).contains(p),
{
    s.contains(&p)
}

/// A set of peers, used as the carrier of the ordered-set-union lattice.
/// Its model is the mathematical set of peers it holds.
pub struct PeerSet {
    s: im::OrdSet<Peer>,
}

impl PeerSet {
    /// Grow the set by one peer; no peer is ever taken out.
    pub fn insert(&mut self, p: Peer)
        ensures
            final(self).model() == old(self).model().insert(p),
            final(self).inv(),
    {
        ord_set_insert(&mut self.s, p);
    }

    /// The peers of `self` that are not in `other`, as a fresh set; neither
    /// input is changed.
    pub fn difference(&self, other: &Self) -> (r: Self)
        ensures
            r.model() == self.model().difference(other.model()),
            r.inv(),
    {
        PeerSet { s: ord_set_minus(&self.s, &other.s) }
    }

    /// Is this peer in the set?
    pub fn contains(&self, p: Peer) -> (r: bool)
        ensures
            r == self.model().contains(p),
    {
        ord_set_contains(&self.s, p)
    }

    /// Do the two sets hold exactly the same peers?
    pub fn same_contents(&self, other: &Self) -> (r: bool)
        ensures
            r == (self.model() == other.model()),
    {
        let below = ord_set_is_subset(&self.s, &other.s);
        let above = ord_set_is_subset(&other.s, &self.s);
        proof {
            if below && above {
                assert(self.model() =~= other.model());
            }
        }
        below && above
    }
}

impl BoundedJoinSemilattice for PeerSet {
    type M = Set<Peer>;

    open spec fn inv(&self) -> bool {
        true
    }

    closed spec fn model(&self) -> Set<Peer> {
        peer_set_of(self.s)
    }

    open spec fn m_bottom() -> Set<Peer> {
        Set::empty()
    }

    open spec fn m_join(a: Set<Peer>, b: Set<Peer>) -> Set<Peer> {
        a.union(b)
    }

    proof fn lemma_join_idempotent(a: Set<Peer>) {
        assert(a.union(a) =~= a);
    }

    proof fn lemma_join_commutative(a: Set<Peer>, b: Set<Peer>) {
        assert(a.union(b) =~= b.union(a));
    }

    proof fn lemma_join_associative(a: Set<Peer>, b: Set<Peer>, c: Set<Peer>) {
        assert(a.union(b).union(c) =~= a.union(b.union(c)));
    }

    proof fn lemma_bottom_identity(a: Set<Peer>) {
        assert(Set::empty().union(a) =~= a);
    }

    fn bottom() -> (r: Self) {
        PeerSet { s: ord_set_new() }
    }

    fn join(&self, other: &Self) -> (r: Self) {
        PeerSet { s: ord_set_union(&self.s, &other.s) }
    }

    fn leq(&self, other: &Self) -> (r: bool) {
        let r = ord_set_is_subset(&self.s, &other.s);
        proof {
            if self.model().subset_of(other.model()) {
                assert(self.model().union(other.model()) =~= other.model());
            } else {
                let p = choose|p: Peer|
                    self.model().contains(p) && !other.model().contains(p);
                assert(self.model().union(other.model()).contains(p));
            }
        }
        r
    }
}

} // verus!
