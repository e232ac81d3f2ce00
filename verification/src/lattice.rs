//! The generic algebra: a bounded join-semilattice interface, a wrapper that
//! carries one well-formed lattice value, and the product of two lattices.

use vstd::prelude::*;

verus! {

/// A bounded join-semilattice whose carrier is `Self`.
///
/// Every carrier value denotes a mathematical element of type `M`; contracts
/// and laws are stated over these models, so two carrier values with equal
/// models are the same lattice element. An implementation supplies `bottom`
/// (the least element) and `join` (the least upper bound) and must prove the
/// semilattice laws: join is idempotent, commutative and associative, and
/// `bottom` is its identity. The order `leq` is derived from join: `a` is
/// below `b` exactly when joining `a` into `b` adds nothing.
///
/// Every operation is total: a merge can never fail, whatever the inputs.
pub trait BoundedJoinSemilattice: Sized {
    /// The mathematical elements that carrier values denote.
    type M;

    /// Well-formedness of a carrier value. `bottom` establishes it, `join`
    /// preserves it, so every value reachable from `bottom` by joins has it.
    spec fn inv(&self) -> bool;

    /// The mathematical element that this carrier value denotes.
    spec fn model(&self) -> Self::M;

    /// The model of the least element.
    spec fn m_bottom() -> Self::M;

    /// The least upper bound of two models.
    spec fn m_join(a: Self::M, b: Self::M) -> Self::M;

    /// Joining an element with itself changes nothing.
    proof fn lemma_join_idempotent(a: Self::M)
        ensures
            Self::m_join(a, a) == a,
    ;

    /// The join of two elements does not depend on their order.
    proof fn lemma_join_commutative(a: Self::M, b: Self::M)
        ensures
            Self::m_join(a, b) == Self::m_join(b, a),
    ;

    /// Joins may be regrouped freely.
    proof fn lemma_join_associative(a: Self::M, b: Self::M, c: Self::M)
        ensures
            Self::m_join(Self::m_join(a, b), c) == Self::m_join(a, Self::m_join(b, c)),
    ;

    /// The least element is the identity of join.
    proof fn lemma_bottom_identity(a: Self::M)
        ensures
            Self::m_join(Self::m_bottom(), a) == a,
    ;

    /// The least element of the lattice.
    fn bottom() -> (r: Self)
        ensures
            r.inv(),
            r.model() == Self::m_bottom(),
    ;

    /// The least upper bound of two elements; neither input is changed.
    fn join(&self, other: &Self) -> (r: Self)
        requires
            self.inv(),
            other.inv(),
        ensures
            r.inv(),
            r.model() == Self::m_join(self.model(), other.model()),
    ;

    /// The derived order: does joining `self` into `other` add nothing?
    fn leq(&self, other: &Self) -> (r: bool)
        requires
            self.inv(),
            other.inv(),
        ensures
            r == (Self::m_join(self.model(), other.model()) == other.model()),
    ;
}

/// A lattice element: a carrier value of the domain `D` that is well-formed,
/// i.e. reachable from `D`'s bottom element by a finite sequence of joins.
/// Every operation that produces a `LatticeElt` keeps `wf`, so a caller that
/// sticks to these operations always holds a valid element of the algebra.
pub struct LatticeElt<D: BoundedJoinSemilattice> {
    pub value: D,
}

impl<D: BoundedJoinSemilattice> LatticeElt<D> {
    /// The carried value is a well-formed element of its domain.
    pub open spec fn wf(&self) -> bool {
        self.value.inv()
    }

    /// The mathematical element that this value denotes.
    pub open spec fn model(&self) -> D::M {
        self.value.model()
    }

    /// The element every replica starts from: the domain's least element.
    pub fn new_bottom() -> (r: Self)
        ensures
            r.wf(),
            r.model() == D::m_bottom(),
    {
        LatticeElt { value: D::bottom() }
    }

    /// Merge two elements into a fresh one; neither input is changed. The
    /// result is the least upper bound of the two models.
    pub fn join(&self, other: &Self) -> (r: Self)
        requires
            self.wf(),
            other.wf(),
        ensures
            r.wf(),
            r.model() == D::m_join(self.model(), other.model()),
    {
        LatticeElt { value: self.value.join(&other.value) }
    }

    /// The derived lattice order: `self` is below `other` exactly when
    /// merging `self` into `other` would change nothing.
    pub fn leq(&self, other: &Self) -> (r: bool)
        requires
            self.wf(),
            other.wf(),
        ensures
            r == (D::m_join(self.model(), other.model()) == other.model()),
    {
        self.value.leq(&other.value)
    }

    /// Lattice equality: do the two elements denote the same model? Holds
    /// exactly when each is below the other (antisymmetry of the order).
    pub fn equiv(&self, other: &Self) -> (r: bool)
        requires
            self.wf(),
            other.wf(),
        ensures
            r == (self.model() == other.model()),
    {
        let below = self.leq(other);
        let above = other.leq(self);
        proof {
            D::lemma_join_commutative(self.model(), other.model());
            if self.model() == other.model() {
                D::lemma_join_idempotent(self.model());
            }
        }
        below && above
    }
}

/// The product of two independent lattice domains, combined pointwise.
/// Each component is carried as a lattice element of its own domain; joins
/// and the derived order act on the two components independently, with no
/// coupling between them.
pub struct Pair<A: BoundedJoinSemilattice, B: BoundedJoinSemilattice> {
    pub fst: LatticeElt<A>,
    pub snd: LatticeElt<B>,
}

impl<A: BoundedJoinSemilattice, B: BoundedJoinSemilattice> BoundedJoinSemilattice for Pair<A, B> {
    type M = (A::M, B::M);

    open spec fn inv(&self) -> bool {
        self.fst.wf() && self.snd.wf()
    }

    open spec fn model(&self) -> (A::M, B::M) {
        (self.fst.model(), self.snd.model())
    }

    open spec fn m_bottom() -> (A::M, B::M) {
        (A::m_bottom(), B::m_bottom())
    }

    open spec fn m_join(a: (A::M, B::M), b: (A::M, B::M)) -> (A::M, B::M) {
        (A::m_join(a.0, b.0), B::m_join(a.1, b.1))
    }

    proof fn lemma_join_idempotent(a: (A::M, B::M)) {
        A::lemma_join_idempotent(a.0);
        B::lemma_join_idempotent(a.1);
        assert(Self::m_join(a, a) =~= a);
    }

    proof fn lemma_join_commutative(a: (A::M, B::M), b: (A::M, B::M)) {
        A::lemma_join_commutative(a.0, b.0);
        B::lemma_join_commutative(a.1, b.1);
        assert(Self::m_join(a, b) =~= Self::m_join(b, a));
    }

    proof fn lemma_join_associative(a: (A::M, B::M), b: (A::M, B::M), c: (A::M, B::M)) {
        A::lemma_join_associative(a.0, b.0, c.0);
        B::lemma_join_associative(a.1, b.1, c.1);
        assert(Self::m_join(Self::m_join(a, b), c) =~= Self::m_join(a, Self::m_join(b, c)));
    }

    proof fn lemma_bottom_identity(a: (A::M, B::M)) {
        A::lemma_bottom_identity(a.0);
        B::lemma_bottom_identity(a.1);
        assert(Self::m_join(Self::m_bottom(), a) =~= a);
    }

    fn bottom() -> (r: Self) {
        Pair { fst: LatticeElt::<A>::new_bottom(), snd: LatticeElt::<B>::new_bottom() }
    }

    fn join(&self, other: &Self) -> (r: Self) {
        Pair { fst: self.fst.join(&other.fst), snd: self.snd.join(&other.snd) }
    }

    fn leq(&self, other: &Self) -> (r: bool) {
        let below_fst = self.fst.leq(&other.fst);
        let below_snd = self.snd.leq(&other.snd);
        proof {
            if Self::m_join(self.model(), other.model()) == other.model() {
                assert(A::m_join(self.fst.model(), other.fst.model()) == other.fst.model());
                assert(B::m_join(self.snd.model(), other.snd.model()) == other.snd.model());
            }
            if below_fst && below_snd {
                assert(Self::m_join(self.model(), other.model()) =~= other.model());
            }
        }
        below_fst && below_snd
    }
}

} // verus!
