//! The membership configuration: the semilattice laws on concrete elements,
//! the convergence scenarios, and the derived membership view.

use concorde::cfg::CfgLE;
use concorde::cfg::CfgLEExt;
use concorde::lattice::BoundedJoinSemilattice;
use concorde::peer_set::PeerSet;

fn peer_set(values: &[u64]) -> PeerSet {
    let mut s = PeerSet::bottom();
    for &v in values {
        s.insert(v);
    }
    s
}

fn cfg(added: &[u64], removed: &[u64]) -> CfgLE {
    let mut c = CfgLE::new_bottom();
    for &p in added {
        c.add_peer(p);
    }
    for &p in removed {
        c.remove_peer(p);
    }
    c
}

#[test]
fn join_is_idempotent() {
    let x = cfg(&[1, 2], &[2]);
    assert!(x.join(&x).equiv(&x));
}

#[test]
fn join_is_commutative() {
    let a = cfg(&[1, 2], &[]);
    let b = cfg(&[3], &[1]);
    assert!(a.join(&b).equiv(&b.join(&a)));
}

#[test]
fn join_is_associative() {
    let a = cfg(&[1, 2], &[]);
    let b = cfg(&[3], &[1]);
    let c = cfg(&[4], &[3]);
    assert!(a.join(&b).join(&c).equiv(&a.join(&b.join(&c))));
}

#[test]
fn bottom_is_the_join_identity() {
    let x = cfg(&[5, 7], &[5]);
    assert!(CfgLE::new_bottom().join(&x).equiv(&x));
    assert!(x.join(&CfgLE::new_bottom()).equiv(&x));
}

#[test]
fn join_unions_each_component() {
    let a = cfg(&[1, 2], &[4]);
    let b = cfg(&[3], &[1]);
    let j = a.join(&b);
    assert!(j.added_peers().same_contents(&peer_set(&[1, 2, 3])));
    assert!(j.removed_peers().same_contents(&peer_set(&[1, 4])));
}

#[test]
fn members_is_added_minus_removed() {
    let x = cfg(&[1, 2, 3], &[2, 9]);
    assert!(x.members().same_contents(&peer_set(&[1, 3])));
    // a peer removed without ever being added is no member either
    assert!(!x.members().contains(9));
}

#[test]
fn replicas_converge_in_any_order() {
    let a = cfg(&[1, 2], &[]);
    let b = cfg(&[3], &[1]);
    let ab = a.join(&b);
    assert!(ab.added_peers().same_contents(&peer_set(&[1, 2, 3])));
    assert!(ab.removed_peers().same_contents(&peer_set(&[1])));
    assert!(ab.members().same_contents(&peer_set(&[2, 3])));
    let ba = b.join(&a);
    assert!(ab.equiv(&ba));
    assert!(ab.join(&a).equiv(&ab));
}

#[test]
fn no_resurrection_after_removal() {
    let mut x = CfgLE::new_bottom();
    x.add_peer(1);
    x.remove_peer(1);
    assert!(x.members().same_contents(&peer_set(&[])));
    x.add_peer(1);
    assert!(x.added_peers().same_contents(&peer_set(&[1])));
    assert!(x.members().same_contents(&peer_set(&[])));
    assert!(!x.members().contains(1));
}

#[test]
fn bottom_has_no_members() {
    let bottom = CfgLE::new_bottom();
    assert!(bottom.members().same_contents(&peer_set(&[])));
    assert!(!bottom.members().contains(0));
    let a = cfg(&[1, 2], &[]);
    let b = cfg(&[3], &[1]);
    assert!(bottom.join(&a).equiv(&a));
    assert!(bottom.join(&b).equiv(&b));
    assert!(bottom.join(&a.join(&b)).equiv(&a.join(&b)));
}

#[test]
fn leq_is_the_componentwise_subset_order() {
    let small = cfg(&[1], &[]);
    let big = cfg(&[1, 2], &[3]);
    assert!(small.leq(&big));
    assert!(!big.leq(&small));
    assert!(big.leq(&big));
}

#[test]
fn adding_the_same_peer_twice_changes_nothing() {
    let mut x = CfgLE::new_bottom();
    x.add_peer(4);
    x.add_peer(4);
    assert!(x.added_peers().same_contents(&peer_set(&[4])));
    assert!(x.members().same_contents(&peer_set(&[4])));
}

#[test]
fn accessors_reach_the_two_components() {
    let x = cfg(&[1], &[2]);
    assert!(x.added_peers_elt().value.contains(1));
    assert!(!x.added_peers_elt().value.contains(2));
    assert!(x.removed_peers_elt().value.contains(2));
    assert!(!x.removed_peers_elt().value.contains(1));
}
