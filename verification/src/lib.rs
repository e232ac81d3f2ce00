//! A convergent membership configuration built from bounded join-semilattices.
//!
//! Group membership is kept as a pair of grow-only peer sets (added and
//! removed); the current members are those added and not removed. Replicas
//! merge states with a join that is idempotent, commutative and associative,
//! so merges may arrive in any order, duplicated or delayed, and every
//! replica still converges to the same configuration.

use vstd::prelude::*;

pub mod cfg;
pub mod lattice;
pub mod peer_set;

verus! {

/// A peer identifier: something small that names a replica.
pub type Peer = u64;

} // verus!
