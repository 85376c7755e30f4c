//! Merkle authentication paths over field-element digests.
//!
//! A path witnesses that a leaf stands at a claimed index of a binary hash
//! tree: it carries the digest of the leaf's sibling and, above that, one
//! sibling digest per tree level, ordered from the level just below the root
//! down to the level just above the leaves (the order the tree-building
//! tooling emits).  [`MerklePath::verify`] recomputes the root from the leaf
//! pair `(secret_key, item_id)` and compares it with a claimed root; the two
//! Poseidon hash roles are reached through trusted wrappers and named by the
//! uninterpreted functions [`leaf_hash_of`] and [`node_hash_of`], so the fold
//! itself is verified while the permutation stays with the outside crate.

use vstd::prelude::*;

use crate::error::GachaCircuitError;
use crate::field::FieldElement;
use ark_bls12_381::Fr;
use ark_crypto_primitives::crh::poseidon::{CRH as PoseidonCRH, TwoToOneCRH as PoseidonTwoToOneCRH};
use ark_crypto_primitives::crh::{CRHScheme, TwoToOneCRHScheme};
use ark_crypto_primitives::sponge::poseidon::PoseidonConfig;
use ark_ff::{BigInteger, PrimeField};
use ark_serialize::CanonicalDeserialize;

verus! {

/// Whether a byte blob parses as a Poseidon hash configuration for the
/// BLS12-381 scalar field that is also structurally consistent: a positive
/// rate, at least one round-constant row per round, and every constant and
/// MDS row at least the sponge width `rate + capacity`, with at least that
/// many MDS rows.  Such configurations make the sponge evaluation total.
/// A function of the bytes alone.
pub uninterp spec fn params_bytes_well_formed(b: Seq<u8>) -> bool;

/// The Poseidon digest of the two-element leaf preimage
/// `[secret_key, item_id]` under the configuration serialized in `params`.
/// A function of its arguments alone.
pub uninterp spec fn leaf_hash_of(params: Seq<u8>, secret_key: nat, item_id: nat) -> nat;

/// The Poseidon two-to-one digest of an ordered pair of child digests under
/// the configuration serialized in `params`.  A function of its arguments
/// alone.
pub uninterp spec fn node_hash_of(params: Seq<u8>, left: nat, right: nat) -> nat;

/// Relies on `PoseidonConfig::<Fr>::deserialize_compressed_unchecked` from
/// ark-crypto-primitives: reports whether the blob parses as a Poseidon
/// configuration and the parsed configuration is structurally consistent.
/// The deserializer checks no relation among the fields, so this also checks
/// what the sponge's round loops index by: the round-constant table holds a
/// row for every round, each table row and MDS row covers the sponge width
/// `rate + capacity` (setup tooling emits one column more than the width,
/// so the bound is a floor, not an equality), and the rate is positive (a
/// zero rate would make absorption loop forever).  A function of the bytes
/// alone.
#[verifier::external_body]
pub(crate) fn check_params_bytes(params: &Vec<u8>) -> (r: bool)
    ensures
        r == params_bytes_well_formed(params@),
{
    let cfg = match PoseidonConfig::<Fr>::deserialize_compressed_unchecked(params.as_slice()) {
        Ok(cfg) => cfg,
        Err(_) => return false,
    };
    let width = match cfg.rate.checked_add(cfg.capacity) {
        Some(w) => w,
        None => return false,
    };
    let rounds = match cfg.full_rounds.checked_add(cfg.partial_rounds) {
        Some(n) => n,
        None => return false,
    };
    cfg.rate >= 1 && cfg.ark.len() >= rounds && cfg.mds.len() >= width
        && cfg.ark.iter().all(|row| row.len() >= width)
        && cfg.mds.iter().all(|row| row.len() >= width)
}

/// Relies on `poseidon::CRH::<Fr>::evaluate` from ark-crypto-primitives: the
/// leaf digest of `[secret_key, item_id]`, a function of the configuration
/// bytes and the two values alone.  For a structurally consistent
/// configuration — which `params_bytes_well_formed` demands — the sponge
/// evaluation returns `Ok` and terminates on every two-element input, so the
/// call neither fails nor panics on any admitted argument.
#[verifier::external_body]
fn hash_leaf_pair(params: &Vec<u8>, secret_key: &FieldElement, item_id: &FieldElement) -> (r:
    FieldElement)
    requires
        params_bytes_well_formed(params@),
        secret_key.wf(),
        item_id.wf(),
    ensures
        r.wf(),
        r.value() == leaf_hash_of(params@, secret_key.value(), item_id.value()),
{
    let cfg = PoseidonConfig::<Fr>::deserialize_compressed_unchecked(params.as_slice()).unwrap();
    let sk = Fr::from_le_bytes_mod_order(&secret_key.le_bytes());
    let id = Fr::from_le_bytes_mod_order(&item_id.le_bytes());
    let h = PoseidonCRH::<Fr>::evaluate(&cfg, [sk, id]).unwrap();
    FieldElement::from_le_bytes_reduced(&h.into_bigint().to_bytes_le())
}

/// Relies on `poseidon::TwoToOneCRH::<Fr>::compress` from
/// ark-crypto-primitives (to which the crate's `evaluate` also delegates):
/// the inner-node digest of an ordered pair of child digests, a function of
/// the configuration bytes and the two values alone.  As with the leaf hash,
/// a structurally consistent configuration — which
/// `params_bytes_well_formed` demands — makes the sponge evaluation return
/// `Ok` and terminate on every input pair.
#[verifier::external_body]
fn hash_two_to_one(params: &Vec<u8>, left: &FieldElement, right: &FieldElement) -> (r:
    FieldElement)
    requires
        params_bytes_well_formed(params@),
        left.wf(),
        right.wf(),
    ensures
        r.wf(),
        r.value() == node_hash_of(params@, left.value(), right.value()),
{
    let cfg = PoseidonConfig::<Fr>::deserialize_compressed_unchecked(params.as_slice()).unwrap();
    let l = Fr::from_le_bytes_mod_order(&left.le_bytes());
    let rgt = Fr::from_le_bytes_mod_order(&right.le_bytes());
    let h = PoseidonTwoToOneCRH::<Fr>::compress(&cfg, l, rgt).unwrap();
    FieldElement::from_le_bytes_reduced(&h.into_bigint().to_bytes_le())
}

/// The digest folded upward from `acc`: at each level the next sibling —
/// taken from the back of `nodes`, since the path stores the highest level
/// first — joins `acc` on the side chosen by the low bit of `index`, and the
/// index shifts right for the next level.
pub open spec fn fold_path(params: Seq<u8>, nodes: Seq<nat>, acc: nat, index: nat) -> nat
    decreases nodes.len(),
{
    if nodes.len() == 0 {
        acc
    } else {
        let sibling = nodes.last();
        let joined = if index % 2 == 0 {
            node_hash_of(params, acc, sibling)
        } else {
            node_hash_of(params, sibling, acc)
        };
        fold_path(params, nodes.drop_last(), joined, index / 2)
    }
}

/// The root value a path computes for the leaf pair `(secret_key, item_id)`:
/// the leaf digest joins the leaf's sibling on the side chosen by the low bit
/// of the leaf index, and the result folds up through the inner levels.
pub open spec fn computed_root(
    params: Seq<u8>,
    leaf_index: nat,
    leaf_sibling: nat,
    nodes: Seq<nat>,
    secret_key: nat,
    item_id: nat,
) -> nat {
    let leaf_digest = leaf_hash_of(params, secret_key, item_id);
    let first = if leaf_index % 2 == 0 {
        node_hash_of(params, leaf_digest, leaf_sibling)
    } else {
        node_hash_of(params, leaf_sibling, leaf_digest)
    };
    fold_path(params, nodes, first, leaf_index / 2)
}

/// Whether `path` proves the pair `(secret_key, item_id)` a member of the
/// tree whose root is `root`, under the hash configuration in `params`.
pub open spec fn spec_membership(
    params: Seq<u8>,
    path: MerklePath,
    secret_key: nat,
    item_id: nat,
    root: nat,
) -> bool {
    computed_root(
        params,
        path.leaf_index as nat,
        path.leaf_sibling_hash.value(),
        path.nodes_view(),
        secret_key,
        item_id,
    ) == root
}

/// A Merkle authentication path for one leaf.
#[derive(Debug)]
pub struct MerklePath {
    /// Index of the leaf among the leaves, counted from zero; its bits, least
    /// significant first, give the left/right position at each tree level.
    pub leaf_index: usize,
    /// Sibling digests of the inner nodes on the path, ordered from the
    /// highest level (just below the root) down to the lowest.
    pub auth_path: Vec<FieldElement>,
    /// Digest of the sibling of the leaf itself.
    pub leaf_sibling_hash: FieldElement,
}

impl MerklePath {
    /// Well-formedness: every digest on the path is a well-formed field
    /// element.
    pub open spec fn wf(self) -> bool {
        &&& self.leaf_sibling_hash.wf()
        &&& forall|i: int|
            0 <= i < self.auth_path@.len() ==> (#[trigger] self.auth_path@[i]).wf()
    }

    /// The values of the inner sibling digests, in stored order.
    pub open spec fn nodes_view(self) -> Seq<nat> {
        self.auth_path@.map(|i: int, e: FieldElement| e.value())
    }

    /// Recomputes the root for the leaf pair `(secret_key, item_id)` along
    /// this path and compares it with `root`; both hash roles use the one
    /// Poseidon configuration serialized in `params_bytes`.  Fails exactly
    /// when that blob does not deserialize into a structurally consistent
    /// configuration.
    pub fn verify(
        &self,
        params_bytes: &Vec<u8>,
        root: &FieldElement,
        secret_key: &FieldElement,
        item_id: &FieldElement,
    ) -> (r: Result<bool, GachaCircuitError>)
        requires
            self.wf(),
            root.wf(),
            secret_key.wf(),
            item_id.wf(),
        ensures
            (match r {
                Ok(b) => params_bytes_well_formed(params_bytes@) && b == spec_membership(
                    params_bytes@,
                    *self,
                    secret_key.value(),
                    item_id.value(),
                    root.value(),
                ),
                Err(e) => !params_bytes_well_formed(params_bytes@) && e
                    matches GachaCircuitError::Deserialization(_),
            }),
    {
        if !check_params_bytes(params_bytes) {
            return Err(
                GachaCircuitError::Deserialization(
                    "the Poseidon configuration blob is malformed or inconsistent".to_owned(),
                ),
            );
        }
        let leaf_digest = hash_leaf_pair(params_bytes, secret_key, item_id);
        let mut acc = if self.leaf_index % 2 == 0 {
            hash_two_to_one(params_bytes, &leaf_digest, &self.leaf_sibling_hash)
        } else {
            hash_two_to_one(params_bytes, &self.leaf_sibling_hash, &leaf_digest)
        };
        let mut index: usize = self.leaf_index / 2;
        let ghost total = computed_root(
            params_bytes@,
            self.leaf_index as nat,
            self.leaf_sibling_hash.value(),
            self.nodes_view(),
            secret_key.value(),
            item_id.value(),
        );
        let mut level: usize = self.auth_path.len();
        proof {
            assert(self.nodes_view().take(self.auth_path@.len() as int) =~= self.nodes_view());
        }
        while level > 0
            invariant
                level <= self.auth_path@.len(),
                self.wf(),
                acc.wf(),
                params_bytes_well_formed(params_bytes@),
                total == fold_path(
                    params_bytes@,
                    self.nodes_view().take(level as int),
                    acc.value(),
                    index as nat,
                ),
            decreases level,
        {
            proof {
                let nv = self.nodes_view();
                assert(nv[level - 1] == self.auth_path@[level - 1].value());
                assert(nv.take(level as int).last() == nv[level - 1]);
                assert(nv.take(level as int).drop_last() =~= nv.take(level - 1));
            }
            let node = &self.auth_path[level - 1];
            acc = if index % 2 == 0 {
                hash_two_to_one(params_bytes, &acc, node)
            } else {
                hash_two_to_one(params_bytes, node, &acc)
            };
            index = index / 2;
            level = level - 1;
        }
        proof {
            assert(self.nodes_view().take(0) =~= Seq::<nat>::empty());
        }
        let b = acc == *root;
        proof {
            if acc.value() == root.value() {
                acc.lemma_value_determines_bytes(*root);
            }
        }
        Ok(b)
    }
}

} // verus!
