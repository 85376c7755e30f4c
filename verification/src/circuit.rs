//! The membership circuit description.
//!
//! A [`UserPullCircuit`] is one concrete membership claim, ready for
//! constraint synthesis: the public root, the private leaf pair and
//! authentication path, and the Poseidon configuration that is baked into the
//! constraints.  It is built fresh for each proof request and consumed once
//! by the prover.  The constraints it stands for are satisfiable exactly when
//! hashing the leaf pair `[secret_key, item_id]` and folding the digest up
//! the path reproduces the root — the same statement
//! [`MerklePath::verify`](crate::merkle::MerklePath::verify) checks natively,
//! which is what [`Self::verify_native_membership`] runs.

use vstd::prelude::*;

use crate::error::GachaCircuitError;
use crate::field::FieldElement;
use crate::merkle::{params_bytes_well_formed, spec_membership, MerklePath};
use crate::types::NativeGachaCircuitInputs;

verus! {

/// One membership claim, as handed to the constraint synthesizer.
#[derive(Debug)]
pub struct UserPullCircuit {
    /// Public input: the Merkle root.
    pub merkle_root: FieldElement,
    /// Private witness: the item id of the claimed leaf.
    pub item_id: FieldElement,
    /// Private witness: the secret key bound to the leaf.
    pub secret_key: FieldElement,
    /// Private witness: the authentication path of the leaf.
    pub native_merkle_path: MerklePath,
    /// The serialized Poseidon configuration, allocated as circuit constants.
    pub poseidon_params: Vec<u8>,
}

impl UserPullCircuit {
    /// Well-formedness: every field element is canonical.
    pub open spec fn wf(self) -> bool {
        &&& self.merkle_root.wf()
        &&& self.item_id.wf()
        &&& self.secret_key.wf()
        &&& self.native_merkle_path.wf()
    }

    /// Creates a circuit instance from decoded inputs and the hash
    /// configuration, carrying every value over unchanged.
    pub fn new(inputs: NativeGachaCircuitInputs, poseidon_params: Vec<u8>) -> (r: Self)
        ensures
            r.merkle_root == inputs.merkle_root,
            r.item_id == inputs.item_id,
            r.secret_key == inputs.secret_key,
            r.native_merkle_path == inputs.native_merkle_path,
            r.poseidon_params == poseidon_params,
            inputs.wf() ==> r.wf(),
    {
        UserPullCircuit {
            merkle_root: inputs.merkle_root,
            item_id: inputs.item_id,
            secret_key: inputs.secret_key,
            native_merkle_path: inputs.native_merkle_path,
            poseidon_params,
        }
    }

    /// Runs the membership statement natively on this witness: the exact
    /// check the circuit's constraints enforce, without the proof system.  A
    /// witness that fails here yields an unsatisfiable constraint system and
    /// must not be handed to the prover.
    pub fn verify_native_membership(&self) -> (r: Result<bool, GachaCircuitError>)
        requires
            self.wf(),
        ensures
            (match r {
                Ok(b) => params_bytes_well_formed(self.poseidon_params@) && b == spec_membership(
                    self.poseidon_params@,
                    self.native_merkle_path,
                    self.secret_key.value(),
                    self.item_id.value(),
                    self.merkle_root.value(),
                ),
                Err(e) => !params_bytes_well_formed(self.poseidon_params@) && e
                    matches GachaCircuitError::Deserialization(_),
            }),
    {
        self.native_merkle_path.verify(
            &self.poseidon_params,
            &self.merkle_root,
            &self.secret_key,
            &self.item_id,
        )
    }
}

} // verus!
