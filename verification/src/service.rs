//! The proof service: key lifecycle, proof preparation, and verification.
//!
//! A [`ProofService`] owns the process-wide key material as an explicit,
//! injectable object.  Its state machine is `Uninitialized → Initialized`,
//! one-way: initialization stores the three setup blobs exactly once,
//! atomically (all three validated before any is stored), and a second
//! attempt is rejected.  Proof preparation decodes and validates a witness
//! bundle into a circuit instance; proof verification decodes the public
//! root, deserializes the proof and runs the pairing check under the stored
//! verifying key.
//!
//! The prover itself needs a constraint synthesizer, which lives with the
//! host; the host obtains the circuit from [`ProofService::prepare_gacha_proof`]
//! and the proving-key bytes from [`ProofService::proving_key_bytes`], and
//! must draw fresh process entropy for each proof — a fixed or
//! caller-controlled seed breaks the zero-knowledge guarantee.

use vstd::prelude::*;

use crate::circuit::UserPullCircuit;
use crate::error::GachaCircuitError;
use crate::field::{copy_bytes, FieldElement};
use crate::merkle::{check_params_bytes, params_bytes_well_formed};
use crate::types::{fr_from_hex, fr_from_hex_val, NativeGachaCircuitInputs, WasmGachaCircuitInputs};
use ark_bls12_381::{Bls12_381, Fr};
use ark_ff::PrimeField;
use ark_groth16::{Groth16, Proof, ProvingKey, VerifyingKey};
use ark_serialize::CanonicalDeserialize;
use ark_snark::SNARK;

verus! {

/// Whether a byte blob parses as a compressed BLS12-381 Groth16 proving key.
pub uninterp spec fn proving_key_bytes_well_formed(b: Seq<u8>) -> bool;

/// Whether a byte blob parses as a compressed BLS12-381 Groth16 verifying
/// key.
pub uninterp spec fn verifying_key_bytes_well_formed(b: Seq<u8>) -> bool;

/// Whether a byte blob parses as a compressed BLS12-381 Groth16 proof.
pub uninterp spec fn proof_bytes_well_formed(b: Seq<u8>) -> bool;

/// What the Groth16 verifier returns for the given verifying-key bytes, the
/// one-element public-input vector holding `root`, and the given proof
/// bytes: `Some(b)` when the pairing check runs and returns `b`, `None` when
/// the verifier itself errs (as it does when the key's public-input wiring
/// does not fit one input).  A function of its arguments alone.
pub uninterp spec fn groth16_verify_result(vk: Seq<u8>, root: nat, proof: Seq<u8>) -> Option<bool>;

/// Relies on `ProvingKey::<Bls12_381>::deserialize_compressed_unchecked`
/// from ark-groth16: reports whether the blob parses, which depends on the
/// bytes alone.
#[verifier::external_body]
fn check_proving_key_bytes(b: &Vec<u8>) -> (r: bool)
    ensures
        r == proving_key_bytes_well_formed(b@),
{
    ProvingKey::<Bls12_381>::deserialize_compressed_unchecked(b.as_slice()).is_ok()
}

/// Relies on `VerifyingKey::<Bls12_381>::deserialize_compressed_unchecked`
/// from ark-groth16: reports whether the blob parses, which depends on the
/// bytes alone.
#[verifier::external_body]
fn check_verifying_key_bytes(b: &Vec<u8>) -> (r: bool)
    ensures
        r == verifying_key_bytes_well_formed(b@),
{
    VerifyingKey::<Bls12_381>::deserialize_compressed_unchecked(b.as_slice()).is_ok()
}

/// Relies on `Groth16::<Bls12_381>::verify` from ark-groth16 (together with
/// `Proof::deserialize_compressed_unchecked` for the proof argument): the
/// deterministic pairing check of a proof against a verifying key and the
/// one-element public-input vector `[root]`.  Returns the verifier's boolean
/// when it runs, a `Deserialization` error exactly when the proof blob does
/// not parse, and a `ProofVerification` error exactly when the verifier
/// itself errs.
#[verifier::external_body]
fn groth16_verify(vk_bytes: &Vec<u8>, root: &FieldElement, proof_bytes: &Vec<u8>) -> (r: Result<
    bool,
    GachaCircuitError,
>)
    requires
        verifying_key_bytes_well_formed(vk_bytes@),
        root.wf(),
    ensures
        (match r {
            Ok(b) => proof_bytes_well_formed(proof_bytes@) && groth16_verify_result(
                vk_bytes@,
                root.value(),
                proof_bytes@,
            ) == Some(b),
            Err(e) => match e {
                GachaCircuitError::Deserialization(_) => !proof_bytes_well_formed(proof_bytes@),
                GachaCircuitError::ProofVerification(_) => proof_bytes_well_formed(proof_bytes@)
                    && groth16_verify_result(vk_bytes@, root.value(), proof_bytes@) is None,
                _ => false,
            },
        }),
{
    let vk = VerifyingKey::<Bls12_381>::deserialize_compressed_unchecked(
        vk_bytes.as_slice(),
    ).unwrap();
    let proof = match Proof::<Bls12_381>::deserialize_compressed_unchecked(proof_bytes.as_slice())
        {
        Ok(p) => p,
        Err(e) => return Err(GachaCircuitError::Deserialization(format!("Proof: {}", e))),
    };
    let root_fr = Fr::from_le_bytes_mod_order(&root.le_bytes());
    match Groth16::<Bls12_381>::verify(&vk, &[root_fr], &proof) {
        Ok(b) => Ok(b),
        Err(e) => Err(GachaCircuitError::ProofVerification(e.to_string())),
    }
}

/// The stored key material, present only after initialization.
struct GachaKeys {
    proving_key_bytes: Vec<u8>,
    verifying_key_bytes: Vec<u8>,
    poseidon_params_bytes: Vec<u8>,
    auth_path_len: usize,
}

/// The write-once key store and the operations callers invoke.
pub struct ProofService {
    keys: Option<GachaKeys>,
}

impl ProofService {
    /// Whether initialization has succeeded.
    pub closed spec fn is_initialized(self) -> bool {
        self.keys is Some
    }

    /// The stored proving-key bytes.
    pub closed spec fn pk_bytes(self) -> Seq<u8> {
        match self.keys {
            Some(k) => k.proving_key_bytes@,
            None => Seq::empty(),
        }
    }

    /// The stored verifying-key bytes.
    pub closed spec fn vk_bytes(self) -> Seq<u8> {
        match self.keys {
            Some(k) => k.verifying_key_bytes@,
            None => Seq::empty(),
        }
    }

    /// The stored Poseidon-configuration bytes.
    pub closed spec fn params_bytes(self) -> Seq<u8> {
        match self.keys {
            Some(k) => k.poseidon_params_bytes@,
            None => Seq::empty(),
        }
    }

    /// The inner-path-node count every witness bundle must match: the tree
    /// height fixed at setup determines it.
    pub closed spec fn auth_path_len(self) -> nat {
        match self.keys {
            Some(k) => k.auth_path_len as nat,
            None => 0,
        }
    }

    /// Validity: whatever is stored was validated when it was stored.
    pub closed spec fn wf(self) -> bool {
        match self.keys {
            Some(k) => {
                &&& proving_key_bytes_well_formed(k.proving_key_bytes@)
                &&& verifying_key_bytes_well_formed(k.verifying_key_bytes@)
                &&& params_bytes_well_formed(k.poseidon_params_bytes@)
            },
            None => true,
        }
    }

    /// A fresh, uninitialized service.
    pub fn new() -> (r: Self)
        ensures
            !r.is_initialized(),
            r.wf(),
    {
        ProofService { keys: None }
    }

    /// One-time initialization: validates the three setup blobs — the
    /// Poseidon configuration, the proving key and the verifying key, in
    /// that order — and stores them together with the path-node count the
    /// tree height implies.  Nothing is stored unless all three validate; a
    /// second call fails with a setup error and changes nothing.
    pub fn init_gacha_keys(
        &mut self,
        pk_bytes: &Vec<u8>,
        vk_bytes: &Vec<u8>,
        params_bytes: &Vec<u8>,
        auth_path_len: usize,
    ) -> (r: Result<(), GachaCircuitError>)
        requires
            old(self).wf(),
        ensures
            final(self).wf(),
            (match r {
                Ok(_) => {
                    &&& !old(self).is_initialized()
                    &&& params_bytes_well_formed(params_bytes@)
                    &&& proving_key_bytes_well_formed(pk_bytes@)
                    &&& verifying_key_bytes_well_formed(vk_bytes@)
                    &&& final(self).is_initialized()
                    &&& final(self).pk_bytes() == pk_bytes@
                    &&& final(self).vk_bytes() == vk_bytes@
                    &&& final(self).params_bytes() == params_bytes@
                    &&& final(self).auth_path_len() == auth_path_len
                },
                Err(e) => {
                    &&& *final(self) == *old(self)
                    &&& (e matches GachaCircuitError::SetupError(_) <==> old(
                        self,
                    ).is_initialized())
                    &&& (old(self).is_initialized() || e
                        matches GachaCircuitError::Deserialization(_))
                    &&& !(!old(self).is_initialized() && params_bytes_well_formed(params_bytes@)
                        && proving_key_bytes_well_formed(pk_bytes@)
                        && verifying_key_bytes_well_formed(vk_bytes@))
                },
            }),
    {
        if self.keys.is_some() {
            return Err(GachaCircuitError::SetupError("Already initialized".to_owned()));
        }
        if !check_params_bytes(params_bytes) {
            return Err(
                GachaCircuitError::Deserialization(
                    "Params: the blob is malformed or inconsistent".to_owned(),
                ),
            );
        }
        if !check_proving_key_bytes(pk_bytes) {
            return Err(
                GachaCircuitError::Deserialization("PK: the blob does not deserialize".to_owned()),
            );
        }
        if !check_verifying_key_bytes(vk_bytes) {
            return Err(
                GachaCircuitError::Deserialization("VK: the blob does not deserialize".to_owned()),
            );
        }
        self.keys = Some(
            GachaKeys {
                proving_key_bytes: copy_bytes(pk_bytes),
                verifying_key_bytes: copy_bytes(vk_bytes),
                poseidon_params_bytes: copy_bytes(params_bytes),
                auth_path_len,
            },
        );
        Ok(())
    }

    /// Decodes a wire witness bundle into a circuit instance ready for the
    /// prover: every hex field must decode, the service must be initialized,
    /// and the bundle's path-node count must equal the count fixed at
    /// initialization — a wrong-length path is rejected, never truncated or
    /// padded.  The circuit carries the decoded values unchanged and the
    /// stored Poseidon configuration.
    pub fn prepare_gacha_proof(&self, inputs: &WasmGachaCircuitInputs) -> (r: Result<
        UserPullCircuit,
        GachaCircuitError,
    >)
        requires
            self.wf(),
        ensures
            (match r {
                Ok(c) => {
                    &&& NativeGachaCircuitInputs::decodes(*inputs)
                    &&& self.is_initialized()
                    &&& inputs.merkle_path_nodes_hex@.len() == self.auth_path_len()
                    &&& c.wf()
                    &&& c.poseidon_params@ == self.params_bytes()
                    &&& params_bytes_well_formed(c.poseidon_params@)
                    &&& fr_from_hex_val(inputs.merkle_root_hex@) == Some(c.merkle_root.value())
                    &&& fr_from_hex_val(inputs.item_id_hex@) == Some(c.item_id.value())
                    &&& fr_from_hex_val(inputs.secret_key_hex@) == Some(c.secret_key.value())
                    &&& fr_from_hex_val(inputs.leaf_sibling_hash_hex@) == Some(
                        c.native_merkle_path.leaf_sibling_hash.value(),
                    )
                    &&& c.native_merkle_path.leaf_index == inputs.leaf_index
                    &&& c.native_merkle_path.auth_path@.len()
                        == inputs.merkle_path_nodes_hex@.len()
                    &&& forall|i: int|
                        0 <= i < inputs.merkle_path_nodes_hex@.len() ==> fr_from_hex_val(
                            (#[trigger] inputs.merkle_path_nodes_hex@[i])@,
                        ) == Some(c.native_merkle_path.auth_path@[i].value())
                },
                Err(e) => {
                    ||| (!NativeGachaCircuitInputs::decodes(*inputs) && e
                        matches GachaCircuitError::HexDecoding(_))
                    ||| (NativeGachaCircuitInputs::decodes(*inputs) && !self.is_initialized() && e
                        matches GachaCircuitError::NotInitialized)
                    ||| (NativeGachaCircuitInputs::decodes(*inputs) && self.is_initialized()
                        && inputs.merkle_path_nodes_hex@.len() != self.auth_path_len() && e
                        matches GachaCircuitError::InvalidInput(_))
                },
            }),
    {
        let native = match NativeGachaCircuitInputs::try_from_wasm(inputs) {
            Ok(n) => n,
            Err(e) => {
                return Err(e);
            },
        };
        let k = match &self.keys {
            Some(k) => k,
            None => {
                return Err(GachaCircuitError::NotInitialized);
            },
        };
        if native.native_merkle_path.auth_path.len() != k.auth_path_len {
            return Err(
                GachaCircuitError::InvalidInput(
                    "the path-node count does not match the configured tree height".to_owned(),
                ),
            );
        }
        Ok(UserPullCircuit::new(native, copy_bytes(&k.poseidon_params_bytes)))
    }

    /// Verifies a proof against the hex-encoded public root: requires prior
    /// initialization, decodes the root, deserializes the proof and runs the
    /// pairing check; `Ok(false)` is a verifier that ran and rejected, which
    /// is not an error.
    pub fn verify_gacha_proof(&self, merkle_root_hex: &str, proof_bytes: &Vec<u8>) -> (r: Result<
        bool,
        GachaCircuitError,
    >)
        requires
            self.wf(),
        ensures
            (match r {
                Ok(b) => {
                    &&& self.is_initialized()
                    &&& proof_bytes_well_formed(proof_bytes@)
                    &&& (match fr_from_hex_val(merkle_root_hex@) {
                        Some(v) => groth16_verify_result(self.vk_bytes(), v, proof_bytes@) == Some(
                            b,
                        ),
                        None => false,
                    })
                },
                Err(e) => {
                    ||| (!self.is_initialized() && e matches GachaCircuitError::NotInitialized)
                    ||| (self.is_initialized() && fr_from_hex_val(merkle_root_hex@) is None && e
                        matches GachaCircuitError::HexDecoding(_))
                    ||| (self.is_initialized() && fr_from_hex_val(merkle_root_hex@) is Some
                        && !proof_bytes_well_formed(proof_bytes@) && e
                        matches GachaCircuitError::Deserialization(_))
                    ||| (self.is_initialized() && proof_bytes_well_formed(proof_bytes@) && (
                    match fr_from_hex_val(merkle_root_hex@) {
                        Some(v) => groth16_verify_result(self.vk_bytes(), v, proof_bytes@)
                            is None,
                        None => false,
                    }) && e matches GachaCircuitError::ProofVerification(_))
                },
            }),
    {
        let k = match &self.keys {
            Some(k) => k,
            None => {
                return Err(GachaCircuitError::NotInitialized);
            },
        };
        let root = match fr_from_hex(merkle_root_hex) {
            Ok(x) => x,
            Err(e) => {
                return Err(e);
            },
        };
        groth16_verify(&k.verifying_key_bytes, &root, proof_bytes)
    }

    /// The stored proving-key bytes, for the host that runs the prover;
    /// fails before initialization.
    pub fn proving_key_bytes(&self) -> (r: Result<Vec<u8>, GachaCircuitError>)
        ensures
            (match r {
                Ok(b) => self.is_initialized() && b@ == self.pk_bytes(),
                Err(e) => !self.is_initialized() && e matches GachaCircuitError::NotInitialized,
            }),
    {
        match &self.keys {
            Some(k) => Ok(copy_bytes(&k.proving_key_bytes)),
            None => Err(GachaCircuitError::NotInitialized),
        }
    }
}

} // verus!
