//! Tests of the verified library itself: the hex codec, witness decoding,
//! the native membership check against arkworks' own tree building, and the
//! proof service's key lifecycle.

use ark_bls12_381::{Bls12_381, Fr};
use ark_crypto_primitives::crh::poseidon::{CRH as PoseidonCRH, TwoToOneCRH as PoseidonTwoToOneCRH};
use ark_crypto_primitives::crh::CRHScheme;
use ark_crypto_primitives::merkle_tree::{
    Config as MerkleConfig, IdentityDigestConverter, MerkleTree,
};
use ark_crypto_primitives::sponge::poseidon::{find_poseidon_ark_and_mds, PoseidonConfig};
use ark_ff::{BigInteger, PrimeField, UniformRand};
use ark_groth16::Groth16;
use ark_relations::r1cs::{
    ConstraintSynthesizer, ConstraintSystemRef, LinearCombination, SynthesisError, Variable,
};
use ark_serialize::CanonicalSerialize;
use ark_snark::SNARK;
use ark_std::rand::{RngCore, SeedableRng};
use ark_std::test_rng;

use zk_circuits::config::{define_gacha_items, TREE_HEIGHT, TREE_SIZE};
use zk_circuits::error::{GachaCircuitError, HexDecodeError};
use zk_circuits::field::FieldElement;
use zk_circuits::merkle::MerklePath;
use zk_circuits::service::ProofService;
use zk_circuits::types::{
    fr_from_hex, fr_to_hex, prepare_groth16_public_inputs, WasmGachaCircuitInputs,
};

type ConstraintField = Fr;
type NativePoseidonConfig = PoseidonConfig<ConstraintField>;

#[derive(Debug, Clone)]
struct GachaMerkleConfig;

impl MerkleConfig for GachaMerkleConfig {
    type Leaf = [ConstraintField];
    type LeafDigest = ConstraintField;
    type InnerDigest = ConstraintField;
    type LeafInnerDigestConverter = IdentityDigestConverter<ConstraintField>;
    type LeafHash = PoseidonCRH<ConstraintField>;
    type TwoToOneHash = PoseidonTwoToOneCRH<ConstraintField>;
}

/// A minimal circuit (one multiplication) used only to mint well-formed
/// Groth16 key blobs quickly for service-lifecycle tests.
#[derive(Clone, Copy)]
struct MulCircuit {
    a: Option<Fr>,
    b: Option<Fr>,
}

impl ConstraintSynthesizer<Fr> for MulCircuit {
    fn generate_constraints(self, cs: ConstraintSystemRef<Fr>) -> Result<(), SynthesisError> {
        let a = cs.new_witness_variable(|| self.a.ok_or(SynthesisError::AssignmentMissing))?;
        let b = cs.new_witness_variable(|| self.b.ok_or(SynthesisError::AssignmentMissing))?;
        let c = cs.new_input_variable(|| {
            let a = self.a.ok_or(SynthesisError::AssignmentMissing)?;
            let b = self.b.ok_or(SynthesisError::AssignmentMissing)?;
            Ok(a * b)
        })?;
        cs.enforce_constraint(
            LinearCombination::zero() + a,
            LinearCombination::zero() + b,
            LinearCombination::zero() + c,
        )?;
        Ok(())
    }
}

/// A circuit with two public inputs, whose verifying key therefore cannot
/// take the service's one-element public-input vector.
#[derive(Clone, Copy)]
struct TwoInputCircuit {
    a: Option<Fr>,
    b: Option<Fr>,
}

impl ConstraintSynthesizer<Fr> for TwoInputCircuit {
    fn generate_constraints(self, cs: ConstraintSystemRef<Fr>) -> Result<(), SynthesisError> {
        let a = cs.new_input_variable(|| self.a.ok_or(SynthesisError::AssignmentMissing))?;
        let b = cs.new_input_variable(|| self.b.ok_or(SynthesisError::AssignmentMissing))?;
        cs.enforce_constraint(
            LinearCombination::zero() + a,
            LinearCombination::zero() + Variable::One,
            LinearCombination::zero() + b,
        )?;
        Ok(())
    }
}

fn setup_poseidon_params() -> NativePoseidonConfig {
    let rate = 2;
    let capacity = 1;
    let full_rounds = 8;
    let partial_rounds = 31;
    let alpha = 17;

    let (ark, mds) = find_poseidon_ark_and_mds::<ConstraintField>(
        ConstraintField::MODULUS_BIT_SIZE as u64,
        rate + capacity,
        full_rounds as u64,
        partial_rounds as u64,
        0,
    );

    PoseidonConfig {
        full_rounds,
        partial_rounds,
        alpha: alpha as u64,
        ark,
        mds,
        rate,
        capacity,
    }
}

fn serialize_compressed_bytes<T: CanonicalSerialize>(value: &T) -> Vec<u8> {
    let mut out = Vec::new();
    value.serialize_compressed(&mut out).expect("serialization failed");
    out
}

fn hex_from_fr(x: &Fr) -> String {
    format!("0x{}", hex::encode(x.into_bigint().to_bytes_le()))
}

fn fe_from_fr(x: &Fr) -> FieldElement {
    FieldElement::from_le_bytes_reduced(&x.into_bigint().to_bytes_le())
}

/// Key blobs for the service: a real (if tiny) Groth16 key pair and the
/// given Poseidon configuration, all compressed-serialized.
fn make_key_blobs(params: &NativePoseidonConfig) -> (Vec<u8>, Vec<u8>, Vec<u8>) {
    let mut rng = ark_std::rand::rngs::StdRng::seed_from_u64(test_rng().next_u64());
    let circuit = MulCircuit {
        a: Some(Fr::rand(&mut rng)),
        b: Some(Fr::rand(&mut rng)),
    };
    let (pk, vk) = Groth16::<Bls12_381>::circuit_specific_setup(circuit, &mut rng)
        .expect("Groth16 setup failed");
    (
        serialize_compressed_bytes(&pk),
        serialize_compressed_bytes(&vk),
        serialize_compressed_bytes(params),
    )
}

struct TestTree {
    root: Fr,
    item_id: Fr,
    secret_key: Fr,
    path: ark_crypto_primitives::merkle_tree::Path<GachaMerkleConfig>,
}

fn build_test_tree(
    params: &NativePoseidonConfig,
    tree_size: usize,
    target_leaf_index: usize,
) -> TestTree {
    let mut rng = test_rng();
    let item_id = Fr::rand(&mut rng);
    let secret_key = Fr::rand(&mut rng);
    let target_leaf_hash =
        PoseidonCRH::<ConstraintField>::evaluate(params, [secret_key, item_id])
            .expect("leaf hash failed");
    let mut leaf_hashes = Vec::with_capacity(tree_size);
    for i in 0..tree_size {
        if i == target_leaf_index {
            leaf_hashes.push(target_leaf_hash);
        } else {
            let h = PoseidonCRH::<ConstraintField>::evaluate(
                params,
                [Fr::rand(&mut rng), Fr::rand(&mut rng)],
            )
            .expect("leaf hash failed");
            leaf_hashes.push(h);
        }
    }
    let tree = MerkleTree::<GachaMerkleConfig>::new_with_leaf_digest(params, params, leaf_hashes)
        .expect("tree build failed");
    let root = tree.root();
    let path = tree.generate_proof(target_leaf_index).expect("proof generation failed");
    TestTree {
        root,
        item_id,
        secret_key,
        path,
    }
}

fn bundle_from_tree(t: &TestTree) -> WasmGachaCircuitInputs {
    WasmGachaCircuitInputs {
        merkle_root_hex: hex_from_fr(&t.root),
        item_id_hex: hex_from_fr(&t.item_id),
        secret_key_hex: hex_from_fr(&t.secret_key),
        merkle_path_nodes_hex: t.path.auth_path.iter().map(hex_from_fr).collect(),
        leaf_sibling_hash_hex: hex_from_fr(&t.path.leaf_sibling_hash),
        leaf_index: t.path.leaf_index,
    }
}

#[test]
fn test_fr_hex_round_trip() {
    for input in ["0x2a", "0x00", "0x", "", "0xff", "0xabcdef0123456789"] {
        let fe = fr_from_hex(input).expect("decode failed");
        let encoded = fr_to_hex(&fe).expect("encode failed");
        let fe2 = fr_from_hex(&encoded).expect("re-decode failed");
        assert_eq!(fe, fe2, "round trip changed the element for {input}");
    }
}

#[test]
fn test_fr_to_hex_exact() {
    let fe = fr_from_hex("0x2a").expect("decode failed");
    let expected = format!("0x2a{}", "00".repeat(31));
    assert_eq!(fr_to_hex(&fe).expect("encode failed"), expected);

    let zero = fr_from_hex("").expect("decode failed");
    assert_eq!(
        fr_to_hex(&zero).expect("encode failed"),
        format!("0x{}", "00".repeat(32))
    );
}

#[test]
fn test_fr_from_hex_prefix_handling() {
    // The prefix is stripped repeatedly, and digits are read in either case.
    let a = fr_from_hex("0x0xab").expect("decode failed");
    let b = fr_from_hex("ab").expect("decode failed");
    let c = fr_from_hex("0xAB").expect("decode failed");
    assert_eq!(a, b);
    assert_eq!(a, c);
    // An uppercase prefix is not a prefix, and 'X' is not a digit.
    assert!(matches!(
        fr_from_hex("0X2a"),
        Err(GachaCircuitError::HexDecoding(HexDecodeError::InvalidHexCharacter))
    ));
}

#[test]
fn test_fr_from_hex_errors() {
    assert!(matches!(
        fr_from_hex("0xabc"),
        Err(GachaCircuitError::HexDecoding(HexDecodeError::OddLength))
    ));
    assert!(matches!(
        fr_from_hex("0xzz"),
        Err(GachaCircuitError::HexDecoding(HexDecodeError::InvalidHexCharacter))
    ));
}

#[test]
fn test_fr_from_hex_reduces_mod_order() {
    // The modulus itself reduces to zero; decoding is mod-order, encoding is
    // canonical.
    let modulus_hex = format!(
        "0x{}",
        hex::encode(<Fr as PrimeField>::MODULUS.to_bytes_le())
    );
    let fe = fr_from_hex(&modulus_hex).expect("decode failed");
    assert_eq!(
        fr_to_hex(&fe).expect("encode failed"),
        format!("0x{}", "00".repeat(32))
    );
}

#[test]
fn test_native_membership_matches_arkworks() {
    let params = setup_poseidon_params();
    let params_bytes = serialize_compressed_bytes(&params);
    for (tree_size, index) in [(8usize, 3usize), (8, 4), (16, 7), (2, 1)] {
        let t = build_test_tree(&params, tree_size, index);
        let ark_ok = t
            .path
            .verify(&params, &params, &t.root, [t.secret_key, t.item_id])
            .expect("ark verify failed");
        assert!(ark_ok, "arkworks rejected its own path");

        let path = MerklePath {
            leaf_index: t.path.leaf_index,
            auth_path: t.path.auth_path.iter().map(fe_from_fr).collect(),
            leaf_sibling_hash: fe_from_fr(&t.path.leaf_sibling_hash),
        };
        let ours = path
            .verify(
                &params_bytes,
                &fe_from_fr(&t.root),
                &fe_from_fr(&t.secret_key),
                &fe_from_fr(&t.item_id),
            )
            .expect("native verify failed");
        assert!(ours, "native membership check rejected a valid path (size {tree_size})");

        // An altered secret key must fail both checks.
        let mut rng = test_rng();
        let wrong = Fr::rand(&mut rng) + t.secret_key;
        let ark_bad = t
            .path
            .verify(&params, &params, &t.root, [wrong, t.item_id])
            .expect("ark verify failed");
        let ours_bad = path
            .verify(
                &params_bytes,
                &fe_from_fr(&t.root),
                &fe_from_fr(&wrong),
                &fe_from_fr(&t.item_id),
            )
            .expect("native verify failed");
        assert_eq!(ark_bad, ours_bad);
        assert!(!ours_bad, "native membership check accepted an altered secret key");
    }
}

#[test]
fn test_service_single_initialization() {
    let params = setup_poseidon_params();
    let (pk_bytes, vk_bytes, params_bytes) = make_key_blobs(&params);

    let mut service = ProofService::new();

    // Operations before initialization fail with NotInitialized.
    assert!(matches!(
        service.verify_gacha_proof("0x2a", &vec![0u8; 4]),
        Err(GachaCircuitError::NotInitialized)
    ));
    assert!(matches!(
        service.proving_key_bytes(),
        Err(GachaCircuitError::NotInitialized)
    ));

    service
        .init_gacha_keys(&pk_bytes, &vk_bytes, &params_bytes, 3)
        .expect("first initialization failed");
    assert_eq!(service.proving_key_bytes().expect("missing proving key"), pk_bytes);

    // A second initialization fails, even with identical inputs.
    assert!(matches!(
        service.init_gacha_keys(&pk_bytes, &vk_bytes, &params_bytes, 3),
        Err(GachaCircuitError::SetupError(_))
    ));
}

#[test]
fn test_service_init_rejects_malformed_blobs() {
    let params = setup_poseidon_params();
    let (pk_bytes, vk_bytes, params_bytes) = make_key_blobs(&params);
    let garbage = vec![1u8, 2, 3];

    let mut service = ProofService::new();
    assert!(matches!(
        service.init_gacha_keys(&pk_bytes, &vk_bytes, &garbage, 3),
        Err(GachaCircuitError::Deserialization(_))
    ));
    assert!(matches!(
        service.init_gacha_keys(&garbage, &vk_bytes, &params_bytes, 3),
        Err(GachaCircuitError::Deserialization(_))
    ));
    assert!(matches!(
        service.init_gacha_keys(&pk_bytes, &garbage, &params_bytes, 3),
        Err(GachaCircuitError::Deserialization(_))
    ));
    // Nothing was stored: the service is still uninitialized, so a good
    // initialization still succeeds.
    service
        .init_gacha_keys(&pk_bytes, &vk_bytes, &params_bytes, 3)
        .expect("initialization after rejected blobs failed");
}

#[test]
fn test_inconsistent_poseidon_blob_rejected() {
    // These blobs deserialize, but their configurations are structurally
    // unusable: one has no round constants at all, one has a zero rate.
    // Both must be rejected up front, at initialization and by the native
    // membership check, never handed to the sponge.
    let good = setup_poseidon_params();
    let (pk_bytes, vk_bytes, _) = make_key_blobs(&good);

    let mut empty_tables = good.clone();
    empty_tables.ark = Vec::new();
    empty_tables.mds = Vec::new();
    let mut zero_rate = good.clone();
    zero_rate.rate = 0;

    for bad in [empty_tables, zero_rate] {
        let bad_bytes = serialize_compressed_bytes(&bad);
        let mut service = ProofService::new();
        assert!(matches!(
            service.init_gacha_keys(&pk_bytes, &vk_bytes, &bad_bytes, 3),
            Err(GachaCircuitError::Deserialization(_))
        ));

        let t = build_test_tree(&good, 8, 3);
        let path = MerklePath {
            leaf_index: t.path.leaf_index,
            auth_path: t.path.auth_path.iter().map(fe_from_fr).collect(),
            leaf_sibling_hash: fe_from_fr(&t.path.leaf_sibling_hash),
        };
        assert!(matches!(
            path.verify(
                &bad_bytes,
                &fe_from_fr(&t.root),
                &fe_from_fr(&t.secret_key),
                &fe_from_fr(&t.item_id),
            ),
            Err(GachaCircuitError::Deserialization(_))
        ));
    }
}

#[test]
fn test_service_path_length_invariant() {
    let params = setup_poseidon_params();
    let (pk_bytes, vk_bytes, params_bytes) = make_key_blobs(&params);
    let t = build_test_tree(&params, 16, 7);
    let bundle = bundle_from_tree(&t);
    let path_len = bundle.merkle_path_nodes_hex.len();

    // Before initialization, a well-formed bundle is NotInitialized.
    let fresh = ProofService::new();
    assert!(matches!(
        fresh.prepare_gacha_proof(&bundle),
        Err(GachaCircuitError::NotInitialized)
    ));

    // Initialized for a different path length: the bundle is rejected as
    // invalid input, not truncated or padded.
    let mut service = ProofService::new();
    service
        .init_gacha_keys(&pk_bytes, &vk_bytes, &params_bytes, path_len + 1)
        .expect("initialization failed");
    assert!(matches!(
        service.prepare_gacha_proof(&bundle),
        Err(GachaCircuitError::InvalidInput(_))
    ));

    // With the matching length the bundle is accepted.
    let mut service2 = ProofService::new();
    service2
        .init_gacha_keys(&pk_bytes, &vk_bytes, &params_bytes, path_len)
        .expect("initialization failed");
    let circuit = service2.prepare_gacha_proof(&bundle).expect("prepare failed");
    assert_eq!(circuit.native_merkle_path.leaf_index, 7);
    assert!(circuit
        .verify_native_membership()
        .expect("native membership check failed"));
}

#[test]
fn test_service_prepare_rejects_bad_hex() {
    let params = setup_poseidon_params();
    let (pk_bytes, vk_bytes, params_bytes) = make_key_blobs(&params);
    let t = build_test_tree(&params, 8, 3);
    let mut bundle = bundle_from_tree(&t);
    let path_len = bundle.merkle_path_nodes_hex.len();
    bundle.secret_key_hex = "0xnothex".to_string();

    let mut service = ProofService::new();
    service
        .init_gacha_keys(&pk_bytes, &vk_bytes, &params_bytes, path_len)
        .expect("initialization failed");
    assert!(matches!(
        service.prepare_gacha_proof(&bundle),
        Err(GachaCircuitError::HexDecoding(_))
    ));
}

#[test]
fn test_service_verify_error_cases() {
    let params = setup_poseidon_params();
    let (pk_bytes, vk_bytes, params_bytes) = make_key_blobs(&params);
    let mut service = ProofService::new();
    service
        .init_gacha_keys(&pk_bytes, &vk_bytes, &params_bytes, 3)
        .expect("initialization failed");

    // A malformed root is a hex error.
    assert!(matches!(
        service.verify_gacha_proof("0xqq", &vec![0u8; 8]),
        Err(GachaCircuitError::HexDecoding(_))
    ));
    // Bytes that are no proof are a deserialization error, distinct from a
    // verifier that runs and returns false.
    assert!(matches!(
        service.verify_gacha_proof("0x2a", &vec![1u8, 2, 3]),
        Err(GachaCircuitError::Deserialization(_))
    ));
}

#[test]
fn test_service_verify_reports_verifier_error() {
    // A verifying key whose public-input wiring does not fit one element
    // makes the verifier itself err: a ProofVerification error, not a
    // boolean.
    let params = setup_poseidon_params();
    let mut rng = ark_std::rand::rngs::StdRng::seed_from_u64(test_rng().next_u64());

    // A structurally valid proof, minted from the one-input circuit.
    let mul = MulCircuit {
        a: Some(Fr::rand(&mut rng)),
        b: Some(Fr::rand(&mut rng)),
    };
    let (mul_pk, _mul_vk) =
        Groth16::<Bls12_381>::circuit_specific_setup(mul, &mut rng).expect("setup failed");
    let proof = Groth16::<Bls12_381>::prove(&mul_pk, mul, &mut rng).expect("prove failed");
    let proof_bytes = serialize_compressed_bytes(&proof);

    // A service initialized with keys for a two-input circuit.
    let two = TwoInputCircuit {
        a: Some(Fr::rand(&mut rng)),
        b: Some(Fr::rand(&mut rng)),
    };
    let (pk, vk) =
        Groth16::<Bls12_381>::circuit_specific_setup(two, &mut rng).expect("setup failed");
    let mut service = ProofService::new();
    service
        .init_gacha_keys(
            &serialize_compressed_bytes(&pk),
            &serialize_compressed_bytes(&vk),
            &serialize_compressed_bytes(&params),
            3,
        )
        .expect("initialization failed");

    assert!(matches!(
        service.verify_gacha_proof("0x2a", &proof_bytes),
        Err(GachaCircuitError::ProofVerification(_))
    ));
}

#[test]
fn test_define_gacha_items_catalog() {
    let items = define_gacha_items();
    assert_eq!(items.len(), 12);
    assert_eq!(items[0].id, "pokemon_001");
    assert_eq!(items[0].name, "Pikachu");
    assert_eq!(items[0].rarity, "rare");
    assert_eq!(items[8].name, "Gengar");
    assert_eq!(items[11].id, "pokemon_012");
    assert_eq!(items[11].name, "Mew");
    assert_eq!(items[11].rarity, "legendary");
    for item in &items {
        assert_eq!(item.image_url, "/gacha/images/placeholder.svg");
    }
    assert!(items.len() <= TREE_SIZE);
    assert_eq!(TREE_SIZE, 1 << TREE_HEIGHT);
}

#[test]
fn test_prepare_groth16_public_inputs_shape() {
    let root = fr_from_hex("0x17").expect("decode failed");
    let expected = fr_from_hex("0x17").expect("decode failed");
    let v = prepare_groth16_public_inputs(root);
    assert_eq!(v.len(), 1);
    assert_eq!(v[0], expected);
}
