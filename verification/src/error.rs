//! The failure taxonomy of the proof pipeline.
//!
//! Every operation reports failures through [`GachaCircuitError`], so a caller
//! can branch on the kind of failure; the `String` payloads carry diagnostic
//! detail only and are never required for correct handling.

use vstd::prelude::*;

verus! {

/// Why a hex string failed to decode.
#[derive(Debug, Clone, Copy, PartialEq, Eq, Structural)]
pub enum HexDecodeError {
    /// The digit count (after any `0x` prefix) is odd.
    OddLength,
    /// A character is not a hexadecimal digit.
    InvalidHexCharacter,
}

/// A failure of the proof pipeline, tagged by kind.
///
/// The serialization kinds cover malformed or truncated byte blobs for keys,
/// parameters and proofs; `NotInitialized` and `SetupError` guard the
/// one-time key lifecycle; `InvalidInput` and `ConversionError` cover
/// well-formed bytes that fail domain validation (such as a wrong path
/// length); the synthesis, proving and verification kinds report failures of
/// the underlying cryptographic operations themselves, which are distinct
/// from a verifier that runs and returns `false`.
#[derive(Debug)]
pub enum GachaCircuitError {
    Serialization(String),
    ArkSerialization(String),
    Deserialization(String),
    ArkSynthesis(String),
    ProofGeneration(String),
    ProofVerification(String),
    NotInitialized,
    InvalidInput(String),
    ConversionError(String),
    HexDecoding(HexDecodeError),
    SetupError(String),
    Primitive(String),
}

} // verus!
