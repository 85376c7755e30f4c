//! The scalar field of the proving system.
//!
//! Every value that circulates through the proof pipeline — leaf data, path
//! digests, the public root — is an element of the BLS12-381 scalar field.
//! The library keeps such an element as its canonical 32 little-endian bytes,
//! so that contracts can speak of the element's integer value directly.

use vstd::prelude::*;

verus! {

use vstd::arithmetic::div_mod::{lemma_small_mod, lemma_mod_multiples_vanish};

/// The BLS12-381 scalar-field modulus: the public prime that all circuit
/// arithmetic is performed modulo.
pub open spec fn fr_modulus() -> nat {
    52435875175126190479447740508185965837690552500527637822603658699938581184513nat
}

/// The integer value of a byte sequence read in little-endian order.
pub open spec fn le_value(bytes: Seq<u8>) -> nat
    decreases bytes.len(),
{
    if bytes.len() == 0 {
        0
    } else {
        (bytes.first() + 256 * le_value(bytes.drop_first())) as nat
    }
}

/// The `n` little-endian bytes of `v` (truncating above `256^n`).
pub open spec fn le_bytes_of(v: nat, n: nat) -> Seq<u8>
    decreases n,
{
    if n == 0 {
        Seq::empty()
    } else {
        seq![(v % 256) as u8] + le_bytes_of(v / 256, (n - 1) as nat)
    }
}

/// `256^n`: the number of byte sequences of length `n`.
pub open spec fn pow256(n: nat) -> nat
    decreases n,
{
    if n == 0 {
        1
    } else {
        256 * pow256((n - 1) as nat)
    }
}

/// Reading the value of a byte sequence and re-serializing it gives the
/// sequence back: the canonical encoding is unique.
pub proof fn lemma_le_bytes_of_le_value(bytes: Seq<u8>)
    ensures
        le_bytes_of(le_value(bytes), bytes.len()) == bytes,
    decreases bytes.len(),
{
    if bytes.len() == 0 {
        assert(le_bytes_of(le_value(bytes), bytes.len()) =~= bytes);
    } else {
        let b0 = bytes.first();
        let rest = le_value(bytes.drop_first());
        let v = le_value(bytes);
        assert(v == b0 + 256 * rest);
        lemma_mod_multiples_vanish(rest as int, b0 as int, 256);
        lemma_small_mod(b0 as nat, 256);
        assert(v % 256 == b0);
        assert(v / 256 == rest) by (nonlinear_arith)
            requires
                v == b0 + 256 * rest,
                0 <= b0 < 256,
        ;
        lemma_le_bytes_of_le_value(bytes.drop_first());
        assert(le_bytes_of(v, bytes.len()) =~= bytes);
    }
}

/// Serializing a value below `256^n` into `n` bytes and reading it back gives
/// the value again.
pub proof fn lemma_le_value_le_bytes_of(v: nat, n: nat)
    requires
        v < pow256(n),
    ensures
        le_value(le_bytes_of(v, n)) == v,
    decreases n,
{
    if n > 0 {
        let s = le_bytes_of(v, n);
        assert(s.drop_first() =~= le_bytes_of(v / 256, (n - 1) as nat));
        assert(v / 256 < pow256((n - 1) as nat)) by (nonlinear_arith)
            requires
                v < 256 * pow256((n - 1) as nat),
        ;
        lemma_le_value_le_bytes_of(v / 256, (n - 1) as nat);
        assert(v % 256 + 256 * (v / 256) == v) by (nonlinear_arith);
    }
}

/// An element of the BLS12-381 scalar field, kept as its canonical 32
/// little-endian bytes (the unique encoding of an integer below the modulus).
#[derive(Debug)]
pub struct FieldElement {
    bytes: Vec<u8>,
}

impl FieldElement {
    /// The stored byte encoding.
    pub closed spec fn bytes_view(self) -> Seq<u8> {
        self.bytes@
    }

    /// Well-formedness: exactly 32 bytes whose value lies below the modulus.
    pub open spec fn wf(self) -> bool {
        self.bytes_view().len() == 32 && le_value(self.bytes_view()) < fr_modulus()
    }

    /// The integer value of the element.
    pub open spec fn value(self) -> nat {
        le_value(self.bytes_view())
    }

    /// Two well-formed elements with equal values have equal byte encodings.
    pub proof fn lemma_value_determines_bytes(self, other: Self)
        requires
            self.wf(),
            other.wf(),
            self.value() == other.value(),
        ensures
            self.bytes_view() == other.bytes_view(),
    {
        lemma_le_bytes_of_le_value(self.bytes_view());
        lemma_le_bytes_of_le_value(other.bytes_view());
    }

    /// Builds the element whose value is the little-endian reading of `bytes`,
    /// reduced modulo the field's prime.
    pub fn from_le_bytes_reduced(bytes: &Vec<u8>) -> (r: Self)
        ensures
            r.wf(),
            r.value() == le_value(bytes@) % fr_modulus(),
    {
        let reduced = reduce_le_bytes(bytes);
        FieldElement { bytes: reduced }
    }

    /// The canonical little-endian bytes, as a fresh vector.
    pub fn le_bytes(&self) -> (r: Vec<u8>)
        ensures
            r@ == self.bytes_view(),
    {
        copy_bytes(&self.bytes)
    }

}

impl PartialEq for FieldElement {
    /// Elements are equal exactly when their byte encodings are equal; for
    /// well-formed elements this coincides with equality of values.
    fn eq(&self, other: &Self) -> (r: bool) {
        let mut i: usize = 0;
        if self.bytes.len() != other.bytes.len() {
            return false;
        }
        while i < self.bytes.len()
            invariant
                i <= self.bytes.len(),
                self.bytes@.len() == other.bytes@.len(),
                forall|j: int| 0 <= j < i ==> self.bytes@[j] == other.bytes@[j],
            decreases self.bytes.len() - i,
        {
            if self.bytes[i] != other.bytes[i] {
                return false;
            }
            i += 1;
        }
        proof {
            assert(self.bytes@ =~= other.bytes@);
        }
        true
    }
}

impl Eq for FieldElement {

}

impl vstd::std_specs::cmp::PartialEqSpecImpl for FieldElement {
    open spec fn obeys_eq_spec() -> bool {
        true
    }

    open spec fn eq_spec(&self, other: &Self) -> bool {
        self.bytes_view() == other.bytes_view()
    }
}

/// A fresh vector holding the same bytes.
pub fn copy_bytes(v: &Vec<u8>) -> (r: Vec<u8>)
    ensures
        r@ == v@,
{
    let mut out: Vec<u8> = Vec::new();
    let mut i: usize = 0;
    while i < v.len()
        invariant
            i <= v.len(),
            out@ == v@.take(i as int),
        decreases v.len() - i,
    {
        out.push(v[i]);
        i += 1;
    }
    proof {
        assert(out@ =~= v@);
    }
    out
}

/// Relies on `ark_ff::PrimeField::from_le_bytes_mod_order` for
/// `ark_bls12_381::Fr` (which interprets the bytes as a little-endian integer
/// and reduces it modulo the scalar-field modulus) and on
/// `ark_ff::PrimeField::into_bigint` followed by
/// `ark_ff::BigInteger::to_bytes_le` (which re-serialize the canonical residue
/// as exactly 32 little-endian bytes).
#[verifier::external_body]
fn reduce_le_bytes(bytes: &Vec<u8>) -> (r: Vec<u8>)
    ensures
        r@.len() == 32,
        le_value(r@) == le_value(bytes@) % fr_modulus(),
{
    let fr = <ark_bls12_381::Fr as ark_ff::PrimeField>::from_le_bytes_mod_order(bytes.as_slice());
    ark_ff::BigInteger::to_bytes_le(&ark_ff::PrimeField::into_bigint(fr))
}

} // verus!
