//! Boundary codec and data-transfer shapes.
//!
//! Field elements cross the boundary as hex strings: decoding strips any
//! leading `0x` prefixes, reads pairs of hex digits as bytes, and reduces the
//! little-endian value modulo the field's prime; encoding writes the
//! canonical 32 little-endian bytes back out as lowercase hex behind a `0x`
//! prefix.  A whole proof request crosses as a [`WasmGachaCircuitInputs`]
//! record of hex strings, decoded here into native field elements.

use vstd::prelude::*;

use crate::error::{GachaCircuitError, HexDecodeError};
use crate::field::{
    fr_modulus, le_bytes_of, le_value, lemma_le_bytes_of_le_value, lemma_le_value_le_bytes_of,
    pow256, FieldElement,
};
use crate::merkle::MerklePath;

verus! {

use vstd::arithmetic::div_mod::lemma_small_mod;
use vstd::string::StrSliceExecFns;
use vstd::string::StringExecFns;

/// A hex digit's numeric value, or -1 when the character is not a hex digit.
pub open spec fn hex_digit_value(c: char) -> int {
    if c == '0' { 0 }
    else if c == '1' { 1 }
    else if c == '2' { 2 }
    else if c == '3' { 3 }
    else if c == '4' { 4 }
    else if c == '5' { 5 }
    else if c == '6' { 6 }
    else if c == '7' { 7 }
    else if c == '8' { 8 }
    else if c == '9' { 9 }
    else if c == 'a' || c == 'A' { 10 }
    else if c == 'b' || c == 'B' { 11 }
    else if c == 'c' || c == 'C' { 12 }
    else if c == 'd' || c == 'D' { 13 }
    else if c == 'e' || c == 'E' { 14 }
    else if c == 'f' || c == 'F' { 15 }
    else { -1 }
}

/// Whether `c` is a hex digit (either case).
pub open spec fn is_hex_digit(c: char) -> bool {
    hex_digit_value(c) >= 0
}

/// The lowercase hex digit for a value below 16.
pub open spec fn hex_char_of(v: nat) -> char {
    if v == 0 { '0' }
    else if v == 1 { '1' }
    else if v == 2 { '2' }
    else if v == 3 { '3' }
    else if v == 4 { '4' }
    else if v == 5 { '5' }
    else if v == 6 { '6' }
    else if v == 7 { '7' }
    else if v == 8 { '8' }
    else if v == 9 { '9' }
    else if v == 10 { 'a' }
    else if v == 11 { 'b' }
    else if v == 12 { 'c' }
    else if v == 13 { 'd' }
    else if v == 14 { 'e' }
    else { 'f' }
}

/// The two hex digits of one byte, high nibble first.
pub open spec fn byte_to_hex_chars(b: u8) -> Seq<char> {
    seq![hex_char_of((b / 16) as nat), hex_char_of((b % 16) as nat)]
}

/// The hex digits of a byte sequence, in byte order.
pub open spec fn bytes_to_hex_chars(bytes: Seq<u8>) -> Seq<char>
    decreases bytes.len(),
{
    if bytes.len() == 0 {
        Seq::empty()
    } else {
        byte_to_hex_chars(bytes.first()) + bytes_to_hex_chars(bytes.drop_first())
    }
}

/// The wire encoding of a field-element value: `0x` followed by the hex
/// digits of its canonical 32 little-endian bytes.
pub open spec fn fr_to_hex_chars(v: nat) -> Seq<char> {
    seq!['0', 'x'] + bytes_to_hex_chars(le_bytes_of(v, 32))
}

/// The bytes denoted by a sequence of hex digits: two digits per byte, high
/// nibble first; `None` when the length is odd or a character is not a hex
/// digit.
pub open spec fn hex_to_bytes(s: Seq<char>) -> Option<Seq<u8>>
    decreases s.len(),
{
    if s.len() == 0 {
        Some(Seq::empty())
    } else if s.len() == 1 {
        None
    } else if !is_hex_digit(s[0]) || !is_hex_digit(s[1]) {
        None
    } else {
        match hex_to_bytes(s.skip(2)) {
            Some(rest) => Some(
                seq![(16 * hex_digit_value(s[0]) + hex_digit_value(s[1])) as u8] + rest,
            ),
            None => None,
        }
    }
}

/// `s` with every leading `0x` removed (decoding strips the prefix
/// repeatedly, so `0x0xab` reads as `ab`).
pub open spec fn strip_hex_prefix(s: Seq<char>) -> Seq<char>
    decreases s.len(),
{
    if s.len() >= 2 && s[0] == '0' && s[1] == 'x' {
        strip_hex_prefix(s.skip(2))
    } else {
        s
    }
}

/// The field-element value a hex string denotes: the little-endian value of
/// its digit pairs, after prefix stripping, reduced modulo the field's prime;
/// `None` when the digits are malformed.
pub open spec fn fr_from_hex_val(s: Seq<char>) -> Option<nat> {
    match hex_to_bytes(strip_hex_prefix(s)) {
        Some(b) => Some(le_value(b) % fr_modulus()),
        None => None,
    }
}

/// The numeric value of the hex digit `c`, executable form.
fn hex_digit_value_exec(c: char) -> (v: i8)
    ensures
        v as int == hex_digit_value(c),
{
    match c {
        '0' => 0,
        '1' => 1,
        '2' => 2,
        '3' => 3,
        '4' => 4,
        '5' => 5,
        '6' => 6,
        '7' => 7,
        '8' => 8,
        '9' => 9,
        'a' | 'A' => 10,
        'b' | 'B' => 11,
        'c' | 'C' => 12,
        'd' | 'D' => 13,
        'e' | 'E' => 14,
        'f' | 'F' => 15,
        _ => -1,
    }
}

/// The one-character string of the lowercase hex digit for `v`.
fn hex_char_str(v: u8) -> (r: &'static str)
    requires
        v < 16,
    ensures
        r@.len() == 1,
        r@[0] == hex_char_of(v as nat),
{
    proof {
        reveal_strlit("0");
        reveal_strlit("1");
        reveal_strlit("2");
        reveal_strlit("3");
        reveal_strlit("4");
        reveal_strlit("5");
        reveal_strlit("6");
        reveal_strlit("7");
        reveal_strlit("8");
        reveal_strlit("9");
        reveal_strlit("a");
        reveal_strlit("b");
        reveal_strlit("c");
        reveal_strlit("d");
        reveal_strlit("e");
        reveal_strlit("f");
    }
    match v {
        0 => "0",
        1 => "1",
        2 => "2",
        3 => "3",
        4 => "4",
        5 => "5",
        6 => "6",
        7 => "7",
        8 => "8",
        9 => "9",
        10 => "a",
        11 => "b",
        12 => "c",
        13 => "d",
        14 => "e",
        _ => "f",
    }
}

/// Converts a hex string to a field element: strips any `0x` prefixes, reads
/// the digits as little-endian bytes, and reduces modulo the field's prime.
/// Fails exactly on malformed hex, with the digit-count errors told apart
/// from bad characters.
pub fn fr_from_hex(hex_str: &str) -> (r: Result<FieldElement, GachaCircuitError>)
    ensures
        (match fr_from_hex_val(hex_str@) {
            Some(v) => r matches Ok(fe) && fe.wf() && fe.value() == v,
            None => r matches Err(e) && e matches GachaCircuitError::HexDecoding(h) && h == (
            if strip_hex_prefix(hex_str@).len() % 2 == 1 {
                HexDecodeError::OddLength
            } else {
                HexDecodeError::InvalidHexCharacter
            }),
        }),
{
    let n = hex_str.unicode_len();
    let mut start: usize = 0;
    proof {
        assert(hex_str@.skip(0) =~= hex_str@);
    }
    while n - start >= 2 && hex_str.get_char(start) == '0' && hex_str.get_char(start + 1) == 'x'
        invariant
            start <= n,
            n == hex_str@.len(),
            strip_hex_prefix(hex_str@) == strip_hex_prefix(hex_str@.skip(start as int)),
        decreases n - start,
    {
        proof {
            let u = hex_str@.skip(start as int);
            assert(u.len() >= 2);
            assert(u[0] == '0' && u[1] == 'x');
            assert(u.skip(2) =~= hex_str@.skip(start + 2));
        }
        start += 2;
    }
    proof {
        let u = hex_str@.skip(start as int);
        assert(strip_hex_prefix(u) == u);
    }
    let ghost t = hex_str@.skip(start as int);
    let m = n - start;
    if m % 2 == 1 {
        proof {
            lemma_hex_to_bytes_odd(t);
        }
        return Err(GachaCircuitError::HexDecoding(HexDecodeError::OddLength));
    }
    let mut bytes: Vec<u8> = Vec::new();
    let mut i: usize = start;
    proof {
        assert(t.skip(0) =~= t);
        match hex_to_bytes(t) {
            Some(rest) => {
                assert(bytes@ + rest =~= rest);
            },
            None => {},
        }
    }
    while i < n
        invariant
            start <= i <= n,
            n == hex_str@.len(),
            (i - start) % 2 == 0,
            (n - start) % 2 == 0,
            t == hex_str@.skip(start as int),
            strip_hex_prefix(hex_str@) == t,
            (match hex_to_bytes(t.skip(i - start)) {
                Some(rest) => hex_to_bytes(t) == Some(bytes@ + rest),
                None => hex_to_bytes(t) is None,
            }),
        decreases n - i,
    {
        let ghost j = i - start;
        proof {
            assert(t.skip(j).len() == n - i >= 2);
            assert(t.skip(j)[0] == hex_str@[i as int]);
            assert(t.skip(j)[1] == hex_str@[i + 1]);
            assert(t.skip(j).skip(2) =~= t.skip(j + 2));
        }
        let c_hi = hex_str.get_char(i);
        let c_lo = hex_str.get_char(i + 1);
        let hi = hex_digit_value_exec(c_hi);
        let lo = hex_digit_value_exec(c_lo);
        if hi < 0 || lo < 0 {
            proof {
                assert(hex_to_bytes(t.skip(j)) is None);
            }
            return Err(GachaCircuitError::HexDecoding(HexDecodeError::InvalidHexCharacter));
        }
        assert(hi <= 15 && lo <= 15);
        let b = (hi as u8) * 16 + (lo as u8);
        let ghost bytes_before = bytes@;
        bytes.push(b);
        proof {
            match hex_to_bytes(t.skip(j + 2)) {
                Some(rest) => {
                    assert(hex_to_bytes(t.skip(j)) == Some(seq![b] + rest));
                    assert(bytes@ + rest =~= bytes_before + (seq![b] + rest));
                },
                None => {
                    assert(hex_to_bytes(t.skip(j)) is None);
                },
            }
        }
        i += 2;
    }
    proof {
        assert(t.skip(n - start).len() == 0);
        assert(hex_to_bytes(t.skip(n - start)) == Some(Seq::<u8>::empty()));
        assert(bytes@ + Seq::<u8>::empty() =~= bytes@);
    }
    Ok(FieldElement::from_le_bytes_reduced(&bytes))
}

/// A hex string of odd digit count denotes no bytes.
proof fn lemma_hex_to_bytes_odd(s: Seq<char>)
    requires
        s.len() % 2 == 1,
    ensures
        hex_to_bytes(s) is None,
    decreases s.len(),
{
    if s.len() > 1 {
        if is_hex_digit(s[0]) && is_hex_digit(s[1]) {
            lemma_hex_to_bytes_odd(s.skip(2));
        }
    }
}

/// Converts a field element to its wire hex string: `0x` and the lowercase
/// hex digits of the canonical 32 little-endian bytes.
pub fn fr_to_hex(fr: &FieldElement) -> (r: Result<String, GachaCircuitError>)
    requires
        fr.wf(),
    ensures
        r matches Ok(s) && s@ == fr_to_hex_chars(fr.value()),
{
    let bytes = fr.le_bytes();
    let mut s = "0x".to_owned();
    proof {
        reveal_strlit("0x");
        assert(s@ =~= seq!['0', 'x']);
        lemma_le_bytes_of_le_value(fr.bytes_view());
        assert(le_bytes_of(fr.value(), 32) == bytes@);
        assert(bytes@.skip(0) =~= bytes@);
    }
    let ghost total = fr_to_hex_chars(fr.value());
    let mut i: usize = 0;
    while i < bytes.len()
        invariant
            i <= bytes.len(),
            total == s@ + bytes_to_hex_chars(bytes@.skip(i as int)),
        decreases bytes.len() - i,
    {
        let b = bytes[i];
        proof {
            assert(b < 256);
            assert(b / 16 < 16 && b % 16 < 16);
            assert(bytes@.skip(i as int).first() == b);
            assert(bytes@.skip(i as int).drop_first() =~= bytes@.skip(i + 1));
        }
        let ghost s_before = s@;
        s.append(hex_char_str(b / 16));
        s.append(hex_char_str(b % 16));
        proof {
            assert(s@ =~= s_before + byte_to_hex_chars(b));
            assert(s_before + bytes_to_hex_chars(bytes@.skip(i as int)) =~= (s_before
                + byte_to_hex_chars(b)) + bytes_to_hex_chars(bytes@.skip(i + 1)));
        }
        i += 1;
    }
    proof {
        assert(bytes@.skip(bytes@.len() as int).len() == 0);
        assert(s@ + bytes_to_hex_chars(bytes@.skip(bytes@.len() as int)) =~= s@);
    }
    Ok(s)
}

/// Every character the encoder emits is a hex digit, two per byte.
proof fn lemma_bytes_hex_digits(bytes: Seq<u8>)
    ensures
        bytes_to_hex_chars(bytes).len() == 2 * bytes.len(),
        forall|i: int|
            0 <= i < 2 * bytes.len() ==> is_hex_digit(#[trigger] bytes_to_hex_chars(bytes)[i]),
    decreases bytes.len(),
{
    if bytes.len() > 0 {
        let b = bytes.first();
        assert(hex_digit_value(hex_char_of((b / 16) as nat)) >= 0);
        assert(hex_digit_value(hex_char_of((b % 16) as nat)) >= 0);
        lemma_bytes_hex_digits(bytes.drop_first());
    }
}

/// Decoding the encoder's digits gives the bytes back.
proof fn lemma_hex_to_bytes_of_encode(bytes: Seq<u8>)
    ensures
        hex_to_bytes(bytes_to_hex_chars(bytes)) == Some(bytes),
    decreases bytes.len(),
{
    if bytes.len() == 0 {
        assert(bytes_to_hex_chars(bytes).len() == 0);
        assert(Seq::<u8>::empty() =~= bytes);
    } else {
        let b = bytes.first();
        let s = bytes_to_hex_chars(bytes);
        lemma_bytes_hex_digits(bytes.drop_first());
        assert(s[0] == hex_char_of((b / 16) as nat));
        assert(s[1] == hex_char_of((b % 16) as nat));
        assert(hex_digit_value(s[0]) == b / 16);
        assert(hex_digit_value(s[1]) == b % 16);
        assert(16 * (b / 16) + b % 16 == b) by (nonlinear_arith);
        assert(s.skip(2) =~= bytes_to_hex_chars(bytes.drop_first()));
        lemma_hex_to_bytes_of_encode(bytes.drop_first());
        assert(seq![b] + bytes.drop_first() =~= bytes);
    }
}

/// `256^32`, written out: the bound on 32-byte values.
proof fn lemma_pow256_32()
    ensures
        pow256(32) == 0x10000000000000000000000000000000000000000000000000000000000000000,
{
    reveal_with_fuel(pow256, 33);
}

/// Round-trip law: encoding any field-element value and decoding the result
/// gives the value back, for every value below the field modulus — even
/// though decoding also accepts non-canonical strings.
pub proof fn lemma_fr_hex_round_trip(v: nat)
    requires
        v < fr_modulus(),
    ensures
        fr_from_hex_val(fr_to_hex_chars(v)) == Some(v),
{
    let bytes = le_bytes_of(v, 32);
    let h = bytes_to_hex_chars(bytes);
    let s = fr_to_hex_chars(v);
    lemma_bytes_hex_digits(bytes);
    assert(s.len() == 2 + h.len());
    assert(s[0] == '0' && s[1] == 'x');
    assert(s.skip(2) =~= h);
    assert(strip_hex_prefix(s) == strip_hex_prefix(h));
    assert(!is_hex_digit('x'));
    assert(strip_hex_prefix(h) == h);
    lemma_hex_to_bytes_of_encode(bytes);
    lemma_pow256_32();
    lemma_le_value_le_bytes_of(v, 32);
    lemma_small_mod(v, fr_modulus());
}

/// The externally supplied proof request: hex-encoded field elements and the
/// leaf position, exactly as the companion tooling writes them.
#[derive(Debug)]
pub struct WasmGachaCircuitInputs {
    /// Hex encoding of the public Merkle root (wire name `merkleRoot`).
    pub merkle_root_hex: String,
    /// Hex encoding of the private item id (wire name `itemIdHex`).
    pub item_id_hex: String,
    /// Hex encoding of the private secret key (wire name `secretKeyHex`).
    pub secret_key_hex: String,
    /// Hex encodings of the inner path digests (wire name
    /// `merklePathNodesHex`), ordered from just below the root downward.
    pub merkle_path_nodes_hex: Vec<String>,
    /// Hex encoding of the leaf's sibling digest (wire name
    /// `leafSiblingHashHex`).
    pub leaf_sibling_hash_hex: String,
    /// Index of the leaf (wire name `leafIndex`).
    pub leaf_index: usize,
}

/// A proof request decoded into native field elements, ready for circuit
/// construction.
#[derive(Debug)]
pub struct NativeGachaCircuitInputs {
    /// The public Merkle root.
    pub merkle_root: FieldElement,
    /// The private item id.
    pub item_id: FieldElement,
    /// The private secret key.
    pub secret_key: FieldElement,
    /// The private authentication path.
    pub native_merkle_path: MerklePath,
}

impl NativeGachaCircuitInputs {
    /// Well-formedness: every field element is canonical.
    pub open spec fn wf(self) -> bool {
        &&& self.merkle_root.wf()
        &&& self.item_id.wf()
        &&& self.secret_key.wf()
        &&& self.native_merkle_path.wf()
    }

    /// Whether every hex field of a request decodes.
    pub open spec fn decodes(w: WasmGachaCircuitInputs) -> bool {
        &&& fr_from_hex_val(w.merkle_root_hex@) is Some
        &&& fr_from_hex_val(w.item_id_hex@) is Some
        &&& fr_from_hex_val(w.secret_key_hex@) is Some
        &&& fr_from_hex_val(w.leaf_sibling_hash_hex@) is Some
        &&& forall|i: int|
            0 <= i < w.merkle_path_nodes_hex@.len() ==> fr_from_hex_val(
                (#[trigger] w.merkle_path_nodes_hex@[i])@,
            ) is Some
    }

    /// Decodes a wire request into native field elements.  Succeeds exactly
    /// when every hex field decodes, and then carries each decoded value over
    /// unchanged, the path nodes in their given order.
    pub fn try_from_wasm(w: &WasmGachaCircuitInputs) -> (r: Result<
        NativeGachaCircuitInputs,
        GachaCircuitError,
    >)
        ensures
            (match r {
                Ok(n) => {
                    &&& Self::decodes(*w)
                    &&& n.wf()
                    &&& fr_from_hex_val(w.merkle_root_hex@) == Some(n.merkle_root.value())
                    &&& fr_from_hex_val(w.item_id_hex@) == Some(n.item_id.value())
                    &&& fr_from_hex_val(w.secret_key_hex@) == Some(n.secret_key.value())
                    &&& fr_from_hex_val(w.leaf_sibling_hash_hex@) == Some(
                        n.native_merkle_path.leaf_sibling_hash.value(),
                    )
                    &&& n.native_merkle_path.leaf_index == w.leaf_index
                    &&& n.native_merkle_path.auth_path@.len()
                        == w.merkle_path_nodes_hex@.len()
                    &&& forall|i: int|
                        0 <= i < w.merkle_path_nodes_hex@.len() ==> fr_from_hex_val(
                            (#[trigger] w.merkle_path_nodes_hex@[i])@,
                        ) == Some(n.native_merkle_path.auth_path@[i].value())
                },
                Err(e) => !Self::decodes(*w) && e matches GachaCircuitError::HexDecoding(_),
            }),
    {
        let merkle_root = match fr_from_hex(w.merkle_root_hex.as_str()) {
            Ok(x) => x,
            Err(e) => { return Err(e); },
        };
        let item_id = match fr_from_hex(w.item_id_hex.as_str()) {
            Ok(x) => x,
            Err(e) => { return Err(e); },
        };
        let secret_key = match fr_from_hex(w.secret_key_hex.as_str()) {
            Ok(x) => x,
            Err(e) => { return Err(e); },
        };
        let leaf_sibling_hash = match fr_from_hex(w.leaf_sibling_hash_hex.as_str()) {
            Ok(x) => x,
            Err(e) => { return Err(e); },
        };
        let mut auth_path: Vec<FieldElement> = Vec::new();
        let mut i: usize = 0;
        while i < w.merkle_path_nodes_hex.len()
            invariant
                i <= w.merkle_path_nodes_hex@.len(),
                auth_path@.len() == i,
                forall|j: int|
                    0 <= j < i ==> fr_from_hex_val((#[trigger] w.merkle_path_nodes_hex@[j])@)
                        == Some(auth_path@[j].value()),
                forall|j: int| 0 <= j < i ==> (#[trigger] auth_path@[j]).wf(),
            decreases w.merkle_path_nodes_hex@.len() - i,
        {
            let node = match fr_from_hex(w.merkle_path_nodes_hex[i].as_str()) {
                Ok(x) => x,
                Err(e) => { return Err(e); },
            };
            auth_path.push(node);
            i += 1;
        }
        Ok(
            NativeGachaCircuitInputs {
                merkle_root,
                item_id,
                secret_key,
                native_merkle_path: MerklePath {
                    leaf_index: w.leaf_index,
                    auth_path,
                    leaf_sibling_hash,
                },
            },
        )
    }
}

/// The public-input vector for proof verification: exactly one element, the
/// Merkle root, matching the wiring used at setup.
pub fn prepare_groth16_public_inputs(merkle_root: FieldElement) -> (r: Vec<FieldElement>)
    ensures
        r@.len() == 1,
        r@[0] == merkle_root,
{
    let mut v: Vec<FieldElement> = Vec::new();
    v.push(merkle_root);
    v
}

} // verus!
