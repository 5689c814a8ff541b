//! Guarantees of the derivation, stated and proved once for all inputs.

use crate::encoding::derived_nonce;
use crate::encoding::lemma_u32_be_bytes_zero;
use crate::encoding::lemma_u64_be_bytes_injective;
use crate::encoding::lemma_u8_xor_cancel;
use crate::encoding::lemma_u8_xor_injective;
use crate::encoding::lemma_u8_xor_zero;
use crate::encoding::packed_bytes;
use crate::encoding::u32_be_byte;
use crate::encoding::u64_be_byte;
use crate::encoding::xor_bytes;
use vstd::prelude::*;

verus! {

/// Determinism: the derived nonce is a function of the path identifier, the
/// IV bytes and the sequence value alone, so two derivations from equal
/// inputs are equal.
pub proof fn lemma_derivation_deterministic(
    path_id: Option<u32>,
    iv: Seq<u8>,
    seq: u64,
    n1: Seq<u8>,
    n2: Seq<u8>,
)
    requires
        n1 == derived_nonce(path_id, iv, seq),
        n2 == derived_nonce(path_id, iv, seq),
    ensures
        n1 == n2,
{
}

/// Length preservation: the derived nonce is exactly as long as the IV.
pub proof fn lemma_length_preservation(path_id: Option<u32>, iv: Seq<u8>, seq: u64)
    ensures
        derived_nonce(path_id, iv, seq).len() == iv.len(),
{
}

/// Involution: XOR-ing the derived nonce with the IV again recovers the
/// packed big-endian sequence/path bytes.
pub proof fn lemma_xor_involution(path_id: Option<u32>, iv: Seq<u8>, seq: u64)
    ensures
        xor_bytes(derived_nonce(path_id, iv, seq), iv) == packed_bytes(path_id, seq, iv.len()),
{
    let d = derived_nonce(path_id, iv, seq);
    let p = packed_bytes(path_id, seq, iv.len());
    assert forall|i: int| 0 <= i < iv.len() implies (d[i] ^ iv[i]) == p[i] by {
        lemma_u8_xor_cancel(iv[i], p[i]);
    };
    assert(xor_bytes(d, iv) =~= p);
}

/// Distinctness: an IV of at least 8 bytes receives the whole big-endian
/// sequence number, so under one IV and path identifier two different
/// sequence numbers always give different nonces.
pub proof fn lemma_distinct_sequence_numbers(
    path_id: Option<u32>,
    iv: Seq<u8>,
    s1: u64,
    s2: u64,
)
    requires
        iv.len() >= 8,
        s1 != s2,
    ensures
        derived_nonce(path_id, iv, s1) != derived_nonce(path_id, iv, s2),
{
    assert(exists|j: int| 0 <= j < 8 && u64_be_byte(s1, j) != u64_be_byte(s2, j)) by {
        if forall|j: int| 0 <= j < 8 ==> u64_be_byte(s1, j) == u64_be_byte(s2, j) {
            lemma_u64_be_bytes_injective(s1, s2);
            assert(false);
        }
    };
    let j = choose|j: int| 0 <= j < 8 && u64_be_byte(s1, j) != u64_be_byte(s2, j);
    let l = iv.len() as int;
    let i = l - 8 + j;
    assert(derived_nonce(path_id, iv, s1)[i] == (iv[i] ^ u64_be_byte(s1, j)));
    assert(derived_nonce(path_id, iv, s2)[i] == (iv[i] ^ u64_be_byte(s2, j)));
    lemma_u8_xor_injective(iv[i], u64_be_byte(s1, j), u64_be_byte(s2, j));
}

/// Multipath mixing: with an IV of at least the standard length, a nonzero
/// path identifier lands in bytes that the absent-path derivation leaves at
/// the bare IV, so the two nonces differ.
pub proof fn lemma_multipath_mixing(path_id: u32, iv: Seq<u8>, pn: u64)
    requires
        12 <= iv.len() <= 16,
        path_id != 0,
    ensures
        derived_nonce(Some(path_id), iv, pn) != derived_nonce(None::<u32>, iv, pn),
{
    assert(exists|j: int| 0 <= j < 4 && u32_be_byte(path_id, j) != 0) by {
        if forall|j: int| 0 <= j < 4 ==> u32_be_byte(path_id, j) == 0 {
            lemma_u32_be_bytes_zero(path_id);
            assert(false);
        }
    };
    let j = choose|j: int| 0 <= j < 4 && u32_be_byte(path_id, j) != 0;
    let l = iv.len() as int;
    let i = l - 12 + j;
    assert(derived_nonce(Some(path_id), iv, pn)[i] == (iv[i] ^ u32_be_byte(path_id, j)));
    assert(derived_nonce(None::<u32>, iv, pn)[i] == (iv[i] ^ 0));
    lemma_u8_xor_injective(iv[i], u32_be_byte(path_id, j), 0);
    lemma_u8_xor_zero(iv[i]);
}

} // verus!
