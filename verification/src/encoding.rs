//! Byte-level model of the derivation: big-endian encodings of the sequence
//! value and path identifier, the packed pre-XOR buffer, and the XOR itself.

use vstd::prelude::*;

verus! {

/// Byte `j` (0 = most significant) of the 8-byte big-endian encoding of `v`.
pub open spec fn u64_be_byte(v: u64, j: int) -> u8
    recommends
        0 <= j < 8,
{
    ((v >> ((8 * (7 - j)) as u64)) & 0xff) as u8
}

/// Byte `j` (0 = most significant) of the 4-byte big-endian encoding of `v`.
pub open spec fn u32_be_byte(v: u32, j: int) -> u8
    recommends
        0 <= j < 4,
{
    ((v >> ((8 * (3 - j)) as u32)) & 0xff) as u8
}

/// Byte `i` of the pre-XOR buffer for an IV of length `len`: the sequence
/// value sits big-endian in the low-order positions, the path identifier (if
/// any, and only when `len >= 12`) directly above it, and everything else is
/// zero. For `len < 8` only the low `len` bytes of the sequence encoding fit.
pub open spec fn packed_byte(path_id: Option<u32>, seq: u64, len: int, i: int) -> u8
    recommends
        0 <= i < len,
{
    if len >= 8 {
        if len - 8 <= i {
            u64_be_byte(seq, i - (len - 8))
        } else if len >= 12 && len - 12 <= i && path_id is Some {
            u32_be_byte(path_id->0, i - (len - 12))
        } else {
            0
        }
    } else {
        u64_be_byte(seq, 8 - len + i)
    }
}

/// The whole pre-XOR buffer for an IV of length `len`.
pub open spec fn packed_bytes(path_id: Option<u32>, seq: u64, len: nat) -> Seq<u8> {
    Seq::new(len, |i: int| packed_byte(path_id, seq, len as int, i))
}

/// Byte-wise XOR of two equal-length byte sequences.
pub open spec fn xor_bytes(a: Seq<u8>, b: Seq<u8>) -> Seq<u8>
    recommends
        a.len() == b.len(),
{
    Seq::new(a.len(), |i: int| a[i] ^ b[i])
}

/// The derived nonce: the IV XOR-ed with the packed sequence/path bytes.
pub open spec fn derived_nonce(path_id: Option<u32>, iv: Seq<u8>, seq: u64) -> Seq<u8> {
    xor_bytes(iv, packed_bytes(path_id, seq, iv.len()))
}

/// XOR with zero changes nothing.
pub proof fn lemma_u8_xor_zero(a: u8)
    ensures
        a ^ 0 == a,
{
    assert(a ^ 0 == a) by (bit_vector);
}

/// XOR-ing the same value twice cancels it.
pub proof fn lemma_u8_xor_cancel(a: u8, b: u8)
    ensures
        (a ^ b) ^ a == b,
{
    assert((a ^ b) ^ a == b) by (bit_vector);
}

/// XOR with a fixed byte is injective.
pub proof fn lemma_u8_xor_injective(c: u8, a: u8, b: u8)
    requires
        a != b,
    ensures
        c ^ a != c ^ b,
{
    assert(c ^ a == c ^ b ==> a == b) by (bit_vector);
}

/// A `u64` is determined by its 8 big-endian bytes.
pub proof fn lemma_u64_be_bytes_injective(a: u64, b: u64)
    requires
        forall|j: int| 0 <= j < 8 ==> u64_be_byte(a, j) == u64_be_byte(b, j),
    ensures
        a == b,
{
    assert(((a >> 56u64) & 0xff) as u8 == ((b >> 56u64) & 0xff) as u8) by {
        assert(u64_be_byte(a, 0) == u64_be_byte(b, 0));
    };
    assert(((a >> 48u64) & 0xff) as u8 == ((b >> 48u64) & 0xff) as u8) by {
        assert(u64_be_byte(a, 1) == u64_be_byte(b, 1));
    };
    assert(((a >> 40u64) & 0xff) as u8 == ((b >> 40u64) & 0xff) as u8) by {
        assert(u64_be_byte(a, 2) == u64_be_byte(b, 2));
    };
    assert(((a >> 32u64) & 0xff) as u8 == ((b >> 32u64) & 0xff) as u8) by {
        assert(u64_be_byte(a, 3) == u64_be_byte(b, 3));
    };
    assert(((a >> 24u64) & 0xff) as u8 == ((b >> 24u64) & 0xff) as u8) by {
        assert(u64_be_byte(a, 4) == u64_be_byte(b, 4));
    };
    assert(((a >> 16u64) & 0xff) as u8 == ((b >> 16u64) & 0xff) as u8) by {
        assert(u64_be_byte(a, 5) == u64_be_byte(b, 5));
    };
    assert(((a >> 8u64) & 0xff) as u8 == ((b >> 8u64) & 0xff) as u8) by {
        assert(u64_be_byte(a, 6) == u64_be_byte(b, 6));
    };
    assert(((a >> 0u64) & 0xff) as u8 == ((b >> 0u64) & 0xff) as u8) by {
        assert(u64_be_byte(a, 7) == u64_be_byte(b, 7));
    };
    assert(a == b) by (bit_vector)
        requires
            ((a >> 56u64) & 0xff) as u8 == ((b >> 56u64) & 0xff) as u8,
            ((a >> 48u64) & 0xff) as u8 == ((b >> 48u64) & 0xff) as u8,
            ((a >> 40u64) & 0xff) as u8 == ((b >> 40u64) & 0xff) as u8,
            ((a >> 32u64) & 0xff) as u8 == ((b >> 32u64) & 0xff) as u8,
            ((a >> 24u64) & 0xff) as u8 == ((b >> 24u64) & 0xff) as u8,
            ((a >> 16u64) & 0xff) as u8 == ((b >> 16u64) & 0xff) as u8,
            ((a >> 8u64) & 0xff) as u8 == ((b >> 8u64) & 0xff) as u8,
            ((a >> 0u64) & 0xff) as u8 == ((b >> 0u64) & 0xff) as u8,
    ;
}

/// A `u32` whose 4 big-endian bytes are all zero is zero.
pub proof fn lemma_u32_be_bytes_zero(p: u32)
    requires
        forall|j: int| 0 <= j < 4 ==> u32_be_byte(p, j) == 0,
    ensures
        p == 0,
{
    assert(((p >> 24u32) & 0xff) as u8 == 0) by {
        assert(u32_be_byte(p, 0) == 0);
    };
    assert(((p >> 16u32) & 0xff) as u8 == 0) by {
        assert(u32_be_byte(p, 1) == 0);
    };
    assert(((p >> 8u32) & 0xff) as u8 == 0) by {
        assert(u32_be_byte(p, 2) == 0);
    };
    assert(((p >> 0u32) & 0xff) as u8 == 0) by {
        assert(u32_be_byte(p, 3) == 0);
    };
    assert(p == 0) by (bit_vector)
        requires
            ((p >> 24u32) & 0xff) as u8 == 0,
            ((p >> 16u32) & 0xff) as u8 == 0,
            ((p >> 8u32) & 0xff) as u8 == 0,
            ((p >> 0u32) & 0xff) as u8 == 0,
    ;
}

/// Computes [`u64_be_byte`] of `v` at position `j`.
pub fn u64_be_byte_at(v: u64, j: usize) -> (r: u8)
    requires
        j < 8,
    ensures
        r == u64_be_byte(v, j as int),
{
    ((v >> ((8 * (7 - j)) as u64)) & 0xff) as u8
}

/// Computes [`u32_be_byte`] of `v` at position `j`.
pub fn u32_be_byte_at(v: u32, j: usize) -> (r: u8)
    requires
        j < 4,
    ensures
        r == u32_be_byte(v, j as int),
{
    ((v >> ((8 * (3 - j)) as u32)) & 0xff) as u8
}

} // verus!
