//! The same derivation phrased over 128-bit integers of an outside bignum
//! crate, used as a cross-check against the byte-level deriver.

use crate::encoding::derived_nonce;
use crate::encoding::lemma_u8_xor_zero;
use crate::encoding::u64_be_byte;
use vstd::prelude::*;

verus! {

/// Relies on `crypto_bigint::U128`: `from_be_slice` reads exactly 16
/// big-endian bytes, `from_u64` holds the value of `v` (so the high 8 bytes
/// of its big-endian form are zero and the low 8 are the big-endian encoding
/// of `v`), `wrapping_xor` is the limb-wise (hence bitwise) XOR, and
/// `to_be_bytes` serializes back to 16 big-endian bytes. Byte for byte, the
/// result is therefore `a` XOR-ed with the 16-byte big-endian encoding of
/// `v`, which leaves the high 8 bytes of `a` unchanged.
#[verifier::external_body]
fn u128_xor_u64_be(a: &[u8; 16], v: u64) -> (r: [u8; 16])
    ensures
        forall|i: int| 0 <= i < 8 ==> r@[i] == a@[i],
        forall|i: int| 8 <= i < 16 ==> r@[i] == (a@[i] ^ u64_be_byte(v, i - 8)),
{
    let x = crypto_bigint::U128::from_be_slice(a.as_slice());
    let y = crypto_bigint::U128::from_u64(v);
    let enc = x.wrapping_xor(&y).to_be_bytes();
    let mut out = [0u8; 16];
    out.copy_from_slice(enc.as_ref());
    out
}

/// Namespace for the bignum-based derivation.
pub struct CryptoBigInt;

impl CryptoBigInt {
    /// Derive the nonce for `seq_id` from a standard 12-byte IV by going
    /// through 128-bit integers of the bignum crate instead of byte-level
    /// packing. It agrees with [`crate::Nonce::new`] on the same inputs.
    pub fn seq_nonce(iv_bytes: &[u8; 12], seq_id: u64) -> (r: [u8; 12])
        ensures
            r@ == derived_nonce(None::<u32>, iv_bytes@, seq_id),
    {
        let mut wide = [0u8; 16];
        let mut i: usize = 0;
        while i < 12
            invariant
                i <= 12,
                forall|k: int|
                    0 <= k < 16 ==> wide@[k] == (if 4 <= k < 4 + i {
                        iv_bytes@[k - 4]
                    } else {
                        0u8
                    }),
            decreases 12 - i,
        {
            wide[4 + i] = iv_bytes[i];
            i = i + 1;
        }

        let x = u128_xor_u64_be(&wide, seq_id);
        let ghost d: Seq<u8> = derived_nonce(None::<u32>, iv_bytes@, seq_id);
        proof {
            assert forall|k: int| 0 <= k < 12 implies x@[4 + k] == d[k] by {
                if k < 4 {
                    lemma_u8_xor_zero(iv_bytes@[k]);
                }
            };
        }

        let mut out = [0u8; 12];
        let mut i: usize = 0;
        while i < 12
            invariant
                i <= 12,
                forall|k: int| 0 <= k < 12 ==> x@[4 + k] == d[k],
                forall|k: int| 0 <= k < i ==> out@[k] == d[k],
            decreases 12 - i,
        {
            out[i] = x[4 + i];
            i = i + 1;
        }
        proof {
            assert(out@ =~= d);
        }
        out
    }
}

} // verus!
