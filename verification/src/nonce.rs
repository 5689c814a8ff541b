//! Nonce derivation: XOR of the IV with the packed sequence/path bytes.

use crate::encoding::derived_nonce;
use crate::encoding::packed_bytes;
use crate::encoding::u32_be_byte;
use crate::encoding::u32_be_byte_at;
use crate::encoding::u64_be_byte;
use crate::encoding::u64_be_byte_at;
use crate::iv::Iv;
use crate::ApiMisuse;
use crate::Error;
use vstd::prelude::*;

verus! {

/// A nonce derived for one record or packet. Its length always equals the
/// length of the IV it was derived from; it is never mutated after creation.
pub struct Nonce {
    buf: [u8; 16],
    len: usize,
}

impl View for Nonce {
    type V = Seq<u8>;

    closed spec fn view(&self) -> Seq<u8> {
        self.buf@.take(self.len as int)
    }
}

impl Nonce {
    #[verifier::type_invariant]
    spec fn wf(self) -> bool {
        self.len <= 16
    }

    /// Combine an `Iv` and sequence number to produce a unique nonce.
    ///
    /// This is `iv ^ seq` where `seq` is encoded as a big-endian integer.
    #[inline]
    pub fn new(iv: &Iv, seq: u64) -> (r: Self)
        ensures
            r@ == derived_nonce(None::<u32>, iv@, seq),
            r@.len() == iv@.len(),
    {
        Self::new_inner(None, iv, seq)
    }

    /// Creates a unique nonce based on the multipath `path_id`, the `iv` and
    /// packet number `pn`.
    ///
    /// The nonce is computed as the XOR between the `iv` and the big-endian
    /// integer formed by concatenating `path_id` (or 0) and `pn`. When
    /// `path_id` is absent this is exactly [`Nonce::new`].
    pub fn quic(path_id: Option<u32>, iv: &Iv, pn: u64) -> (r: Self)
        ensures
            r@ == derived_nonce(path_id, iv@, pn),
            r@.len() == iv@.len(),
            path_id is None ==> r@ == derived_nonce(None::<u32>, iv@, pn),
    {
        Self::new_inner(path_id, iv, pn)
    }

    /// Creates a unique nonce based on the iv and sequence number seq.
    #[inline]
    fn new_inner(path_id: Option<u32>, iv: &Iv, seq: u64) -> (r: Self)
        ensures
            r@ == derived_nonce(path_id, iv@, seq),
    {
        let iv_len = iv.len();
        let ghost l: int = iv_len as int;
        let mut buf = [0u8; 16];

        if iv_len >= 8 {
            let base = iv_len - 8;
            let mut j: usize = 0;
            while j < 8
                invariant
                    j <= 8,
                    8 <= iv_len <= 16,
                    base == iv_len - 8,
                    forall|k: int|
                        0 <= k < 16 ==> buf@[k] == (if base <= k < base + j {
                            u64_be_byte(seq, k - base)
                        } else {
                            0u8
                        }),
                decreases 8 - j,
            {
                buf[base + j] = u64_be_byte_at(seq, j);
                j = j + 1;
            }
            if let Some(p) = path_id {
                if iv_len >= 12 {
                    let pbase = iv_len - 12;
                    let mut j: usize = 0;
                    while j < 4
                        invariant
                            j <= 4,
                            12 <= iv_len <= 16,
                            pbase == iv_len - 12,
                            forall|k: int|
                                0 <= k < 16 ==> buf@[k] == (if pbase <= k < pbase + j {
                                    u32_be_byte(p, k - pbase)
                                } else if iv_len - 8 <= k < iv_len {
                                    u64_be_byte(seq, k - (iv_len - 8))
                                } else {
                                    0u8
                                }),
                        decreases 4 - j,
                    {
                        buf[pbase + j] = u32_be_byte_at(p, j);
                        j = j + 1;
                    }
                }
            }
        } else {
            let mut j: usize = 0;
            while j < iv_len
                invariant
                    j <= iv_len < 8,
                    forall|k: int|
                        0 <= k < 16 ==> buf@[k] == (if 0 <= k < j {
                            u64_be_byte(seq, 8 - iv_len + k)
                        } else {
                            0u8
                        }),
                decreases iv_len - j,
            {
                buf[j] = u64_be_byte_at(seq, 8 - iv_len + j);
                j = j + 1;
            }
        }

        let ghost packed: Seq<u8> = packed_bytes(path_id, seq, iv@.len());
        proof {
            assert(forall|k: int| 0 <= k < l ==> buf@[k] == packed[k]);
        }

        let mut i: usize = 0;
        while i < iv_len
            invariant
                i <= iv_len <= 16,
                iv_len == iv@.len(),
                packed == packed_bytes(path_id, seq, iv@.len()),
                forall|k: int| 0 <= k < i ==> buf@[k] == (iv@[k] ^ packed[k]),
                forall|k: int| i <= k < iv_len ==> buf@[k] == packed[k],
            decreases iv_len - i,
        {
            let b = iv.byte_at(i);
            buf[i] = b ^ buf[i];
            i = i + 1;
        }

        let n = Nonce { buf, len: iv_len };
        proof {
            assert(n@ =~= derived_nonce(path_id, iv@, seq));
        }
        n
    }

    /// Convert to a fixed-size array of length `N`.
    ///
    /// Returns an error if the nonce length is not `N`.
    ///
    /// For standard nonces, use `nonce.to_array::<NONCE_LEN>()?`.
    pub fn to_array<const N: usize>(&self) -> (r: Result<[u8; N], Error>)
        ensures
            self@.len() == N ==> (r matches Ok(a) && a@ == self@),
            self@.len() != N ==> r == Err::<[u8; N], Error>(
                Error::Api(
                    ApiMisuse::NonceArraySizeMismatch {
                        expected: N,
                        actual: self@.len() as usize,
                    },
                ),
            ),
    {
        proof {
            use_type_invariant(self);
        }
        if self.len != N {
            return Err(Error::from(ApiMisuse::NonceArraySizeMismatch {
                expected: N,
                actual: self.len,
            }));
        }
        let mut out = [0u8; N];
        let mut i: usize = 0;
        while i < N
            invariant
                i <= N,
                N == self@.len() <= 16,
                self.len == N,
                self@ == self.buf@.take(self.len as int),
                forall|k: int| 0 <= k < i ==> out@[k] == self@[k],
            decreases N - i,
        {
            out[i] = self.buf[i];
            i = i + 1;
        }
        proof {
            assert(out@ =~= self@);
        }
        Ok(out)
    }

    /// Return the nonce value.
    pub fn as_bytes(&self) -> (r: &[u8])
        ensures
            r@ == self@,
    {
        proof {
            use_type_invariant(self);
        }
        vstd::slice::slice_subrange(self.buf.as_slice(), 0, self.len)
    }

    /// Return the nonce length.
    pub fn len(&self) -> (r: usize)
        ensures
            r == self@.len(),
    {
        proof {
            use_type_invariant(self);
        }
        self.len
    }
}

} // verus!
