//! The per-connection initialization vector.

use crate::ApiMisuse;
use crate::Error;
use crate::NONCE_LEN;
use vstd::prelude::*;

verus! {

/// A connection's initialization vector: up to [`Iv::MAX_LEN`] bytes, stored
/// in a fixed-capacity buffer with an explicit used length. Immutable after
/// construction; the view is exactly the used prefix of the buffer.
#[derive(Clone, Copy)]
pub struct Iv {
    buf: [u8; 16],
    used: usize,
}

impl View for Iv {
    type V = Seq<u8>;

    closed spec fn view(&self) -> Seq<u8> {
        self.buf@.take(self.used as int)
    }
}

impl Iv {
    /// Maximum supported IV length in bytes.
    pub const MAX_LEN: usize = 16;

    #[verifier::type_invariant]
    spec fn wf(self) -> bool {
        self.used <= 16
    }

    /// Create a new `Iv` from a byte slice.
    ///
    /// Returns an error if the length of `value` exceeds [`Self::MAX_LEN`].
    pub fn new(value: &[u8]) -> (r: Result<Self, Error>)
        ensures
            value@.len() <= Iv::MAX_LEN ==> (r matches Ok(iv) && iv@ == value@),
            value@.len() > Iv::MAX_LEN ==> r == Err::<Iv, Error>(
                Error::Api(
                    ApiMisuse::IvLengthExceedsMaximum {
                        actual: value@.len() as usize,
                        maximum: Iv::MAX_LEN,
                    },
                ),
            ),
    {
        if value.len() > Self::MAX_LEN {
            return Err(Error::from(ApiMisuse::IvLengthExceedsMaximum {
                actual: value.len(),
                maximum: Self::MAX_LEN,
            }));
        }
        let mut buf = [0u8; 16];
        let mut i: usize = 0;
        while i < value.len()
            invariant
                i <= value@.len() <= 16,
                forall|k: int| 0 <= k < i ==> buf@[k] == value@[k],
            decreases value@.len() - i,
        {
            buf[i] = value[i];
            i = i + 1;
        }
        let iv = Iv { buf, used: value.len() };
        proof {
            assert(iv@ =~= value@);
        }
        Ok(iv)
    }

    /// Create an `Iv` from exactly [`NONCE_LEN`] bytes; this cannot fail,
    /// since `NONCE_LEN` is within [`Self::MAX_LEN`].
    pub fn from_fixed(bytes: [u8; NONCE_LEN]) -> (r: Self)
        ensures
            r@ == bytes@,
    {
        match Self::new(bytes.as_slice()) {
            Ok(iv) => iv,
            Err(_) => vstd::pervasive::unreached(),
        }
    }

    /// Return the IV length; it never exceeds [`Iv::MAX_LEN`].
    pub fn len(&self) -> (r: usize)
        ensures
            r == self@.len(),
            r <= Iv::MAX_LEN,
    {
        proof {
            use_type_invariant(self);
        }
        self.used
    }

    /// Read one IV byte.
    pub(crate) fn byte_at(&self, i: usize) -> (r: u8)
        requires
            i < self@.len(),
        ensures
            r == self@[i as int],
    {
        proof {
            use_type_invariant(self);
        }
        self.buf[i]
    }

    /// Return the IV bytes.
    pub fn as_bytes(&self) -> (r: &[u8])
        ensures
            r@ == self@,
    {
        proof {
            use_type_invariant(self);
        }
        vstd::slice::slice_subrange(self.buf.as_slice(), 0, self.used)
    }
}

impl Default for Iv {
    /// An empty IV: zero used bytes.
    fn default() -> (r: Self)
        ensures
            r@ == Seq::<u8>::empty(),
    {
        let iv = Iv { buf: [0u8; 16], used: 0 };
        proof {
            assert(iv@ =~= Seq::<u8>::empty());
        }
        iv
    }
}

} // verus!
