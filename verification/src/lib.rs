//! Per-record nonce derivation for AEAD ciphers.
//!
//! A connection owns a fixed initialization vector ([`Iv`]); every record or
//! packet gets a fresh [`Nonce`] by XOR-ing the IV with the big-endian
//! encoding of the record's sequence value (optionally mixed with a multipath
//! path identifier). The derivation itself is pure and never fails; the only
//! error conditions are two forms of API misuse, reported as [`Error`].

use vstd::prelude::*;

pub mod bigint;
pub mod encoding;
pub mod iv;
pub mod laws;
pub mod nonce;

pub use bigint::CryptoBigInt;
pub use iv::Iv;
pub use nonce::Nonce;

verus! {

/// Standard AEAD nonce length in bytes (96-bit nonces, as used by GCM and
/// ChaCha20-Poly1305).
pub const NONCE_LEN: usize = 12;

/// A caller broke the API contract. Both variants report a runtime check of a
/// condition the caller was responsible for; neither is a transient failure.
#[derive(Debug)]
pub enum ApiMisuse {
    /// The bytes offered to [`Iv::new`] exceed [`Iv::MAX_LEN`].
    IvLengthExceedsMaximum { actual: usize, maximum: usize },
    /// [`Nonce::to_array`] was asked for an array whose size differs from the
    /// nonce's length.
    NonceArraySizeMismatch { expected: usize, actual: usize },
}

/// The error type of this crate.
#[derive(Debug)]
pub enum Error {
    Api(ApiMisuse),
}

impl From<ApiMisuse> for Error {
    fn from(m: ApiMisuse) -> (r: Self) {
        Self::Api(m)
    }
}

impl vstd::std_specs::convert::FromSpecImpl<ApiMisuse> for Error {
    open spec fn obeys_from_spec() -> bool {
        true
    }

    open spec fn from_spec(m: ApiMisuse) -> Self {
        Error::Api(m)
    }
}

} // verus!
