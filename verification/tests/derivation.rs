use aead_nonce::ApiMisuse;
use aead_nonce::CryptoBigInt;
use aead_nonce::Error;
use aead_nonce::Iv;
use aead_nonce::Nonce;
use aead_nonce::NONCE_LEN;

const SAMPLE_IV: [u8; 12] = [
    0x6f, 0xac, 0x81, 0xd4, 0xf2, 0xc3, 0xbe, 0xbe, 0x02, 0xb8, 0xb3, 0x75,
];

#[test]
fn compat() {
    let iv_bytes: [u8; 12] = SAMPLE_IV;

    let iv = Iv::new(&iv_bytes).unwrap();
    let byte_level_nonce_1 = Nonce::new(&iv, 1);

    let crypto_bigint_nonce_1 = CryptoBigInt::seq_nonce(&iv_bytes, 1);

    assert_eq!(byte_level_nonce_1.as_bytes(), &crypto_bigint_nonce_1);

    assert_eq!(
        &crypto_bigint_nonce_1,
        &[0x6f, 0xac, 0x81, 0xd4, 0xf2, 0xc3, 0xbe, 0xbe, 0x02, 0xb8, 0xb3, 0x74],
    );
}

#[test]
fn derivation_is_deterministic() {
    let iv = Iv::new(&SAMPLE_IV).unwrap();
    let a = Nonce::new(&iv, 0xdead_beef_0102_0304);
    let b = Nonce::new(&iv, 0xdead_beef_0102_0304);
    assert_eq!(a.as_bytes(), b.as_bytes());

    let c = Nonce::quic(Some(9), &iv, 77);
    let d = Nonce::quic(Some(9), &iv, 77);
    assert_eq!(c.as_bytes(), d.as_bytes());
}

#[test]
fn nonce_length_matches_iv_length() {
    let bytes = [0xabu8; 16];
    for len in [0usize, 1, 4, 7, 8, 11, 12, 15, 16] {
        let iv = Iv::new(&bytes[..len]).unwrap();
        assert_eq!(iv.len(), len);
        let nonce = Nonce::new(&iv, 42);
        assert_eq!(nonce.len(), len);
        assert_eq!(nonce.as_bytes().len(), len);
    }
}

#[test]
fn xor_with_iv_recovers_packed_sequence() {
    let seq: u64 = 0x0102_0304_0506_0708;
    let iv = Iv::new(&SAMPLE_IV).unwrap();
    let nonce = Nonce::new(&iv, seq);
    let mut recovered = [0u8; 12];
    for i in 0..12 {
        recovered[i] = nonce.as_bytes()[i] ^ SAMPLE_IV[i];
    }
    assert_eq!(
        recovered,
        [0, 0, 0, 0, 0x01, 0x02, 0x03, 0x04, 0x05, 0x06, 0x07, 0x08],
    );
}

#[test]
fn distinct_sequence_numbers_give_distinct_nonces() {
    let iv12 = Iv::new(&SAMPLE_IV).unwrap();
    let a = Nonce::new(&iv12, 5);
    let b = Nonce::new(&iv12, 6);
    assert_ne!(a.as_bytes(), b.as_bytes());

    let iv8 = Iv::new(&SAMPLE_IV[..8]).unwrap();
    let c = Nonce::new(&iv8, 0);
    let d = Nonce::new(&iv8, u64::MAX);
    assert_ne!(c.as_bytes(), d.as_bytes());
}

#[test]
fn oversized_iv_is_rejected() {
    let too_long = [0u8; 17];
    match Iv::new(&too_long) {
        Err(Error::Api(ApiMisuse::IvLengthExceedsMaximum { actual, maximum })) => {
            assert_eq!(actual, 17);
            assert_eq!(maximum, 16);
        }
        _ => panic!("expected IvLengthExceedsMaximum"),
    }

    let at_max = [0u8; 16];
    let iv = Iv::new(&at_max).unwrap();
    assert_eq!(iv.len(), Iv::MAX_LEN);
}

#[test]
fn array_size_mismatch_is_rejected() {
    let iv = Iv::new(&SAMPLE_IV).unwrap();
    let nonce = Nonce::new(&iv, 1);
    match nonce.to_array::<16>() {
        Err(Error::Api(ApiMisuse::NonceArraySizeMismatch { expected, actual })) => {
            assert_eq!(expected, 16);
            assert_eq!(actual, 12);
        }
        _ => panic!("expected NonceArraySizeMismatch"),
    }

    let arr: [u8; NONCE_LEN] = nonce.to_array().unwrap();
    assert_eq!(&arr, nonce.as_bytes());
}

#[test]
fn multipath_absent_path_matches_plain_derivation() {
    let iv = Iv::new(&SAMPLE_IV).unwrap();
    for pn in [0u64, 1, 77, u64::MAX] {
        let plain = Nonce::new(&iv, pn);
        let multi = Nonce::quic(None, &iv, pn);
        assert_eq!(plain.as_bytes(), multi.as_bytes());
    }
}

#[test]
fn multipath_path_id_is_mixed_in() {
    let iv = Iv::new(&SAMPLE_IV).unwrap();
    let absent = Nonce::quic(None, &iv, 42);
    let present = Nonce::quic(Some(0x0a0b_0c0d), &iv, 42);
    assert_ne!(absent.as_bytes(), present.as_bytes());

    // The path identifier lands big-endian in bytes [L-12, L-8).
    for i in 0..12 {
        let expected = if i < 4 {
            let path_byte = [0x0au8, 0x0b, 0x0c, 0x0d][i];
            absent.as_bytes()[i] ^ path_byte
        } else {
            absent.as_bytes()[i]
        };
        assert_eq!(present.as_bytes()[i], expected);
    }

    // A zero path identifier coincides with the absent case.
    let zero = Nonce::quic(Some(0), &iv, 42);
    assert_eq!(absent.as_bytes(), zero.as_bytes());
}

#[test]
fn multipath_path_id_ignored_for_short_ivs() {
    let iv8 = Iv::new(&SAMPLE_IV[..8]).unwrap();
    let absent = Nonce::quic(None, &iv8, 3);
    let present = Nonce::quic(Some(7), &iv8, 3);
    assert_eq!(absent.as_bytes(), present.as_bytes());
}

#[test]
fn short_iv_uses_low_order_sequence_bytes() {
    let iv4 = Iv::new(&SAMPLE_IV[..4]).unwrap();
    let nonce = Nonce::new(&iv4, 0x0506_0708);
    assert_eq!(
        nonce.as_bytes(),
        &[0x6f ^ 0x05, 0xac ^ 0x06, 0x81 ^ 0x07, 0xd4 ^ 0x08],
    );

    // High-order sequence bits that do not fit are discarded, so values
    // agreeing in their low 4 bytes alias.
    let a = Nonce::new(&iv4, 0x1_0000_0000);
    let b = Nonce::new(&iv4, 0);
    assert_eq!(a.as_bytes(), b.as_bytes());
}

#[test]
fn iv_accessors_and_fixed_construction() {
    let iv = Iv::from_fixed(SAMPLE_IV);
    assert_eq!(iv.len(), NONCE_LEN);
    assert_eq!(iv.as_bytes(), &SAMPLE_IV);

    let cloned = iv.clone();
    assert_eq!(cloned.as_bytes(), &SAMPLE_IV);

    let empty = Iv::default();
    assert_eq!(empty.len(), 0);
    assert_eq!(empty.as_bytes(), &[] as &[u8]);
    let empty_nonce = Nonce::new(&empty, 123);
    assert_eq!(empty_nonce.len(), 0);
}

#[test]
fn bignum_derivation_matches_byte_level_derivation() {
    let iv = Iv::new(&SAMPLE_IV).unwrap();
    for seq in [0u64, 1, 2, 0x0102_0304_0506_0708, u64::MAX] {
        let byte_level = Nonce::new(&iv, seq);
        let bignum = CryptoBigInt::seq_nonce(&SAMPLE_IV, seq);
        assert_eq!(byte_level.as_bytes(), &bignum);
    }
}

#[test]
fn error_conversion_wraps_misuse() {
    let err = Error::from(ApiMisuse::IvLengthExceedsMaximum { actual: 20, maximum: 16 });
    assert!(matches!(
        err,
        Error::Api(ApiMisuse::IvLengthExceedsMaximum { actual: 20, maximum: 16 }),
    ));
}
