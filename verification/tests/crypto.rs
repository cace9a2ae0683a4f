use purecrypto_tpm::crypto::{aes_cfb, digest_size, hash, hash_parts, hmac_parts, kdfa};
use purecrypto_tpm::types::constants::Alg;
use purecrypto_tpm::Error;

// SHA-256 of "abc" (FIPS 180-4 worked example).
#[test]
fn sha256_abc() {
    let d = hash(Alg::SHA256(), b"abc").unwrap();
    assert_eq!(
        d,
        [
            0xba, 0x78, 0x16, 0xbf, 0x8f, 0x01, 0xcf, 0xea, 0x41, 0x41, 0x40, 0xde, 0x5d, 0xae,
            0x22, 0x23, 0xb0, 0x03, 0x61, 0xa3, 0x96, 0x17, 0x7a, 0x9c, 0xb4, 0x10, 0xff, 0x61,
            0xf2, 0x00, 0x15, 0xad
        ]
    );
}

// KDFa is SP 800-108 counter mode; the output length and bit-masking are the
// parts most likely to regress. Spot-check both.
#[test]
fn kdfa_length_and_masking() {
    let k = kdfa(Alg::SHA256(), b"key", b"LABEL", b"", b"", 128).unwrap();
    assert_eq!(k.len(), 16);

    // 12 bits => 2 bytes, top 4 bits of the leading octet cleared.
    let k = kdfa(Alg::SHA256(), b"key", b"LABEL", b"", b"", 12).unwrap();
    assert_eq!(k.len(), 2);
    assert_eq!(k[0] & 0xF0, 0);

    // Output longer than one SHA-256 block must span multiple HMAC calls and
    // still be exact length.
    let k = kdfa(Alg::SHA256(), b"key", b"LABEL", b"ctx", b"", 512).unwrap();
    assert_eq!(k.len(), 64);
}

#[test]
fn aes_cfb_round_trips() {
    let key = [0x42u8; 16];
    let iv = [0x24u8; 16];
    let mut buf = *b"sixteen byte msg";
    let orig = buf;
    aes_cfb(&key, &iv, &mut buf, true).unwrap();
    assert_ne!(buf, orig);
    aes_cfb(&key, &iv, &mut buf, false).unwrap();
    assert_eq!(buf, orig);
}

#[test]
fn aes256_cfb_round_trips_and_bad_key_is_usage() {
    let key = [0x11u8; 32];
    let iv = [0x22u8; 16];
    let mut buf = *b"an odd-length message!";
    let orig = buf;
    aes_cfb(&key, &iv, &mut buf, true).unwrap();
    assert_ne!(buf, orig);
    aes_cfb(&key, &iv, &mut buf, false).unwrap();
    assert_eq!(buf, orig);

    let bad = [0u8; 24];
    let mut data = *b"untouched";
    let e = aes_cfb(&bad, &iv, &mut data, true).unwrap_err();
    assert!(matches!(e, Error::Usage(_)));
    assert_eq!(&data, b"untouched");
}

#[test]
fn hash_parts_is_hash_of_concatenation() {
    let whole = hash(Alg::SHA256(), b"hello world").unwrap();
    let parts: [&[u8]; 3] = [b"hello", b" ", b"world"];
    assert_eq!(hash_parts(Alg::SHA256(), &parts).unwrap(), whole);
}

#[test]
fn digest_lengths_follow_the_algorithm() {
    for (alg, n) in [
        (Alg::SHA1(), 20),
        (Alg::SHA256(), 32),
        (Alg::SHA384(), 48),
        (Alg::SHA512(), 64),
        (Alg::SM3_256(), 32),
    ] {
        assert_eq!(hash(alg, b"x").unwrap().len(), n);
        assert_eq!(hmac_parts(alg, b"k", &[b"x"]).unwrap().len(), n);
        assert_eq!(digest_size(alg).unwrap(), n);
    }
    // SHA-1 of "abc".
    assert_eq!(
        hash(Alg::SHA1(), b"abc").unwrap(),
        [
            0xa9, 0x99, 0x3e, 0x36, 0x47, 0x06, 0x81, 0x6a, 0xba, 0x3e, 0x25, 0x71, 0x78, 0x50,
            0xc2, 0x6c, 0x9c, 0xd0, 0xd8, 0x9d
        ]
    );
}

#[test]
fn unsupported_hash_is_usage_error() {
    assert!(matches!(hash(Alg::AES(), b"x"), Err(Error::Usage(_))));
    assert!(matches!(hmac_parts(Alg::NULL(), b"k", &[b"x"]), Err(Error::Usage(_))));
    assert!(matches!(digest_size(Alg::NULL()), Err(Error::Usage(_))));
    assert!(matches!(digest_size(Alg::RSA()), Err(Error::Usage(_))));
    // Zero bits of KDFa needs no hash at all.
    assert_eq!(kdfa(Alg::AES(), b"k", b"L", b"", b"", 0).unwrap(), Vec::<u8>::new());
    assert!(matches!(kdfa(Alg::AES(), b"k", b"L", b"", b"", 8), Err(Error::Usage(_))));
}

#[test]
fn hmac_sha256_rfc4231_case_2() {
    // RFC 4231 test case 2: key "Jefe", data "what do ya want for nothing?".
    let tag = hmac_parts(Alg::SHA256(), b"Jefe", &[b"what do ya want ", b"for nothing?"]).unwrap();
    assert_eq!(
        tag,
        [
            0x5b, 0xdc, 0xc1, 0x46, 0xbf, 0x60, 0x75, 0x4e, 0x6a, 0x04, 0x24, 0x26, 0x08, 0x95,
            0x75, 0xc7, 0x5a, 0x00, 0x3f, 0x08, 0x9d, 0x27, 0x39, 0x83, 0x9d, 0xec, 0x58, 0xb9,
            0x64, 0xec, 0x38, 0x43
        ]
    );
}

#[test]
fn kdfa_first_block_is_the_counter_one_hmac() {
    // 256 bits of SHA-256 KDFa is exactly the first block:
    // HMAC(key, 00000001 || label || 00 || u || v || 00000100).
    let k = kdfa(Alg::SHA256(), b"key", b"ATH", b"uu", b"vv", 256).unwrap();
    let block = hmac_parts(
        Alg::SHA256(),
        b"key",
        &[&[0, 0, 0, 1], b"ATH", &[0], b"uu", b"vv", &[0, 0, 1, 0]],
    )
    .unwrap();
    assert_eq!(k, block);
    // 20 bits: the block over UINT32(20), cut to 3 bytes, top 4 bits cleared.
    let short = kdfa(Alg::SHA256(), b"key", b"ATH", b"uu", b"vv", 20).unwrap();
    let block20 = hmac_parts(
        Alg::SHA256(),
        b"key",
        &[&[0, 0, 0, 1], b"ATH", &[0], b"uu", b"vv", &[0, 0, 0, 20]],
    )
    .unwrap();
    assert_eq!(short.len(), 3);
    assert_eq!(short[0], block20[0] & 0x0F);
    assert_eq!(&short[1..], &block20[1..3]);
}
