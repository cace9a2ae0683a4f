use purecrypto_tpm::marshal::{marshal_tpm2b, Marshal, Reader, Unmarshal};
use purecrypto_tpm::types::structures::{Buffer, PcrSelectionList};
use purecrypto_tpm::Error;

#[test]
fn primitives_round_trip() {
    let mut out = Vec::new();
    0x1122u16.marshal(&mut out);
    0x33445566u32.marshal(&mut out);
    0xAAu8.marshal(&mut out);
    assert_eq!(out, [0x11, 0x22, 0x33, 0x44, 0x55, 0x66, 0xAA]);

    let mut r = Reader::new(&out);
    assert_eq!(u16::unmarshal(&mut r).unwrap(), 0x1122);
    assert_eq!(u32::unmarshal(&mut r).unwrap(), 0x33445566);
    assert_eq!(u8::unmarshal(&mut r).unwrap(), 0xAA);
    assert!(r.is_empty());
}

#[test]
fn tpm2b_round_trip() {
    let mut out = Vec::new();
    marshal_tpm2b(&[0xDE, 0xAD, 0xBE, 0xEF], &mut out).unwrap();
    assert_eq!(out, [0x00, 0x04, 0xDE, 0xAD, 0xBE, 0xEF]);

    let mut r = Reader::new(&out);
    assert_eq!(r.tpm2b().unwrap(), &[0xDE, 0xAD, 0xBE, 0xEF]);
    assert!(r.is_empty());
}

#[test]
fn short_read_is_error() {
    let mut r = Reader::new(&[0x00]);
    assert!(u32::unmarshal(&mut r).is_err());
}

#[test]
fn tpm2b_overlong_payload_rejected() {
    let big = vec![0u8; 0x1_0000];
    let mut out = Vec::new();
    assert!(marshal_tpm2b(&big, &mut out).is_err());
}

#[test]
fn overlong_tpm2b_writes_nothing_and_is_malformed() {
    let big = vec![1u8; 0x1_0000];
    let mut out = vec![9u8];
    let e = marshal_tpm2b(&big, &mut out).unwrap_err();
    assert!(matches!(e, Error::Malformed(_)));
    assert_eq!(out, [9u8]);
    // The largest payload that fits is accepted.
    let fits = vec![2u8; 0xFFFF];
    let mut out = Vec::new();
    marshal_tpm2b(&fits, &mut out).unwrap();
    assert_eq!(&out[..2], &[0xFF, 0xFF]);
    assert_eq!(out.len(), 0xFFFF + 2);
}

#[test]
fn u64_big_endian_round_trip() {
    let mut out = Vec::new();
    0x0102_0304_0506_0708u64.marshal(&mut out);
    assert_eq!(out, [1, 2, 3, 4, 5, 6, 7, 8]);
    let mut r = Reader::new(&out);
    assert_eq!(r.u64().unwrap(), 0x0102_0304_0506_0708);
    assert_eq!(r.pos(), 8);
    assert_eq!(r.remaining(), 0);
}

#[test]
fn to_bytes_is_the_encoding() {
    assert_eq!(0xBEEFu16.to_bytes(), vec![0xBE, 0xEF]);
    assert_eq!(0xDEAD_BEEFu32.to_bytes(), vec![0xDE, 0xAD, 0xBE, 0xEF]);
}

#[test]
fn failed_take_leaves_reader_in_place() {
    let data = [1u8, 2, 3];
    let mut r = Reader::new(&data);
    assert!(matches!(r.take(4), Err(Error::Malformed(_))));
    assert_eq!(r.pos(), 0);
    assert_eq!(r.take(2).unwrap(), &[1, 2]);
    assert_eq!(r.remaining(), 1);
    assert!(r.u16().is_err());
    assert_eq!(r.u8().unwrap(), 3);
    assert!(r.is_empty());
}

#[test]
fn truncated_tpm2b_consumes_its_count() {
    // Count says 5 bytes, only 2 follow: the count is consumed, the payload is not.
    let data = [0x00, 0x05, 0xAA, 0xBB];
    let mut r = Reader::new(&data);
    assert!(matches!(r.tpm2b(), Err(Error::Malformed(_))));
    assert_eq!(r.pos(), 2);
    // A lone byte cannot even hold the count.
    let one = [0x00];
    let mut r = Reader::new(&one);
    assert!(r.tpm2b().is_err());
    assert_eq!(r.pos(), 0);
}

#[test]
fn reader_position_accounts_for_every_byte() {
    let buf = [0u8, 1, 2, 3, 4, 5, 6, 7, 8, 9];
    let mut r = Reader::new(&buf);
    assert_eq!(r.pos(), 0);
    assert_eq!(r.remaining(), buf.len());
    let _ = r.u16().unwrap();
    assert_eq!(r.pos() + r.remaining(), buf.len());
    let _ = r.u32().unwrap();
    assert!(r.u64().is_err());
    assert_eq!(r.pos(), 6);
    assert_eq!(r.remaining(), 4);
    let _ = r.take(4).unwrap();
    assert_eq!(r.pos(), buf.len());
    assert_eq!(r.remaining(), 0);
    assert!(r.is_empty());
    assert!(r.u8().is_err());
    assert_eq!(r.pos(), buf.len());
}

#[test]
fn failed_unmarshal_consumes_only_whole_fields() {
    // A u32 that does not fit consumes nothing.
    let short = [1u8, 2, 3];
    let mut r = Reader::new(&short);
    assert!(u32::unmarshal(&mut r).is_err());
    assert_eq!(r.pos(), 0);
    // A TPM2B whose payload is short consumes its size field.
    let b = [0u8, 5, 1, 2];
    let mut r = Reader::new(&b);
    assert!(Buffer::unmarshal(&mut r).is_err());
    assert_eq!(r.pos(), 2);
    // A list of two selections whose second bitmap is short: the count, the
    // first selection (3 + 1 bytes) and the second's hash and size are read.
    let l = [0u8, 0, 0, 2, 0, 0x0B, 1, 0xFF, 0, 0x0B, 3, 0x01];
    let mut r = Reader::new(&l);
    assert!(PcrSelectionList::unmarshal(&mut r).is_err());
    assert_eq!(r.pos(), 4 + 4 + 3);
}
