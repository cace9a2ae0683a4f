use purecrypto_tpm::error::ArgKind;
use purecrypto_tpm::marshal::{Marshal, Reader, Unmarshal};
use purecrypto_tpm::types::attributes::{ObjectAttributes, SessionAttributes};
use purecrypto_tpm::types::constants::{cc, pt, rh, Alg};
use purecrypto_tpm::types::handles::Handle;
use purecrypto_tpm::types::structures::{
    Buffer, PcrSelection, PcrSelectionList, Public, SensitiveCreate, SymDefObject,
};
use purecrypto_tpm::Error;
use purecrypto_tpm::TpmRc;

#[test]
fn response_code_decoding() {
    let ok = TpmRc(0);
    assert!(ok.is_success());
    assert_eq!(ok.raw(), 0);
    assert_eq!(TpmRc::SUCCESS(), ok);

    // TPM_RC_AUTH_FAIL (0x08E) on session 1: 0x98E.
    let rc = TpmRc(0x98E);
    assert!(rc.is_format_one());
    assert!(!rc.is_warning());
    assert_eq!(rc.base(), TpmRc(0x08E));
    assert_eq!(rc.base().base(), TpmRc(0x08E));
    assert_eq!(rc.arg_number(), Some(1));
    assert_eq!(rc.arg_kind(), Some(ArgKind::Session));

    // TPM_RC_VALUE (0x084) on parameter 1: 0x1C4.
    let rc = TpmRc(0x1C4);
    assert_eq!(rc.base(), TpmRc(0x084));
    assert_eq!(rc.arg_number(), Some(1));
    assert_eq!(rc.arg_kind(), Some(ArgKind::Parameter));
    assert_eq!(rc.arg_kind().unwrap().as_str(), "parameter");

    // TPM_RC_HANDLE (0x08B) on handle 1: 0x18B.
    let rc = TpmRc(0x18B);
    assert_eq!(rc.arg_kind(), Some(ArgKind::Handle));
    assert_eq!(rc.arg_number(), Some(1));

    // TPM_RC_SIZE (0x095) on parameter 13: 0xDD5; TPM_RC_AUTH_FAIL on session 3: 0xB8E.
    assert_eq!(TpmRc(0xDD5).arg_number(), Some(13));
    assert_eq!(TpmRc(0xDD5).arg_kind(), Some(ArgKind::Parameter));
    assert_eq!(TpmRc(0xB8E).arg_number(), Some(3));
    assert_eq!(TpmRc(0xB8E).arg_kind(), Some(ArgKind::Session));
    assert_eq!(TpmRc(0x1D5).arg_number(), Some(1));
    assert_eq!(TpmRc(0x922).arg_number(), None);
    assert_eq!(ArgKind::Handle.as_str(), "handle");
    assert_eq!(ArgKind::Session.as_str(), "session");

    // TPM_RC_INITIALIZE (0x100) is format zero; TPM_RC_RETRY (0x922) a warning.
    let rc = TpmRc(0x100);
    assert!(!rc.is_format_one());
    assert_eq!(rc.base(), rc);
    assert_eq!(rc.arg_number(), None);
    assert_eq!(rc.arg_kind(), None);
    assert!(TpmRc(0x922).is_warning());
}

#[test]
fn response_code_and_error_text() {
    assert_eq!(TpmRc(0x98E).to_string(), "TPM_RC 0x98e (session 1)");
    assert_eq!(TpmRc(0xDD5).to_string(), "TPM_RC 0xdd5 (parameter 13)");
    assert_eq!(TpmRc(0x18B).to_string(), "TPM_RC 0x18b (handle 1)");
    assert_eq!(TpmRc(0x101).to_string(), "TPM_RC 0x101");
    assert_eq!(TpmRc(0x0).to_string(), "TPM_RC 0x000");
    assert_eq!(TpmRc(0x8000_0000).to_string(), "TPM_RC 0x80000000");
    assert_eq!(Error::Tpm(TpmRc(0x922)).to_string(), "TPM error: TPM_RC 0x922");
    assert_eq!(Error::Usage("auth value too long").to_string(), "misuse: auth value too long");
    assert_eq!(Error::Malformed("x").to_string(), "malformed TPM data: x");
    assert_eq!(Error::Protocol("y".to_owned()).to_string(), "protocol error: y");
    assert_eq!(Error::Transport("z".to_owned()).to_string(), "transport error: z");
}

#[test]
fn handle_classification() {
    assert!(Handle(0x8000_0001).is_transient());
    assert!(Handle(0x8100_0001).is_persistent());
    assert!(Handle(0x0200_0000).is_session());
    assert!(Handle(0x0300_0000).is_session());
    assert!(!Handle(rh::OWNER).is_session());
    assert_eq!(Handle(rh::OWNER).handle_type(), 0x40);
    assert_eq!(Handle::from(7u32), Handle(7));
    assert_eq!(Handle(0x1234_5678).raw(), 0x1234_5678);
    assert_eq!(Handle(0x8000_0002).to_bytes(), vec![0x80, 0, 0, 2]);
}

#[test]
fn attribute_sets() {
    assert_eq!(ObjectAttributes::storage_parent().0, 0x0003_0072);
    assert_eq!(ObjectAttributes::sealed_data().0, 0x0000_0052);
    let a = ObjectAttributes::empty().with(ObjectAttributes::NO_DA);
    assert!(a.contains(ObjectAttributes::NO_DA));
    assert!(!a.contains(ObjectAttributes::RESTRICTED));
    assert!(ObjectAttributes::storage_parent()
        .contains(ObjectAttributes::RESTRICTED | ObjectAttributes::DECRYPT));
    let s = SessionAttributes::continue_session().with(SessionAttributes::AUDIT);
    assert_eq!(s.0, 0x81);
    assert!(s.contains(SessionAttributes::CONTINUE_SESSION));
    assert!(!SessionAttributes::empty().contains(SessionAttributes::DECRYPT));
}

#[test]
fn digest_sizes() {
    assert_eq!(Alg::SHA1().digest_size(), Some(20));
    assert_eq!(Alg::SHA256().digest_size(), Some(32));
    assert_eq!(Alg::SHA384().digest_size(), Some(48));
    assert_eq!(Alg::SHA512().digest_size(), Some(64));
    assert_eq!(Alg::SM3_256().digest_size(), Some(32));
    assert_eq!(Alg::NULL().digest_size(), Some(0));
    assert_eq!(Alg::RSA().digest_size(), None);
    assert_eq!(Alg::ECC().raw(), 0x0023);
    assert_eq!(pt::MANUFACTURER, 0x105);
    assert_eq!(cc::UNSEAL, 0x15E);
}

#[test]
fn single_pcr_selection_bitmaps() {
    let s = PcrSelection::single(Alg::SHA256(), 0);
    assert_eq!(s.select, vec![0x01, 0x00, 0x00]);
    let s = PcrSelection::single(Alg::SHA256(), 23);
    assert_eq!(s.select, vec![0x00, 0x00, 0x80]);
    let s = PcrSelection::single(Alg::SHA1(), 30);
    assert_eq!(s.select, vec![0x00, 0x00, 0x00, 0x40]);
    assert_eq!(s.to_bytes(), vec![0x00, 0x04, 0x04, 0x00, 0x00, 0x00, 0x40]);
}

#[test]
fn pcr_selection_list_round_trip() {
    let l = PcrSelectionList(vec![
        PcrSelection::single(Alg::SHA256(), 7),
        PcrSelection { hash: Alg::SHA1(), select: vec![0xFF, 0x00] },
    ]);
    let bytes = l.to_bytes();
    assert_eq!(&bytes[..4], &[0, 0, 0, 2]);
    let mut with_tail = bytes.clone();
    with_tail.push(0xEE);
    let mut r = Reader::new(&with_tail);
    let back = PcrSelectionList::unmarshal(&mut r).unwrap();
    assert_eq!(back, l);
    assert_eq!(r.remaining(), 1);
    // A count that promises more selections than there are is malformed.
    let mut r = Reader::new(&[0, 0, 0, 3, 0, 0x0B, 0x00]);
    assert!(PcrSelectionList::unmarshal(&mut r).is_err());
}

#[test]
fn buffer_basics_and_round_trip() {
    let b = Buffer::from(&b"abc"[..]);
    assert_eq!(b.len(), 3);
    assert!(!b.is_empty());
    assert!(Buffer::empty().is_empty());
    assert_eq!(Buffer::empty().to_bytes(), vec![0, 0]);
    assert_eq!(b.to_bytes(), vec![0, 3, b'a', b'b', b'c']);
    let mut r = Reader::new(&[0, 2, 9, 8, 7]);
    let back = Buffer::unmarshal(&mut r).unwrap();
    assert_eq!(back.as_slice(), &[9, 8]);
    assert_eq!(Buffer::from(vec![1u8, 2]).into_vec(), vec![1, 2]);
}

#[test]
fn sym_def_marshalling() {
    assert_eq!(SymDefObject::null().to_bytes(), vec![0x00, 0x10]);
    assert_eq!(
        SymDefObject::aes128_cfb().to_bytes(),
        vec![0x00, 0x06, 0x00, 0x80, 0x00, 0x43]
    );
}

#[test]
fn sealed_data_template_bytes() {
    let p = Public::sealed_data(Alg::SHA256());
    // type KEYEDHASH, nameAlg SHA256, attributes 0x52, empty policy,
    // scheme NULL, empty unique.
    assert_eq!(
        p.to_bytes(),
        vec![0x00, 0x08, 0x00, 0x0B, 0x00, 0x00, 0x00, 0x52, 0x00, 0x00, 0x00, 0x10, 0x00, 0x00]
    );
    let mut out = Vec::new();
    p.wrap_2b(&mut out);
    assert_eq!(&out[..2], &[0x00, 14]);
    assert_eq!(out.len(), 16);
}

#[test]
fn storage_parent_template_bytes() {
    let p = Public::ecc_storage_parent(Alg::SHA256());
    assert_eq!(
        p.to_bytes(),
        vec![
            0x00, 0x23, 0x00, 0x0B, 0x00, 0x03, 0x00, 0x72, 0x00, 0x00, // type, nameAlg, attrs, policy
            0x00, 0x06, 0x00, 0x80, 0x00, 0x43, // AES-128-CFB
            0x00, 0x10, 0x00, 0x03, 0x00, 0x10, // scheme NULL, P-256, kdf NULL
            0x00, 0x00, 0x00, 0x00, // unique x, y
        ]
    );
}

#[test]
fn sensitive_create_wrapping() {
    let s = SensitiveCreate { user_auth: Buffer::from(&b"pw"[..]), data: Buffer::from(&b"s"[..]) };
    let mut out = Vec::new();
    s.wrap_2b(&mut out);
    assert_eq!(out, vec![0, 7, 0, 2, b'p', b'w', 0, 1, b's']);
}
