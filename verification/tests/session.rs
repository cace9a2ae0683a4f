use purecrypto_tpm::crypto::{self, kdfa};
use purecrypto_tpm::session::{permanent_name, AuthResponse, Session};
use purecrypto_tpm::types::attributes::SessionAttributes;
use purecrypto_tpm::types::constants::Alg;
use purecrypto_tpm::types::handles::Handle;
use purecrypto_tpm::Error;

#[test]
fn permanent_name_is_handle_bytes() {
    let h = Handle(0x4000_0001);
    assert_eq!(permanent_name(h), [0x40, 0x00, 0x00, 0x01]);
}

#[test]
fn unbound_unsalted_session_has_empty_key() {
    let s = Session::new(
        Handle(0x0200_0000),
        Alg::SHA256(),
        vec![0u8; 32],
        vec![0u8; 32],
        SessionAttributes::continue_session(),
        b"",
        b"",
        b"",
    )
    .unwrap();
    assert!(s.session_key().is_empty());
}

#[test]
fn command_and_response_hmac_round_trip() {
    // A self-consistency check: a "TPM" that holds the same key would
    // produce the rpHash HMAC we verify. We simulate that by computing the
    // expected response HMAC with the same routine.
    let mut s = Session::new(
        Handle(0x0200_0000),
        Alg::SHA256(),
        vec![0xAA; 32],
        vec![0xBB; 32],
        SessionAttributes::continue_session(),
        b"bindauth",
        b"\x00\x0bobjectname",
        b"",
    )
    .unwrap();
    let auth = b"objauth";
    let other_name = b"\x00\x0bsomeothernm";
    let cp = [0x11u8; 32];
    let nc = vec![0xCC; 32];
    let cmd = s.command_auth(&cp, auth, other_name, nc.clone()).unwrap();
    assert_eq!(cmd.nonce_caller, nc);
    assert_eq!(cmd.hmac.len(), 32);

    // Build the matching response HMAC the way the TPM would, then verify.
    let rp = [0x22u8; 32];
    let new_tpm = vec![0xDD; 32];
    let key = s.hmac_key(auth, other_name);
    let resp_hmac = crypto::hmac_parts(
        Alg::SHA256(),
        &key,
        &[&rp, &new_tpm, &nc, &[s.attributes.0]],
    )
    .unwrap();
    let resp = AuthResponse {
        nonce_tpm: new_tpm.clone(),
        attributes: s.attributes,
        hmac: resp_hmac,
    };
    s.verify_response(&rp, auth, other_name, &resp).unwrap();
    assert_eq!(s.nonce_tpm(), &new_tpm[..]);

    // A tampered HMAC must be rejected.
    let bad = AuthResponse {
        nonce_tpm: new_tpm,
        attributes: s.attributes,
        hmac: vec![0u8; 32],
    };
    assert!(s.verify_response(&rp, auth, other_name, &bad).is_err());
}

#[test]
fn bound_object_drops_auth_value_from_key() {
    let s = Session::new(
        Handle(0x0200_0000),
        Alg::SHA256(),
        vec![0xAA; 32],
        vec![0xBB; 32],
        SessionAttributes::empty(),
        b"bindauth",
        b"boundname",
        b"",
    )
    .unwrap();
    // For the bound object, key == sessionKey (no auth appended).
    let k_bound = s.hmac_key(b"ignored", b"boundname");
    assert_eq!(k_bound, s.session_key());
    // For any other object, the auth value is appended.
    let k_other = s.hmac_key(b"xyz", b"other");
    assert_eq!(k_other.len(), s.session_key().len() + 3);
}

#[test]
fn bound_session_key_is_kdfa_over_bind_auth_and_salt() {
    let s = Session::new(
        Handle(0x0200_0001),
        Alg::SHA256(),
        vec![0x01; 16],
        vec![0x02; 16],
        SessionAttributes::empty(),
        b"bind",
        b"name",
        b"salt",
    )
    .unwrap();
    let expected = kdfa(Alg::SHA256(), b"bindsalt", b"ATH", &[0x01; 16], &[0x02; 16], 256).unwrap();
    assert_eq!(s.session_key(), &expected[..]);
    assert_eq!(s.nonce_caller(), &[0x02; 16]);
    assert_eq!(s.handle(), Handle(0x0200_0001));
    assert_eq!(s.hash_alg(), Alg::SHA256());
}

#[test]
fn session_over_non_hash_is_usage_error() {
    let r = Session::new(
        Handle(0x0200_0000),
        Alg::AES(),
        vec![],
        vec![],
        SessionAttributes::empty(),
        b"",
        b"",
        b"",
    );
    assert!(matches!(r, Err(Error::Usage(_))));
}

#[test]
fn command_hmac_matches_the_tpm_formula() {
    let mut s = Session::new(
        Handle(0x0200_0002),
        Alg::SHA256(),
        vec![0x33; 32],
        vec![0x44; 32],
        SessionAttributes::continue_session(),
        b"",
        b"",
        b"",
    )
    .unwrap();
    let cp = [0x55u8; 32];
    let nc = vec![0x66u8; 32];
    let cmd = s.command_auth(&cp, b"pw", b"obj", nc.clone()).unwrap();
    // Unbound, unsalted: the key is the auth value alone.
    let expected =
        crypto::hmac_parts(Alg::SHA256(), b"pw", &[&cp, &nc, &[0x33u8; 32], &[0x01]]).unwrap();
    assert_eq!(cmd.hmac, expected);
    assert_eq!(cmd.session_handle, Handle(0x0200_0002));
    assert_eq!(s.nonce_caller(), &nc[..]);
}

#[test]
fn failed_verification_keeps_the_old_nonce() {
    let mut s = Session::new(
        Handle(0x0200_0000),
        Alg::SHA256(),
        vec![0x10; 32],
        vec![0x20; 32],
        SessionAttributes::continue_session(),
        b"",
        b"",
        b"",
    )
    .unwrap();
    let bad = AuthResponse {
        nonce_tpm: vec![0x99; 32],
        attributes: SessionAttributes::continue_session(),
        hmac: vec![0u8; 31],
    };
    let e = s.verify_response(&[0u8; 32], b"", b"", &bad).unwrap_err();
    assert!(matches!(e, Error::Protocol(_)));
    assert_eq!(s.nonce_tpm(), &[0x10; 32]);
}

#[test]
fn fresh_nonce_has_digest_length() {
    let s = Session::new(
        Handle(0x0200_0000),
        Alg::SHA384(),
        vec![],
        vec![],
        SessionAttributes::empty(),
        b"",
        b"",
        b"",
    )
    .unwrap();
    assert_eq!(s.fresh_nonce().unwrap().len(), 48);
}
