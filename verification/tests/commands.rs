use purecrypto_tpm::crypto::{hash, hmac_parts};
use purecrypto_tpm::transport::Transport;
use purecrypto_tpm::types::constants::{cap, rh, su, Alg};
use purecrypto_tpm::types::handles::Handle;
use purecrypto_tpm::types::structures::{Buffer, Public, SensitiveCreate};
use purecrypto_tpm::{Auth, Error, Tpm, TpmRc};

/// A scripted TPM: records every command and answers with a reply computed
/// from it.
struct Script {
    sent: Vec<Vec<u8>>,
    answer: Box<dyn FnMut(&[u8]) -> purecrypto_tpm::Result<Vec<u8>>>,
}

impl Transport for Script {
    fn transmit(&mut self, command: &[u8]) -> purecrypto_tpm::Result<Vec<u8>> {
        self.sent.push(command.to_vec());
        (self.answer)(command)
    }
}

fn tpm_with(answer: impl FnMut(&[u8]) -> purecrypto_tpm::Result<Vec<u8>> + 'static) -> Tpm<Script> {
    Tpm::new(Script { sent: Vec::new(), answer: Box::new(answer) })
}

/// A `TPM_ST_NO_SESSIONS` success reply with the given body.
fn reply(body: &[u8]) -> Vec<u8> {
    let mut v = vec![0x80, 0x01];
    v.extend_from_slice(&((10 + body.len()) as u32).to_be_bytes());
    v.extend_from_slice(&[0, 0, 0, 0]);
    v.extend_from_slice(body);
    v
}

fn tpm2b(d: &[u8]) -> Vec<u8> {
    let mut v = (d.len() as u16).to_be_bytes().to_vec();
    v.extend_from_slice(d);
    v
}

#[test]
fn startup_sends_the_expected_frame() {
    let mut tpm = tpm_with(|_| Ok(reply(&[])));
    tpm.startup(su::CLEAR).unwrap();
    let sent = &tpm.transport_mut().sent;
    assert_eq!(sent.len(), 1);
    assert_eq!(sent[0], vec![0x80, 0x01, 0, 0, 0, 12, 0, 0, 0x01, 0x44, 0, 0]);
}

#[test]
fn get_random_returns_the_tpm2b_payload() {
    let mut tpm = tpm_with(|_| Ok(reply(&tpm2b(&[7, 8, 9]))));
    assert_eq!(tpm.get_random(24).unwrap(), vec![7, 8, 9]);
    let sent = tpm.into_transport().sent;
    assert_eq!(sent[0], vec![0x80, 0x01, 0, 0, 0, 12, 0, 0, 0x01, 0x7B, 0, 24]);
}

#[test]
fn nonzero_response_code_is_a_tpm_error() {
    let mut tpm = tpm_with(|_| Ok(vec![0x80, 0x01, 0, 0, 0, 10, 0, 0, 0x01, 0x00]));
    match tpm.startup(su::CLEAR) {
        Err(Error::Tpm(rc)) => assert_eq!(rc, TpmRc(0x100)),
        other => panic!("unexpected {:?}", other),
    }
}

#[test]
fn size_mismatch_is_a_protocol_error() {
    let mut tpm = tpm_with(|_| Ok(vec![0x80, 0x01, 0, 0, 0, 11, 0, 0, 0, 0]));
    assert!(matches!(tpm.self_test(true), Err(Error::Protocol(_))));
    assert_eq!(tpm.transport_mut().sent[0][10], 1);
}

#[test]
fn truncated_reply_is_malformed() {
    let mut tpm = tpm_with(|_| Ok(vec![0x80, 0x01, 0, 0]));
    assert!(matches!(tpm.shutdown(su::STATE), Err(Error::Malformed(_))));
    // A well-framed reply whose parameters are short is malformed too.
    let mut tpm = tpm_with(|_| Ok(reply(&[0, 5, 1])));
    assert!(matches!(tpm.get_random(5), Err(Error::Malformed(_))));
}

#[test]
fn transport_errors_pass_through() {
    let mut tpm = tpm_with(|_| Err(Error::Transport(String::from("link down"))));
    match tpm.flush_context(Handle(0x8000_0000)) {
        Err(Error::Transport(s)) => assert_eq!(s, "link down"),
        other => panic!("unexpected {:?}", other),
    }
    assert_eq!(
        tpm.transport_mut().sent[0],
        vec![0x80, 0x01, 0, 0, 0, 14, 0, 0, 0x01, 0x65, 0x80, 0, 0, 0]
    );
}

#[test]
fn stir_random_limits_its_input() {
    let mut tpm = tpm_with(|_| Ok(reply(&[])));
    assert!(matches!(tpm.stir_random(&[0u8; 129]), Err(Error::Usage(_))));
    assert!(tpm.transport_mut().sent.is_empty());
    tpm.stir_random(&[1, 2]).unwrap();
    assert_eq!(
        tpm.transport_mut().sent[0],
        vec![0x80, 0x01, 0, 0, 0, 14, 0, 0, 0x01, 0x46, 0, 2, 1, 2]
    );
}

#[test]
fn capability_reply_is_split() {
    let mut body = vec![1u8];
    body.extend_from_slice(&cap::TPM_PROPERTIES.to_be_bytes());
    body.extend_from_slice(&[0xAA, 0xBB]);
    let mut tpm = tpm_with(move |_| Ok(reply(&body)));
    let c = tpm.get_capability(cap::TPM_PROPERTIES, 0x105, 8).unwrap();
    assert!(c.more);
    assert_eq!(c.capability, cap::TPM_PROPERTIES);
    assert_eq!(c.data, vec![0xAA, 0xBB]);
}

#[test]
fn pcr_read_one_returns_the_first_digest() {
    let mut body = vec![0, 0, 0, 9]; // update counter
    body.extend_from_slice(&[0, 0, 0, 1, 0, 0x0B, 3, 1, 0, 0]); // selection
    body.extend_from_slice(&[0, 0, 0, 1]);
    body.extend_from_slice(&tpm2b(&[0x5A; 32]));
    let mut tpm = tpm_with(move |_| Ok(reply(&body)));
    let v = tpm.pcr_read_one(Alg::SHA256(), 0).unwrap().unwrap();
    assert_eq!(v.as_slice(), &[0x5A; 32]);
    assert_eq!(
        tpm.transport_mut().sent[0],
        vec![0x80, 0x01, 0, 0, 0, 20, 0, 0, 0x01, 0x7E, 0, 0, 0, 1, 0, 0x0B, 3, 1, 0, 0]
    );
    // No values read back: `None`.
    let mut tpm = tpm_with(|_| Ok(reply(&[0, 0, 0, 1, 0, 0, 0, 0, 0, 0, 0, 0])));
    assert!(tpm.pcr_read_one(Alg::SHA256(), 0).unwrap().is_none());
}

/// A `TPM_ST_SESSIONS` success reply: handles, parameter size, parameters,
/// and a password-style (empty) response authorization entry.
fn session_reply(handles: &[u32], params: &[u8]) -> Vec<u8> {
    let mut body = Vec::new();
    for h in handles {
        body.extend_from_slice(&h.to_be_bytes());
    }
    body.extend_from_slice(&(params.len() as u32).to_be_bytes());
    body.extend_from_slice(params);
    body.extend_from_slice(&[0, 0, 0x01, 0, 0]);
    let mut v = vec![0x80, 0x02];
    v.extend_from_slice(&((10 + body.len()) as u32).to_be_bytes());
    v.extend_from_slice(&[0, 0, 0, 0]);
    v.extend_from_slice(&body);
    v
}

#[test]
fn create_primary_with_password() {
    let mut params = tpm2b(b"PUBLIC");
    params.extend_from_slice(&tpm2b(b"cdata"));
    params.extend_from_slice(&tpm2b(b"chash"));
    params.extend_from_slice(&[0x80, 0x21, 0x40, 0, 0, 1]);
    params.extend_from_slice(&tpm2b(b"ticket"));
    params.extend_from_slice(&tpm2b(b"NAME"));
    let answer = session_reply(&[0x8000_0000], &params);
    let mut tpm = tpm_with(move |_| Ok(answer.clone()));
    let r = tpm
        .create_primary(
            Handle(rh::OWNER),
            &SensitiveCreate::default(),
            &Public::sealed_data(Alg::SHA256()),
            &mut Auth::Password(b"pw"),
        )
        .unwrap();
    assert_eq!(r.handle, Handle(0x8000_0000));
    assert_eq!(r.name.as_slice(), b"NAME");
    assert_eq!(r.public.as_slice(), b"PUBLIC");

    let sent = &tpm.transport_mut().sent[0];
    assert_eq!(&sent[..2], &[0x80, 0x02]);
    assert_eq!(u32::from_be_bytes([sent[2], sent[3], sent[4], sent[5]]) as usize, sent.len());
    assert_eq!(&sent[6..10], &[0, 0, 0x01, 0x31]);
    assert_eq!(&sent[10..14], &rh::OWNER.to_be_bytes());
    // Authorization area: size 11, TPM_RS_PW, empty nonce, continueSession, "pw".
    assert_eq!(&sent[14..29], &[0, 0, 0, 11, 0x40, 0, 0, 9, 0, 0, 1, 0, 2, b'p', b'w']);
}

#[test]
fn overlong_password_is_not_sent() {
    let mut tpm = tpm_with(|_| Ok(reply(&[])));
    let pw = vec![0u8; 0x1_0000];
    let r = tpm.unseal(Handle(0x8000_0001), b"name", &mut Auth::Password(&pw));
    assert!(matches!(r, Err(Error::Usage(_))));
    assert!(tpm.transport_mut().sent.is_empty());
}

fn read_tpm2b(b: &[u8]) -> (&[u8], &[u8]) {
    let n = u16::from_be_bytes([b[0], b[1]]) as usize;
    (&b[2..2 + n], &b[2 + n..])
}

#[test]
fn unseal_over_an_hmac_session() {
    let nonce_tpm0 = vec![0x71u8; 32];
    let nonce_tpm1 = vec![0x72u8; 32];
    let item_name = b"\x00\x0bITEMNAME".to_vec();
    let secret = b"sealed secret".to_vec();
    let auth_value = b"sk".to_vec();

    let (n0, n1, name, sec, av) =
        (nonce_tpm0.clone(), nonce_tpm1.clone(), item_name.clone(), secret.clone(), auth_value.clone());
    let mut step = 0;
    let mut tpm = tpm_with(move |cmd: &[u8]| {
        step += 1;
        if step == 1 {
            // StartAuthSession: hand out session 0x02000000 and nonceTPM.
            return Ok(reply(&[&[0x02, 0, 0, 0][..], &tpm2b(&n0)].concat()));
        }
        // Unseal: check the command HMAC the way a TPM does, then answer.
        assert_eq!(&cmd[..2], &[0x80, 0x02]);
        let code = &cmd[6..10];
        let rest = &cmd[14..]; // after the item handle
        let rest = &rest[4..]; // authorization size
        assert_eq!(&rest[..4], &[0x02, 0, 0, 0]);
        let (nonce_caller, rest) = read_tpm2b(&rest[4..]);
        let attrs = rest[0];
        let (cmd_hmac, params) = read_tpm2b(&rest[1..]);
        assert!(params.is_empty());
        let cp = hash(Alg::SHA256(), &[code, &name[..], params].concat()).unwrap();
        let expected = hmac_parts(Alg::SHA256(), &av, &[&cp, nonce_caller, &n0, &[attrs]]).unwrap();
        if cmd_hmac != &expected[..] {
            return Ok(vec![0x80, 0x01, 0, 0, 0, 10, 0, 0, 0x09, 0x8E]);
        }
        let out = tpm2b(&sec);
        let rp = hash(Alg::SHA256(), &[&[0, 0, 0, 0][..], code, &out].concat()).unwrap();
        let resp_hmac = hmac_parts(Alg::SHA256(), &av, &[&rp, &n1, nonce_caller, &[attrs]]).unwrap();
        let mut body = (out.len() as u32).to_be_bytes().to_vec();
        body.extend_from_slice(&out);
        body.extend_from_slice(&tpm2b(&n1));
        body.push(attrs);
        body.extend_from_slice(&tpm2b(&resp_hmac));
        let mut v = vec![0x80, 0x02];
        v.extend_from_slice(&((10 + body.len()) as u32).to_be_bytes());
        v.extend_from_slice(&[0, 0, 0, 0]);
        v.extend_from_slice(&body);
        Ok(v)
    });

    let mut session = tpm.start_hmac_session(Alg::SHA256()).unwrap();
    assert_eq!(session.handle(), Handle(0x0200_0000));
    assert_eq!(session.nonce_tpm(), &nonce_tpm0[..]);
    let out = tpm
        .unseal(
            Handle(0x8000_0001),
            &item_name,
            &mut Auth::Session { session: &mut session, auth_value: &auth_value },
        )
        .unwrap();
    assert_eq!(out, secret);
    // The session took the fresh nonceTPM from the verified reply.
    assert_eq!(session.nonce_tpm(), &nonce_tpm1[..]);

    // The StartAuthSession frame: NULL/NULL handles, nonceCaller, empty salt,
    // HMAC session, NULL symmetric, SHA-256.
    let sent = tpm.into_transport().sent;
    let start = &sent[0];
    assert_eq!(&start[6..10], &[0, 0, 0x01, 0x76]);
    assert_eq!(&start[10..18], &[0x40, 0, 0, 7, 0x40, 0, 0, 7]);
    assert_eq!(&start[18..20], &[0, 32]);
    assert_eq!(&start[52..], &[0, 0, 0, 0, 0x10, 0, 0x0B]);
}

#[test]
fn forged_session_reply_is_rejected() {
    let mut step = 0;
    let mut tpm = tpm_with(move |_cmd: &[u8]| {
        step += 1;
        if step == 1 {
            return Ok(reply(&[&[0x02, 0, 0, 0][..], &tpm2b(&[0x11; 32])].concat()));
        }
        // A reply whose HMAC is all zeroes.
        let out = tpm2b(b"secret");
        let mut body = (out.len() as u32).to_be_bytes().to_vec();
        body.extend_from_slice(&out);
        body.extend_from_slice(&tpm2b(&[0x22; 32]));
        body.push(1);
        body.extend_from_slice(&tpm2b(&[0u8; 32]));
        let mut v = vec![0x80, 0x02];
        v.extend_from_slice(&((10 + body.len()) as u32).to_be_bytes());
        v.extend_from_slice(&[0, 0, 0, 0]);
        v.extend_from_slice(&body);
        Ok(v)
    });
    let mut session = tpm.start_auth_session(Alg::SHA256(), vec![0x33; 16]).unwrap();
    assert_eq!(session.nonce_caller(), &[0x33; 16]);
    let r = tpm.unseal(
        Handle(0x8000_0001),
        b"name",
        &mut Auth::Session { session: &mut session, auth_value: b"" },
    );
    assert!(matches!(r, Err(Error::Protocol(_))));
    // The unverified nonceTPM was not absorbed.
    assert_eq!(session.nonce_tpm(), &[0x11; 32]);
}

#[test]
fn create_load_and_extend_frames() {
    let mut step = 0;
    let mut tpm = tpm_with(move |_cmd: &[u8]| {
        step += 1;
        match step {
            1 => Ok(session_reply(&[], &[&tpm2b(b"PRIV")[..], &tpm2b(b"PUB")].concat())),
            2 => Ok(session_reply(&[0x8000_0002], &tpm2b(b"OBJNAME"))),
            _ => Ok(session_reply(&[], &[])),
        }
    });
    let sensitive = SensitiveCreate { user_auth: Buffer::from(&b"a"[..]), data: Buffer::from(&b"d"[..]) };
    let blob = tpm
        .create(
            Handle(0x8000_0000),
            b"parent",
            &sensitive,
            &Public::sealed_data(Alg::SHA256()),
            &mut Auth::Password(b""),
        )
        .unwrap();
    assert_eq!(blob.private.as_slice(), b"PRIV");
    assert_eq!(blob.public.as_slice(), b"PUB");
    let obj = tpm
        .load(Handle(0x8000_0000), b"parent", &blob.private, &blob.public, &mut Auth::Password(b""))
        .unwrap();
    assert_eq!(obj.handle, Handle(0x8000_0002));
    assert_eq!(obj.name.as_slice(), b"OBJNAME");
    let digest = [0xABu8; 32];
    tpm.pcr_extend(16, &[(Alg::SHA256(), &digest[..])], &mut Auth::Password(b"")).unwrap();

    let sent = tpm.into_transport().sent;
    // Load parameters: the two blobs as TPM2Bs.
    assert_eq!(&sent[1][sent[1].len() - 11..], &[0, 4, b'P', b'R', b'I', b'V', 0, 3, b'P', b'U', b'B']);
    // PCR_Extend: PCR 16 handle, then one TPMT_HA.
    let ext = &sent[2];
    assert_eq!(&ext[6..14], &[0, 0, 0x01, 0x82, 0, 0, 0, 16]);
    assert_eq!(&ext[ext.len() - 38..ext.len() - 32], &[0, 0, 0, 1, 0, 0x0B]);
    assert_eq!(&ext[ext.len() - 32..], &digest);
    // Create parameters end with an empty outsideInfo and an empty creationPCR.
    assert_eq!(&sent[0][sent[0].len() - 6..], &[0, 0, 0, 0, 0, 0]);
}
