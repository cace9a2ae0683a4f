//! Authorization sessions.
//!
//! Every TPM command that touches a protected object carries an authorization
//! area. The simplest entry is a password (`TPM_RS_PW`): the auth value in
//! the clear. An HMAC session instead proves knowledge of the auth value
//! without sending it, and binds each use to the exact command via a rolling
//! pair of nonces. The HMAC computation follows Part 1, §19.6:
//!
//! ```text
//! cpHash   = H(commandCode || Names(handles) || parameters)
//! rpHash   = H(responseCode || commandCode  || parameters)
//! authHMAC = HMAC(sessionKey || authValue, pHash || nonceNewer || nonceOlder || attributes)
//! ```
//!
//! with `nonceNewer/nonceOlder` = `nonceCaller/nonceTPM` for a command and the
//! reverse for the response. The `sessionKey` is fixed at session start by
//! KDFa over the bind entity's auth value and the salt (both empty for an
//! unsalted, unbound session, giving an empty `sessionKey`).
use vstd::prelude::*;

use crate::crypto::{self, hash_alg_supported, hmac_of, kdfa_spec, os_random_bytes};
use crate::error::{Error, Result};
use crate::marshal::{Marshal, be32};
use crate::types::attributes::SessionAttributes;
use crate::types::constants::{Alg, alg_digest_size, digest_len};
use crate::types::handles::Handle;

verus! {

/// The Name of a permanent/PCR handle (one with no public area) is just the
/// 4-byte handle value. Object handles use the Name returned at load time.
pub fn permanent_name(handle: Handle) -> (name: Vec<u8>)
    ensures
        name@ == be32(handle.0),
{
    handle.raw().to_bytes()
}

/// The KDFa label of a session key: `"ATH"`.
pub open spec fn ath_label() -> Seq<u8> {
    seq![0x41u8, 0x54u8, 0x48u8]
}

/// The session key of a session over `alg` that starts from `nonce_tpm` and
/// `nonce_caller`: empty when both the bind auth and the salt are empty,
/// otherwise `KDFa(alg, bindAuth || salt, "ATH", nonceTPM, nonceCaller,
/// digestBits)`.
pub open spec fn session_key_for(
    alg: Alg,
    bind_auth: Seq<u8>,
    salt: Seq<u8>,
    nonce_tpm: Seq<u8>,
    nonce_caller: Seq<u8>,
) -> Seq<u8> {
    if bind_auth.len() == 0 && salt.len() == 0 {
        Seq::empty()
    } else {
        kdfa_spec(
            alg,
            bind_auth + salt,
            ath_label(),
            nonce_tpm,
            nonce_caller,
            (alg_digest_size(alg.0).unwrap() * 8) as u32,
        )
    }
}

/// The HMAC key for authorizing the object named `object_name` with auth
/// value `auth_value`: `sessionKey || authValue`, dropping `authValue` when
/// the object is the session's (non-empty) bind entity.
pub open spec fn hmac_key_for(
    session_key: Seq<u8>,
    bound_name: Seq<u8>,
    auth_value: Seq<u8>,
    object_name: Seq<u8>,
) -> Seq<u8> {
    if bound_name.len() > 0 && bound_name == object_name {
        session_key
    } else {
        session_key + auth_value
    }
}

/// The HMAC key always starts with the whole session key. For an object
/// other than the session's bind entity it is the session key followed by
/// the object's auth value; for the bind entity it is the session key alone.
pub proof fn lemma_hmac_key_layout(
    session_key: Seq<u8>,
    bound_name: Seq<u8>,
    auth_value: Seq<u8>,
    object_name: Seq<u8>,
)
    ensures
        hmac_key_for(session_key, bound_name, auth_value, object_name).len() >= session_key.len(),
        hmac_key_for(session_key, bound_name, auth_value, object_name).subrange(
            0,
            session_key.len() as int,
        ) == session_key,
        (bound_name.len() == 0 || bound_name != object_name) ==> hmac_key_for(
            session_key,
            bound_name,
            auth_value,
            object_name,
        ) == session_key + auth_value,
        (bound_name.len() > 0 && bound_name == object_name) ==> hmac_key_for(
            session_key,
            bound_name,
            auth_value,
            object_name,
        ) == session_key,
{
    let k = hmac_key_for(session_key, bound_name, auth_value, object_name);
    assert(k.subrange(0, session_key.len() as int) =~= session_key);
}

/// A bound or salted session's key is KDFa over the session hash with
/// `bindAuth || salt` as key, the label `"ATH"`, `nonceTPM` then
/// `nonceCaller` as contexts, and a bit count of eight times the hash's
/// digest size; an unbound, unsalted session's key is empty.
pub proof fn lemma_session_key_derivation(
    alg: Alg,
    bind_auth: Seq<u8>,
    salt: Seq<u8>,
    nonce_tpm: Seq<u8>,
    nonce_caller: Seq<u8>,
)
    requires
        hash_alg_supported(alg),
    ensures
        (bind_auth.len() > 0 || salt.len() > 0) ==> session_key_for(
            alg,
            bind_auth,
            salt,
            nonce_tpm,
            nonce_caller,
        ) == kdfa_spec(
            alg,
            bind_auth + salt,
            seq![0x41u8, 0x54u8, 0x48u8],
            nonce_tpm,
            nonce_caller,
            (8 * digest_len(alg)) as u32,
        ),
        (bind_auth.len() == 0 && salt.len() == 0) ==> session_key_for(
            alg,
            bind_auth,
            salt,
            nonce_tpm,
            nonce_caller,
        ) == Seq::<u8>::empty(),
{
}

/// The command HMAC: `HMAC(key, cpHash || nonceCaller || nonceTPM || attributes)`.
pub open spec fn command_hmac(
    alg: Alg,
    key: Seq<u8>,
    cp_hash: Seq<u8>,
    nonce_caller: Seq<u8>,
    nonce_tpm: Seq<u8>,
    attributes: u8,
) -> Seq<u8> {
    hmac_of(alg, key, cp_hash + nonce_caller + nonce_tpm + seq![attributes])
}

/// The response HMAC: `HMAC(key, rpHash || nonceTPM || nonceCaller || attributes)`,
/// with the fresh `nonceTPM` of the response.
pub open spec fn response_hmac(
    alg: Alg,
    key: Seq<u8>,
    rp_hash: Seq<u8>,
    nonce_tpm: Seq<u8>,
    nonce_caller: Seq<u8>,
    attributes: u8,
) -> Seq<u8> {
    hmac_of(alg, key, rp_hash + nonce_tpm + nonce_caller + seq![attributes])
}

/// One established authorization session.
///
/// Hold onto it across commands (with `continueSession`) to reuse the
/// rolling-nonce chain; the TPM flushes a session without that attribute
/// after one use.
pub struct Session {
    /// The session handle returned by `TPM2_StartAuthSession`.
    pub handle: Handle,
    /// The session's hash algorithm (`authHash`).
    pub hash_alg: Alg,
    /// The session's attribute bits applied to each command.
    pub attributes: SessionAttributes,
    /// KDFa-derived session key (empty for an unsalted, unbound session).
    session_key: Vec<u8>,
    /// Latest `nonceTPM` (seeded from `StartAuthSession`, updated each reply).
    nonce_tpm: Vec<u8>,
    /// `nonceCaller` sent with the most recent command, kept to verify the
    /// matching response HMAC.
    nonce_caller: Vec<u8>,
    /// Name of the bind entity (empty if the session is unbound).
    bound_name: Vec<u8>,
}

/// A command authorization-area entry to be marshalled into a request.
pub struct AuthCommand {
    /// The authorizing session (or `TPM_RS_PW`).
    pub session_handle: Handle,
    /// `nonceCaller` (empty for a password authorization).
    pub nonce_caller: Vec<u8>,
    /// Session attributes for this command.
    pub attributes: SessionAttributes,
    /// The HMAC (or, for a password authorization, the auth value).
    pub hmac: Vec<u8>,
}

/// A response authorization-area entry parsed from a reply.
pub struct AuthResponse {
    /// The fresh `nonceTPM`.
    pub nonce_tpm: Vec<u8>,
    /// Session attributes echoed by the TPM.
    pub attributes: SessionAttributes,
    /// The response HMAC (empty for a password authorization).
    pub hmac: Vec<u8>,
}

/// Plain byte-string equality.
fn bytes_eq(a: &[u8], b: &[u8]) -> (r: bool)
    ensures
        r == (a@ == b@),
{
    if a.len() != b.len() {
        return false;
    }
    let mut i: usize = 0;
    while i < a.len()
        invariant
            i <= a@.len(),
            a@.len() == b@.len(),
            forall|j: int| 0 <= j < i ==> a@[j] == b@[j],
        decreases a@.len() - i,
    {
        if a[i] != b[i] {
            return false;
        }
        i = i + 1;
    }
    assert(a@ =~= b@);
    true
}

/// Turns a 0/1 flag into a `bool` through `purecrypto::ct::Choice`:
/// `bool::from(Choice::from(flag))`. Claims: the result is true exactly when
/// the flag is 1 (`Choice::from` maps a nonzero byte to 1 and `bool::from`
/// tests for nonzero). Debug builds of `Choice::from` assert that the byte is
/// 0 or 1, which `requires` demands.
#[verifier::external_body]
fn choice_to_bool(flag: u8) -> (b: bool)
    requires
        flag == 0 || flag == 1,
    ensures
        b == (flag == 1),
{
    bool::from(purecrypto::ct::Choice::from(flag))
}

/// Constant-time equality over equal-length byte strings: the XOR of every
/// pair of bytes is OR-ed together, and only the final verdict branches.
fn ct_eq(a: &[u8], b: &[u8]) -> (r: bool)
    requires
        a@.len() == b@.len(),
    ensures
        r == (a@ == b@),
{
    let mut diff: u8 = 0;
    let mut i: usize = 0;
    while i < a.len()
        invariant
            i <= a@.len(),
            a@.len() == b@.len(),
            (diff == 0) == (forall|j: int| 0 <= j < i ==> a@[j] == b@[j]),
        decreases a@.len() - i,
    {
        let x = a[i];
        let y = b[i];
        proof {
            let d = diff;
            assert((d | (x ^ y)) == 0 <==> (d == 0 && x == y)) by (bit_vector);
            if diff == 0 && x == y {
                assert forall|j: int| 0 <= j < i + 1 implies a@[j] == b@[j] by {
                    if j < i {
                    }
                }
            }
        }
        diff = diff | (x ^ y);
        i = i + 1;
    }
    let flag: u8 = if diff == 0 {
        1
    } else {
        0
    };
    let r = choice_to_bool(flag);
    proof {
        if r {
            assert(a@ =~= b@);
        }
    }
    r
}

/// What a [`Session`] holds, as values.
pub struct SessionView {
    /// The session handle.
    pub handle: Handle,
    /// The session's hash algorithm.
    pub hash_alg: Alg,
    /// The session's attribute bits.
    pub attributes: SessionAttributes,
    /// The session key.
    pub key: Seq<u8>,
    /// The latest `nonceTPM`.
    pub nonce_tpm: Seq<u8>,
    /// The `nonceCaller` of the most recent command.
    pub nonce_caller: Seq<u8>,
    /// The Name of the bind entity (empty if unbound).
    pub bound_name: Seq<u8>,
}

impl View for Session {
    type V = SessionView;

    closed spec fn view(&self) -> SessionView {
        SessionView {
            handle: self.handle,
            hash_alg: self.hash_alg,
            attributes: self.attributes,
            key: self.session_key@,
            nonce_tpm: self.nonce_tpm@,
            nonce_caller: self.nonce_caller@,
            bound_name: self.bound_name@,
        }
    }
}

impl Session {
    /// The session handle.
    pub fn handle(&self) -> (h: Handle)
        ensures
            h == self@.handle,
    {
        self.handle
    }

    /// The session's hash algorithm.
    pub fn hash_alg(&self) -> (a: Alg)
        ensures
            a == self@.hash_alg,
    {
        self.hash_alg
    }

    /// The session's attribute bits.
    pub fn attributes(&self) -> (a: SessionAttributes)
        ensures
            a == self@.attributes,
    {
        self.attributes
    }

    /// Builds a session from the pieces `TPM2_StartAuthSession` returns,
    /// deriving the `sessionKey` by KDFa over `bind_auth || salt`.
    ///
    /// * `bind_auth`: the bind entity's auth value, or empty if unbound.
    /// * `bind_name`: the bind entity's Name, or empty if unbound.
    /// * `salt`: the (decrypted) salt, or empty if unsalted.
    ///
    /// With everything empty this yields an unsalted, unbound session whose
    /// `sessionKey` is empty. A hash algorithm this crate cannot compute is a
    /// usage error.
    pub fn new(
        handle: Handle,
        hash_alg: Alg,
        nonce_tpm: Vec<u8>,
        nonce_caller: Vec<u8>,
        attributes: SessionAttributes,
        bind_auth: &[u8],
        bind_name: &[u8],
        salt: &[u8],
    ) -> (res: Result<Self>)
        ensures
            res is Ok <==> hash_alg_supported(hash_alg),
            res matches Err(e) ==> e is Usage,
            res matches Ok(s) ==> {
                &&& s@.handle == handle
                &&& s@.hash_alg == hash_alg
                &&& s@.attributes == attributes
                &&& s@.nonce_tpm == nonce_tpm@
                &&& s@.nonce_caller == nonce_caller@
                &&& s@.bound_name == bind_name@
                &&& s@.key == session_key_for(
                    hash_alg,
                    bind_auth@,
                    salt@,
                    nonce_tpm@,
                    nonce_caller@,
                )
            },
            res matches Ok(s) ==> (bind_auth@.len() > 0 || salt@.len() > 0) ==> {
                &&& s@.key == kdfa_spec(
                    hash_alg,
                    bind_auth@ + salt@,
                    seq![0x41u8, 0x54u8, 0x48u8],
                    nonce_tpm@,
                    nonce_caller@,
                    (8 * digest_len(hash_alg)) as u32,
                )
                &&& s@.key.len() == digest_len(hash_alg)
            },
            res matches Ok(s) ==> (bind_auth@.len() == 0 && salt@.len() == 0) ==> s@.key.len()
                == 0,
    {
        let size = match crypto::digest_size(hash_alg) {
            Ok(n) => n,
            Err(e) => return Err(e),
        };
        let bits = (size * 8) as u32;
        let session_key = if bind_auth.len() == 0 && salt.len() == 0 {
            Vec::new()
        } else {
            let mut key_in: Vec<u8> = Vec::new();
            key_in.extend_from_slice(bind_auth);
            key_in.extend_from_slice(salt);
            assert(key_in@ =~= bind_auth@ + salt@);
            let label: [u8; 3] = [0x41u8, 0x54u8, 0x48u8];
            assert(label@ =~= ath_label());
            match crypto::kdfa(
                hash_alg,
                key_in.as_slice(),
                label.as_slice(),
                nonce_tpm.as_slice(),
                nonce_caller.as_slice(),
                bits,
            ) {
                Ok(k) => k,
                Err(e) => return Err(e),
            }
        };
        proof {
            lemma_session_key_derivation(hash_alg, bind_auth@, salt@, nonce_tpm@, nonce_caller@);
        }
        let bound_name = vstd::slice::slice_to_vec(bind_name);
        Ok(Session {
            handle,
            hash_alg,
            attributes,
            session_key,
            nonce_tpm,
            nonce_caller,
            bound_name,
        })
    }

    /// The session key (empty for an unsalted, unbound session).
    pub fn session_key(&self) -> (k: &[u8])
        ensures
            k@ == self@.key,
    {
        self.session_key.as_slice()
    }

    /// The latest `nonceTPM`.
    pub fn nonce_tpm(&self) -> (n: &[u8])
        ensures
            n@ == self@.nonce_tpm,
    {
        self.nonce_tpm.as_slice()
    }

    /// The `nonceCaller` of the most recent command.
    pub fn nonce_caller(&self) -> (n: &[u8])
        ensures
            n@ == self@.nonce_caller,
    {
        self.nonce_caller.as_slice()
    }

    /// The HMAC key for authorizing an object with auth value `auth_value`:
    /// `sessionKey || authValue`, dropping `authValue` when the object is the
    /// session's bind entity (matched by `object_name`).
    pub fn hmac_key(&self, auth_value: &[u8], object_name: &[u8]) -> (k: Vec<u8>)
        ensures
            k@ == hmac_key_for(self@.key, self@.bound_name, auth_value@, object_name@),
            k@.len() >= self@.key.len(),
            k@.subrange(0, self@.key.len() as int) == self@.key,
            (self@.bound_name.len() == 0 || self@.bound_name != object_name@) ==> k@ == self@.key
                + auth_value@,
            (self@.bound_name.len() > 0 && self@.bound_name == object_name@) ==> k@ == self@.key,
    {
        let bound = self.bound_name.len() > 0 && bytes_eq(
            self.bound_name.as_slice(),
            object_name,
        );
        let mut k = vstd::slice::slice_to_vec(self.session_key.as_slice());
        if !bound {
            k.extend_from_slice(auth_value);
        }
        assert(!bound ==> k@ =~= self@.key + auth_value@);
        proof {
            lemma_hmac_key_layout(self@.key, self@.bound_name, auth_value@, object_name@);
        }
        k
    }

    /// Produces the command authorization entry for a command whose `cpHash`
    /// is given, authorizing object `object_name` with `auth_value`.
    ///
    /// `nonce_caller` is recorded for response verification (even when the
    /// session's hash algorithm turns out to be unsupported).
    pub fn command_auth(
        &mut self,
        cp_hash: &[u8],
        auth_value: &[u8],
        object_name: &[u8],
        nonce_caller: Vec<u8>,
    ) -> (res: Result<AuthCommand>)
        ensures
            final(self)@.nonce_caller == nonce_caller@,
            final(self)@.handle == old(self)@.handle,
            final(self)@.hash_alg == old(self)@.hash_alg,
            final(self)@.attributes == old(self)@.attributes,
            final(self)@.key == old(self)@.key,
            final(self)@.nonce_tpm == old(self)@.nonce_tpm,
            final(self)@.bound_name == old(self)@.bound_name,
            res is Ok <==> hash_alg_supported(old(self)@.hash_alg),
            res matches Err(e) ==> e is Usage,
            res matches Ok(ac) ==> {
                &&& ac.session_handle == old(self)@.handle
                &&& ac.nonce_caller@ == nonce_caller@
                &&& ac.attributes == old(self)@.attributes
                &&& ac.hmac@ == command_hmac(
                    old(self)@.hash_alg,
                    hmac_key_for(old(self)@.key, old(self)@.bound_name, auth_value@, object_name@),
                    cp_hash@,
                    nonce_caller@,
                    old(self)@.nonce_tpm,
                    old(self)@.attributes.0,
                )
                &&& ac.hmac@.len() == digest_len(old(self)@.hash_alg)
            },
            res matches Ok(ac) ==> (old(self)@.bound_name.len() == 0 || old(self)@.bound_name
                != object_name@) ==> ac.hmac@ == hmac_of(
                old(self)@.hash_alg,
                old(self)@.key + auth_value@,
                cp_hash@ + nonce_caller@ + old(self)@.nonce_tpm + seq![old(self)@.attributes.0],
            ),
    {
        self.nonce_caller = nonce_caller;
        let key = self.hmac_key(auth_value, object_name);
        let mut data: Vec<u8> = Vec::new();
        data.extend_from_slice(cp_hash);
        data.extend_from_slice(self.nonce_caller.as_slice());
        data.extend_from_slice(self.nonce_tpm.as_slice());
        data.push(self.attributes.0);
        assert(data@ =~= cp_hash@ + self.nonce_caller@ + self.nonce_tpm@ + seq![self.attributes.0]);
        let hmac = match crypto::hmac(self.hash_alg, key.as_slice(), data.as_slice()) {
            Ok(t) => t,
            Err(e) => return Err(e),
        };
        Ok(AuthCommand {
            session_handle: self.handle,
            nonce_caller: vstd::slice::slice_to_vec(self.nonce_caller.as_slice()),
            attributes: self.attributes,
            hmac,
        })
    }

    /// Verifies a response authorization entry against `rp_hash` and absorbs
    /// the new `nonceTPM`. Returns [`Error::Protocol`] on HMAC mismatch, and
    /// leaves the session unchanged on any failure.
    pub fn verify_response(
        &mut self,
        rp_hash: &[u8],
        auth_value: &[u8],
        object_name: &[u8],
        resp: &AuthResponse,
    ) -> (res: Result<()>)
        ensures
            ({
                let expected = response_hmac(
                    old(self)@.hash_alg,
                    hmac_key_for(old(self)@.key, old(self)@.bound_name, auth_value@, object_name@),
                    rp_hash@,
                    resp.nonce_tpm@,
                    old(self)@.nonce_caller,
                    resp.attributes.0,
                );
                &&& res is Ok <==> hash_alg_supported(old(self)@.hash_alg) && expected == resp.hmac@
                &&& res matches Err(e) ==> (if hash_alg_supported(old(self)@.hash_alg) {
                    e is Protocol
                } else {
                    e is Usage
                })
            }),
            final(self)@.handle == old(self)@.handle,
            final(self)@.hash_alg == old(self)@.hash_alg,
            final(self)@.attributes == old(self)@.attributes,
            final(self)@.key == old(self)@.key,
            final(self)@.nonce_caller == old(self)@.nonce_caller,
            final(self)@.bound_name == old(self)@.bound_name,
            final(self)@.nonce_tpm == (if res is Ok {
                resp.nonce_tpm@
            } else {
                old(self)@.nonce_tpm
            }),
    {
        let key = self.hmac_key(auth_value, object_name);
        let mut data: Vec<u8> = Vec::new();
        data.extend_from_slice(rp_hash);
        data.extend_from_slice(resp.nonce_tpm.as_slice());
        data.extend_from_slice(self.nonce_caller.as_slice());
        data.push(resp.attributes.0);
        assert(data@ =~= rp_hash@ + resp.nonce_tpm@ + self.nonce_caller@ + seq![
            resp.attributes.0,
        ]);
        let expected = match crypto::hmac(self.hash_alg, key.as_slice(), data.as_slice()) {
            Ok(t) => t,
            Err(e) => return Err(e),
        };
        // Constant-time comparison; lengths must match too.
        if expected.len() != resp.hmac.len() || !ct_eq(expected.as_slice(), resp.hmac.as_slice()) {
            return Err(Error::Protocol("response HMAC verification failed".to_owned()));
        }
        self.nonce_tpm = vstd::slice::slice_to_vec(resp.nonce_tpm.as_slice());
        Ok(())
    }

    /// A fresh `nonceCaller` of the session hash's digest length, drawn from
    /// the operating system's CSPRNG.
    pub fn fresh_nonce(&self) -> (res: Result<Vec<u8>>)
        ensures
            res is Ok <==> hash_alg_supported(self@.hash_alg),
            res matches Ok(n) ==> n@.len() == digest_len(self@.hash_alg),
            res matches Err(e) ==> e is Usage,
    {
        let n = match crypto::digest_size(self.hash_alg) {
            Ok(n) => n,
            Err(e) => return Err(e),
        };
        Ok(os_random_bytes(n))
    }
}

} // verus!
