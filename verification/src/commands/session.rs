//! Session lifecycle: start an authorization session, flush a handle.
use vstd::prelude::*;

use crate::crypto::{self, hash_alg_supported, os_random_bytes};
use crate::error::{Error, Result};
use crate::marshal::{Marshal, Reader, be16, be32, marshal_tpm2b, parse_tpm2b, tpm2b};
use crate::session::{Session, SessionView};
use crate::tpm::{Auth, Exchange, Tpm, appended, command_frame, error_is, plain_result};
use crate::transport::Transport;
use crate::types::attributes::SessionAttributes;
use crate::types::constants::{Alg, cc, digest_len, rh, se};
use crate::types::handles::Handle;
use crate::types::structures::SymDefObject;

verus! {

/// The parameter area of an unsalted, unbound HMAC `StartAuthSession`:
/// `nonceCaller`, an empty `encryptedSalt`, session type HMAC, symmetric
/// `TPM_ALG_NULL`, and the session hash.
pub open spec fn start_session_params(hash_alg: Alg, nonce_caller: Seq<u8>) -> Seq<u8> {
    tpm2b(nonce_caller) + be16(0) + seq![0x00u8] + be16(0x0010) + be16(hash_alg.0)
}

/// The `StartAuthSession` frame: handles `tpmKey = TPM_RH_NULL` (unsalted)
/// and `bind = TPM_RH_NULL` (unbound), no authorization.
pub open spec fn start_session_frame(hash_alg: Alg, nonce_caller: Seq<u8>) -> Seq<u8> {
    command_frame(
        cc::START_AUTH_SESSION,
        seq![Handle(rh::NULL), Handle(rh::NULL)],
        None,
        start_session_params(hash_alg, nonce_caller),
    )
}

/// What a `StartAuthSession` exchange with `reply` yields: the session whose
/// handle the TPM returned, seeded with the returned `nonceTPM`, the caller's
/// nonce, `continueSession`, and an empty key (unsalted and unbound). A hash
/// this crate cannot compute is a usage error once the reply is in.
pub open spec fn start_session_outcome(
    hash_alg: Alg,
    nonce_caller: Seq<u8>,
    reply: Result<Seq<u8>>,
    res: Result<Session>,
) -> bool {
    match plain_result(cc::START_AUTH_SESSION, reply, 1) {
        Ok(p) => match parse_tpm2b(p.params) {
            Some((nonce_tpm, _)) => if hash_alg_supported(hash_alg) {
                res matches Ok(s) && s@ == (SessionView {
                    handle: p.handles[0],
                    hash_alg,
                    attributes: SessionAttributes(0x01),
                    key: Seq::empty(),
                    nonce_tpm,
                    nonce_caller,
                    bound_name: Seq::empty(),
                })
            } else {
                res matches Err(e) && e is Usage
            },
            None => res matches Err(e) && e is Malformed,
        },
        Err(f) => res matches Err(e) && error_is(e, f),
    }
}

/// A session that `StartAuthSession` yields carries `continueSession`
/// (attributes `0x01`), so it survives across the commands it authorizes
/// until flushed; it is over the requested hash, keeps the caller's nonce,
/// and is unbound and unsalted: its key and bind name are empty.
pub proof fn lemma_started_session_continues(
    hash_alg: Alg,
    nonce_caller: Seq<u8>,
    reply: Result<Seq<u8>>,
    res: Result<Session>,
)
    requires
        start_session_outcome(hash_alg, nonce_caller, reply, res),
    ensures
        res matches Ok(s) ==> {
            &&& s@.attributes.0 == 0x01u8
            &&& s@.hash_alg == hash_alg
            &&& s@.nonce_caller == nonce_caller
            &&& s@.key.len() == 0
            &&& s@.bound_name.len() == 0
        },
{
}

impl<T: Transport> Tpm<T> {
    /// `TPM2_StartAuthSession`: start an unsalted, unbound HMAC session over
    /// `hash_alg`, with no parameter-encryption cipher.
    ///
    /// `nonce_caller` seeds the rolling-nonce chain (the TPM wants at least 16
    /// bytes); [`Tpm::start_hmac_session`] generates one. The returned
    /// [`Session`] carries `continueSession` so it survives across commands
    /// until it is flushed. A nonce longer than a `TPM2B` holds is rejected
    /// before anything is sent.
    pub fn start_auth_session(&mut self, hash_alg: Alg, nonce_caller: Vec<u8>) -> (res: Result<
        Session,
    >)
        ensures
            nonce_caller@.len() > 0xFFFF ==> final(self).history() == old(self).history(),
            nonce_caller@.len() > 0xFFFF ==> (res matches Err(e) && e is Malformed),
            nonce_caller@.len() <= 0xFFFF ==> appended(
                old(self).history(),
                final(self).history(),
                start_session_frame(hash_alg, nonce_caller@),
            ),
            nonce_caller@.len() <= 0xFFFF ==> start_session_outcome(
                hash_alg,
                nonce_caller@,
                final(self).history().last().1,
                res,
            ),
            res matches Ok(s) ==> {
                &&& s@.attributes.0 == 0x01u8
                &&& s@.hash_alg == hash_alg
                &&& s@.nonce_caller == nonce_caller@
                &&& s@.key.len() == 0
                &&& s@.bound_name.len() == 0
            },
    {
        // Handle area: tpmKey (NULL = unsalted), bind (NULL = unbound).
        let handles: [Handle; 2] = [Handle(rh::NULL), Handle(rh::NULL)];

        let mut p: Vec<u8> = Vec::new();
        match marshal_tpm2b(nonce_caller.as_slice(), &mut p) {
            Ok(()) => {},
            Err(e) => return Err(e),
        }  // nonceCaller
        let empty: [u8; 0] = [];
        match marshal_tpm2b(empty.as_slice(), &mut p) {
            Ok(()) => {},
            Err(e) => return Err(e),
        }  // encryptedSalt (none)
        p.push(se::HMAC);  // sessionType
        SymDefObject::null().marshal(&mut p);  // symmetric = TPM_ALG_NULL
        hash_alg.marshal(&mut p);  // authHash
        let names: [&[u8]; 0] = [];
        let mut auth = Auth::NoAuth;
        proof {
            assert(p@ =~= start_session_params(hash_alg, nonce_caller@));
            assert(handles@ =~= seq![Handle(rh::NULL), Handle(rh::NULL)]);
        }
        let resp = match self.run(
            cc::START_AUTH_SESSION,
            handles.as_slice(),
            names.as_slice(),
            p.as_slice(),
            &mut auth,
            1,
        ) {
            Ok(r) => r,
            Err(e) => return Err(e),
        };
        let session_handle = resp.handles[0];
        let mut r = Reader::new(resp.params.as_slice());
        let nonce_tpm = match r.tpm2b() {
            Ok(n) => vstd::slice::slice_to_vec(n),
            Err(e) => return Err(e),
        };
        let no_bytes: [u8; 0] = [];
        assert(no_bytes@ =~= Seq::<u8>::empty());
        Session::new(
            session_handle,
            hash_alg,
            nonce_tpm,
            nonce_caller,
            SessionAttributes::continue_session(),
            no_bytes.as_slice(),
            no_bytes.as_slice(),
            no_bytes.as_slice(),
        )
    }

    /// Like [`start_auth_session`](Tpm::start_auth_session), but draws the
    /// initial `nonceCaller` (one digest long) from the operating system's
    /// CSPRNG. A hash this crate cannot compute is a usage error, and nothing
    /// is sent.
    pub fn start_hmac_session(&mut self, hash_alg: Alg) -> (res: Result<Session>)
        ensures
            !hash_alg_supported(hash_alg) ==> final(self).history() == old(self).history(),
            !hash_alg_supported(hash_alg) ==> (res matches Err(e) && e is Usage),
            hash_alg_supported(hash_alg) ==> exists|nonce: Seq<u8>|
                {
                    &&& nonce.len() == digest_len(hash_alg)
                    &&& appended(
                        old(self).history(),
                        final(self).history(),
                        start_session_frame(hash_alg, nonce),
                    )
                    &&& start_session_outcome(
                        hash_alg,
                        nonce,
                        final(self).history().last().1,
                        res,
                    )
                },
            res matches Ok(s) ==> {
                &&& s@.attributes.0 == 0x01u8
                &&& s@.hash_alg == hash_alg
                &&& s@.nonce_caller.len() == digest_len(hash_alg)
                &&& s@.key.len() == 0
                &&& s@.bound_name.len() == 0
            },
    {
        let n = match crypto::digest_size(hash_alg) {
            Ok(n) => n,
            Err(e) => return Err(e),
        };
        let nonce = os_random_bytes(n);
        let ghost nv = nonce@;
        let res = self.start_auth_session(hash_alg, nonce);
        assert(nv.len() == digest_len(hash_alg));
        res
    }

    /// `TPM2_FlushContext`: evict a transient object or session handle from
    /// TPM memory. `flushHandle` is a parameter, so no authorization is needed.
    pub fn flush_context(&mut self, handle: Handle) -> (res: Result<()>)
        ensures
            appended(
                old(self).history(),
                final(self).history(),
                command_frame(cc::FLUSH_CONTEXT, Seq::empty(), None, be32(handle.0)),
            ),
            match plain_result(cc::FLUSH_CONTEXT, final(self).history().last().1, 0) {
                Ok(_) => res is Ok,
                Err(f) => res matches Err(e) && error_is(e, f),
            },
    {
        let mut p: Vec<u8> = Vec::new();
        handle.marshal(&mut p);
        let handles: [Handle; 0] = [];
        let names: [&[u8]; 0] = [];
        let mut auth = Auth::NoAuth;
        match self.run(cc::FLUSH_CONTEXT, handles.as_slice(), names.as_slice(), p.as_slice(), &mut auth, 0) {
            Ok(_) => Ok(()),
            Err(e) => Err(e),
        }
    }
}

} // verus!
