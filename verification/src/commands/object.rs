//! The object lifecycle: create a primary, create a child, load it, unseal it.
//!
//! Together these implement the canonical sealing flow: create a restricted
//! storage parent under a hierarchy, `Create` a sealed-data object under that
//! parent, `Load` it back, then `Unseal` to recover the secret, each step
//! authorized by a password or HMAC session.
use vstd::prelude::*;

use crate::commands::{CreatePrimaryResult, CreateResult, LoadResult};
use crate::crypto::views;
use crate::error::{Error, Result};
use crate::marshal::{Marshal, Reader, be16, be32, marshal_tpm2b, parse_tpm2b, tpm2b};
use crate::session::permanent_name;
use crate::tpm::{
    Auth, Failure, ParsedReply, Tpm, appended, auth_area, auth_evolved, auth_sendable,
    command_frame, error_is, run_result,
};
use crate::transport::Transport;
use crate::types::constants::cc;
use crate::types::handles::Handle;
use crate::types::structures::{
    Buffer, PcrSelectionList, Public, SensitiveCreate, parse_tk_creation, skip_tk_creation,
    tpm2b_or_nothing,
};

verus! {

/// The shared parameter area of `Create`/`CreatePrimary`:
/// `inSensitive || inPublic || outsideInfo(empty) || creationPCR(empty)`.
pub open spec fn create_params_bytes(sensitive: SensitiveCreate, public: Public) -> Seq<u8> {
    tpm2b_or_nothing(sensitive.inner_encoding()) + tpm2b_or_nothing(public.encoding()) + be16(0)
        + be32(0)
}

/// The `Create`/`CreatePrimary` parameter area, field by field: first the
/// `TPM2B_SENSITIVE_CREATE` (the new object's auth value then its data),
/// then the `TPM2B_PUBLIC` template, then an empty `outsideInfo` (`00 00`)
/// and an empty `creationPCR` list (`00 00 00 00`).
pub proof fn lemma_create_params_layout(sensitive: SensitiveCreate, public: Public)
    requires
        (sensitive.user_auth.encoding() + sensitive.data.encoding()).len() <= 0xFFFF,
        public.encoding().len() <= 0xFFFF,
    ensures
        create_params_bytes(sensitive, public) == tpm2b(
            sensitive.user_auth.encoding() + sensitive.data.encoding(),
        ) + tpm2b(public.encoding()) + seq![0u8, 0u8] + seq![0u8, 0u8, 0u8, 0u8],
{
    crate::marshal::lemma_be16_round_trip(0, Seq::empty());
    assert(be16(0) =~= seq![0u8, 0u8]);
    assert(be32(0) =~= seq![0u8, 0u8, 0u8, 0u8]);
}

/// A `CreatePrimary` reply's parameters: `outPublic`, `creationData`,
/// `creationHash`, `creationTicket` and `name`; the public area and the Name
/// are kept.
pub open spec fn parse_create_primary(params: Seq<u8>) -> Option<(Seq<u8>, Seq<u8>)> {
    match parse_tpm2b(params) {
        None => None,
        Some((public, n1)) => match parse_tpm2b(params.skip(n1)) {
            None => None,
            Some((_, n2)) => match parse_tpm2b(params.skip(n1 + n2)) {
                None => None,
                Some((_, n3)) => match parse_tk_creation(params.skip(n1 + n2 + n3)) {
                    None => None,
                    Some(n4) => match parse_tpm2b(params.skip(n1 + n2 + n3 + n4)) {
                        None => None,
                        Some((name, _)) => Some((public, name)),
                    },
                },
            },
        },
    }
}

/// A `Create` reply's parameters: `outPrivate`, then `outPublic`.
pub open spec fn parse_create(params: Seq<u8>) -> Option<(Seq<u8>, Seq<u8>)> {
    match parse_tpm2b(params) {
        None => None,
        Some((private, n1)) => match parse_tpm2b(params.skip(n1)) {
            None => None,
            Some((public, _)) => Some((private, public)),
        },
    }
}

/// The shared parameter prefix of `Create`/`CreatePrimary`.
fn create_params(sensitive: &SensitiveCreate, public: &Public) -> (p: Vec<u8>)
    ensures
        p@ == create_params_bytes(*sensitive, *public),
        p@.len() <= 0x2_0010,
        ((sensitive.user_auth.encoding() + sensitive.data.encoding()).len() <= 0xFFFF
            && public.encoding().len() <= 0xFFFF) ==> p@ == tpm2b(
            sensitive.user_auth.encoding() + sensitive.data.encoding(),
        ) + tpm2b(public.encoding()) + seq![0u8, 0u8] + seq![0u8, 0u8, 0u8, 0u8],
{
    let mut p: Vec<u8> = Vec::new();
    sensitive.wrap_2b(&mut p);  // TPM2B_SENSITIVE_CREATE
    public.wrap_2b(&mut p);  // TPM2B_PUBLIC
    let empty: [u8; 0] = [];
    let _ = marshal_tpm2b(empty.as_slice(), &mut p);  // outsideInfo: empty TPM2B_DATA
    let none = PcrSelectionList(Vec::new());
    none.marshal(&mut p);  // creationPCR: count 0
    proof {
        let e: Seq<(crate::types::constants::Alg, Seq<u8>)> = Seq::empty();
        assert(none@ =~= e);
        assert(p@ =~= create_params_bytes(*sensitive, *public));
        if (sensitive.user_auth.encoding() + sensitive.data.encoding()).len() <= 0xFFFF
            && public.encoding().len() <= 0xFFFF {
            lemma_create_params_layout(*sensitive, *public);
        }
    }
    p
}

impl<T: Transport> Tpm<T> {
    /// `TPM2_CreatePrimary`: create and load a primary object directly under
    /// `hierarchy` (e.g. [`rh::OWNER`](crate::types::constants::rh::OWNER)).
    ///
    /// `sensitive` carries the new object's auth value (and, for sealed data,
    /// the data to seal); `public` is the object template. `auth` authorizes
    /// the hierarchy, whose Name is its handle.
    #[verifier::spinoff_prover]
    #[verifier::rlimit(40)]
    pub fn create_primary(
        &mut self,
        hierarchy: Handle,
        sensitive: &SensitiveCreate,
        public: &Public,
        auth: &mut Auth<'_>,
    ) -> (res: Result<CreatePrimaryResult>)
        ensures
            ({
                let p = create_params_bytes(*sensitive, *public);
                let names = seq![be32(hierarchy.0)];
                let r = run_result(
                    *final(auth),
                    cc::CREATE_PRIMARY,
                    names,
                    final(self).history().last().1,
                    1,
                );
                &&& auth_sendable(*old(auth)) ==> appended(
                    old(self).history(),
                    final(self).history(),
                    command_frame(
                        cc::CREATE_PRIMARY,
                        seq![hierarchy],
                        auth_area(*old(auth), *final(auth), cc::CREATE_PRIMARY, names, p),
                        p,
                    ),
                )
                &&& !auth_sendable(*old(auth)) ==> final(self).history() == old(self).history()
                    && (res matches Err(e) && e is Usage)
                &&& auth_sendable(*old(auth)) ==> match r {
                    Ok(reply) => match parse_create_primary(reply.params) {
                        Some((pub_area, name)) => res matches Ok(c) && c.handle == reply.handles[0]
                            && c.public@ == pub_area && c.name@ == name,
                        None => res matches Err(e) && e is Malformed,
                    },
                    Err(f) => res matches Err(e) && error_is(e, f),
                }
                &&& auth_evolved(*old(auth), *final(auth), auth_sendable(*old(auth)), r)
            }),
            *old(auth) matches Auth::Session { session: s0, auth_value: _ } ==> *final(auth) matches Auth::Session { session: s1, auth_value: _ } && *final(s1) == *final(s0),
            ((sensitive.user_auth.encoding() + sensitive.data.encoding()).len() <= 0xFFFF
                && public.encoding().len() <= 0xFFFF) ==> create_params_bytes(*sensitive, *public)
                == tpm2b(sensitive.user_auth.encoding() + sensitive.data.encoding()) + tpm2b(
                public.encoding(),
            ) + seq![0u8, 0u8] + seq![0u8, 0u8, 0u8, 0u8],
    {
        let p = create_params(sensitive, public);
        let name = permanent_name(hierarchy);
        let handles: [Handle; 1] = [hierarchy];
        let names: [&[u8]; 1] = [name.as_slice()];
        proof {
            assert(views(names@) =~= seq![be32(hierarchy.0)]);
            assert(handles@ =~= seq![hierarchy]);
        }
        let resp = match self.run(
            cc::CREATE_PRIMARY,
            handles.as_slice(),
            names.as_slice(),
            p.as_slice(),
            auth,
            1,
        ) {
            Ok(r) => r,
            Err(e) => return Err(e),
        };
        let handle = resp.handles[0];
        let ghost params = resp.params@;
        let mut r = Reader::new(resp.params.as_slice());
        let out_public = match r.tpm2b() {
            Ok(d) => Buffer(vstd::slice::slice_to_vec(d)),
            Err(e) => return Err(e),
        };  // outPublic
        let ghost r1 = r.rest();
        match r.tpm2b() {
            Ok(_) => {},
            Err(e) => return Err(e),
        }  // creationData
        let ghost r2 = r.rest();
        match r.tpm2b() {
            Ok(_) => {},
            Err(e) => return Err(e),
        }  // creationHash
        let ghost r3 = r.rest();
        match skip_tk_creation(&mut r) {
            Ok(()) => {},
            Err(e) => return Err(e),
        }  // creationTicket
        let obj_name = match r.tpm2b() {
            Ok(d) => Buffer(vstd::slice::slice_to_vec(d)),
            Err(e) => return Err(e),
        };  // name
        proof {
            let (_, n1) = parse_tpm2b(params).unwrap();
            assert(r1 == params.skip(n1));
            let (_, n2) = parse_tpm2b(r1).unwrap();
            assert(r2 =~= params.skip(n1 + n2));
            let (_, n3) = parse_tpm2b(r2).unwrap();
            assert(r3 =~= params.skip(n1 + n2 + n3));
            let n4 = parse_tk_creation(r3).unwrap();
            assert(r3.skip(n4) =~= params.skip(n1 + n2 + n3 + n4));
        }
        Ok(CreatePrimaryResult { handle, name: obj_name, public: out_public })
    }

    /// `TPM2_Create`: create a child object under loaded parent `parent`
    /// (authorized via `auth` with the parent's Name `parent_name`).
    ///
    /// Returns the wrapped private blob and public area to feed to
    /// [`load`](Tpm::load).
    pub fn create(
        &mut self,
        parent: Handle,
        parent_name: &[u8],
        sensitive: &SensitiveCreate,
        public: &Public,
        auth: &mut Auth<'_>,
    ) -> (res: Result<CreateResult>)
        ensures
            ({
                let p = create_params_bytes(*sensitive, *public);
                let names = seq![parent_name@];
                let r = run_result(*final(auth), cc::CREATE, names, final(self).history().last().1, 0);
                &&& auth_sendable(*old(auth)) ==> appended(
                    old(self).history(),
                    final(self).history(),
                    command_frame(
                        cc::CREATE,
                        seq![parent],
                        auth_area(*old(auth), *final(auth), cc::CREATE, names, p),
                        p,
                    ),
                )
                &&& !auth_sendable(*old(auth)) ==> final(self).history() == old(self).history()
                    && (res matches Err(e) && e is Usage)
                &&& auth_sendable(*old(auth)) ==> match r {
                    Ok(reply) => match parse_create(reply.params) {
                        Some((private, pub_area)) => res matches Ok(c) && c.private@ == private
                            && c.public@ == pub_area,
                        None => res matches Err(e) && e is Malformed,
                    },
                    Err(f) => res matches Err(e) && error_is(e, f),
                }
                &&& auth_evolved(*old(auth), *final(auth), auth_sendable(*old(auth)), r)
            }),
            *old(auth) matches Auth::Session { session: s0, auth_value: _ } ==> *final(auth) matches Auth::Session { session: s1, auth_value: _ } && *final(s1) == *final(s0),
            ((sensitive.user_auth.encoding() + sensitive.data.encoding()).len() <= 0xFFFF
                && public.encoding().len() <= 0xFFFF) ==> create_params_bytes(*sensitive, *public)
                == tpm2b(sensitive.user_auth.encoding() + sensitive.data.encoding()) + tpm2b(
                public.encoding(),
            ) + seq![0u8, 0u8] + seq![0u8, 0u8, 0u8, 0u8],
    {
        let p = create_params(sensitive, public);
        let handles: [Handle; 1] = [parent];
        let names: [&[u8]; 1] = [parent_name];
        proof {
            assert(views(names@) =~= seq![parent_name@]);
            assert(handles@ =~= seq![parent]);
        }
        let resp = match self.run(cc::CREATE, handles.as_slice(), names.as_slice(), p.as_slice(), auth, 0) {
            Ok(r) => r,
            Err(e) => return Err(e),
        };
        let ghost params = resp.params@;
        let mut r = Reader::new(resp.params.as_slice());
        let private = match r.tpm2b() {
            Ok(d) => Buffer(vstd::slice::slice_to_vec(d)),
            Err(e) => return Err(e),
        };  // outPrivate
        let public = match r.tpm2b() {
            Ok(d) => Buffer(vstd::slice::slice_to_vec(d)),
            Err(e) => return Err(e),
        };  // outPublic
        Ok(CreateResult { private, public })
    }

    /// `TPM2_Load`: load a child object created by [`create`](Tpm::create)
    /// back under its parent, returning its transient handle and Name.
    ///
    /// `in_private` / `in_public` are the [`CreateResult`] buffers; `auth`
    /// authorizes the parent.
    pub fn load(
        &mut self,
        parent: Handle,
        parent_name: &[u8],
        in_private: &Buffer,
        in_public: &Buffer,
        auth: &mut Auth<'_>,
    ) -> (res: Result<LoadResult>)
        ensures
            ({
                let p = in_private.encoding() + in_public.encoding();
                let names = seq![parent_name@];
                let r = run_result(*final(auth), cc::LOAD, names, final(self).history().last().1, 1);
                &&& auth_sendable(*old(auth)) ==> appended(
                    old(self).history(),
                    final(self).history(),
                    command_frame(
                        cc::LOAD,
                        seq![parent],
                        auth_area(*old(auth), *final(auth), cc::LOAD, names, p),
                        p,
                    ),
                )
                &&& !auth_sendable(*old(auth)) ==> final(self).history() == old(self).history()
                    && (res matches Err(e) && e is Usage)
                &&& auth_sendable(*old(auth)) ==> match r {
                    Ok(reply) => match parse_tpm2b(reply.params) {
                        Some((name, _)) => res matches Ok(l) && l.handle == reply.handles[0]
                            && l.name@ == name,
                        None => res matches Err(e) && e is Malformed,
                    },
                    Err(f) => res matches Err(e) && error_is(e, f),
                }
                &&& auth_evolved(*old(auth), *final(auth), auth_sendable(*old(auth)), r)
            }),
            *old(auth) matches Auth::Session { session: s0, auth_value: _ } ==> *final(auth) matches Auth::Session { session: s1, auth_value: _ } && *final(s1) == *final(s0),
    {
        let mut p: Vec<u8> = Vec::new();
        in_private.marshal(&mut p);  // TPM2B_PRIVATE
        in_public.marshal(&mut p);  // TPM2B_PUBLIC
        let handles: [Handle; 1] = [parent];
        let names: [&[u8]; 1] = [parent_name];
        proof {
            assert(views(names@) =~= seq![parent_name@]);
            assert(handles@ =~= seq![parent]);
        }
        let resp = match self.run(cc::LOAD, handles.as_slice(), names.as_slice(), p.as_slice(), auth, 1) {
            Ok(r) => r,
            Err(e) => return Err(e),
        };
        let handle = resp.handles[0];
        let mut r = Reader::new(resp.params.as_slice());
        let name = match r.tpm2b() {
            Ok(d) => Buffer(vstd::slice::slice_to_vec(d)),
            Err(e) => return Err(e),
        };
        Ok(LoadResult { handle, name })
    }

    /// `TPM2_Unseal`: recover the sensitive data of a loaded sealed object
    /// `item` (authorized via `auth` with the item's Name `item_name`).
    pub fn unseal(&mut self, item: Handle, item_name: &[u8], auth: &mut Auth<'_>) -> (res: Result<
        Vec<u8>,
    >)
        ensures
            ({
                let names = seq![item_name@];
                let r = run_result(*final(auth), cc::UNSEAL, names, final(self).history().last().1, 0);
                &&& auth_sendable(*old(auth)) ==> appended(
                    old(self).history(),
                    final(self).history(),
                    command_frame(
                        cc::UNSEAL,
                        seq![item],
                        auth_area(*old(auth), *final(auth), cc::UNSEAL, names, Seq::empty()),
                        Seq::empty(),
                    ),
                )
                &&& !auth_sendable(*old(auth)) ==> final(self).history() == old(self).history()
                    && (res matches Err(e) && e is Usage)
                &&& auth_sendable(*old(auth)) ==> match r {
                    Ok(reply) => match parse_tpm2b(reply.params) {
                        Some((data, _)) => res matches Ok(v) && v@ == data,
                        None => res matches Err(e) && e is Malformed,
                    },
                    Err(f) => res matches Err(e) && error_is(e, f),
                }
                &&& auth_evolved(*old(auth), *final(auth), auth_sendable(*old(auth)), r)
            }),
            *old(auth) matches Auth::Session { session: s0, auth_value: _ } ==> *final(auth) matches Auth::Session { session: s1, auth_value: _ } && *final(s1) == *final(s0),
    {
        let handles: [Handle; 1] = [item];
        let names: [&[u8]; 1] = [item_name];
        let params: [u8; 0] = [];
        proof {
            assert(views(names@) =~= seq![item_name@]);
            assert(handles@ =~= seq![item]);
            assert(params@ =~= Seq::<u8>::empty());
        }
        let resp = match self.run(cc::UNSEAL, handles.as_slice(), names.as_slice(), params.as_slice(), auth, 0) {
            Ok(r) => r,
            Err(e) => return Err(e),
        };
        let mut r = Reader::new(resp.params.as_slice());
        match r.tpm2b() {
            Ok(d) => Ok(vstd::slice::slice_to_vec(d)),
            Err(e) => Err(e),
        }
    }
}

} // verus!
