//! Startup, randomness and capability commands: all unauthenticated
//! (`TPM_ST_NO_SESSIONS`).
use vstd::prelude::*;

use crate::error::{Error, Result};
use crate::marshal::{Marshal, Reader, be16, be32, from_be32, marshal_tpm2b, parse_tpm2b, tpm2b};
use crate::tpm::{Auth, Tpm, appended, command_frame, error_is, plain_result};
use crate::transport::Transport;
use crate::types::constants::cc;
use crate::types::handles::Handle;

verus! {

/// Raw `TPM2_GetCapability` reply: whether more data is available, and the
/// undecoded `capabilityData` bytes (a `TPMU_CAPABILITIES`, which callers
/// parse per the capability requested).
#[derive(Clone, Debug)]
pub struct CapabilityData {
    /// `true` if the TPM has more entries than it returned.
    pub more: bool,
    /// The capability code echoed at the head of `capabilityData`.
    pub capability: u32,
    /// The remaining `capabilityData` bytes after the capability code.
    pub data: Vec<u8>,
}

/// A `GetCapability` reply's parameters: the `moreData` byte (non-zero means
/// more), the echoed capability code, then the capability data.
pub open spec fn parse_capability(params: Seq<u8>) -> Option<(bool, u32, Seq<u8>)> {
    if params.len() < 5 {
        None
    } else {
        Some((params[0] != 0, from_be32(params.skip(1)), params.skip(5)))
    }
}

impl<T: Transport> Tpm<T> {
    /// `TPM2_Startup`: initialise the TPM. `startup_type` is
    /// [`su::CLEAR`](crate::types::constants::su::CLEAR) or
    /// [`su::STATE`](crate::types::constants::su::STATE).
    pub fn startup(&mut self, startup_type: u16) -> (res: Result<()>)
        ensures
            appended(
                old(self).history(),
                final(self).history(),
                command_frame(cc::STARTUP, Seq::empty(), None, be16(startup_type)),
            ),
            match plain_result(cc::STARTUP, final(self).history().last().1, 0) {
                Ok(_) => res is Ok,
                Err(f) => res matches Err(e) && error_is(e, f),
            },
    {
        let mut p: Vec<u8> = Vec::new();
        startup_type.marshal(&mut p);
        let handles: [Handle; 0] = [];
        let names: [&[u8]; 0] = [];
        let mut auth = Auth::NoAuth;
        match self.run(cc::STARTUP, handles.as_slice(), names.as_slice(), p.as_slice(), &mut auth, 0) {
            Ok(_) => Ok(()),
            Err(e) => Err(e),
        }
    }

    /// `TPM2_Shutdown`: prepare for power loss, saving state per
    /// `shutdown_type`.
    pub fn shutdown(&mut self, shutdown_type: u16) -> (res: Result<()>)
        ensures
            appended(
                old(self).history(),
                final(self).history(),
                command_frame(cc::SHUTDOWN, Seq::empty(), None, be16(shutdown_type)),
            ),
            match plain_result(cc::SHUTDOWN, final(self).history().last().1, 0) {
                Ok(_) => res is Ok,
                Err(f) => res matches Err(e) && error_is(e, f),
            },
    {
        let mut p: Vec<u8> = Vec::new();
        shutdown_type.marshal(&mut p);
        let handles: [Handle; 0] = [];
        let names: [&[u8]; 0] = [];
        let mut auth = Auth::NoAuth;
        match self.run(cc::SHUTDOWN, handles.as_slice(), names.as_slice(), p.as_slice(), &mut auth, 0) {
            Ok(_) => Ok(()),
            Err(e) => Err(e),
        }
    }

    /// `TPM2_SelfTest`: run self-tests. `full` requests a complete retest
    /// rather than only the not-yet-tested algorithms.
    pub fn self_test(&mut self, full: bool) -> (res: Result<()>)
        ensures
            appended(
                old(self).history(),
                final(self).history(),
                command_frame(
                    cc::SELF_TEST,
                    Seq::empty(),
                    None,
                    seq![
                        if full {
                            1u8
                        } else {
                            0u8
                        },
                    ],
                ),
            ),
            match plain_result(cc::SELF_TEST, final(self).history().last().1, 0) {
                Ok(_) => res is Ok,
                Err(f) => res matches Err(e) && error_is(e, f),
            },
    {
        let p: [u8; 1] = [
            if full {
                1u8
            } else {
                0u8
            },
        ];
        assert(p@ =~= seq![
            if full {
                1u8
            } else {
                0u8
            },
        ]);
        let handles: [Handle; 0] = [];
        let names: [&[u8]; 0] = [];
        let mut auth = Auth::NoAuth;
        match self.run(cc::SELF_TEST, handles.as_slice(), names.as_slice(), p.as_slice(), &mut auth, 0) {
            Ok(_) => Ok(()),
            Err(e) => Err(e),
        }
    }

    /// `TPM2_GetRandom`: request up to `bytes` random bytes. The TPM may
    /// return fewer; this returns exactly what it gave.
    pub fn get_random(&mut self, bytes: u16) -> (res: Result<Vec<u8>>)
        ensures
            appended(
                old(self).history(),
                final(self).history(),
                command_frame(cc::GET_RANDOM, Seq::empty(), None, be16(bytes)),
            ),
            match plain_result(cc::GET_RANDOM, final(self).history().last().1, 0) {
                Ok(p) => match parse_tpm2b(p.params) {
                    Some((d, _)) => res matches Ok(v) && v@ == d,
                    None => res matches Err(e) && e is Malformed,
                },
                Err(f) => res matches Err(e) && error_is(e, f),
            },
    {
        let mut p: Vec<u8> = Vec::new();
        bytes.marshal(&mut p);
        let handles: [Handle; 0] = [];
        let names: [&[u8]; 0] = [];
        let mut auth = Auth::NoAuth;
        let resp = match self.run(
            cc::GET_RANDOM,
            handles.as_slice(),
            names.as_slice(),
            p.as_slice(),
            &mut auth,
            0,
        ) {
            Ok(r) => r,
            Err(e) => return Err(e),
        };
        let mut r = Reader::new(resp.params.as_slice());
        match r.tpm2b() {
            Ok(d) => Ok(vstd::slice::slice_to_vec(d)),
            Err(e) => Err(e),
        }
    }

    /// `TPM2_StirRandom`: mix `data` into the TPM's entropy pool. More than
    /// 128 bytes is a usage error, and nothing is sent.
    pub fn stir_random(&mut self, data: &[u8]) -> (res: Result<()>)
        ensures
            data@.len() > 128 ==> final(self).history() == old(self).history(),
            data@.len() > 128 ==> (res matches Err(e) && e is Usage),
            data@.len() <= 128 ==> appended(
                old(self).history(),
                final(self).history(),
                command_frame(cc::STIR_RANDOM, Seq::empty(), None, tpm2b(data@)),
            ),
            data@.len() <= 128 ==> match plain_result(
                cc::STIR_RANDOM,
                final(self).history().last().1,
                0,
            ) {
                Ok(_) => res is Ok,
                Err(f) => res matches Err(e) && error_is(e, f),
            },
    {
        if data.len() > 128 {
            return Err(Error::Usage("StirRandom accepts at most 128 bytes"));
        }
        let mut p: Vec<u8> = Vec::new();
        match marshal_tpm2b(data, &mut p) {
            Ok(()) => {},
            Err(e) => return Err(e),
        }
        let handles: [Handle; 0] = [];
        let names: [&[u8]; 0] = [];
        let mut auth = Auth::NoAuth;
        match self.run(cc::STIR_RANDOM, handles.as_slice(), names.as_slice(), p.as_slice(), &mut auth, 0) {
            Ok(_) => Ok(()),
            Err(e) => Err(e),
        }
    }

    /// `TPM2_GetCapability`: query a capability group, returning the raw
    /// `capabilityData` for the caller to interpret.
    ///
    /// `capability` is a [`cap`](crate::types::constants::cap) code,
    /// `property` the first item to return, `count` the maximum number of
    /// items.
    pub fn get_capability(&mut self, capability: u32, property: u32, count: u32) -> (res: Result<
        CapabilityData,
    >)
        ensures
            appended(
                old(self).history(),
                final(self).history(),
                command_frame(
                    cc::GET_CAPABILITY,
                    Seq::empty(),
                    None,
                    be32(capability) + be32(property) + be32(count),
                ),
            ),
            match plain_result(cc::GET_CAPABILITY, final(self).history().last().1, 0) {
                Ok(p) => match parse_capability(p.params) {
                    Some((more, c, d)) => res matches Ok(cd) && cd.more == more && cd.capability
                        == c && cd.data@ == d,
                    None => res matches Err(e) && e is Malformed,
                },
                Err(f) => res matches Err(e) && error_is(e, f),
            },
    {
        let mut p: Vec<u8> = Vec::new();
        capability.marshal(&mut p);
        property.marshal(&mut p);
        count.marshal(&mut p);
        let handles: [Handle; 0] = [];
        let names: [&[u8]; 0] = [];
        let mut auth = Auth::NoAuth;
        let resp = match self.run(
            cc::GET_CAPABILITY,
            handles.as_slice(),
            names.as_slice(),
            p.as_slice(),
            &mut auth,
            0,
        ) {
            Ok(r) => r,
            Err(e) => return Err(e),
        };
        let ghost params = resp.params@;
        let mut r = Reader::new(resp.params.as_slice());
        let more = match r.u8() {
            Ok(b) => b != 0,
            Err(e) => return Err(e),
        };
        let cap = match r.u32() {
            Ok(c) => c,
            Err(e) => return Err(e),
        };
        let data = match r.take(r.remaining()) {
            Ok(d) => vstd::slice::slice_to_vec(d),
            Err(e) => return Err(e),
        };
        proof {
            assert(params.skip(1).skip(4) =~= params.skip(5));
        }
        Ok(CapabilityData { more, capability: cap, data })
    }
}

} // verus!
