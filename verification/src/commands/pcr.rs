//! PCR commands: read banks and extend a PCR.
use vstd::prelude::*;

use crate::commands::PcrReadResult;
use crate::crypto::views;
use crate::error::{Error, Result};
use crate::marshal::{Marshal, Reader, Unmarshal, be16, be32, from_be32};
use crate::session::permanent_name;
use crate::tpm::{
    Auth, Tpm, appended, auth_area, auth_evolved, auth_sendable, command_frame, error_is, frame_fits,
    plain_result, run_result,
};
use crate::transport::Transport;
use crate::types::constants::{Alg, cc};
use crate::types::handles::Handle;
use crate::types::structures::{
    Buffer, PcrSelection, PcrSelectionList, parse_digest_list, pcr_selection_bytes,
    read_digest_list, single_pcr_bitmap,
};

verus! {

/// A `PCR_Read` reply's parameters: the update counter, the selection the
/// TPM read back, and the digest values.
pub open spec fn parse_pcr_read(params: Seq<u8>) -> Option<(u32, Seq<(Alg, Seq<u8>)>, Seq<Seq<u8>>)> {
    if params.len() < 4 {
        None
    } else {
        match PcrSelectionList::parse(params.skip(4)) {
            None => None,
            Some((sel, n)) => match parse_digest_list(params.skip(4 + n)) {
                None => None,
                Some((vals, _)) => Some((from_be32(params), sel, vals)),
            },
        }
    }
}

/// A `PCR_Read` reply reads, in wire order, the update counter (a `UINT32`),
/// the `TPML_PCR_SELECTION` the TPM read back, and the `TPML_DIGEST` whose
/// i-th `TPM2B` is the i-th value, kept in the order the TPM sent them.
pub proof fn lemma_pcr_read_wire_order(params: Seq<u8>)
    ensures
        parse_pcr_read(params) matches Some((counter, sel, vals)) ==> {
            &&& params.len() >= 4
            &&& counter == from_be32(params)
            &&& match PcrSelectionList::parse(params.skip(4)) {
                Some((sel2, n)) => sel2 == sel && match parse_digest_list(params.skip(4 + n)) {
                    Some((vals2, _)) => vals2 == vals,
                    None => false,
                },
                None => false,
            }
        },
{
}

/// The `(bank, digest)` pairs of a `PCR_Extend` request, as values.
pub open spec fn digest_pairs(digests: Seq<(Alg, &[u8])>) -> Seq<(Alg, Seq<u8>)> {
    digests.map_values(|d: (Alg, &[u8])| (d.0, d.1@))
}

/// Each `TPMT_HA` of a `TPML_DIGEST_VALUES`: the bank's algorithm, then the
/// digest bytes as given.
pub open spec fn digest_values_bytes(ds: Seq<(Alg, Seq<u8>)>) -> Seq<u8>
    decreases ds.len(),
{
    if ds.len() == 0 {
        Seq::empty()
    } else {
        digest_values_bytes(ds.drop_last()) + be16(ds.last().0.0) + ds.last().1
    }
}

/// The parameter area of `PCR_Extend`: the count of digests (as a `UINT32`,
/// so modulo 2^32), then each digest.
pub open spec fn pcr_extend_params(ds: Seq<(Alg, Seq<u8>)>) -> Seq<u8> {
    be32((ds.len() % 0x1_0000_0000) as u32) + digest_values_bytes(ds)
}

impl PcrSelectionList {
    /// Parses a `TPML_PCR_SELECTION` from `r`.
    fn unmarshal_from(r: &mut Reader<'_>) -> (res: Result<Self>)
        ensures
            match PcrSelectionList::parse(old(r).rest()) {
                Some((v, n)) => {
                    &&& res matches Ok(x) && x@ == v
                    &&& 0 <= n <= old(r).rest().len()
                    &&& final(r).rest() == old(r).rest().skip(n)
                },
                None => res matches Err(e) && e is Malformed,
            },
    {
        <Self as Unmarshal>::unmarshal(r)
    }
}

impl<T: Transport> Tpm<T> {
    /// `TPM2_PCR_Read`: read the PCRs named by `selection`.
    pub fn pcr_read(&mut self, selection: &PcrSelectionList) -> (res: Result<PcrReadResult>)
        requires
            frame_fits(0, selection.encoding().len(), Auth::NoAuth),
        ensures
            appended(
                old(self).history(),
                final(self).history(),
                command_frame(cc::PCR_READ, Seq::empty(), None, selection.encoding()),
            ),
            match plain_result(cc::PCR_READ, final(self).history().last().1, 0) {
                Ok(p) => match parse_pcr_read(p.params) {
                    Some((counter, sel, vals)) => res matches Ok(pr) && pr.update_counter == counter
                        && pr.selection@ == sel && pr.values@.map_values(|b: Buffer| b@) == vals,
                    None => res matches Err(e) && e is Malformed,
                },
                Err(f) => res matches Err(e) && error_is(e, f),
            },
            res matches Ok(pr) ==> match plain_result(
                cc::PCR_READ,
                final(self).history().last().1,
                0,
            ) {
                Ok(p) => {
                    &&& p.params.len() >= 4
                    &&& pr.update_counter == from_be32(p.params)
                    &&& match PcrSelectionList::parse(p.params.skip(4)) {
                        Some((sel, n)) => pr.selection@ == sel && match parse_digest_list(
                            p.params.skip(4 + n),
                        ) {
                            Some((vals, _)) => pr.values@.map_values(|b: Buffer| b@) == vals,
                            None => false,
                        },
                        None => false,
                    }
                },
                Err(_) => false,
            },
    {
        let mut p: Vec<u8> = Vec::new();
        selection.marshal(&mut p);
        let handles: [Handle; 0] = [];
        let names: [&[u8]; 0] = [];
        let mut auth = Auth::NoAuth;
        let resp = match self.run(cc::PCR_READ, handles.as_slice(), names.as_slice(), p.as_slice(), &mut auth, 0) {
            Ok(r) => r,
            Err(e) => return Err(e),
        };
        let ghost params = resp.params@;
        let mut r = Reader::new(resp.params.as_slice());
        let update_counter = match r.u32() {
            Ok(c) => c,
            Err(e) => return Err(e),
        };
        let ghost r4 = r.rest();
        let selection = match PcrSelectionList::unmarshal_from(&mut r) {
            Ok(s) => s,
            Err(e) => return Err(e),
        };
        proof {
            let (_, n) = PcrSelectionList::parse(r4).unwrap();
            assert(r.rest() =~= params.skip(4 + n));
        }
        let values = match read_digest_list(&mut r) {
            Ok(v) => v,
            Err(e) => return Err(e),
        };
        Ok(PcrReadResult { update_counter, selection, values })
    }

    /// Reads one PCR from one bank, returning its digest (or `None` if the
    /// TPM read back no value, e.g. an unallocated bank).
    pub fn pcr_read_one(&mut self, bank: Alg, pcr: u8) -> (res: Result<Option<Buffer>>)
        ensures
            appended(
                old(self).history(),
                final(self).history(),
                command_frame(
                    cc::PCR_READ,
                    Seq::empty(),
                    None,
                    be32(1) + pcr_selection_bytes(bank, single_pcr_bitmap(pcr)),
                ),
            ),
            match plain_result(cc::PCR_READ, final(self).history().last().1, 0) {
                Ok(p) => match parse_pcr_read(p.params) {
                    Some((_, _, vals)) => if vals.len() > 0 {
                        res matches Ok(Some(b)) && b@ == vals[0]
                    } else {
                        res matches Ok(None)
                    },
                    None => res matches Err(e) && e is Malformed,
                },
                Err(f) => res matches Err(e) && error_is(e, f),
            },
    {
        let mut v: Vec<PcrSelection> = Vec::new();
        v.push(PcrSelection::single(bank, pcr));
        let sel = PcrSelectionList(v);
        proof {
            let s = sel@;
            assert(s.len() == 1);
            assert(s.drop_first() =~= Seq::<(Alg, Seq<u8>)>::empty());
            reveal_with_fuel(crate::types::structures::pcr_selections_bytes, 2);
            assert(sel.encoding() =~= be32(1) + pcr_selection_bytes(bank, single_pcr_bitmap(pcr)));
        }
        let res = match self.pcr_read(&sel) {
            Ok(r) => r,
            Err(e) => return Err(e),
        };
        let mut values = res.values;
        if values.len() > 0 {
            Ok(Some(values.remove(0)))
        } else {
            Ok(None)
        }
    }

    /// `TPM2_PCR_Extend`: extend `pcr` with one digest per bank in `digests`
    /// (`(bankAlg, digest)` pairs; each digest must be the bank hash's size).
    ///
    /// The PCR's auth is usually empty; pass `Auth::Password(b"")` for that.
    pub fn pcr_extend(&mut self, pcr: u32, digests: &[(Alg, &[u8])], auth: &mut Auth<'_>) -> (res:
        Result<()>)
        requires
            frame_fits(1, pcr_extend_params(digest_pairs(digests@)).len(), *old(auth)),
        ensures
            ({
                let p = pcr_extend_params(digest_pairs(digests@));
                let names = seq![be32(pcr)];
                let r = run_result(*final(auth), cc::PCR_EXTEND, names, final(self).history().last().1, 0);
                &&& auth_sendable(*old(auth)) ==> appended(
                    old(self).history(),
                    final(self).history(),
                    command_frame(
                        cc::PCR_EXTEND,
                        seq![Handle(pcr)],
                        auth_area(*old(auth), *final(auth), cc::PCR_EXTEND, names, p),
                        p,
                    ),
                )
                &&& !auth_sendable(*old(auth)) ==> final(self).history() == old(self).history()
                    && (res matches Err(e) && e is Usage)
                &&& auth_sendable(*old(auth)) ==> match r {
                    Ok(_) => res is Ok,
                    Err(f) => res matches Err(e) && error_is(e, f),
                }
                &&& auth_evolved(*old(auth), *final(auth), auth_sendable(*old(auth)), r)
            }),
            *old(auth) matches Auth::Session { session: s0, auth_value: _ } ==> *final(auth) matches Auth::Session { session: s1, auth_value: _ } && *final(s1) == *final(s0),
    {
        let handle = Handle(pcr);
        // TPML_DIGEST_VALUES: count, then each TPMT_HA (alg || fixed digest).
        let mut p: Vec<u8> = Vec::new();
        let n = digests.len() as u64;
        ((n % 0x1_0000_0000) as u32).marshal(&mut p);
        let ghost start = p@;
        let mut i: usize = 0;
        while i < digests.len()
            invariant
                i <= digests@.len(),
                p@ == start + digest_values_bytes(digest_pairs(digests@.take(i as int))),
            decreases digests@.len() - i,
        {
            let (alg, dig) = digests[i];
            alg.marshal(&mut p);
            p.extend_from_slice(dig);
            proof {
                assert(digest_pairs(digests@.take(i + 1)).drop_last() =~= digest_pairs(
                    digests@.take(i as int),
                ));
                assert(p@ =~= start + digest_values_bytes(digest_pairs(digests@.take(i + 1))));
            }
            i = i + 1;
        }
        proof {
            assert(digests@.take(i as int) =~= digests@);
            assert(p@ =~= pcr_extend_params(digest_pairs(digests@)));
        }
        let name = permanent_name(handle);
        let handles: [Handle; 1] = [handle];
        let names: [&[u8]; 1] = [name.as_slice()];
        proof {
            assert(views(names@) =~= seq![be32(pcr)]);
            assert(handles@ =~= seq![Handle(pcr)]);
        }
        match self.run(cc::PCR_EXTEND, handles.as_slice(), names.as_slice(), p.as_slice(), auth, 0) {
            Ok(_) => Ok(()),
            Err(e) => Err(e),
        }
    }
}

} // verus!
