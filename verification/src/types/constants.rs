//! TPM 2.0 constant code points (TPM 2.0 Library, Part 2, §6).
//!
//! Grouped into modules by their specification namespace: `cc` (`TPM_CC`
//! command codes), `st` (`TPM_ST` structure tags), `su` (`TPM_SU` startup
//! types), `se` (`TPM_SE` session types), `cap` (`TPM_CAP` capability groups),
//! `pt` (`TPM_PT` properties) and `rh` (reserved handles), plus the [`Alg`]
//! algorithm-id newtype.
use vstd::prelude::*;

use crate::error::Result;
use crate::marshal::{Marshal, Reader, Unmarshal, be16, from_be16};

pub mod cap;
pub mod cc;
pub mod pt;
pub mod rh;
pub mod se;
pub mod st;
pub mod su;

verus! {

/// `TPM_ALG_ID`: a 16-bit algorithm identifier (Part 2, §6.3).
///
/// A thin newtype over the wire value, with a function per algorithm this
/// crate handles and [`digest_size`](Alg::digest_size) for the hash
/// algorithms.
#[derive(Clone, Copy, PartialEq, Eq, Hash, Debug, Structural)]
pub struct Alg(pub u16);

/// The output size in bytes of hash algorithm `alg`, `Some(0)` for
/// `TPM_ALG_NULL`, `None` for any other algorithm.
pub open spec fn alg_digest_size(alg: u16) -> Option<usize> {
    if alg == 0x0004 {
        Some(20usize)
    } else if alg == 0x000B {
        Some(32usize)
    } else if alg == 0x000C {
        Some(48usize)
    } else if alg == 0x000D {
        Some(64usize)
    } else if alg == 0x0012 {
        Some(32usize)
    } else if alg == 0x0010 {
        Some(0usize)
    } else {
        None
    }
}

/// The output size in bytes of hash algorithm `alg`; zero for anything that
/// is not a hash.
pub open spec fn digest_len(alg: Alg) -> nat {
    match alg_digest_size(alg.0) {
        Some(n) => n as nat,
        None => 0,
    }
}

impl Alg {
    /// `TPM_ALG_ERROR`.
    #[verifier::allow_in_spec]
    #[allow(non_snake_case)]
    pub fn ERROR() -> Alg
        returns
            Alg(0x0000),
    {
        Alg(0x0000)
    }

    /// `TPM_ALG_RSA`.
    #[verifier::allow_in_spec]
    #[allow(non_snake_case)]
    pub fn RSA() -> Alg
        returns
            Alg(0x0001),
    {
        Alg(0x0001)
    }

    /// `TPM_ALG_SHA1`.
    #[verifier::allow_in_spec]
    #[allow(non_snake_case)]
    pub fn SHA1() -> Alg
        returns
            Alg(0x0004),
    {
        Alg(0x0004)
    }

    /// `TPM_ALG_HMAC`.
    #[verifier::allow_in_spec]
    #[allow(non_snake_case)]
    pub fn HMAC() -> Alg
        returns
            Alg(0x0005),
    {
        Alg(0x0005)
    }

    /// `TPM_ALG_AES`.
    #[verifier::allow_in_spec]
    #[allow(non_snake_case)]
    pub fn AES() -> Alg
        returns
            Alg(0x0006),
    {
        Alg(0x0006)
    }

    /// `TPM_ALG_KEYEDHASH`.
    #[verifier::allow_in_spec]
    #[allow(non_snake_case)]
    pub fn KEYEDHASH() -> Alg
        returns
            Alg(0x0008),
    {
        Alg(0x0008)
    }

    /// `TPM_ALG_XOR`.
    #[verifier::allow_in_spec]
    #[allow(non_snake_case)]
    pub fn XOR() -> Alg
        returns
            Alg(0x000A),
    {
        Alg(0x000A)
    }

    /// `TPM_ALG_SHA256`.
    #[verifier::allow_in_spec]
    #[allow(non_snake_case)]
    pub fn SHA256() -> Alg
        returns
            Alg(0x000B),
    {
        Alg(0x000B)
    }

    /// `TPM_ALG_SHA384`.
    #[verifier::allow_in_spec]
    #[allow(non_snake_case)]
    pub fn SHA384() -> Alg
        returns
            Alg(0x000C),
    {
        Alg(0x000C)
    }

    /// `TPM_ALG_SHA512`.
    #[verifier::allow_in_spec]
    #[allow(non_snake_case)]
    pub fn SHA512() -> Alg
        returns
            Alg(0x000D),
    {
        Alg(0x000D)
    }

    /// `TPM_ALG_NULL`.
    #[verifier::allow_in_spec]
    #[allow(non_snake_case)]
    pub fn NULL() -> Alg
        returns
            Alg(0x0010),
    {
        Alg(0x0010)
    }

    /// `TPM_ALG_SM3_256`.
    #[verifier::allow_in_spec]
    #[allow(non_snake_case)]
    pub fn SM3_256() -> Alg
        returns
            Alg(0x0012),
    {
        Alg(0x0012)
    }

    /// `TPM_ALG_ECDSA`.
    #[verifier::allow_in_spec]
    #[allow(non_snake_case)]
    pub fn ECDSA() -> Alg
        returns
            Alg(0x0018),
    {
        Alg(0x0018)
    }

    /// `TPM_ALG_ECDH`.
    #[verifier::allow_in_spec]
    #[allow(non_snake_case)]
    pub fn ECDH() -> Alg
        returns
            Alg(0x0019),
    {
        Alg(0x0019)
    }

    /// `TPM_ALG_RSASSA`.
    #[verifier::allow_in_spec]
    #[allow(non_snake_case)]
    pub fn RSASSA() -> Alg
        returns
            Alg(0x0014),
    {
        Alg(0x0014)
    }

    /// `TPM_ALG_RSAES`.
    #[verifier::allow_in_spec]
    #[allow(non_snake_case)]
    pub fn RSAES() -> Alg
        returns
            Alg(0x0015),
    {
        Alg(0x0015)
    }

    /// `TPM_ALG_RSAPSS`.
    #[verifier::allow_in_spec]
    #[allow(non_snake_case)]
    pub fn RSAPSS() -> Alg
        returns
            Alg(0x0016),
    {
        Alg(0x0016)
    }

    /// `TPM_ALG_OAEP`.
    #[verifier::allow_in_spec]
    #[allow(non_snake_case)]
    pub fn OAEP() -> Alg
        returns
            Alg(0x0017),
    {
        Alg(0x0017)
    }

    /// `TPM_ALG_ECC`.
    #[verifier::allow_in_spec]
    #[allow(non_snake_case)]
    pub fn ECC() -> Alg
        returns
            Alg(0x0023),
    {
        Alg(0x0023)
    }

    /// `TPM_ALG_SYMCIPHER`.
    #[verifier::allow_in_spec]
    #[allow(non_snake_case)]
    pub fn SYMCIPHER() -> Alg
        returns
            Alg(0x0025),
    {
        Alg(0x0025)
    }

    /// `TPM_ALG_CFB`.
    #[verifier::allow_in_spec]
    #[allow(non_snake_case)]
    pub fn CFB() -> Alg
        returns
            Alg(0x0043),
    {
        Alg(0x0043)
    }

    /// The raw 16-bit value.
    pub fn raw(self) -> (r: u16)
        ensures
            r == self.0,
    {
        self.0
    }

    /// The output size in bytes of a hash algorithm, or `None` for any
    /// non-hash (or unknown) algorithm. `TPM_ALG_NULL` maps to `Some(0)`.
    pub fn digest_size(self) -> (r: Option<usize>)
        ensures
            r == alg_digest_size(self.0),
    {
        let x = self.0;
        if x == Self::SHA1().0 {
            Some(20)
        } else if x == Self::SHA256().0 {
            Some(32)
        } else if x == Self::SHA384().0 {
            Some(48)
        } else if x == Self::SHA512().0 {
            Some(64)
        } else if x == Self::SM3_256().0 {
            Some(32)
        } else if x == Self::NULL().0 {
            Some(0)
        } else {
            None
        }
    }
}

impl View for Alg {
    type V = Alg;

    open spec fn view(&self) -> Alg {
        *self
    }
}

impl Marshal for Alg {
    open spec fn encoding(&self) -> Seq<u8> {
        be16(self.0)
    }

    fn marshal(&self, out: &mut Vec<u8>) {
        self.0.marshal(out);
    }
}

impl Unmarshal for Alg {
    /// A fixed-size read that fails consumes nothing.
    open spec fn failed_read_len(data: Seq<u8>) -> int {
        0
    }

    open spec fn parse(data: Seq<u8>) -> Option<(Alg, int)> {
        if data.len() >= 2 {
            Some((Alg(from_be16(data)), 2))
        } else {
            None
        }
    }

    fn unmarshal(r: &mut Reader<'_>) -> (res: Result<Alg>) {
        let ghost d = r.rest();
        match r.u16() {
            Ok(v) => {
                assert(<Alg as Unmarshal>::parse(d) == Some((Alg(v), 2int)));
                Ok(Alg(v))
            },
            Err(e) => {
                assert(<Alg as Unmarshal>::parse(d) is None);
                assert(d.skip(0) =~= d);
                assert(r.rest() == d.skip(<Alg as Unmarshal>::failed_read_len(d)));
                Err(e)
            },
        }
    }
}

} // verus!
