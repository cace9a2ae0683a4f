//! `TPM_ECC_CURVE` values this crate references.
use vstd::prelude::*;

verus! {

/// NIST P-256 (`TPM_ECC_NIST_P256`).
pub const NIST_P256: u16 = 0x0003;

/// NIST P-384 (`TPM_ECC_NIST_P384`).
pub const NIST_P384: u16 = 0x0004;

} // verus!
