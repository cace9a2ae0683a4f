//! `TPM_CAP`: capability groups for `TPM2_GetCapability`.
use vstd::prelude::*;

verus! {

/// `TPM_CAP_ALGS`.
pub const ALGS: u32 = 0x0000_0000;

/// `TPM_CAP_HANDLES`.
pub const HANDLES: u32 = 0x0000_0001;

/// `TPM_CAP_COMMANDS`.
pub const COMMANDS: u32 = 0x0000_0002;

/// `TPM_CAP_PCRS`.
pub const PCRS: u32 = 0x0000_0005;

/// `TPM_CAP_TPM_PROPERTIES`.
pub const TPM_PROPERTIES: u32 = 0x0000_0006;

} // verus!
