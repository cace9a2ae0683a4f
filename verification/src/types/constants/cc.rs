//! `TPM_CC`: command codes (Part 2, §6.5).
use vstd::prelude::*;

verus! {

/// `TPM2_Startup`.
pub const STARTUP: u32 = 0x0000_0144;

/// `TPM2_Shutdown`.
pub const SHUTDOWN: u32 = 0x0000_0145;

/// `TPM2_SelfTest`.
pub const SELF_TEST: u32 = 0x0000_0143;

/// `TPM2_GetCapability`.
pub const GET_CAPABILITY: u32 = 0x0000_017A;

/// `TPM2_GetRandom`.
pub const GET_RANDOM: u32 = 0x0000_017B;

/// `TPM2_StirRandom`.
pub const STIR_RANDOM: u32 = 0x0000_0146;

/// `TPM2_PCR_Read`.
pub const PCR_READ: u32 = 0x0000_017E;

/// `TPM2_PCR_Extend`.
pub const PCR_EXTEND: u32 = 0x0000_0182;

/// `TPM2_StartAuthSession`.
pub const START_AUTH_SESSION: u32 = 0x0000_0176;

/// `TPM2_CreatePrimary`.
pub const CREATE_PRIMARY: u32 = 0x0000_0131;

/// `TPM2_Create`.
pub const CREATE: u32 = 0x0000_0153;

/// `TPM2_Load`.
pub const LOAD: u32 = 0x0000_0157;

/// `TPM2_Unseal`.
pub const UNSEAL: u32 = 0x0000_015E;

/// `TPM2_FlushContext`.
pub const FLUSH_CONTEXT: u32 = 0x0000_0165;

} // verus!
