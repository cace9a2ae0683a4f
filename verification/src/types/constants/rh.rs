//! Reserved handles (`TPM_RH_*`) and the password-authorization pseudo-session.
use vstd::prelude::*;

verus! {

/// `TPM_RH_OWNER`: the storage (owner) hierarchy.
pub const OWNER: u32 = 0x4000_0001;

/// `TPM_RH_NULL`: the null hierarchy (ephemeral; keys vanish on reset).
pub const NULL: u32 = 0x4000_0007;

/// `TPM_RH_LOCKOUT`: the dictionary-attack lockout authority.
pub const LOCKOUT: u32 = 0x4000_000A;

/// `TPM_RH_ENDORSEMENT`: the endorsement (privacy) hierarchy.
pub const ENDORSEMENT: u32 = 0x4000_000B;

/// `TPM_RH_PLATFORM`: the platform hierarchy.
pub const PLATFORM: u32 = 0x4000_000C;

/// `TPM_RS_PW`: the password authorization "session" (no HMAC).
pub const PW: u32 = 0x4000_0009;

} // verus!
