//! `TPM_SE`: session types, as passed to `TPM2_StartAuthSession`.
use vstd::prelude::*;

verus! {

/// An HMAC session.
pub const HMAC: u8 = 0x00;

/// A policy session.
pub const POLICY: u8 = 0x01;

/// A trial policy session (computes a policy digest without enforcing it).
pub const TRIAL: u8 = 0x03;

} // verus!
