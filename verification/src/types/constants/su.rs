//! `TPM_SU`: startup / shutdown types.
use vstd::prelude::*;

verus! {

/// Cold/warm reset: TPM state is reinitialised.
pub const CLEAR: u16 = 0x0000;

/// Resume previously-saved state.
pub const STATE: u16 = 0x0001;

} // verus!
