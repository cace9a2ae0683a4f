//! Moving command bytes to a TPM and reading the response back.
//!
//! [`Transport`] is the one operation the command layer needs: hand it a
//! fully marshalled command (header included) and get the full response back.
//! It is synchronous and byte-in/byte-out so the rest of the crate is
//! transport-agnostic. Implementations for a Linux character device and for
//! the TPM simulator socket live outside the verified library; the
//! simulator's framing and the judging of its answers are in [`simulator`].
pub mod simulator;

use vstd::prelude::*;

use crate::error::Result;

verus! {

/// A channel that carries one TPM command and returns its one response.
///
/// Nothing is promised of what comes back: every byte of a response is
/// checked by the command layer.
pub trait Transport {
    /// Sends a complete, marshalled TPM command and returns the complete
    /// response bytes (header included). Implementations must deliver exactly
    /// one command and read back exactly one response.
    fn transmit(&mut self, command: &[u8]) -> Result<Vec<u8>>;
}

/// A borrowed transport is a transport, so a `Tpm` can drive one without
/// taking ownership.
impl<T: Transport + ?Sized> Transport for &mut T {
    fn transmit(&mut self, command: &[u8]) -> Result<Vec<u8>> {
        (**self).transmit(command)
    }
}

} // verus!
