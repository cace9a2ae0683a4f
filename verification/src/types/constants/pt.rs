//! `TPM_PT`: a selection of fixed/variable properties (Part 2, §6.13).
use vstd::prelude::*;

verus! {

/// Base for the "fixed" property group.
pub const FIXED: u32 = 0x0000_0100;

/// Manufacturer id (`TPM_PT_MANUFACTURER`).
pub const MANUFACTURER: u32 = FIXED + 5;

/// First of the four `TPM_PT_VENDOR_STRING_*` properties.
pub const VENDOR_STRING_1: u32 = FIXED + 6;

/// Firmware version, high word (`TPM_PT_FIRMWARE_VERSION_1`).
pub const FIRMWARE_VERSION_1: u32 = FIXED + 11;

} // verus!
