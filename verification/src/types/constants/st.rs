//! `TPM_ST`: structure (command/response) tags.
use vstd::prelude::*;

verus! {

/// A command/response carrying no authorization sessions.
pub const NO_SESSIONS: u16 = 0x8001;

/// A command/response whose handle area is followed by an authorization
/// (session) area.
pub const SESSIONS: u16 = 0x8002;

/// `TPM_ST_HASHCHECK`: a ticket type (used by some signing flows).
pub const HASHCHECK: u16 = 0x8024;

/// `TPM_ST_CREATION`: a creation ticket.
pub const CREATION: u16 = 0x8021;

} // verus!
