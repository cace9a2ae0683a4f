//! TPM handles: 32-bit references to objects, sessions, PCRs and reserved
//! authorities (Part 2, §7).
//!
//! The high byte (`TPM_HT`) selects the handle space: `0x00` PCR, `0x02`
//! HMAC/loaded session, `0x03` policy session, `0x40` permanent (`TPM_RH_*`),
//! `0x80` transient object, `0x81` persistent object.
use vstd::prelude::*;

use crate::error::Result;
use crate::marshal::{Marshal, Reader, Unmarshal, be32, from_be32};

verus! {

/// A 32-bit TPM handle.
#[derive(Clone, Copy, PartialEq, Eq, Hash, Debug, Structural)]
pub struct Handle(pub u32);

/// The handle type (`TPM_HT`) of a raw handle: its high byte.
pub open spec fn handle_type_of(h: u32) -> u8 {
    (h / 0x100_0000) as u8
}

impl Handle {
    /// The raw 32-bit value.
    pub fn raw(self) -> (r: u32)
        ensures
            r == self.0,
    {
        self.0
    }

    /// The handle type (`TPM_HT`), i.e. the high byte.
    pub fn handle_type(self) -> (t: u8)
        ensures
            t == handle_type_of(self.0),
    {
        (self.0 / 0x100_0000) as u8
    }

    /// `true` for a transient object handle (`0x80xxxxxx`).
    pub fn is_transient(self) -> (b: bool)
        ensures
            b == (handle_type_of(self.0) == 0x80),
    {
        self.handle_type() == 0x80
    }

    /// `true` for a persistent object handle (`0x81xxxxxx`).
    pub fn is_persistent(self) -> (b: bool)
        ensures
            b == (handle_type_of(self.0) == 0x81),
    {
        self.handle_type() == 0x81
    }

    /// `true` for a session handle (HMAC `0x02xxxxxx` or policy `0x03xxxxxx`).
    pub fn is_session(self) -> (b: bool)
        ensures
            b == (handle_type_of(self.0) == 0x02 || handle_type_of(self.0) == 0x03),
    {
        let t = self.handle_type();
        t == 0x02 || t == 0x03
    }
}

/// A handle's type is the first byte of its wire encoding.
pub proof fn lemma_handle_type_is_first_byte(h: Handle)
    ensures
        h.encoding()[0] == handle_type_of(h.0),
{
}

impl From<u32> for Handle {
    fn from(v: u32) -> (h: Handle) {
        Handle(v)
    }
}

impl vstd::std_specs::convert::FromSpecImpl<u32> for Handle {
    open spec fn obeys_from_spec() -> bool {
        true
    }

    open spec fn from_spec(v: u32) -> Handle {
        Handle(v)
    }
}

impl View for Handle {
    type V = Handle;

    open spec fn view(&self) -> Handle {
        *self
    }
}

impl Marshal for Handle {
    open spec fn encoding(&self) -> Seq<u8> {
        be32(self.0)
    }

    fn marshal(&self, out: &mut Vec<u8>) {
        self.0.marshal(out);
    }
}

impl Unmarshal for Handle {
    /// A fixed-size read that fails consumes nothing.
    open spec fn failed_read_len(data: Seq<u8>) -> int {
        0
    }

    open spec fn parse(data: Seq<u8>) -> Option<(Handle, int)> {
        if data.len() >= 4 {
            Some((Handle(from_be32(data)), 4))
        } else {
            None
        }
    }

    fn unmarshal(r: &mut Reader<'_>) -> (res: Result<Handle>) {
        match r.u32() {
            Ok(v) => Ok(Handle(v)),
            Err(e) => Err(e),
        }
    }
}

} // verus!
