//! Attribute bit-fields: `TPMA_OBJECT` and `TPMA_SESSION` (Part 2, §8).
//!
//! Both are plain integers on the wire (`UINT32` and `UINT8` respectively);
//! they are wrapped so the named bits and the common combinations are
//! discoverable.
use vstd::prelude::*;

use crate::error::Result;
use crate::marshal::{Marshal, Reader, Unmarshal, be32, from_be32};

verus! {

/// `TPMA_OBJECT`: the attributes of a loaded/created object (a `UINT32`).
#[derive(Clone, Copy, PartialEq, Eq, Default, Debug, Structural)]
pub struct ObjectAttributes(pub u32);

#[allow(missing_docs)]
impl ObjectAttributes {
    pub const FIXED_TPM: u32 = 0x0000_0002;

    pub const ST_CLEAR: u32 = 0x0000_0004;

    pub const FIXED_PARENT: u32 = 0x0000_0010;

    pub const SENSITIVE_DATA_ORIGIN: u32 = 0x0000_0020;

    pub const USER_WITH_AUTH: u32 = 0x0000_0040;

    pub const ADMIN_WITH_POLICY: u32 = 0x0000_0080;

    pub const NO_DA: u32 = 0x0000_0400;

    pub const ENCRYPTED_DUPLICATION: u32 = 0x0000_0800;

    pub const RESTRICTED: u32 = 0x0001_0000;

    pub const DECRYPT: u32 = 0x0002_0000;

    pub const SIGN_ENCRYPT: u32 = 0x0004_0000;

    /// An empty attribute set.
    pub fn empty() -> (a: Self)
        ensures
            a.0 == 0,
    {
        ObjectAttributes(0)
    }

    /// Whether all bits in `bits` are set.
    pub fn contains(self, bits: u32) -> (b: bool)
        ensures
            b == (self.0 & bits == bits),
    {
        self.0 & bits == bits
    }

    /// Returns a copy with `bits` set.
    pub fn with(self, bits: u32) -> (a: Self)
        ensures
            a.0 == self.0 | bits,
    {
        ObjectAttributes(self.0 | bits)
    }

    /// The attribute set of a typical restricted storage parent: a
    /// non-duplicable, TPM-resident decryption key whose sensitive half the
    /// TPM generates and that is authorised by its auth value
    /// (`fixedTPM | fixedParent | sensitiveDataOrigin | userWithAuth |
    /// restricted | decrypt`).
    pub fn storage_parent() -> (a: Self)
        ensures
            a.0 == 0x0003_0072,
    {
        assert(0x0000_0002u32 | 0x0000_0010u32 | 0x0000_0020u32 | 0x0000_0040u32 | 0x0001_0000u32
            | 0x0002_0000u32 == 0x0003_0072u32) by (bit_vector);
        ObjectAttributes(
            Self::FIXED_TPM | Self::FIXED_PARENT | Self::SENSITIVE_DATA_ORIGIN
                | Self::USER_WITH_AUTH | Self::RESTRICTED | Self::DECRYPT,
        )
    }

    /// The attribute set of a sealed data object: non-duplicable, auth-value
    /// protected, with externally supplied sensitive data
    /// (`fixedTPM | fixedParent | userWithAuth`); neither `sign` nor `decrypt`.
    pub fn sealed_data() -> (a: Self)
        ensures
            a.0 == 0x0000_0052,
    {
        assert(0x0000_0002u32 | 0x0000_0010u32 | 0x0000_0040u32 == 0x0000_0052u32) by (bit_vector);
        ObjectAttributes(Self::FIXED_TPM | Self::FIXED_PARENT | Self::USER_WITH_AUTH)
    }
}

/// Setting bits makes them contained, and keeps every bit already set.
pub proof fn lemma_object_with_contains(a: u32, bits: u32, other: u32)
    ensures
        (a | bits) & bits == bits,
        a & other == other ==> (a | bits) & other == other,
{
    assert((a | bits) & bits == bits && (a & other == other ==> (a | bits) & other == other))
        by (bit_vector);
}

impl View for ObjectAttributes {
    type V = ObjectAttributes;

    open spec fn view(&self) -> ObjectAttributes {
        *self
    }
}

impl Marshal for ObjectAttributes {
    open spec fn encoding(&self) -> Seq<u8> {
        be32(self.0)
    }

    fn marshal(&self, out: &mut Vec<u8>) {
        self.0.marshal(out);
    }
}

impl Unmarshal for ObjectAttributes {
    /// A fixed-size read that fails consumes nothing.
    open spec fn failed_read_len(data: Seq<u8>) -> int {
        0
    }

    open spec fn parse(data: Seq<u8>) -> Option<(ObjectAttributes, int)> {
        if data.len() >= 4 {
            Some((ObjectAttributes(from_be32(data)), 4))
        } else {
            None
        }
    }

    fn unmarshal(r: &mut Reader<'_>) -> (res: Result<ObjectAttributes>) {
        match r.u32() {
            Ok(v) => Ok(ObjectAttributes(v)),
            Err(e) => Err(e),
        }
    }
}

/// `TPMA_SESSION`: the attributes of an authorization session (a `UINT8`), as
/// carried in each session of a command/response authorization area.
#[derive(Clone, Copy, PartialEq, Eq, Default, Debug, Structural)]
pub struct SessionAttributes(pub u8);

#[allow(missing_docs)]
impl SessionAttributes {
    /// Keep the session loaded after the command (otherwise it is flushed).
    pub const CONTINUE_SESSION: u8 = 0x01;

    pub const AUDIT_EXCLUSIVE: u8 = 0x02;

    pub const AUDIT_RESET: u8 = 0x04;

    /// The session encrypts the first command parameter.
    pub const DECRYPT: u8 = 0x20;

    /// The session encrypts the first response parameter.
    pub const ENCRYPT: u8 = 0x40;

    pub const AUDIT: u8 = 0x80;

    /// An empty attribute set.
    pub fn empty() -> (a: Self)
        ensures
            a.0 == 0,
    {
        SessionAttributes(0)
    }

    /// Just `continueSession`: the usual choice for a session reused across
    /// several commands.
    pub fn continue_session() -> (a: Self)
        ensures
            a.0 == 0x01,
    {
        SessionAttributes(Self::CONTINUE_SESSION)
    }

    /// Whether all bits in `bits` are set.
    pub fn contains(self, bits: u8) -> (b: bool)
        ensures
            b == (self.0 & bits == bits),
    {
        self.0 & bits == bits
    }

    /// Returns a copy with `bits` set.
    pub fn with(self, bits: u8) -> (a: Self)
        ensures
            a.0 == self.0 | bits,
    {
        SessionAttributes(self.0 | bits)
    }
}

impl View for SessionAttributes {
    type V = SessionAttributes;

    open spec fn view(&self) -> SessionAttributes {
        *self
    }
}

impl Marshal for SessionAttributes {
    open spec fn encoding(&self) -> Seq<u8> {
        seq![self.0]
    }

    fn marshal(&self, out: &mut Vec<u8>) {
        self.0.marshal(out);
    }
}

impl Unmarshal for SessionAttributes {
    /// A fixed-size read that fails consumes nothing.
    open spec fn failed_read_len(data: Seq<u8>) -> int {
        0
    }

    open spec fn parse(data: Seq<u8>) -> Option<(SessionAttributes, int)> {
        if data.len() >= 1 {
            Some((SessionAttributes(data[0]), 1))
        } else {
            None
        }
    }

    fn unmarshal(r: &mut Reader<'_>) -> (res: Result<SessionAttributes>) {
        match r.u8() {
            Ok(v) => Ok(SessionAttributes(v)),
            Err(e) => Err(e),
        }
    }
}

} // verus!
