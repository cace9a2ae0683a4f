//! Big-endian marshalling, the bedrock every TPM structure rests on.
//!
//! TPM 2.0 canonical form is plain big-endian with no padding or alignment:
//! integers in network byte order, fixed arrays laid out in order, and
//! `TPM2B_*` buffers prefixed by a `UINT16` byte count. [`Marshal`] appends
//! to a byte vector; [`Unmarshal`] reads from a [`Reader`] that tracks its
//! position and refuses to run off the end.
use vstd::prelude::*;

use crate::error::{Error, Result};

verus! {

/// The big-endian encoding of a `u16`.
pub open spec fn be16(v: u16) -> Seq<u8> {
    seq![(v / 0x100) as u8, (v % 0x100) as u8]
}

/// The big-endian encoding of a `u32`.
pub open spec fn be32(v: u32) -> Seq<u8> {
    seq![
        (v / 0x100_0000) as u8,
        ((v / 0x1_0000) % 0x100) as u8,
        ((v / 0x100) % 0x100) as u8,
        (v % 0x100) as u8,
    ]
}

/// The big-endian encoding of a `u64`: its high word, then its low word.
pub open spec fn be64(v: u64) -> Seq<u8> {
    be32((v / 0x1_0000_0000) as u32) + be32((v % 0x1_0000_0000) as u32)
}

/// The `u16` that the first two bytes of `b` denote in big-endian order.
pub open spec fn from_be16(b: Seq<u8>) -> u16 {
    (b[0] * 0x100 + b[1]) as u16
}

/// The `u32` that the first four bytes of `b` denote in big-endian order.
pub open spec fn from_be32(b: Seq<u8>) -> u32 {
    (b[0] * 0x100_0000 + b[1] * 0x1_0000 + b[2] * 0x100 + b[3]) as u32
}

/// The `u64` that the first eight bytes of `b` denote in big-endian order.
pub open spec fn from_be64(b: Seq<u8>) -> u64 {
    (from_be32(b) * 0x1_0000_0000 + from_be32(b.subrange(4, 8))) as u64
}

/// A `TPM2B`: the `UINT16` byte count of `data`, then `data`.
pub open spec fn tpm2b(data: Seq<u8>) -> Seq<u8> {
    be16(data.len() as u16) + data
}

/// Reads a `TPM2B` from the front of `s`: the payload and the number of bytes
/// consumed, or `None` if `s` is too short for the count or for the payload.
pub open spec fn parse_tpm2b(s: Seq<u8>) -> Option<(Seq<u8>, int)> {
    if s.len() < 2 {
        None
    } else {
        let n = from_be16(s) as int;
        if s.len() - 2 < n {
            None
        } else {
            Some((s.subrange(2, 2 + n), 2 + n))
        }
    }
}

/// A `u16` read back from its encoding is the `u16` that was written, and
/// two bytes read as a `u16` encode back to themselves.
pub proof fn lemma_be16_round_trip(v: u16, b: Seq<u8>)
    ensures
        be16(v).len() == 2,
        from_be16(be16(v)) == v,
        b.len() == 2 ==> be16(from_be16(b)) == b,
{
    if b.len() == 2 {
        assert(be16(from_be16(b)) =~= b);
    }
}

/// A `u32` read back from its encoding is the `u32` that was written, and
/// four bytes read as a `u32` encode back to themselves.
pub proof fn lemma_be32_round_trip(v: u32, b: Seq<u8>)
    ensures
        be32(v).len() == 4,
        from_be32(be32(v)) == v,
        b.len() == 4 ==> be32(from_be32(b)) == b,
{
    assert(((v / 0x100_0000) * 0x100_0000 + ((v / 0x1_0000) % 0x100) * 0x1_0000 + ((v / 0x100)
        % 0x100) * 0x100 + v % 0x100) as u32 == v) by (bit_vector);
    if b.len() == 4 {
        let (b0, b1, b2, b3) = (b[0], b[1], b[2], b[3]);
        let x = from_be32(b);
        assert(x == (b0 as u32) * 0x100_0000 + (b1 as u32) * 0x1_0000 + (b2 as u32) * 0x100
            + (b3 as u32));
        assert(x == (b0 as u32) * 0x100_0000 + (b1 as u32) * 0x1_0000 + (b2 as u32) * 0x100
            + (b3 as u32) ==> (x / 0x100_0000) as u8 == b0 && ((x / 0x1_0000) % 0x100) as u8 == b1
            && ((x / 0x100) % 0x100) as u8 == b2 && (x % 0x100) as u8 == b3) by (bit_vector);
        assert(be32(from_be32(b)) =~= b);
    }
}

/// A `u64` read back from its encoding is the `u64` that was written.
pub proof fn lemma_be64_round_trip(v: u64)
    ensures
        be64(v).len() == 8,
        from_be64(be64(v)) == v,
{
    let hi = (v / 0x1_0000_0000) as u32;
    let lo = (v % 0x1_0000_0000) as u32;
    lemma_be32_round_trip(hi, Seq::empty());
    lemma_be32_round_trip(lo, Seq::empty());
    assert(be64(v).subrange(4, 8) =~= be32(lo));
    assert(from_be32(be64(v)) == from_be32(be32(hi)));
}

/// The bytes after a value's encoding are left for what follows: reading a
/// `TPM2B` from `tpm2b(d) + rest` yields `d` and consumes exactly its encoding.
pub proof fn lemma_tpm2b_round_trip(d: Seq<u8>, rest: Seq<u8>)
    requires
        d.len() <= 0xFFFF,
    ensures
        parse_tpm2b(tpm2b(d) + rest) == Some((d, tpm2b(d).len() as int)),
        tpm2b(d).len() == d.len() + 2,
{
    lemma_be16_round_trip(d.len() as u16, Seq::empty());
    let s = tpm2b(d) + rest;
    assert(from_be16(s) == from_be16(be16(d.len() as u16)));
    assert(s.subrange(2, 2 + d.len() as int) =~= d);
}

/// Every primitive read back from its encoding, whatever follows it, is the
/// value that was written, and consumes exactly its width.
pub proof fn lemma_primitives_round_trip(a: u8, b: u16, c: u32, d: u64, rest: Seq<u8>)
    ensures
        <u8 as Unmarshal>::parse(a.encoding() + rest) == Some((a, 1int)),
        <u16 as Unmarshal>::parse(b.encoding() + rest) == Some((b, 2int)),
        <u32 as Unmarshal>::parse(c.encoding() + rest) == Some((c, 4int)),
        <u64 as Unmarshal>::parse(d.encoding() + rest) == Some((d, 8int)),
{
    lemma_be16_round_trip(b, Seq::empty());
    lemma_be32_round_trip(c, Seq::empty());
    lemma_be64_round_trip(d);
    assert(from_be16(be16(b) + rest) == from_be16(be16(b)));
    assert(from_be32(be32(c) + rest) == from_be32(be32(c)));
    let s = be64(d) + rest;
    assert(s.subrange(4, 8) =~= be64(d).subrange(4, 8));
    assert(from_be64(s) == from_be64(be64(d)));
}

/// A type that can be written in TPM canonical (big-endian) form.
pub trait Marshal {
    /// The canonical encoding of `self`.
    spec fn encoding(&self) -> Seq<u8>;

    /// Appends the canonical encoding of `self` to `out`.
    fn marshal(&self, out: &mut Vec<u8>)
        ensures
            final(out)@ == old(out)@ + self.encoding(),
    ;

    /// Marshals into a fresh vector.
    fn to_bytes(&self) -> (v: Vec<u8>)
        ensures
            v@ == self.encoding(),
    {
        let mut v = Vec::new();
        self.marshal(&mut v);
        assert(v@ =~= self.encoding());
        v
    }
}

/// A type that can be parsed from TPM canonical (big-endian) form.
pub trait Unmarshal: Sized + View {
    /// What reading a value from the front of `data` gives: the value's view
    /// and the number of bytes it occupies, or `None` if `data` holds none.
    spec fn parse(data: Seq<u8>) -> Option<(Self::V, int)>;

    /// How many bytes a read that fails on `data` has consumed before it
    /// failed: the fields read whole before the one that did not fit.
    spec fn failed_read_len(data: Seq<u8>) -> int;

    /// Reads one value from `r`, advancing it past the bytes consumed.
    fn unmarshal(r: &mut Reader<'_>) -> (res: Result<Self>)
        ensures
            final(r).buffer() == old(r).buffer(),
            final(r).position() + final(r).rest().len() == final(r).buffer().len(),
            match Self::parse(old(r).rest()) {
                Some((v, n)) => {
                    &&& res matches Ok(x) && x@ == v
                    &&& 0 <= n <= old(r).rest().len()
                    &&& final(r).rest() == old(r).rest().skip(n)
                    &&& final(r).position() == old(r).position() + n
                },
                None => {
                    let k = Self::failed_read_len(old(r).rest());
                    &&& res matches Err(e) && e is Malformed
                    &&& 0 <= k <= old(r).rest().len()
                    &&& final(r).rest() == old(r).rest().skip(k)
                    &&& final(r).position() == old(r).position() + k
                },
            },
    ;
}

/// A bounds-checked cursor over a TPM byte buffer.
///
/// Every read advances the position and fails with [`Error::Malformed`]
/// rather than panicking if the buffer is too short, so a truncated or
/// hostile response can never index out of bounds.
pub struct Reader<'a> {
    buf: &'a [u8],
    pos: usize,
}

impl<'a> Reader<'a> {
    #[verifier::type_invariant]
    spec fn inv(self) -> bool {
        self.pos <= self.buf@.len()
    }

    /// The bytes not yet read.
    pub closed spec fn rest(&self) -> Seq<u8> {
        self.buf@.subrange(self.pos as int, self.buf@.len() as int)
    }

    /// The current read offset from the start of the buffer.
    pub closed spec fn position(&self) -> nat {
        self.pos as nat
    }

    /// The whole buffer, read and unread.
    pub closed spec fn buffer(&self) -> Seq<u8> {
        self.buf@
    }

    /// Wraps `buf` in a reader positioned at its start.
    pub fn new(buf: &'a [u8]) -> (r: Self)
        ensures
            r.rest() == buf@,
            r.position() == 0,
            r.buffer() == buf@,
    {
        let r = Reader { buf, pos: 0 };
        assert(r.rest() =~= buf@);
        r
    }

    /// The number of unread bytes.
    pub fn remaining(&self) -> (n: usize)
        ensures
            n == self.rest().len(),
            self.position() + self.rest().len() == self.buffer().len(),
    {
        proof {
            use_type_invariant(self);
        }
        self.buf.len() - self.pos
    }

    /// The current read offset from the start of the buffer.
    pub fn pos(&self) -> (p: usize)
        ensures
            p == self.position(),
            self.position() + self.rest().len() == self.buffer().len(),
    {
        proof {
            use_type_invariant(self);
        }
        self.pos
    }

    /// `true` once every byte has been consumed.
    pub fn is_empty(&self) -> (b: bool)
        ensures
            b == (self.rest().len() == 0),
            b == (self.position() == self.buffer().len()),
    {
        self.remaining() == 0
    }

    /// Borrows the next `n` bytes without copying, advancing past them.
    pub fn take(&mut self, n: usize) -> (res: Result<&'a [u8]>)
        ensures
            final(self).buffer() == old(self).buffer(),
            final(self).position() + final(self).rest().len() == final(self).buffer().len(),
            res is Ok <==> n <= old(self).rest().len(),
            res matches Ok(s) ==> {
                &&& s@ == old(self).rest().take(n as int)
                &&& final(self).rest() == old(self).rest().skip(n as int)
                &&& final(self).position() == old(self).position() + n
            },
            res matches Err(e) ==> e is Malformed && final(self).rest() == old(self).rest()
                && final(self).position() == old(self).position(),
    {
        proof {
            use_type_invariant(&*self);
        }
        if self.buf.len() - self.pos < n {
            return Err(Error::Malformed("unexpected end of TPM buffer"));
        }
        let end = self.pos + n;
        let s = &self.buf[self.pos..end];
        self.pos = self.pos + n;
        assert(s@ =~= old(self).rest().take(n as int));
        assert(self.rest() =~= old(self).rest().skip(n as int));
        Ok(s)
    }

    /// Reads a single byte.
    pub fn u8(&mut self) -> (res: Result<u8>)
        ensures
            final(self).buffer() == old(self).buffer(),
            final(self).position() + final(self).rest().len() == final(self).buffer().len(),
            res is Ok <==> 1 <= old(self).rest().len(),
            res matches Ok(v) ==> {
                &&& v == old(self).rest()[0]
                &&& final(self).rest() == old(self).rest().skip(1)
                &&& final(self).position() == old(self).position() + 1
            },
            res matches Err(e) ==> e is Malformed && final(self).rest() == old(self).rest()
                && final(self).position() == old(self).position(),
    {
        match self.take(1) {
            Ok(b) => Ok(b[0]),
            Err(e) => Err(e),
        }
    }

    /// Reads a big-endian `u16`.
    pub fn u16(&mut self) -> (res: Result<u16>)
        ensures
            final(self).buffer() == old(self).buffer(),
            final(self).position() + final(self).rest().len() == final(self).buffer().len(),
            res is Ok <==> 2 <= old(self).rest().len(),
            res matches Ok(v) ==> {
                &&& v == from_be16(old(self).rest())
                &&& final(self).rest() == old(self).rest().skip(2)
                &&& final(self).position() == old(self).position() + 2
            },
            res matches Err(e) ==> e is Malformed && final(self).rest() == old(self).rest()
                && final(self).position() == old(self).position(),
    {
        match self.take(2) {
            Ok(b) => Ok((b[0] as u16) * 0x100 + b[1] as u16),
            Err(e) => Err(e),
        }
    }

    /// Reads a big-endian `u32`.
    pub fn u32(&mut self) -> (res: Result<u32>)
        ensures
            final(self).buffer() == old(self).buffer(),
            final(self).position() + final(self).rest().len() == final(self).buffer().len(),
            res is Ok <==> 4 <= old(self).rest().len(),
            res matches Ok(v) ==> {
                &&& v == from_be32(old(self).rest())
                &&& final(self).rest() == old(self).rest().skip(4)
                &&& final(self).position() == old(self).position() + 4
            },
            res matches Err(e) ==> e is Malformed && final(self).rest() == old(self).rest()
                && final(self).position() == old(self).position(),
    {
        match self.take(4) {
            Ok(b) => Ok((b[0] as u32) * 0x100_0000 + (b[1] as u32) * 0x1_0000 + (b[2] as u32)
                * 0x100 + b[3] as u32),
            Err(e) => Err(e),
        }
    }

    /// Reads a big-endian `u64`.
    pub fn u64(&mut self) -> (res: Result<u64>)
        ensures
            final(self).buffer() == old(self).buffer(),
            final(self).position() + final(self).rest().len() == final(self).buffer().len(),
            res is Ok <==> 8 <= old(self).rest().len(),
            res matches Ok(v) ==> {
                &&& v == from_be64(old(self).rest())
                &&& final(self).rest() == old(self).rest().skip(8)
                &&& final(self).position() == old(self).position() + 8
            },
            res matches Err(e) ==> e is Malformed && final(self).rest() == old(self).rest()
                && final(self).position() == old(self).position(),
    {
        match self.take(8) {
            Ok(b) => {
                let hi: u64 = (b[0] as u64) * 0x100_0000 + (b[1] as u64) * 0x1_0000 + (b[2] as u64)
                    * 0x100 + b[3] as u64;
                let lo: u64 = (b[4] as u64) * 0x100_0000 + (b[5] as u64) * 0x1_0000 + (b[6] as u64)
                    * 0x100 + b[7] as u64;
                assert(b@.subrange(4, 8)[0] == b@[4]);
                assert(b@.subrange(4, 8)[3] == b@[7]);
                Ok(hi * 0x1_0000_0000 + lo)
            },
            Err(e) => Err(e),
        }
    }

    /// Reads a `TPM2B`: a big-endian `UINT16` byte count followed by that many
    /// bytes, returned by reference.
    ///
    /// When the count is readable but the payload is short, the count has
    /// already been consumed.
    pub fn tpm2b(&mut self) -> (res: Result<&'a [u8]>)
        ensures
            final(self).buffer() == old(self).buffer(),
            final(self).position() + final(self).rest().len() == final(self).buffer().len(),
            match parse_tpm2b(old(self).rest()) {
                Some((d, n)) => {
                    &&& res matches Ok(s) && s@ == d
                    &&& final(self).rest() == old(self).rest().skip(n)
                    &&& final(self).position() == old(self).position() + n
                },
                None => {
                    &&& res matches Err(e) && e is Malformed
                    &&& old(self).rest().len() < 2 ==> final(self).rest() == old(self).rest()
                        && final(self).position() == old(self).position()
                    &&& old(self).rest().len() >= 2 ==> final(self).rest() == old(self).rest().skip(2)
                        && final(self).position() == old(self).position() + 2
                },
            },
    {
        let len = match self.u16() {
            Ok(l) => l as usize,
            Err(e) => return Err(e),
        };
        let ghost r1 = self.rest();
        let res = self.take(len);
        proof {
            assert(r1 =~= old(self).rest().skip(2));
            if res is Ok {
                assert(res->Ok_0@ =~= old(self).rest().subrange(2, 2 + len));
                assert(self.rest() =~= old(self).rest().skip(2 + len));
            }
        }
        res
    }
}

impl Marshal for u8 {
    open spec fn encoding(&self) -> Seq<u8> {
        seq![*self]
    }

    fn marshal(&self, out: &mut Vec<u8>) {
        out.push(*self);
        assert(out@ =~= old(out)@ + self.encoding());
    }
}

impl Marshal for u16 {
    open spec fn encoding(&self) -> Seq<u8> {
        be16(*self)
    }

    fn marshal(&self, out: &mut Vec<u8>) {
        out.push((*self / 0x100) as u8);
        out.push((*self % 0x100) as u8);
        assert(out@ =~= old(out)@ + self.encoding());
    }
}

impl Marshal for u32 {
    open spec fn encoding(&self) -> Seq<u8> {
        be32(*self)
    }

    fn marshal(&self, out: &mut Vec<u8>) {
        let v = *self;
        out.push((v / 0x100_0000) as u8);
        out.push(((v / 0x1_0000) % 0x100) as u8);
        out.push(((v / 0x100) % 0x100) as u8);
        out.push((v % 0x100) as u8);
        assert(out@ =~= old(out)@ + self.encoding());
    }
}

impl Marshal for u64 {
    open spec fn encoding(&self) -> Seq<u8> {
        be64(*self)
    }

    fn marshal(&self, out: &mut Vec<u8>) {
        let hi = (*self / 0x1_0000_0000) as u32;
        let lo = (*self % 0x1_0000_0000) as u32;
        hi.marshal(out);
        lo.marshal(out);
        assert(out@ =~= old(out)@ + self.encoding());
    }
}

impl Unmarshal for u8 {
    /// A fixed-size read that fails consumes nothing.
    open spec fn failed_read_len(data: Seq<u8>) -> int {
        0
    }

    open spec fn parse(data: Seq<u8>) -> Option<(u8, int)> {
        if data.len() >= 1 {
            Some((data[0], 1))
        } else {
            None
        }
    }

    fn unmarshal(r: &mut Reader<'_>) -> (res: Result<u8>) {
        r.u8()
    }
}

impl Unmarshal for u16 {
    /// A fixed-size read that fails consumes nothing.
    open spec fn failed_read_len(data: Seq<u8>) -> int {
        0
    }

    open spec fn parse(data: Seq<u8>) -> Option<(u16, int)> {
        if data.len() >= 2 {
            Some((from_be16(data), 2))
        } else {
            None
        }
    }

    fn unmarshal(r: &mut Reader<'_>) -> (res: Result<u16>) {
        r.u16()
    }
}

impl Unmarshal for u32 {
    /// A fixed-size read that fails consumes nothing.
    open spec fn failed_read_len(data: Seq<u8>) -> int {
        0
    }

    open spec fn parse(data: Seq<u8>) -> Option<(u32, int)> {
        if data.len() >= 4 {
            Some((from_be32(data), 4))
        } else {
            None
        }
    }

    fn unmarshal(r: &mut Reader<'_>) -> (res: Result<u32>) {
        r.u32()
    }
}

impl Unmarshal for u64 {
    /// A fixed-size read that fails consumes nothing.
    open spec fn failed_read_len(data: Seq<u8>) -> int {
        0
    }

    open spec fn parse(data: Seq<u8>) -> Option<(u64, int)> {
        if data.len() >= 8 {
            Some((from_be64(data), 8))
        } else {
            None
        }
    }

    fn unmarshal(r: &mut Reader<'_>) -> (res: Result<u64>) {
        r.u64()
    }
}

/// Marshals a `TPM2B`: a `UINT16` length prefix followed by `data`.
///
/// Returns [`Error::Malformed`], writing nothing, if `data` is longer than a
/// `UINT16` can describe (65535 bytes), the structural limit of every `TPM2B`.
pub fn marshal_tpm2b(data: &[u8], out: &mut Vec<u8>) -> (res: Result<()>)
    ensures
        res is Ok <==> data@.len() <= 0xFFFF,
        res is Ok ==> final(out)@ == old(out)@ + tpm2b(data@),
        res matches Err(e) ==> e is Malformed && final(out)@ == old(out)@,
{
    if data.len() > 0xFFFF {
        return Err(Error::Malformed("TPM2B exceeds 65535 bytes"));
    }
    let len = data.len() as u16;
    len.marshal(out);
    let ghost mid = out@;
    out.extend_from_slice(data);
    assert(out@ =~= old(out)@ + tpm2b(data@));
    Ok(())
}

} // verus!
