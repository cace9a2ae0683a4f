//! The TPM structure subset this crate models (Part 2, §10-12).
//!
//! * `TPM2B_*` buffers are [`Buffer`]: a length-prefixed byte vector. Digests,
//!   private blobs, Names, auth values and sealed data are all `Buffer`s;
//!   their meaning comes from context.
//! * `TPMT_PUBLIC` is marshal-only: public-area templates are built and sent,
//!   and every command that returns one also returns the object's Name and a
//!   re-loadable `TPM2B_PUBLIC` blob, kept verbatim as a `Buffer`.
use vstd::prelude::*;

use crate::error::{Error, Result};
use crate::marshal::{
    Marshal, Reader, Unmarshal, be16, be32, from_be16, from_be32, lemma_be16_round_trip,
    lemma_be32_round_trip, lemma_tpm2b_round_trip, marshal_tpm2b, parse_tpm2b, tpm2b,
};
use crate::types::attributes::{ObjectAttributes, SessionAttributes};
use crate::types::handles::Handle;
use crate::types::constants::Alg;

pub mod ecc_curve;

verus! {

/// What a `TPM2B` marshaller that cannot fail writes: the `TPM2B` of `d`
/// when its length fits a `UINT16`, and nothing otherwise.
pub open spec fn tpm2b_or_nothing(d: Seq<u8>) -> Seq<u8> {
    if d.len() <= 0xFFFF {
        tpm2b(d)
    } else {
        Seq::empty()
    }
}

/// A `TPM2B_*` buffer: a `UINT16`-length-prefixed byte string.
#[derive(Clone, Default, PartialEq, Eq, Debug)]
pub struct Buffer(pub Vec<u8>);

impl View for Buffer {
    type V = Seq<u8>;

    open spec fn view(&self) -> Seq<u8> {
        self.0@
    }
}

impl Buffer {
    /// An empty buffer (marshals as the two bytes `00 00`).
    pub fn empty() -> (b: Self)
        ensures
            b@ == Seq::<u8>::empty(),
    {
        Buffer(Vec::new())
    }

    /// Borrows the contained bytes.
    pub fn as_slice(&self) -> (s: &[u8])
        ensures
            s@ == self@,
    {
        self.0.as_slice()
    }

    /// Consumes the buffer, yielding its bytes.
    pub fn into_vec(self) -> (v: Vec<u8>)
        ensures
            v@ == self@,
    {
        self.0
    }

    /// The byte length.
    pub fn len(&self) -> (n: usize)
        ensures
            n == self@.len(),
    {
        self.0.len()
    }

    /// Whether the buffer is empty.
    pub fn is_empty(&self) -> (b: bool)
        ensures
            b == (self@.len() == 0),
    {
        self.0.len() == 0
    }
}

impl From<Vec<u8>> for Buffer {
    fn from(v: Vec<u8>) -> (b: Buffer) {
        Buffer(v)
    }
}

impl vstd::std_specs::convert::FromSpecImpl<Vec<u8>> for Buffer {
    open spec fn obeys_from_spec() -> bool {
        true
    }

    open spec fn from_spec(v: Vec<u8>) -> Buffer {
        Buffer(v)
    }
}

impl<'a> From<&'a [u8]> for Buffer {
    /// Copies the bytes of `v`.
    fn from(v: &'a [u8]) -> (b: Buffer)
        ensures
            b@ == v@,
    {
        Buffer(vstd::slice::slice_to_vec(v))
    }
}

impl<'a> vstd::std_specs::convert::FromSpecImpl<&'a [u8]> for Buffer {
    /// A copy is a fresh vector, so no single spec value stands for it; the
    /// conversion states what it keeps in its own `ensures`.
    open spec fn obeys_from_spec() -> bool {
        false
    }

    open spec fn from_spec(v: &'a [u8]) -> Buffer {
        vstd::pervasive::arbitrary()
    }
}

impl Marshal for Buffer {
    open spec fn encoding(&self) -> Seq<u8> {
        tpm2b_or_nothing(self@)
    }

    /// A buffer longer than a `UINT16` can describe writes nothing; building
    /// one is a usage bug caught where the buffer is made.
    fn marshal(&self, out: &mut Vec<u8>) {
        let _ = marshal_tpm2b(self.0.as_slice(), out);
    }
}

impl Unmarshal for Buffer {
    /// A `TPM2B` whose payload is short has consumed its size field.
    open spec fn failed_read_len(data: Seq<u8>) -> int {
        if data.len() >= 2 {
            2
        } else {
            0
        }
    }

    open spec fn parse(data: Seq<u8>) -> Option<(Seq<u8>, int)> {
        parse_tpm2b(data)
    }

    fn unmarshal(r: &mut Reader<'_>) -> (res: Result<Buffer>) {
        match r.tpm2b() {
            Ok(s) => Ok(Buffer(vstd::slice::slice_to_vec(s))),
            Err(e) => Err(e),
        }
    }
}

/// A buffer that fits a `TPM2B` reads back from its encoding unchanged,
/// whatever follows it; one that does not fit marshals to nothing.
pub proof fn lemma_buffer_round_trip(b: Buffer, rest: Seq<u8>)
    ensures
        b@.len() <= 0xFFFF ==> Buffer::parse(b.encoding() + rest) == Some(
            (b@, b@.len() + 2int),
        ),
        b@.len() > 0xFFFF ==> b.encoding() == Seq::<u8>::empty(),
{
    if b@.len() <= 0xFFFF {
        lemma_tpm2b_round_trip(b@, rest);
    }
}

/// An algorithm id, a handle and both attribute sets read back from their
/// encodings, whatever follows, are the values written.
pub proof fn lemma_scalars_round_trip(
    a: Alg,
    h: Handle,
    o: ObjectAttributes,
    s: SessionAttributes,
    rest: Seq<u8>,
)
    ensures
        Alg::parse(a.encoding() + rest) == Some((a, 2int)),
        Handle::parse(h.encoding() + rest) == Some((h, 4int)),
        ObjectAttributes::parse(o.encoding() + rest) == Some((o, 4int)),
        SessionAttributes::parse(s.encoding() + rest) == Some((s, 1int)),
{
    lemma_be16_round_trip(a.0, Seq::empty());
    lemma_be32_round_trip(h.0, Seq::empty());
    lemma_be32_round_trip(o.0, Seq::empty());
    assert(from_be16(be16(a.0) + rest) == from_be16(be16(a.0)));
    assert(from_be32(be32(h.0) + rest) == from_be32(be32(h.0)));
    assert(from_be32(be32(o.0) + rest) == from_be32(be32(o.0)));
}

/// The `TPM_ALG_NULL` value.
pub open spec fn alg_null() -> Alg {
    Alg(0x0010)
}

/// `TPMT_SYM_DEF_OBJECT`: the symmetric algorithm of a storage key's child
/// protection (Part 2, §11.1.7).
#[derive(Clone, Copy, Debug, PartialEq, Eq, Structural)]
pub struct SymDefObject {
    /// The symmetric algorithm (`TPM_ALG_AES`, or `TPM_ALG_NULL` for none).
    pub algorithm: Alg,
    /// Key size in bits (ignored when `algorithm` is `NULL`).
    pub key_bits: u16,
    /// Block-cipher mode (ignored when `algorithm` is `NULL`).
    pub mode: Alg,
}

impl SymDefObject {
    /// AES-128 in CFB mode: the standard child-protection cipher for a
    /// storage parent.
    pub fn aes128_cfb() -> (s: Self)
        ensures
            s == (SymDefObject { algorithm: Alg(0x0006), key_bits: 128, mode: Alg(0x0043) }),
    {
        SymDefObject { algorithm: Alg::AES(), key_bits: 128, mode: Alg::CFB() }
    }

    /// No symmetric algorithm (`TPM_ALG_NULL`).
    pub fn null() -> (s: Self)
        ensures
            s == (SymDefObject { algorithm: Alg(0x0010), key_bits: 0, mode: Alg(0x0010) }),
    {
        SymDefObject { algorithm: Alg::NULL(), key_bits: 0, mode: Alg::NULL() }
    }
}

impl Marshal for SymDefObject {
    /// The algorithm, then (unless it is `NULL`) the key size and mode.
    open spec fn encoding(&self) -> Seq<u8> {
        if self.algorithm != alg_null() {
            be16(self.algorithm.0) + be16(self.key_bits) + be16(self.mode.0)
        } else {
            be16(self.algorithm.0)
        }
    }

    fn marshal(&self, out: &mut Vec<u8>) {
        self.algorithm.marshal(out);
        if self.algorithm != Alg::NULL() {
            self.key_bits.marshal(out);
            self.mode.marshal(out);
        }
        assert(out@ =~= old(out)@ + self.encoding());
    }
}

/// The algorithm-specific parameters of a `TPMT_PUBLIC` (`TPMU_PUBLIC_PARMS`),
/// modelled only for the object types this crate creates.
#[derive(Clone, Debug, PartialEq, Eq, Structural)]
pub enum PublicParms {
    /// `TPMS_KEYEDHASH_PARMS`. `scheme` is `TPM_ALG_NULL` for a sealed data
    /// object.
    KeyedHash {
        /// The keyed-hash scheme selector; `NULL` for sealed data.
        scheme: Alg,
    },
    /// `TPMS_ECC_PARMS` for a (restricted) ECC storage key.
    Ecc {
        /// Symmetric child-protection cipher.
        symmetric: SymDefObject,
        /// Key-use scheme (`NULL` for a storage key).
        scheme: Alg,
        /// `TPM_ECC_CURVE` (see [`ecc_curve`]).
        curve: u16,
        /// KDF scheme (`NULL`).
        kdf: Alg,
    },
}

impl Marshal for PublicParms {
    /// A keyed-hash object carries just its scheme selector; an ECC key its
    /// symmetric definition, scheme, curve and KDF, in that order.
    open spec fn encoding(&self) -> Seq<u8> {
        match self {
            PublicParms::KeyedHash { scheme } => be16(scheme.0),
            PublicParms::Ecc { symmetric, scheme, curve, kdf } => symmetric.encoding() + be16(
                scheme.0,
            ) + be16(*curve) + be16(kdf.0),
        }
    }

    fn marshal(&self, out: &mut Vec<u8>) {
        match self {
            PublicParms::KeyedHash { scheme } => {
                scheme.marshal(out);
            },
            PublicParms::Ecc { symmetric, scheme, curve, kdf } => {
                symmetric.marshal(out);
                scheme.marshal(out);
                curve.marshal(out);
                kdf.marshal(out);
            },
        }
        assert(out@ =~= old(out)@ + self.encoding());
    }
}

/// The unique/identity field of a `TPMT_PUBLIC` (`TPMU_PUBLIC_ID`). For a
/// freshly created object the TPM fills this in, so the empty form is sent.
#[derive(Clone, Debug, PartialEq, Eq)]
pub enum PublicId {
    /// `TPM2B_DIGEST` unique value for a keyed-hash / symmetric object.
    KeyedHash(Buffer),
    /// `TPMS_ECC_POINT` (`x`, `y`) for an ECC key.
    Ecc {
        /// X coordinate.
        x: Buffer,
        /// Y coordinate.
        y: Buffer,
    },
}

impl Marshal for PublicId {
    open spec fn encoding(&self) -> Seq<u8> {
        match self {
            PublicId::KeyedHash(d) => d.encoding(),
            PublicId::Ecc { x, y } => x.encoding() + y.encoding(),
        }
    }

    fn marshal(&self, out: &mut Vec<u8>) {
        match self {
            PublicId::KeyedHash(d) => d.marshal(out),
            PublicId::Ecc { x, y } => {
                x.marshal(out);
                y.marshal(out);
            },
        }
        assert(out@ =~= old(out)@ + self.encoding());
    }
}

/// `TPMT_PUBLIC`: the public area of an object (Part 2, §12.2.4).
///
/// Build-only; [`Public::wrap_2b`] emits the `TPM2B_PUBLIC` (size-prefixed)
/// form that commands expect.
#[derive(Clone, Debug, PartialEq, Eq)]
pub struct Public {
    /// Object type (`TPM_ALG_KEYEDHASH`, `TPM_ALG_ECC`, ...).
    pub type_: Alg,
    /// Name algorithm: the hash that computes this object's Name.
    pub name_alg: Alg,
    /// Object attributes (`TPMA_OBJECT`).
    pub attributes: ObjectAttributes,
    /// Authorization policy digest (`TPM2B_DIGEST`; empty for none).
    pub auth_policy: Buffer,
    /// Algorithm parameters.
    pub parameters: PublicParms,
    /// Unique/identity field (sent empty when creating).
    pub unique: PublicId,
}

impl Marshal for Public {
    /// Type, name algorithm, attributes, policy, parameters, unique: in order.
    open spec fn encoding(&self) -> Seq<u8> {
        be16(self.type_.0) + be16(self.name_alg.0) + be32(self.attributes.0)
            + self.auth_policy.encoding() + self.parameters.encoding() + self.unique.encoding()
    }

    fn marshal(&self, out: &mut Vec<u8>) {
        self.type_.marshal(out);
        self.name_alg.marshal(out);
        self.attributes.marshal(out);
        self.auth_policy.marshal(out);
        self.parameters.marshal(out);
        self.unique.marshal(out);
        assert(out@ =~= old(out)@ + self.encoding());
    }
}

impl Public {
    /// Emits the `TPM2B_PUBLIC` form: a `UINT16` size prefix over the
    /// marshalled `TPMT_PUBLIC` (nothing, should it exceed 65535 bytes).
    pub fn wrap_2b(&self, out: &mut Vec<u8>)
        ensures
            final(out)@ == old(out)@ + tpm2b_or_nothing(self.encoding()),
    {
        let inner = self.to_bytes();
        let _ = marshal_tpm2b(inner.as_slice(), out);
    }

    /// A restricted ECC (P-256) storage-parent template with AES-128-CFB
    /// child protection, authorised by its auth value.
    pub fn ecc_storage_parent(name_alg: Alg) -> (p: Self)
        ensures
            p.type_ == Alg(0x0023),
            p.name_alg == name_alg,
            p.attributes == ObjectAttributes(0x0003_0072),
            p.auth_policy@ == Seq::<u8>::empty(),
            p.parameters == (PublicParms::Ecc {
                symmetric: SymDefObject { algorithm: Alg(0x0006), key_bits: 128, mode: Alg(0x0043) },
                scheme: Alg(0x0010),
                curve: 0x0003,
                kdf: Alg(0x0010),
            }),
            p.unique matches PublicId::Ecc { x, y } && x@ == Seq::<u8>::empty() && y@
                == Seq::<u8>::empty(),
    {
        Public {
            type_: Alg::ECC(),
            name_alg,
            attributes: ObjectAttributes::storage_parent(),
            auth_policy: Buffer::empty(),
            parameters: PublicParms::Ecc {
                symmetric: SymDefObject::aes128_cfb(),
                scheme: Alg::NULL(),
                curve: ecc_curve::NIST_P256,
                kdf: Alg::NULL(),
            },
            unique: PublicId::Ecc { x: Buffer::empty(), y: Buffer::empty() },
        }
    }

    /// A sealed-data (`keyedhash`, no scheme) template, authorised by its auth
    /// value. The data to seal is supplied separately via [`SensitiveCreate`].
    pub fn sealed_data(name_alg: Alg) -> (p: Self)
        ensures
            p.type_ == Alg(0x0008),
            p.name_alg == name_alg,
            p.attributes == ObjectAttributes(0x0000_0052),
            p.auth_policy@ == Seq::<u8>::empty(),
            p.parameters == (PublicParms::KeyedHash { scheme: Alg(0x0010) }),
            p.unique matches PublicId::KeyedHash(d) && d@ == Seq::<u8>::empty(),
    {
        Public {
            type_: Alg::KEYEDHASH(),
            name_alg,
            attributes: ObjectAttributes::sealed_data(),
            auth_policy: Buffer::empty(),
            parameters: PublicParms::KeyedHash { scheme: Alg::NULL() },
            unique: PublicId::KeyedHash(Buffer::empty()),
        }
    }
}

/// `TPMS_SENSITIVE_CREATE`: the caller-supplied secret half at creation, an
/// auth value and (for sealed data) the data to protect.
#[derive(Clone, Debug, Default, PartialEq, Eq)]
pub struct SensitiveCreate {
    /// The object's auth value (`TPM2B_AUTH`).
    pub user_auth: Buffer,
    /// Externally supplied sensitive data (`TPM2B_SENSITIVE_DATA`); empty for
    /// keys whose secret the TPM generates.
    pub data: Buffer,
}

impl SensitiveCreate {
    /// The marshalled `TPMS_SENSITIVE_CREATE`: the auth value, then the data.
    pub open spec fn inner_encoding(&self) -> Seq<u8> {
        self.user_auth.encoding() + self.data.encoding()
    }

    /// Emits the `TPM2B_SENSITIVE_CREATE` form: a `UINT16` size prefix over
    /// the marshalled `TPMS_SENSITIVE_CREATE` (nothing, should it exceed
    /// 65535 bytes).
    pub fn wrap_2b(&self, out: &mut Vec<u8>)
        ensures
            final(out)@ == old(out)@ + tpm2b_or_nothing(self.inner_encoding()),
    {
        let mut inner = Vec::new();
        self.user_auth.marshal(&mut inner);
        self.data.marshal(&mut inner);
        assert(inner@ =~= self.inner_encoding());
        let _ = marshal_tpm2b(inner.as_slice(), out);
    }
}

/// The encoding of one `TPMS_PCR_SELECTION`: the bank, the bitmap's byte
/// count (as a `UINT8`, so modulo 256), then the bitmap.
pub open spec fn pcr_selection_bytes(hash: Alg, select: Seq<u8>) -> Seq<u8> {
    be16(hash.0) + seq![(select.len() % 0x100) as u8] + select
}

/// Reads one `TPMS_PCR_SELECTION` from the front of `d`.
pub open spec fn parse_pcr_selection(d: Seq<u8>) -> Option<((Alg, Seq<u8>), int)> {
    if d.len() < 3 {
        None
    } else {
        let n = d[2] as int;
        if d.len() - 3 < n {
            None
        } else {
            Some(((Alg(from_be16(d)), d.subrange(3, 3 + n)), 3 + n))
        }
    }
}

/// One `TPMS_PCR_SELECTION`: a bank (`hash`) plus a bitmap selecting PCRs.
#[derive(Clone, Debug, PartialEq, Eq)]
pub struct PcrSelection {
    /// The PCR bank's hash algorithm.
    pub hash: Alg,
    /// The selection bitmap; PCR *n* is bit `n & 7` of byte `n >> 3`.
    pub select: Vec<u8>,
}

impl View for PcrSelection {
    type V = (Alg, Seq<u8>);

    open spec fn view(&self) -> (Alg, Seq<u8>) {
        (self.hash, self.select@)
    }
}

/// The bitmap that selects exactly PCR `pcr`: at least the standard three
/// bytes (24 PCRs), long enough to hold bit `pcr`, with only that bit set.
pub open spec fn single_pcr_bitmap(pcr: u8) -> Seq<u8> {
    let byte = (pcr / 8) as int;
    let len = if byte + 1 < 3 {
        3
    } else {
        byte + 1
    };
    Seq::new(
        len as nat,
        |i: int|
            if i == byte {
                (1u8 << (pcr % 8)) as u8
            } else {
                0u8
            },
    )
}

/// The single-PCR bitmap has the standard shape (at least three bytes),
/// sets exactly bit `pcr % 8` of byte `pcr / 8`, and clears every other byte.
pub proof fn lemma_single_pcr_bitmap(pcr: u8)
    ensures
        single_pcr_bitmap(pcr).len() >= 3,
        single_pcr_bitmap(pcr).len() == (if pcr < 16 { 3 } else { pcr / 8 + 1 }),
        single_pcr_bitmap(pcr)[(pcr / 8) as int] & (1u8 << (pcr % 8)) != 0,
        forall|i: int|
            0 <= i < single_pcr_bitmap(pcr).len() && i != (pcr / 8) as int ==> #[trigger] single_pcr_bitmap(pcr)[i] == 0,
{
    let m = pcr % 8;
    assert(m < 8 ==> (1u8 << m) & (1u8 << m) != 0) by (bit_vector);
}

impl PcrSelection {
    /// Builds a selection over a single PCR index in the given bank.
    pub fn single(hash: Alg, pcr: u8) -> (s: Self)
        ensures
            s.hash == hash,
            s.select@ == single_pcr_bitmap(pcr),
    {
        let byte = (pcr / 8) as usize;
        // The TPM expects at least the standard 3-byte (24-PCR) map shape.
        let len: usize = if byte + 1 < 3 {
            3
        } else {
            byte + 1
        };
        let mut select: Vec<u8> = Vec::new();
        let mut i: usize = 0;
        while i < len
            invariant
                i <= len,
                select@.len() == i,
                forall|j: int| 0 <= j < i ==> select@[j] == 0,
            decreases len - i,
        {
            select.push(0);
            i = i + 1;
        }
        select.set(byte, 1u8 << (pcr % 8));
        assert(select@ =~= single_pcr_bitmap(pcr));
        PcrSelection { hash, select }
    }
}

impl Marshal for PcrSelection {
    open spec fn encoding(&self) -> Seq<u8> {
        pcr_selection_bytes(self.hash, self.select@)
    }

    fn marshal(&self, out: &mut Vec<u8>) {
        self.hash.marshal(out);
        ((self.select.len() % 0x100) as u8).marshal(out);
        out.extend_from_slice(self.select.as_slice());
        assert(out@ =~= old(out)@ + self.encoding());
    }
}

impl Unmarshal for PcrSelection {
    open spec fn failed_read_len(data: Seq<u8>) -> int {
        pcr_selection_failed_len(data)
    }

    open spec fn parse(data: Seq<u8>) -> Option<((Alg, Seq<u8>), int)> {
        parse_pcr_selection(data)
    }

    fn unmarshal(r: &mut Reader<'_>) -> (res: Result<PcrSelection>) {
        let ghost d = r.rest();
        let hash = match Alg::unmarshal(r) {
            Ok(h) => h,
            Err(e) => {
                assert(<Alg as Unmarshal>::parse(d) is None);
                assert(<PcrSelection as Unmarshal>::parse(d) is None);
                assert(d.skip(0) =~= d);
                return Err(e);
            },
        };
        assert(<Alg as Unmarshal>::parse(d) is Some);
        assert(d.len() >= 2 && r.rest() == d.skip(2));
        let size = match r.u8() {
            Ok(s) => s as usize,
            Err(e) => {
                assert(parse_pcr_selection(d) is None);
                assert(<PcrSelection as Unmarshal>::parse(d) is None);
                assert(d.len() == 2);
                assert(<PcrSelection as Unmarshal>::failed_read_len(d) == 2);
                return Err(e);
            },
        };
        assert(d.len() >= 3 && size == d[2] && r.rest() =~= d.skip(3));
        let select = match r.take(size) {
            Ok(s) => vstd::slice::slice_to_vec(s),
            Err(e) => {
                assert(parse_pcr_selection(d) is None);
                assert(<PcrSelection as Unmarshal>::parse(d) is None);
                return Err(e);
            },
        };
        proof {
            assert(d.skip(2)[0] == d[2]);
            assert(select@ =~= d.subrange(3, 3 + size));
            assert(r.rest() =~= d.skip(3 + size));
            assert(<PcrSelection as Unmarshal>::parse(d) == Some(((hash, select@), 3 + size)));
        }
        Ok(PcrSelection { hash, select })
    }
}

/// How many bytes a PCR selection read that fails on `d` has consumed: the
/// hash algorithm if it was read, and the bitmap size if that was too.
pub open spec fn pcr_selection_failed_len(d: Seq<u8>) -> int {
    if d.len() < 2 {
        0
    } else if d.len() < 3 {
        2
    } else {
        3
    }
}

/// How many bytes reading `k` PCR selections from `d` consumes before the
/// first one that fails: the selections read whole, then what the failing
/// one consumed.
pub open spec fn pcr_selections_failed_len(d: Seq<u8>, k: nat) -> int
    decreases k,
{
    if k == 0 {
        0
    } else {
        match parse_pcr_selection(d) {
            None => pcr_selection_failed_len(d),
            Some((_, n)) => n + pcr_selections_failed_len(d.skip(n), (k - 1) as nat),
        }
    }
}

/// The concatenated encodings of a sequence of PCR selections.
pub open spec fn pcr_selections_bytes(s: Seq<(Alg, Seq<u8>)>) -> Seq<u8>
    decreases s.len(),
{
    if s.len() == 0 {
        Seq::empty()
    } else {
        pcr_selection_bytes(s[0].0, s[0].1) + pcr_selections_bytes(s.drop_first())
    }
}

/// Reads `k` PCR selections, one after the other, from the front of `d`.
pub open spec fn parse_pcr_selections(d: Seq<u8>, k: nat) -> Option<(Seq<(Alg, Seq<u8>)>, int)>
    decreases k,
{
    if k == 0 {
        Some((Seq::empty(), 0))
    } else {
        match parse_pcr_selection(d) {
            None => None,
            Some((v, n)) => match parse_pcr_selections(d.skip(n), (k - 1) as nat) {
                None => None,
                Some((vs, m)) => Some((seq![v] + vs, n + m)),
            },
        }
    }
}

/// `TPML_PCR_SELECTION`: a counted list of [`PcrSelection`]s.
#[derive(Clone, Debug, Default, PartialEq, Eq)]
pub struct PcrSelectionList(pub Vec<PcrSelection>);

impl View for PcrSelectionList {
    type V = Seq<(Alg, Seq<u8>)>;

    open spec fn view(&self) -> Seq<(Alg, Seq<u8>)> {
        self.0@.map_values(|s: PcrSelection| s@)
    }
}

impl Marshal for PcrSelectionList {
    /// The count (as a `UINT32`, so modulo 2^32), then each selection.
    open spec fn encoding(&self) -> Seq<u8> {
        be32((self.0@.len() % 0x1_0000_0000) as u32) + pcr_selections_bytes(self@)
    }

    fn marshal(&self, out: &mut Vec<u8>) {
        let n = self.0.len() as u64;
        ((n % 0x1_0000_0000) as u32).marshal(out);
        let ghost start = out@;
        assert(self@.skip(0) =~= self@);
        let mut i: usize = 0;
        while i < self.0.len()
            invariant
                i <= self.0@.len(),
                out@ + pcr_selections_bytes(self@.skip(i as int)) == start
                    + pcr_selections_bytes(self@),
            decreases self.0@.len() - i,
        {
            let ghost before = out@;
            self.0[i].marshal(out);
            proof {
                let s = self@.skip(i as int);
                assert(s[0] == self.0@[i as int]@);
                assert(s.drop_first() =~= self@.skip(i + 1));
                assert(out@ + pcr_selections_bytes(self@.skip(i + 1)) =~= before
                    + pcr_selections_bytes(s));
            }
            i = i + 1;
        }
        proof {
            assert(self@.skip(i as int) =~= Seq::<(Alg, Seq<u8>)>::empty());
            assert(out@ =~= old(out)@ + self.encoding());
        }
    }
}

impl Unmarshal for PcrSelectionList {
    /// A list that fails has consumed its count, the selections read whole
    /// and the fields read of the one that failed.
    open spec fn failed_read_len(data: Seq<u8>) -> int {
        if data.len() < 4 {
            0
        } else {
            4 + pcr_selections_failed_len(data.skip(4), from_be32(data) as nat)
        }
    }

    open spec fn parse(data: Seq<u8>) -> Option<(Seq<(Alg, Seq<u8>)>, int)> {
        if data.len() < 4 {
            None
        } else {
            match parse_pcr_selections(data.skip(4), from_be32(data) as nat) {
                None => None,
                Some((vs, m)) => Some((vs, 4 + m)),
            }
        }
    }

    fn unmarshal(r: &mut Reader<'_>) -> (res: Result<PcrSelectionList>) {
        let ghost d = r.rest();
        let count = match r.u32() {
            Ok(c) => c,
            Err(e) => return Err(e),
        };
        let ghost d4 = r.rest();
        let mut v: Vec<PcrSelection> = Vec::new();
        let mut i: u32 = 0;
        while i < count
            invariant
                i <= count,
                d == old(r).rest(),
                d.len() >= 4,
                count == from_be32(d),
                r.rest().len() <= d4.len(),
                d4 == d.skip(4),
                r.rest() == d4.skip(d4.len() - r.rest().len()),
                r.position() == old(r).position() + 4 + (d4.len() - r.rest().len()),
                r.buffer() == old(r).buffer(),
                r.position() + r.rest().len() == r.buffer().len(),
                ({
                    let got = v@.map_values(|s: PcrSelection| s@);
                    let used = d4.len() - r.rest().len();
                    match parse_pcr_selections(r.rest(), (count - i) as nat) {
                        None => parse_pcr_selections(d4, count as nat) is None
                            && pcr_selections_failed_len(d4, count as nat) == used
                            + pcr_selections_failed_len(r.rest(), (count - i) as nat),
                        Some((vs, m)) => parse_pcr_selections(d4, count as nat) == Some(
                            (got + vs, used + m),
                        ),
                    }
                }),
            decreases count - i,
        {
            let ghost before = r.rest();
            let ghost got0 = v@.map_values(|s: PcrSelection| s@);
            let s = match PcrSelection::unmarshal(r) {
                Ok(s) => s,
                Err(e) => {
                    assert(parse_pcr_selections(before, (count - i) as nat) is None);
                    assert(pcr_selections_failed_len(before, (count - i) as nat)
                        == pcr_selection_failed_len(before));
                    assert(r.rest() =~= d.skip(
                        <PcrSelectionList as Unmarshal>::failed_read_len(d),
                    ));
                    return Err(e);
                },
            };
            v.push(s);
            proof {
                let got = v@.map_values(|s: PcrSelection| s@);
                assert(got =~= got0.push(s@));
                let (sv, n) = parse_pcr_selection(before).unwrap();
                assert(before.skip(n) =~= r.rest());
                assert(r.rest() =~= d4.skip(d4.len() - r.rest().len()));
                match parse_pcr_selections(r.rest(), (count - i - 1) as nat) {
                    None => {},
                    Some((vs, m)) => {
                        assert(got + vs =~= got0 + (seq![sv] + vs));
                    },
                }
            }
            i = i + 1;
        }
        proof {
            let got = v@.map_values(|s: PcrSelection| s@);
            assert(r.rest() =~= d.skip(4 + (d4.len() - r.rest().len())));
        }
        Ok(PcrSelectionList(v))
    }
}

/// A PCR selection read back from its encoding is the selection that was
/// written, whatever follows it, provided its bitmap length fits the `UINT8`
/// count.
pub proof fn lemma_pcr_selection_round_trip(hash: Alg, select: Seq<u8>, rest: Seq<u8>)
    requires
        select.len() <= 0xFF,
    ensures
        parse_pcr_selection(pcr_selection_bytes(hash, select) + rest) == Some(
            ((hash, select), 3 + select.len() as int),
        ),
        pcr_selection_bytes(hash, select).len() == 3 + select.len(),
{
    lemma_be16_round_trip(hash.0, Seq::empty());
    let d = pcr_selection_bytes(hash, select) + rest;
    assert(d[2] as int == select.len());
    assert(from_be16(d) == from_be16(be16(hash.0)));
    assert(d.subrange(3, 3 + select.len() as int) =~= select);
}

/// A sequence of PCR selections read back from its encoding is the sequence
/// that was written, whatever follows it.
pub proof fn lemma_pcr_selections_round_trip(s: Seq<(Alg, Seq<u8>)>, rest: Seq<u8>)
    requires
        forall|i: int| 0 <= i < s.len() ==> (#[trigger] s[i]).1.len() <= 0xFF,
    ensures
        parse_pcr_selections(pcr_selections_bytes(s) + rest, s.len()) == Some(
            (s, pcr_selections_bytes(s).len() as int),
        ),
    decreases s.len(),
{
    if s.len() > 0 {
        let head = pcr_selection_bytes(s[0].0, s[0].1);
        let tail = pcr_selections_bytes(s.drop_first());
        assert(s.drop_first().len() < s.len());
        assert forall|i: int| 0 <= i < s.drop_first().len() implies (
        #[trigger] s.drop_first()[i]).1.len() <= 0xFF by {
            assert(s.drop_first()[i] == s[i + 1]);
        }
        lemma_pcr_selections_round_trip(s.drop_first(), rest);
        assert(s[0].1.len() <= 0xFF);
        lemma_pcr_selection_round_trip(s[0].0, s[0].1, tail + rest);
        let d = pcr_selections_bytes(s) + rest;
        assert(d =~= head + (tail + rest));
        assert(d.skip(head.len() as int) =~= tail + rest);
        assert(seq![s[0]] + s.drop_first() =~= s);
    } else {
        assert(s =~= Seq::<(Alg, Seq<u8>)>::empty());
    }
}

/// A PCR selection list read back from its encoding is the list that was
/// written, whatever follows it, provided its count fits a `UINT32` and each
/// bitmap length fits a `UINT8`.
pub proof fn lemma_pcr_selection_list_round_trip(l: PcrSelectionList, rest: Seq<u8>)
    requires
        l.0@.len() <= 0xFFFF_FFFF,
        forall|i: int| 0 <= i < l.0@.len() ==> (#[trigger] l.0@[i]).select@.len() <= 0xFF,
    ensures
        PcrSelectionList::parse(l.encoding() + rest) == Some((l@, l.encoding().len() as int)),
{
    let s = l@;
    assert forall|i: int| 0 <= i < s.len() implies (#[trigger] s[i]).1.len() <= 0xFF by {
        assert(s[i] == l.0@[i]@);
    }
    lemma_pcr_selections_round_trip(s, rest);
    lemma_be32_round_trip(l.0@.len() as u32, Seq::empty());
    let d = l.encoding() + rest;
    assert(from_be32(d) == from_be32(be32(l.0@.len() as u32)));
    assert(d.skip(4) =~= pcr_selections_bytes(s) + rest);
}

/// Reads past a `TPMT_TK_CREATION` (tag `UINT16`, hierarchy handle `UINT32`,
/// digest `TPM2B`): the number of bytes it occupies at the front of `d`.
pub open spec fn parse_tk_creation(d: Seq<u8>) -> Option<int> {
    if d.len() < 6 {
        None
    } else {
        match parse_tpm2b(d.skip(6)) {
            None => None,
            Some((_, n)) => Some(6 + n),
        }
    }
}

/// Reads past a `TPMT_TK_CREATION` without modelling it.
pub(crate) fn skip_tk_creation(r: &mut Reader<'_>) -> (res: Result<()>)
    ensures
        match parse_tk_creation(old(r).rest()) {
            Some(n) => res is Ok && final(r).rest() == old(r).rest().skip(n),
            None => res matches Err(e) && e is Malformed,
        },
{
    let ghost d = r.rest();
    match r.u16() {
        Ok(_) => {},
        Err(e) => return Err(e),
    }
    match r.u32() {
        Ok(_) => {},
        Err(e) => return Err(e),
    }
    proof {
        assert(r.rest() =~= d.skip(6));
    }
    match r.tpm2b() {
        Ok(_) => {},
        Err(e) => return Err(e),
    }
    proof {
        if let Some((_, n)) = parse_tpm2b(d.skip(6)) {
            assert(r.rest() =~= d.skip(6 + n));
        }
    }
    Ok(())
}

/// Reads `k` `TPM2B`s, one after the other, from the front of `d`.
pub open spec fn parse_tpm2bs(d: Seq<u8>, k: nat) -> Option<(Seq<Seq<u8>>, int)>
    decreases k,
{
    if k == 0 {
        Some((Seq::empty(), 0))
    } else {
        match parse_tpm2b(d) {
            None => None,
            Some((v, n)) => match parse_tpm2bs(d.skip(n), (k - 1) as nat) {
                None => None,
                Some((vs, m)) => Some((seq![v] + vs, n + m)),
            },
        }
    }
}

/// A counted (`UINT32`) list of `TPM2B` digests at the front of `d`, as in a
/// `PCR_Read` response's `pcrValues`. A count above 65535 is rejected.
pub open spec fn parse_digest_list(d: Seq<u8>) -> Option<(Seq<Seq<u8>>, int)> {
    if d.len() < 4 || from_be32(d) > 0xFFFF {
        None
    } else {
        match parse_tpm2bs(d.skip(4), from_be32(d) as nat) {
            None => None,
            Some((vs, m)) => Some((vs, 4 + m)),
        }
    }
}

/// Reads a counted (`UINT32`) list of `TPM2B` digests.
pub(crate) fn read_digest_list(r: &mut Reader<'_>) -> (res: Result<Vec<Buffer>>)
    ensures
        match parse_digest_list(old(r).rest()) {
            Some((vs, n)) => res matches Ok(v) && v@.map_values(|b: Buffer| b@) == vs
                && final(r).rest() == old(r).rest().skip(n),
            None => res matches Err(e) && e is Malformed,
        },
{
    let ghost d = r.rest();
    let count = match r.u32() {
        Ok(c) => c,
        Err(e) => return Err(e),
    };
    if count > 0xFFFF {
        return Err(Error::Malformed("absurd digest-list count"));
    }
    let ghost d4 = r.rest();
    let mut v: Vec<Buffer> = Vec::new();
    let mut i: u32 = 0;
    while i < count
        invariant
            i <= count,
            d == old(r).rest(),
            d.len() >= 4,
            count == from_be32(d),
            count <= 0xFFFF,
            r.rest().len() <= d4.len(),
            d4 == d.skip(4),
            r.rest() == d4.skip(d4.len() - r.rest().len()),
            ({
                let got = v@.map_values(|b: Buffer| b@);
                let used = d4.len() - r.rest().len();
                match parse_tpm2bs(r.rest(), (count - i) as nat) {
                    None => parse_tpm2bs(d4, count as nat) is None,
                    Some((vs, m)) => parse_tpm2bs(d4, count as nat) == Some((got + vs, used + m)),
                }
            }),
        decreases count - i,
    {
        let ghost before = r.rest();
        let ghost got0 = v@.map_values(|b: Buffer| b@);
        let b = match r.tpm2b() {
            Ok(s) => Buffer(vstd::slice::slice_to_vec(s)),
            Err(e) => {
                assert(parse_tpm2bs(before, (count - i) as nat) is None);
                return Err(e);
            },
        };
        v.push(b);
        proof {
            let got = v@.map_values(|b: Buffer| b@);
            assert(got =~= got0.push(b@));
            let (bv, n) = parse_tpm2b(before).unwrap();
            assert(r.rest() =~= d4.skip(d4.len() - r.rest().len()));
            match parse_tpm2bs(r.rest(), (count - i - 1) as nat) {
                None => {},
                Some((vs, m)) => {
                    assert(got + vs =~= got0 + (seq![bv] + vs));
                },
            }
        }
        i = i + 1;
    }
    proof {
        assert(r.rest() =~= d.skip(4 + (d4.len() - r.rest().len())));
    }
    Ok(v)
}

} // verus!
