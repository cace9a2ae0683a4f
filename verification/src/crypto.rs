//! The crypto the session layer needs, dispatched by `TPM_ALG_ID` over the
//! `purecrypto` crate.
//!
//! TPM authorization is hash-agile: the name algorithm and a session's hash
//! pick which digest computes object Names, `cpHash`/`rpHash`, HMAC keys and
//! KDFa output. These functions fan a runtime [`Alg`] out to the right
//! `purecrypto` hash, and implement **KDFa** (Part 1, §11.4.10.2) and the
//! **AES-CFB** parameter-encryption transform on top.
use vstd::prelude::*;

use purecrypto::cipher::{Aes128, Aes256, Cfb};
use purecrypto::hash::{Hmac, Sha1, Sha256, Sha384, Sha512, Sm3};
use purecrypto::rng::{OsRng, RngCore};

use crate::error::{Error, Result};
use crate::marshal::be32;
use crate::types::constants::{Alg, alg_digest_size, digest_len};

verus! {

/// The SHA-1 digest that `purecrypto::hash::sha1` computes.
pub uninterp spec fn sha1_digest(data: Seq<u8>) -> Seq<u8>;

/// The SHA-256 digest that `purecrypto::hash::sha256` computes.
pub uninterp spec fn sha256_digest(data: Seq<u8>) -> Seq<u8>;

/// The SHA-384 digest that `purecrypto::hash::sha384` computes.
pub uninterp spec fn sha384_digest(data: Seq<u8>) -> Seq<u8>;

/// The SHA-512 digest that `purecrypto::hash::sha512` computes.
pub uninterp spec fn sha512_digest(data: Seq<u8>) -> Seq<u8>;

/// The SM3 digest that `purecrypto::hash::sm3` computes.
pub uninterp spec fn sm3_digest(data: Seq<u8>) -> Seq<u8>;

/// The HMAC-SHA-1 tag that `Hmac::<Sha1>::mac` computes.
pub uninterp spec fn hmac_sha1_tag(key: Seq<u8>, data: Seq<u8>) -> Seq<u8>;

/// The HMAC-SHA-256 tag that `Hmac::<Sha256>::mac` computes.
pub uninterp spec fn hmac_sha256_tag(key: Seq<u8>, data: Seq<u8>) -> Seq<u8>;

/// The HMAC-SHA-384 tag that `Hmac::<Sha384>::mac` computes.
pub uninterp spec fn hmac_sha384_tag(key: Seq<u8>, data: Seq<u8>) -> Seq<u8>;

/// The HMAC-SHA-512 tag that `Hmac::<Sha512>::mac` computes.
pub uninterp spec fn hmac_sha512_tag(key: Seq<u8>, data: Seq<u8>) -> Seq<u8>;

/// The HMAC-SM3 tag that `Hmac::<Sm3>::mac` computes.
pub uninterp spec fn hmac_sm3_tag(key: Seq<u8>, data: Seq<u8>) -> Seq<u8>;

/// What `Cfb::<Aes128>::encrypt` turns `data` into under `key` and `iv`.
pub uninterp spec fn aes128_cfb_encrypt(key: Seq<u8>, iv: Seq<u8>, data: Seq<u8>) -> Seq<u8>;

/// What `Cfb::<Aes128>::decrypt` turns `data` into under `key` and `iv`.
pub uninterp spec fn aes128_cfb_decrypt(key: Seq<u8>, iv: Seq<u8>, data: Seq<u8>) -> Seq<u8>;

/// What `Cfb::<Aes256>::encrypt` turns `data` into under `key` and `iv`.
pub uninterp spec fn aes256_cfb_encrypt(key: Seq<u8>, iv: Seq<u8>, data: Seq<u8>) -> Seq<u8>;

/// What `Cfb::<Aes256>::decrypt` turns `data` into under `key` and `iv`.
pub uninterp spec fn aes256_cfb_decrypt(key: Seq<u8>, iv: Seq<u8>, data: Seq<u8>) -> Seq<u8>;

/// Calls `purecrypto::hash::sha1`. Claims: the result is the SHA-1 digest
/// of `data`, 20 bytes long.
#[verifier::external_body]
fn sha1(data: &[u8]) -> (d: Vec<u8>)
    ensures
        d@ == sha1_digest(data@),
        d@.len() == 20,
{
    purecrypto::hash::sha1(data).to_vec()
}

/// Calls `purecrypto::hash::sha256`. Claims: the result is the SHA-256
/// digest of `data`, 32 bytes long.
#[verifier::external_body]
fn sha256(data: &[u8]) -> (d: Vec<u8>)
    ensures
        d@ == sha256_digest(data@),
        d@.len() == 32,
{
    purecrypto::hash::sha256(data).to_vec()
}

/// Calls `purecrypto::hash::sha384`. Claims: the result is the SHA-384
/// digest of `data`, 48 bytes long.
#[verifier::external_body]
fn sha384(data: &[u8]) -> (d: Vec<u8>)
    ensures
        d@ == sha384_digest(data@),
        d@.len() == 48,
{
    purecrypto::hash::sha384(data).to_vec()
}

/// Calls `purecrypto::hash::sha512`. Claims: the result is the SHA-512
/// digest of `data`, 64 bytes long.
#[verifier::external_body]
fn sha512(data: &[u8]) -> (d: Vec<u8>)
    ensures
        d@ == sha512_digest(data@),
        d@.len() == 64,
{
    purecrypto::hash::sha512(data).to_vec()
}

/// Calls `purecrypto::hash::sm3`. Claims: the result is the SM3 digest of
/// `data`, 32 bytes long.
#[verifier::external_body]
fn sm3(data: &[u8]) -> (d: Vec<u8>)
    ensures
        d@ == sm3_digest(data@),
        d@.len() == 32,
{
    purecrypto::hash::sm3(data).to_vec()
}

/// Calls `Hmac::<Sha1>::mac`. Claims: the result is the HMAC-SHA-1 tag of
/// `data` under `key`, 20 bytes long.
#[verifier::external_body]
fn hmac_sha1(key: &[u8], data: &[u8]) -> (t: Vec<u8>)
    ensures
        t@ == hmac_sha1_tag(key@, data@),
        t@.len() == 20,
{
    Hmac::<Sha1>::mac(key, data).to_vec()
}

/// Calls `Hmac::<Sha256>::mac`. Claims: the result is the HMAC-SHA-256 tag
/// of `data` under `key`, 32 bytes long.
#[verifier::external_body]
fn hmac_sha256(key: &[u8], data: &[u8]) -> (t: Vec<u8>)
    ensures
        t@ == hmac_sha256_tag(key@, data@),
        t@.len() == 32,
{
    Hmac::<Sha256>::mac(key, data).to_vec()
}

/// Calls `Hmac::<Sha384>::mac`. Claims: the result is the HMAC-SHA-384 tag
/// of `data` under `key`, 48 bytes long.
#[verifier::external_body]
fn hmac_sha384(key: &[u8], data: &[u8]) -> (t: Vec<u8>)
    ensures
        t@ == hmac_sha384_tag(key@, data@),
        t@.len() == 48,
{
    Hmac::<Sha384>::mac(key, data).to_vec()
}

/// Calls `Hmac::<Sha512>::mac`. Claims: the result is the HMAC-SHA-512 tag
/// of `data` under `key`, 64 bytes long.
#[verifier::external_body]
fn hmac_sha512(key: &[u8], data: &[u8]) -> (t: Vec<u8>)
    ensures
        t@ == hmac_sha512_tag(key@, data@),
        t@.len() == 64,
{
    Hmac::<Sha512>::mac(key, data).to_vec()
}

/// Calls `Hmac::<Sm3>::mac`. Claims: the result is the HMAC-SM3 tag of
/// `data` under `key`, 32 bytes long.
#[verifier::external_body]
fn hmac_sm3(key: &[u8], data: &[u8]) -> (t: Vec<u8>)
    ensures
        t@ == hmac_sm3_tag(key@, data@),
        t@.len() == 32,
{
    Hmac::<Sm3>::mac(key, data).to_vec()
}

/// Runs `Cfb::<Aes128>::encrypt` over `data` in place. Claims: `data` becomes
/// the named ciphertext, of the same length, and CFB decryption under the
/// same key and IV gives the plaintext back.
#[verifier::external_body]
fn aes128_cfb_encrypt_in_place(key: &[u8], iv: &[u8; 16], data: &mut [u8])
    requires
        key@.len() == 16,
    ensures
        final(data)@ == aes128_cfb_encrypt(key@, iv@, old(data)@),
        final(data)@.len() == old(data)@.len(),
        aes128_cfb_decrypt(key@, iv@, final(data)@) == old(data)@,
{
    Cfb::new(Aes128::new(key.try_into().unwrap()), iv).encrypt(data)
}

/// Runs `Cfb::<Aes128>::decrypt` over `data` in place. Claims: `data` becomes
/// the named plaintext, of the same length, and CFB encryption under the
/// same key and IV gives the ciphertext back.
#[verifier::external_body]
fn aes128_cfb_decrypt_in_place(key: &[u8], iv: &[u8; 16], data: &mut [u8])
    requires
        key@.len() == 16,
    ensures
        final(data)@ == aes128_cfb_decrypt(key@, iv@, old(data)@),
        final(data)@.len() == old(data)@.len(),
        aes128_cfb_encrypt(key@, iv@, final(data)@) == old(data)@,
{
    Cfb::new(Aes128::new(key.try_into().unwrap()), iv).decrypt(data)
}

/// Runs `Cfb::<Aes256>::encrypt` over `data` in place. Claims as for
/// AES-128.
#[verifier::external_body]
fn aes256_cfb_encrypt_in_place(key: &[u8], iv: &[u8; 16], data: &mut [u8])
    requires
        key@.len() == 32,
    ensures
        final(data)@ == aes256_cfb_encrypt(key@, iv@, old(data)@),
        final(data)@.len() == old(data)@.len(),
        aes256_cfb_decrypt(key@, iv@, final(data)@) == old(data)@,
{
    Cfb::new(Aes256::new(key.try_into().unwrap()), iv).encrypt(data)
}

/// Runs `Cfb::<Aes256>::decrypt` over `data` in place. Claims as for
/// AES-128.
#[verifier::external_body]
fn aes256_cfb_decrypt_in_place(key: &[u8], iv: &[u8; 16], data: &mut [u8])
    requires
        key@.len() == 32,
    ensures
        final(data)@ == aes256_cfb_decrypt(key@, iv@, old(data)@),
        final(data)@.len() == old(data)@.len(),
        aes256_cfb_encrypt(key@, iv@, final(data)@) == old(data)@,
{
    Cfb::new(Aes256::new(key.try_into().unwrap()), iv).decrypt(data)
}

/// Fills a fresh `n`-byte buffer from `purecrypto::rng::OsRng`. Claims only
/// the length: the bytes are random. (`OsRng` panics if the operating system
/// cannot supply entropy; no input rules that out.)
#[verifier::external_body]
pub(crate) fn os_random_bytes(n: usize) -> (v: Vec<u8>)
    ensures
        v@.len() == n,
{
    let mut buf = vec![0u8; n];
    OsRng.fill_bytes(&mut buf);
    buf
}

/// The hash algorithms this crate can compute: SHA-1, SHA-256, SHA-384,
/// SHA-512 and SM3-256.
pub open spec fn hash_alg_supported(alg: Alg) -> bool {
    alg.0 == 0x0004 || alg.0 == 0x000B || alg.0 == 0x000C || alg.0 == 0x000D || alg.0 == 0x0012
}

/// The digest of `data` under hash algorithm `alg` (empty for an algorithm
/// that is not a supported hash).
pub open spec fn digest_of(alg: Alg, data: Seq<u8>) -> Seq<u8> {
    if alg.0 == 0x0004 {
        sha1_digest(data)
    } else if alg.0 == 0x000B {
        sha256_digest(data)
    } else if alg.0 == 0x000C {
        sha384_digest(data)
    } else if alg.0 == 0x000D {
        sha512_digest(data)
    } else if alg.0 == 0x0012 {
        sm3_digest(data)
    } else {
        Seq::empty()
    }
}

/// The HMAC of `data` under `key` with hash algorithm `alg` (empty for an
/// algorithm that is not a supported hash).
pub open spec fn hmac_of(alg: Alg, key: Seq<u8>, data: Seq<u8>) -> Seq<u8> {
    if alg.0 == 0x0004 {
        hmac_sha1_tag(key, data)
    } else if alg.0 == 0x000B {
        hmac_sha256_tag(key, data)
    } else if alg.0 == 0x000C {
        hmac_sha384_tag(key, data)
    } else if alg.0 == 0x000D {
        hmac_sha512_tag(key, data)
    } else if alg.0 == 0x0012 {
        hmac_sm3_tag(key, data)
    } else {
        Seq::empty()
    }
}

/// The byte strings that `parts` refer to.
pub open spec fn views(parts: Seq<&[u8]>) -> Seq<Seq<u8>> {
    parts.map_values(|p: &[u8]| p@)
}

/// The concatenation of `parts`, in order.
pub open spec fn concat(parts: Seq<Seq<u8>>) -> Seq<u8>
    decreases parts.len(),
{
    if parts.len() == 0 {
        Seq::empty()
    } else {
        concat(parts.drop_last()) + parts.last()
    }
}

/// Concatenates `parts` into one vector.
pub(crate) fn join_parts(parts: &[&[u8]]) -> (v: Vec<u8>)
    ensures
        v@ == concat(views(parts@)),
{
    let mut v: Vec<u8> = Vec::new();
    let mut i: usize = 0;
    while i < parts.len()
        invariant
            i <= parts@.len(),
            v@ == concat(views(parts@.take(i as int))),
        decreases parts@.len() - i,
    {
        v.extend_from_slice(parts[i]);
        proof {
            assert(views(parts@.take(i + 1)).drop_last() =~= views(parts@.take(i as int)));
            assert(v@ =~= concat(views(parts@.take(i + 1))));
        }
        i = i + 1;
    }
    assert(parts@.take(i as int) =~= parts@);
    v
}

/// Hashes the concatenation of `parts` with `alg`. Used for object Names,
/// `cpHash`/`rpHash` and policy digests, all of which hash several fields in
/// sequence.
pub fn hash_parts(alg: Alg, parts: &[&[u8]]) -> (res: Result<Vec<u8>>)
    ensures
        res is Ok <==> hash_alg_supported(alg),
        res matches Ok(d) ==> d@ == digest_of(alg, concat(views(parts@))) && d@.len() == digest_len(alg),
        res matches Err(e) ==> e is Usage,
{
    if !(alg.0 == 0x0004 || alg.0 == 0x000B || alg.0 == 0x000C || alg.0 == 0x000D || alg.0
        == 0x0012) {
        return Err(Error::Usage("unsupported hash algorithm"));
    }
    let data = join_parts(parts);
    let d = if alg.0 == Alg::SHA1().0 {
        sha1(data.as_slice())
    } else if alg.0 == Alg::SHA256().0 {
        sha256(data.as_slice())
    } else if alg.0 == Alg::SHA384().0 {
        sha384(data.as_slice())
    } else if alg.0 == Alg::SHA512().0 {
        sha512(data.as_slice())
    } else {
        sm3(data.as_slice())
    };
    Ok(d)
}

/// Hashes a single byte string with `alg`.
pub fn hash(alg: Alg, data: &[u8]) -> (res: Result<Vec<u8>>)
    ensures
        res is Ok <==> hash_alg_supported(alg),
        res matches Ok(d) ==> d@ == digest_of(alg, data@) && d@.len() == digest_len(alg),
        res matches Err(e) ==> e is Usage,
{
    let parts: [&[u8]; 1] = [data];
    let res = hash_parts(alg, parts.as_slice());
    proof {
        assert(parts@.len() == 1);
        assert(parts@[0] == data);
        assert(views(parts@).drop_last() =~= Seq::<Seq<u8>>::empty());
        reveal_with_fuel(concat, 2);
        assert(concat(views(parts@)) =~= data@);
    }
    res
}

/// HMAC over the concatenation of `parts`, keyed by `key`, using `alg`'s hash.
pub fn hmac_parts(alg: Alg, key: &[u8], parts: &[&[u8]]) -> (res: Result<Vec<u8>>)
    ensures
        res is Ok <==> hash_alg_supported(alg),
        res matches Ok(t) ==> t@ == hmac_of(alg, key@, concat(views(parts@))) && t@.len() == digest_len(alg),
        res matches Err(e) ==> e is Usage,
{
    let data = join_parts(parts);
    hmac(alg, key, data.as_slice())
}

/// HMAC of `data`, keyed by `key`, using `alg`'s hash.
pub fn hmac(alg: Alg, key: &[u8], data: &[u8]) -> (res: Result<Vec<u8>>)
    ensures
        res is Ok <==> hash_alg_supported(alg),
        res matches Ok(t) ==> t@ == hmac_of(alg, key@, data@) && t@.len() == digest_len(alg),
        res matches Err(e) ==> e is Usage,
{
    if alg.0 == Alg::SHA1().0 {
        Ok(hmac_sha1(key, data))
    } else if alg.0 == Alg::SHA256().0 {
        Ok(hmac_sha256(key, data))
    } else if alg.0 == Alg::SHA384().0 {
        Ok(hmac_sha384(key, data))
    } else if alg.0 == Alg::SHA512().0 {
        Ok(hmac_sha512(key, data))
    } else if alg.0 == Alg::SM3_256().0 {
        Ok(hmac_sm3(key, data))
    } else {
        Err(Error::Usage("unsupported HMAC hash algorithm"))
    }
}

/// The digest size of `alg` in bytes, or a usage error for a non-hash alg
/// (`TPM_ALG_NULL` included).
pub fn digest_size(alg: Alg) -> (res: Result<usize>)
    ensures
        res is Ok <==> hash_alg_supported(alg),
        res matches Ok(n) ==> alg_digest_size(alg.0) == Some(n) && n > 0,
        res matches Err(e) ==> e is Usage,
{
    match alg.digest_size() {
        Some(n) => {
            if n > 0 {
                Ok(n)
            } else {
                Err(Error::Usage("not a hash algorithm"))
            }
        },
        None => Err(Error::Usage("not a hash algorithm")),
    }
}

/// The input to the `i`-th KDFa block:
/// `UINT32(i) || label || 0x00 || context_u || context_v || UINT32(bits)`.
pub open spec fn kdfa_block_input(
    label: Seq<u8>,
    context_u: Seq<u8>,
    context_v: Seq<u8>,
    bits: u32,
    i: u32,
) -> Seq<u8> {
    be32(i) + label + seq![0u8] + context_u + context_v + be32(bits)
}

/// The first `k` KDFa blocks, concatenated: block `i` (counting from 1) is
/// `HMAC_alg(key, kdfa_block_input(.., i))`.
pub open spec fn kdfa_stream(
    alg: Alg,
    key: Seq<u8>,
    label: Seq<u8>,
    context_u: Seq<u8>,
    context_v: Seq<u8>,
    bits: u32,
    k: nat,
) -> Seq<u8>
    decreases k,
{
    if k == 0 {
        Seq::empty()
    } else {
        kdfa_stream(alg, key, label, context_u, context_v, bits, (k - 1) as nat) + hmac_of(
            alg,
            key,
            kdfa_block_input(label, context_u, context_v, bits, k as u32),
        )
    }
}

/// Clears the surplus high bits of the leading byte when the requested bit
/// count `bits` is not a multiple of eight.
pub open spec fn mask_leading_bits(s: Seq<u8>, bits: u32) -> Seq<u8> {
    let rem = bits % 8;
    if rem != 0 && s.len() > 0 {
        s.update(0, s[0] & (0xFFu8 >> ((8 - rem) as u8)))
    } else {
        s
    }
}

/// The number of bytes KDFa produces for `bits` bits: `ceil(bits / 8)`.
pub open spec fn kdfa_len(bits: u32) -> nat {
    ((bits as nat + 7) / 8) as nat
}

/// **KDFa** (SP 800-108 counter mode): the first `ceil(bits/8)` bytes of the
/// block stream, with the surplus high bits of the leading byte cleared.
pub open spec fn kdfa_spec(
    alg: Alg,
    key: Seq<u8>,
    label: Seq<u8>,
    context_u: Seq<u8>,
    context_v: Seq<u8>,
    bits: u32,
) -> Seq<u8> {
    let n = kdfa_len(bits);
    mask_leading_bits(kdfa_stream(alg, key, label, context_u, context_v, bits, n).take(n as int), bits)
}

/// A shorter KDFa stream is a prefix of a longer one.
proof fn lemma_kdfa_stream_prefix(
    alg: Alg,
    key: Seq<u8>,
    label: Seq<u8>,
    u: Seq<u8>,
    v: Seq<u8>,
    bits: u32,
    k1: nat,
    k2: nat,
)
    requires
        k1 <= k2,
    ensures
        kdfa_stream(alg, key, label, u, v, bits, k1).len() <= kdfa_stream(
            alg,
            key,
            label,
            u,
            v,
            bits,
            k2,
        ).len(),
        kdfa_stream(alg, key, label, u, v, bits, k2).take(
            kdfa_stream(alg, key, label, u, v, bits, k1).len() as int,
        ) == kdfa_stream(alg, key, label, u, v, bits, k1),
    decreases k2,
{
    if k1 < k2 {
        lemma_kdfa_stream_prefix(alg, key, label, u, v, bits, k1, (k2 - 1) as nat);
        let s1 = kdfa_stream(alg, key, label, u, v, bits, k1);
        let s = kdfa_stream(alg, key, label, u, v, bits, (k2 - 1) as nat);
        let s2 = kdfa_stream(alg, key, label, u, v, bits, k2);
        assert(s2.take(s1.len() as int) =~= s.take(s1.len() as int));
    } else {
        let s1 = kdfa_stream(alg, key, label, u, v, bits, k1);
        assert(s1.take(s1.len() as int) =~= s1);
    }
}

/// **KDFa**: the TPM's SP 800-108 counter-mode KDF (Part 1, §11.4.10.2).
///
/// Produces `bits` bits of key material,
/// `K_i = HMAC_alg(key, UINT32(i) || label || 0x00 || context_u || context_v || UINT32(bits))`
/// for `i = 1, 2, ...`, concatenated and truncated to `ceil(bits/8)` bytes;
/// if `bits` is not a multiple of 8 the surplus high bits of the leading
/// octet are masked off. Asking for zero bits needs no hash and succeeds with
/// any algorithm.
pub fn kdfa(
    alg: Alg,
    key: &[u8],
    label: &[u8],
    context_u: &[u8],
    context_v: &[u8],
    bits: u32,
) -> (res: Result<Vec<u8>>)
    ensures
        res is Err <==> (kdfa_len(bits) > 0 && !hash_alg_supported(alg)),
        res matches Err(e) ==> e is Usage,
        res matches Ok(out) ==> out@ == kdfa_spec(alg, key@, label@, context_u@, context_v@, bits),
        res matches Ok(out) ==> out@.len() == kdfa_len(bits),
{
    let out_len: usize = ((bits as u64 + 7) / 8) as usize;
    let mut out: Vec<u8> = Vec::new();
    let mut bits_be: Vec<u8> = Vec::new();
    crate::marshal::Marshal::marshal(&bits, &mut bits_be);
    let mut counter: u32 = 0;
    let ghost n = kdfa_len(bits);
    while out.len() < out_len
        invariant
            out_len == n,
            n == kdfa_len(bits),
            n <= 0x2000_0000,
            counter <= n,
            out@.len() >= counter,
            counter > 0 ==> hash_alg_supported(alg),
            out@ == kdfa_stream(alg, key@, label@, context_u@, context_v@, bits, counter as nat),
            bits_be@ == be32(bits),
        decreases n - counter,
    {
        counter = counter + 1;
        let mut input: Vec<u8> = Vec::new();
        crate::marshal::Marshal::marshal(&counter, &mut input);
        input.extend_from_slice(label);
        input.push(0u8);
        input.extend_from_slice(context_u);
        input.extend_from_slice(context_v);
        input.extend_from_slice(bits_be.as_slice());
        assert(input@ =~= kdfa_block_input(label@, context_u@, context_v@, bits, counter));
        let block = match hmac(alg, key, input.as_slice()) {
            Ok(b) => b,
            Err(e) => return Err(e),
        };
        out.extend_from_slice(block.as_slice());
        proof {
            assert(out@ =~= kdfa_stream(
                alg,
                key@,
                label@,
                context_u@,
                context_v@,
                bits,
                counter as nat,
            ));
        }
    }
    proof {
        lemma_kdfa_stream_prefix(alg, key@, label@, context_u@, context_v@, bits, counter as nat, n);
        assert(out@.take(n as int) =~= kdfa_stream(
            alg,
            key@,
            label@,
            context_u@,
            context_v@,
            bits,
            n,
        ).take(n as int));
    }
    out.truncate(out_len);
    // Mask surplus high bits of the leading octet when bits isn't byte-aligned.
    let rem = bits % 8;
    if rem != 0 && out.len() > 0 {
        let b = out[0] & (0xFFu8 >> ((8 - rem) as u8));
        out.set(0, b);
    }
    Ok(out)
}

/// The leading byte of KDFa output for a bit count that is not a multiple of
/// eight has its surplus high bits clear: it is at most `2^(bits % 8) - 1`.
pub proof fn lemma_kdfa_masks_surplus_bits(s: Seq<u8>, bits: u32)
    requires
        bits % 8 != 0,
        s.len() > 0,
    ensures
        mask_leading_bits(s, bits)[0] <= (0xFFu8 >> ((8 - bits % 8) as u8)),
        mask_leading_bits(s, bits).len() == s.len(),
{
    let b = s[0];
    let m = (0xFFu8 >> ((8 - bits % 8) as u8));
    assert(b & m <= m) by (bit_vector);
}

/// In-place AES-CFB transform for session parameter encryption
/// (`TPM_ALG_CFB`).
///
/// `key` selects AES-128 or AES-256 by length; `iv` is the 16-byte CFB IV.
/// `encrypt` chooses direction. Any other key length is a usage error and
/// leaves `data` untouched. Either direction is undone by the other.
pub fn aes_cfb(key: &[u8], iv: &[u8; 16], data: &mut [u8], encrypt: bool) -> (res: Result<()>)
    ensures
        res is Ok <==> (key@.len() == 16 || key@.len() == 32),
        res matches Err(e) ==> e is Usage && final(data)@ == old(data)@,
        res is Ok ==> final(data)@.len() == old(data)@.len(),
        res is Ok && key@.len() == 16 && encrypt ==> final(data)@ == aes128_cfb_encrypt(
            key@,
            iv@,
            old(data)@,
        ) && aes128_cfb_decrypt(key@, iv@, final(data)@) == old(data)@,
        res is Ok && key@.len() == 16 && !encrypt ==> final(data)@ == aes128_cfb_decrypt(
            key@,
            iv@,
            old(data)@,
        ) && aes128_cfb_encrypt(key@, iv@, final(data)@) == old(data)@,
        res is Ok && key@.len() == 32 && encrypt ==> final(data)@ == aes256_cfb_encrypt(
            key@,
            iv@,
            old(data)@,
        ) && aes256_cfb_decrypt(key@, iv@, final(data)@) == old(data)@,
        res is Ok && key@.len() == 32 && !encrypt ==> final(data)@ == aes256_cfb_decrypt(
            key@,
            iv@,
            old(data)@,
        ) && aes256_cfb_encrypt(key@, iv@, final(data)@) == old(data)@,
{
    if key.len() == 16 {
        if encrypt {
            aes128_cfb_encrypt_in_place(key, iv, data);
        } else {
            aes128_cfb_decrypt_in_place(key, iv, data);
        }
        Ok(())
    } else if key.len() == 32 {
        if encrypt {
            aes256_cfb_encrypt_in_place(key, iv, data);
        } else {
            aes256_cfb_decrypt_in_place(key, iv, data);
        }
        Ok(())
    } else {
        Err(Error::Usage("unsupported AES key size for CFB"))
    }
}

} // verus!
