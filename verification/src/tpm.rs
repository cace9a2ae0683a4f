//! The command dispatcher: builds request frames, runs them over a
//! [`Transport`], checks the response code and parses the reply.
//!
//! [`Tpm`] owns a transport and exposes typed command methods (in
//! [`crate::commands`]). [`Tpm::run`] lays out the tag/size/code header, the
//! handle area, an optional authorization area and the parameter area, then
//! unframes the response, verifying the session HMAC when an HMAC session
//! authorizes the command.
//!
//! Every exchange is recorded in a ghost history (command bytes sent, reply
//! received), so the contracts of the command methods state exactly which
//! bytes went out and what each reply is turned into.
use vstd::prelude::*;

use crate::crypto::{self, concat, digest_of, hash_alg_supported, views};
use crate::error::{Error, Result, TpmRc};
use crate::marshal::{Marshal, Reader, be16, be32, from_be16, from_be32, marshal_tpm2b, parse_tpm2b, tpm2b};
use crate::session::{AuthResponse, Session, SessionView, command_hmac, hmac_key_for, response_hmac};
use crate::transport::Transport;
use crate::types::attributes::SessionAttributes;
use crate::types::constants::{Alg, alg_digest_size, digest_len, rh, st};
use crate::types::handles::Handle;

verus! {

/// How a command is authorized.
pub enum Auth<'a> {
    /// No authorization area (`TPM_ST_NO_SESSIONS`).
    NoAuth,
    /// A password authorization (`TPM_RS_PW`) carrying the auth value in the
    /// clear. Suitable over a trusted local bus.
    Password(&'a [u8]),
    /// An HMAC session authorization. `auth_value` is the auth of the object
    /// being authorized (the first command handle); the session proves
    /// knowledge of it without transmitting it.
    Session {
        /// The established session (mutated as the nonce chain advances).
        session: &'a mut Session,
        /// The auth value of the authorized object.
        auth_value: &'a [u8],
    },
}

impl Auth<'_> {
    fn uses_session_area(&self) -> (b: bool)
        ensures
            b == !(*self is NoAuth),
    {
        match self {
            Auth::NoAuth => false,
            _ => true,
        }
    }
}

/// One exchange with the TPM: the command bytes sent, and the reply (or the
/// transport's error).
pub type Exchange = (Seq<u8>, Result<Seq<u8>>);

/// The handle area: each handle as a big-endian `UINT32`.
pub open spec fn handles_bytes(hs: Seq<Handle>) -> Seq<u8>
    decreases hs.len(),
{
    if hs.len() == 0 {
        Seq::empty()
    } else {
        handles_bytes(hs.drop_last()) + be32(hs.last().0)
    }
}

/// A password authorization entry: `TPM_RS_PW`, an empty `nonceCaller`,
/// `continueSession`, and the password as a `TPM2B`.
pub open spec fn password_area(pw: Seq<u8>) -> Seq<u8> {
    be32(0x4000_0009) + be16(0) + seq![0x01u8] + tpm2b(pw)
}

/// An HMAC session authorization entry.
pub open spec fn session_area(handle: Handle, nonce: Seq<u8>, attributes: u8, hmac: Seq<u8>) -> Seq<
    u8,
> {
    be32(handle.0) + tpm2b(nonce) + seq![attributes] + tpm2b(hmac)
}

/// A command frame: tag, total size, command code, then the body.
pub open spec fn command_bytes(tag: u16, code: u32, body: Seq<u8>) -> Seq<u8> {
    be16(tag) + be32((10 + body.len()) as u32) + be32(code) + body
}

/// A command frame states its own length: the tag, then a size header equal
/// to the whole frame's length, then the command code, then the body.
pub proof fn lemma_command_frame_header(tag: u16, code: u32, body: Seq<u8>)
    requires
        10 + body.len() <= 0xFFFF_FFFF,
    ensures
        ({
            let f = command_bytes(tag, code, body);
            &&& f.len() == 10 + body.len()
            &&& from_be16(f) == tag
            &&& from_be32(f.skip(2)) as int == f.len()
            &&& from_be32(f.skip(6)) == code
            &&& f.skip(10) == body
        }),
{
    let f = command_bytes(tag, code, body);
    crate::marshal::lemma_be16_round_trip(tag, Seq::empty());
    crate::marshal::lemma_be32_round_trip((10 + body.len()) as u32, Seq::empty());
    crate::marshal::lemma_be32_round_trip(code, Seq::empty());
    assert(from_be16(f) == from_be16(be16(tag)));
    assert(f.skip(2).subrange(0, 4) =~= be32((10 + body.len()) as u32));
    assert(from_be32(f.skip(2)) == from_be32(be32((10 + body.len()) as u32)));
    assert(f.skip(6).subrange(0, 4) =~= be32(code));
    assert(from_be32(f.skip(6)) == from_be32(be32(code)));
    assert(f.skip(10) =~= body);
}

/// The Name of the object a command authorizes: the first handle's Name, or
/// empty when the command names none.
pub open spec fn first_name(names: Seq<Seq<u8>>) -> Seq<u8> {
    if names.len() > 0 {
        names[0]
    } else {
        Seq::empty()
    }
}

/// `cpHash = H(commandCode || Name(handle)... || parameters)`.
pub open spec fn cp_hash_of(alg: Alg, code: u32, names: Seq<Seq<u8>>, params: Seq<u8>) -> Seq<u8> {
    digest_of(alg, be32(code) + concat(names) + params)
}

/// `rpHash = H(responseCode || commandCode || parameters)`.
pub open spec fn rp_hash_of(alg: Alg, rc: u32, code: u32, params: Seq<u8>) -> Seq<u8> {
    digest_of(alg, be32(rc) + be32(code) + params)
}

/// Whether a command authorized by `a` gets sent: a password must fit a
/// `TPM2B`, and a session's hash must be one this crate computes.
pub open spec fn auth_sendable(a: Auth) -> bool {
    match a {
        Auth::NoAuth => true,
        Auth::Password(pw) => pw@.len() <= 0xFFFF,
        Auth::Session { session, auth_value } => hash_alg_supported((*session)@.hash_alg),
    }
}

/// The bytes an authorization adds to a command frame: nothing without a
/// session area; otherwise the area's `UINT32` size and its one entry
/// (handle, `TPM2B` nonce, attributes, `TPM2B` HMAC or password). A password
/// too long for a `TPM2B` and a session whose hash this crate cannot compute
/// add nothing, as such a command is refused before a frame is built.
pub open spec fn auth_area_len(a: Auth) -> nat {
    match a {
        Auth::NoAuth => 0,
        Auth::Password(pw) => if pw@.len() <= 0xFFFF {
            4 + 4 + 2 + 1 + 2 + pw@.len()
        } else {
            0
        },
        Auth::Session { session, auth_value: _ } => if hash_alg_supported((*session)@.hash_alg) {
            4 + 4 + 2 + digest_len((*session)@.hash_alg) + 1 + 2 + digest_len((*session)@.hash_alg)
        } else {
            0
        },
    }
}

/// Whether the frame of a command with `handles` handles, `params` parameter
/// bytes and authorization `a` fits the `UINT32` size header.
pub open spec fn frame_fits(handles: nat, params: nat, a: Auth) -> bool {
    10 + 4 * handles + auth_area_len(a) + params <= 0xFFFF_FFFF
}

/// The session authorization entry that session `s` makes for command
/// `code` with `nonce` as its fresh `nonceCaller`: its HMAC binds the
/// command's `cpHash` under the session key and the object's auth value.
pub open spec fn session_entry(
    s: SessionView,
    auth_value: Seq<u8>,
    code: u32,
    names: Seq<Seq<u8>>,
    params: Seq<u8>,
    nonce: Seq<u8>,
) -> Seq<u8> {
    let key = hmac_key_for(s.key, s.bound_name, auth_value, first_name(names));
    let cp = cp_hash_of(s.hash_alg, code, names, params);
    session_area(
        s.handle,
        nonce,
        s.attributes.0,
        command_hmac(s.hash_alg, key, cp, nonce, s.nonce_tpm, s.attributes.0),
    )
}

/// The authorization area a command carries, given the authorization before
/// (`a0`) and after (`a1`) the command: none, a password entry, or a session
/// entry whose `nonceCaller` is the one the session recorded.
pub open spec fn auth_area(a0: Auth, a1: Auth, code: u32, names: Seq<Seq<u8>>, params: Seq<u8>) -> Option<
    Seq<u8>,
> {
    match a0 {
        Auth::NoAuth => None,
        Auth::Password(pw) => Some(password_area(pw@)),
        Auth::Session { session, auth_value } => {
            let nonce = match a1 {
                Auth::Session { session: s1, auth_value: _ } => (*s1)@.nonce_caller,
                _ => Seq::empty(),
            };
            Some(session_entry((*session)@, auth_value@, code, names, params, nonce))
        },
    }
}

/// The command frame sent for `code` with the given handles, authorization
/// area and parameters.
pub open spec fn command_frame(code: u32, handles: Seq<Handle>, area: Option<Seq<u8>>, params: Seq<
    u8,
>) -> Seq<u8> {
    match area {
        None => command_bytes(0x8001, code, handles_bytes(handles) + params),
        Some(a) => command_bytes(
            0x8002,
            code,
            handles_bytes(handles) + be32(a.len() as u32) + a + params,
        ),
    }
}

/// What a successfully parsed reply holds: the response handles, the
/// parameter bytes, and (for a `TPM_ST_SESSIONS` reply) the response
/// authorization entry `(nonceTPM, attributes, hmac)`.
pub struct ParsedReply {
    /// The response handles.
    pub handles: Seq<Handle>,
    /// The parameter area.
    pub params: Seq<u8>,
    /// The response authorization entry, if the reply has a session area.
    pub auth: Option<(Seq<u8>, u8, Seq<u8>)>,
}

/// Why a command failed.
pub enum Failure {
    /// The transport reported this error.
    Transport(Error),
    /// The reply was truncated or structurally invalid.
    Malformed,
    /// The TPM answered with this non-zero response code.
    Rejected(u32),
    /// The reply's size header disagreed with its length, or its session
    /// HMAC did not verify.
    Mismatch,
    /// The command could not be built.
    Usage,
}

/// Whether error `e` is the error that failure `f` is reported as.
pub open spec fn error_is(e: Error, f: Failure) -> bool {
    match f {
        Failure::Transport(t) => e == t,
        Failure::Malformed => e is Malformed,
        Failure::Rejected(rc) => e == Error::Tpm(TpmRc(rc)),
        Failure::Mismatch => e is Protocol,
        Failure::Usage => e is Usage,
    }
}

/// Reads `k` handles from the front of `s`: the handles and the bytes used.
pub open spec fn parse_handles(s: Seq<u8>, k: nat) -> Option<(Seq<Handle>, int)>
    decreases k,
{
    if k == 0 {
        Some((Seq::empty(), 0))
    } else if s.len() < 4 {
        None
    } else {
        match parse_handles(s.skip(4), (k - 1) as nat) {
            None => None,
            Some((hs, n)) => Some((seq![Handle(from_be32(s))] + hs, 4 + n)),
        }
    }
}

/// Reads a response authorization entry from the front of `s`: a `TPM2B`
/// `nonceTPM`, a `UINT8` of attributes and a `TPM2B` HMAC.
pub open spec fn parse_auth_area(s: Seq<u8>) -> Option<(Seq<u8>, u8, Seq<u8>)> {
    match parse_tpm2b(s) {
        None => None,
        Some((nonce, n)) => {
            let r = s.skip(n);
            if r.len() < 1 {
                None
            } else {
                match parse_tpm2b(r.skip(1)) {
                    None => None,
                    Some((h, _)) => Some((nonce, r[0], h)),
                }
            }
        },
    }
}

/// Unframes a reply that should carry `k` response handles.
///
/// The header (tag, size, response code) must be present; a non-zero
/// response code is the TPM's rejection; the size header must match the
/// reply's length. Then come the handles, and for a `TPM_ST_SESSIONS` reply
/// a `UINT32` parameter size, the parameters and the authorization entry;
/// otherwise the parameters are the rest of the reply.
pub open spec fn parse_reply(resp: Seq<u8>, k: nat) -> core::result::Result<ParsedReply, Failure> {
    if resp.len() < 10 {
        Err(Failure::Malformed)
    } else {
        let rc = from_be32(resp.skip(6));
        if rc != 0 {
            Err(Failure::Rejected(rc))
        } else if from_be32(resp.skip(2)) as int != resp.len() {
            Err(Failure::Mismatch)
        } else {
            match parse_handles(resp.skip(10), k) {
                None => Err(Failure::Malformed),
                Some((hs, n)) => {
                    let r = resp.skip(10 + n);
                    if from_be16(resp) == 0x8002 {
                        if r.len() < 4 {
                            Err(Failure::Malformed)
                        } else {
                            let ps = from_be32(r) as int;
                            if r.len() - 4 < ps {
                                Err(Failure::Malformed)
                            } else {
                                match parse_auth_area(r.skip(4 + ps)) {
                                    None => Err(Failure::Malformed),
                                    Some(a) => Ok(
                                        ParsedReply {
                                            handles: hs,
                                            params: r.subrange(4, 4 + ps),
                                            auth: Some(a),
                                        },
                                    ),
                                }
                            }
                        }
                    } else {
                        Ok(ParsedReply { handles: hs, params: r, auth: None })
                    }
                },
            }
        }
    }
}

/// Whether session `s`, authorizing the object named `object_name` with
/// `auth_value`, accepts reply `p` to command `code`: a reply without a
/// session area is not checked; otherwise its HMAC must be the one a TPM
/// holding the same key computes over the reply's `rpHash`.
pub open spec fn session_accepts(
    s: SessionView,
    auth_value: Seq<u8>,
    object_name: Seq<u8>,
    code: u32,
    p: ParsedReply,
) -> bool {
    match p.auth {
        None => true,
        Some((nonce, attrs, hmac)) => {
            &&& hash_alg_supported(s.hash_alg)
            &&& response_hmac(
                s.hash_alg,
                hmac_key_for(s.key, s.bound_name, auth_value, object_name),
                rp_hash_of(s.hash_alg, 0, code, p.params),
                nonce,
                s.nonce_caller,
                attrs,
            ) == hmac
        },
    }
}

/// What a sent command comes to: the parsed reply, or why it failed. `a1` is
/// the authorization as it stands after the command.
pub open spec fn run_result(
    a1: Auth,
    code: u32,
    names: Seq<Seq<u8>>,
    reply: Result<Seq<u8>>,
    k: nat,
) -> core::result::Result<ParsedReply, Failure> {
    let parsed = match reply {
        Err(e) => Err(Failure::Transport(e)),
        Ok(b) => parse_reply(b, k),
    };
    match parsed {
        Err(f) => Err(f),
        Ok(p) => match a1 {
            Auth::Session { session, auth_value } => if session_accepts(
                (*session)@,
                auth_value@,
                first_name(names),
                code,
                p,
            ) {
                Ok(p)
            } else {
                Err(Failure::Mismatch)
            },
            _ => Ok(p),
        },
    }
}

/// How an authorization evolves over a command: a password or no-auth stays
/// as it is; a session keeps its handle, hash, attributes, key and bind name.
/// If the command was sent, the session recorded a fresh `nonceCaller` of its
/// digest length, and it took the reply's `nonceTPM` exactly when the
/// command succeeded with a verified session area; if not sent, it is
/// unchanged.
pub open spec fn auth_evolved(
    a0: Auth,
    a1: Auth,
    sent: bool,
    r: core::result::Result<ParsedReply, Failure>,
) -> bool {
    match a0 {
        Auth::NoAuth => a1 is NoAuth,
        Auth::Password(pw) => a1 == Auth::Password(pw),
        Auth::Session { session: s0, auth_value: av0 } => match a1 {
            Auth::Session { session: s1, auth_value: av1 } => {
                let v0 = (*s0)@;
                let v1 = (*s1)@;
                &&& av1 == av0
                &&& v1.handle == v0.handle
                &&& v1.hash_alg == v0.hash_alg
                &&& v1.attributes == v0.attributes
                &&& v1.key == v0.key
                &&& v1.bound_name == v0.bound_name
                &&& !sent ==> v1 == v0
                &&& sent ==> v1.nonce_caller.len() == digest_len(v0.hash_alg)
                &&& sent ==> v1.nonce_tpm == (match r {
                    Ok(p) => match p.auth {
                        Some((n, _, _)) => n,
                        None => v0.nonce_tpm,
                    },
                    Err(_) => v0.nonce_tpm,
                })
            },
            _ => false,
        },
    }
}

/// What a command sent without authorization comes to.
pub open spec fn plain_result(code: u32, reply: Result<Seq<u8>>, k: nat) -> core::result::Result<
    ParsedReply,
    Failure,
> {
    run_result(Auth::NoAuth, code, Seq::empty(), reply, k)
}

/// A successful handle parse yields exactly the handles asked for.
pub proof fn lemma_parse_handles_count(s: Seq<u8>, k: nat)
    ensures
        parse_handles(s, k) matches Some((hs, n)) ==> hs.len() == k && n == 4 * k && n <= s.len(),
    decreases k,
{
    if k > 0 && s.len() >= 4 {
        lemma_parse_handles_count(s.skip(4), (k - 1) as nat);
    }
}

/// The handle area of `h` followed by `hs` is `h`'s encoding followed by
/// the handle area of `hs`.
proof fn lemma_handles_bytes_cons(h: Handle, hs: Seq<Handle>)
    ensures
        handles_bytes(seq![h] + hs) == be32(h.0) + handles_bytes(hs),
    decreases hs.len(),
{
    if hs.len() == 0 {
        assert(seq![h] + hs =~= seq![h]);
        assert(seq![h].drop_last() =~= Seq::<Handle>::empty());
        assert(seq![h].last() == h);
        reveal_with_fuel(handles_bytes, 2);
        assert(handles_bytes(seq![h]) =~= be32(h.0));
    } else {
        let all = seq![h] + hs;
        assert(all.drop_last() =~= seq![h] + hs.drop_last());
        lemma_handles_bytes_cons(h, hs.drop_last());
        assert(handles_bytes(all) =~= be32(h.0) + handles_bytes(hs));
    }
}

/// Handles read back from their handle area are the handles written,
/// whatever follows.
pub proof fn lemma_handles_round_trip(hs: Seq<Handle>, rest: Seq<u8>)
    ensures
        handles_bytes(hs).len() == 4 * hs.len(),
        parse_handles(handles_bytes(hs) + rest, hs.len()) == Some((hs, 4 * hs.len() as int)),
    decreases hs.len(),
{
    if hs.len() == 0 {
        assert(hs =~= Seq::<Handle>::empty());
    } else {
        let h = hs[0];
        let tail = hs.drop_first();
        assert(seq![h] + tail =~= hs);
        lemma_handles_bytes_cons(h, tail);
        lemma_handles_round_trip(tail, rest);
        crate::marshal::lemma_be32_round_trip(h.0, Seq::empty());
        let s = handles_bytes(hs) + rest;
        assert(s =~= be32(h.0) + (handles_bytes(tail) + rest));
        assert(s.skip(4) =~= handles_bytes(tail) + rest);
        assert(from_be32(s) == from_be32(be32(h.0)));
    }
}

/// A success reply without a session area, carrying `handles` and `params`,
/// parses back to exactly those handles and parameters.
pub proof fn lemma_plain_reply_round_trip(handles: Seq<Handle>, params: Seq<u8>)
    requires
        10 + 4 * handles.len() + params.len() <= 0xFFFF_FFFF,
    ensures
        parse_reply(command_bytes(0x8001, 0, handles_bytes(handles) + params), handles.len())
            == Ok::<ParsedReply, Failure>(ParsedReply { handles, params, auth: None }),
{
    lemma_handles_round_trip(handles, params);
    let body = handles_bytes(handles) + params;
    lemma_command_frame_header(0x8001, 0, body);
    let f = command_bytes(0x8001, 0, body);
    assert(f.skip(10 + 4 * handles.len() as int) =~= params);
}

/// A success reply with a session area, carrying `handles`, `params` and the
/// authorization entry `(nonce, attrs, hmac)`, parses back to exactly those.
#[verifier::spinoff_prover]
pub proof fn lemma_session_reply_round_trip(
    handles: Seq<Handle>,
    params: Seq<u8>,
    nonce: Seq<u8>,
    attrs: u8,
    hmac: Seq<u8>,
)
    requires
        nonce.len() <= 0xFFFF,
        hmac.len() <= 0xFFFF,
        10 + 4 * handles.len() + 4 + params.len() + 2 + nonce.len() + 1 + 2 + hmac.len()
            <= 0xFFFF_FFFF,
    ensures
        parse_reply(
            command_bytes(
                0x8002,
                0,
                handles_bytes(handles) + be32(params.len() as u32) + params + tpm2b(nonce) + seq![
                    attrs,
                ] + tpm2b(hmac),
            ),
            handles.len(),
        ) == Ok::<ParsedReply, Failure>(
            ParsedReply { handles, params, auth: Some((nonce, attrs, hmac)) },
        ),
{
    let area = tpm2b(nonce) + seq![attrs] + tpm2b(hmac);
    let tail = be32(params.len() as u32) + params + area;
    let body = handles_bytes(handles) + be32(params.len() as u32) + params + tpm2b(nonce) + seq![
        attrs,
    ] + tpm2b(hmac);
    assert(body =~= handles_bytes(handles) + tail);
    lemma_handles_round_trip(handles, tail);
    lemma_command_frame_header(0x8002, 0, body);
    let f = command_bytes(0x8002, 0, body);
    let r = f.skip(10 + 4 * handles.len() as int);
    assert(r =~= tail);
    lemma_sized_params_split(params, area);
    lemma_auth_area_round_trip(nonce, attrs, hmac);
}

/// A size-prefixed parameter area followed by `rest` splits back into its
/// size, its parameters and `rest`.
proof fn lemma_sized_params_split(params: Seq<u8>, rest: Seq<u8>)
    requires
        params.len() <= 0xFFFF_FFFF,
    ensures
        ({
            let t = be32(params.len() as u32) + params + rest;
            &&& t.len() == 4 + params.len() + rest.len()
            &&& from_be32(t) == params.len()
            &&& t.subrange(4, 4 + params.len() as int) == params
            &&& t.skip(4 + params.len() as int) == rest
        }),
{
    let t = be32(params.len() as u32) + params + rest;
    crate::marshal::lemma_be32_round_trip(params.len() as u32, params + rest);
    assert(t =~= be32(params.len() as u32) + (params + rest));
    assert(t.subrange(4, 4 + params.len() as int) =~= params);
    assert(t.skip(4 + params.len() as int) =~= rest);
}

/// A response authorization entry reads back as the entry written.
proof fn lemma_auth_area_round_trip(nonce: Seq<u8>, attrs: u8, hmac: Seq<u8>)
    requires
        nonce.len() <= 0xFFFF,
        hmac.len() <= 0xFFFF,
    ensures
        parse_auth_area(tpm2b(nonce) + seq![attrs] + tpm2b(hmac)) == Some((nonce, attrs, hmac)),
{
    let area = tpm2b(nonce) + seq![attrs] + tpm2b(hmac);
    let after = seq![attrs] + tpm2b(hmac);
    crate::marshal::lemma_tpm2b_round_trip(nonce, after);
    assert(area =~= tpm2b(nonce) + after);
    assert(area.skip(tpm2b(nonce).len() as int) =~= after);
    crate::marshal::lemma_tpm2b_round_trip(hmac, Seq::empty());
    assert(after.skip(1) =~= tpm2b(hmac) + Seq::<u8>::empty());
}

/// A reply whose response code is not zero is the TPM's rejection with that
/// code, whatever else it holds.
pub proof fn lemma_rejection_reported(resp: Seq<u8>, k: nat)
    requires
        resp.len() >= 10,
        from_be32(resp.skip(6)) != 0,
    ensures
        parse_reply(resp, k) == Err::<ParsedReply, Failure>(
            Failure::Rejected(from_be32(resp.skip(6))),
        ),
{
}

/// `h1` is `h0` with one more exchange, whose command bytes are `cmd`.
pub open spec fn appended(h0: Seq<Exchange>, h1: Seq<Exchange>, cmd: Seq<u8>) -> bool {
    &&& h1.len() == h0.len() + 1
    &&& h1.drop_last() == h0
    &&& h1.last().0 == cmd
}

/// A parsed, success-checked response: the response handles and the raw
/// parameter bytes (to be unmarshalled by the calling command).
pub(crate) struct RawResponse {
    pub handles: Vec<Handle>,
    pub params: Vec<u8>,
}

/// A TPM, reached through some [`Transport`].
pub struct Tpm<T: Transport> {
    transport: T,
    exchanges: Ghost<Seq<Exchange>>,
}

/// The ghost view of a transport's answer.
pub open spec fn reply_view(r: Result<Vec<u8>>) -> Result<Seq<u8>> {
    match r {
        Ok(v) => Ok(v@),
        Err(e) => Err(e),
    }
}

impl<T: Transport> Tpm<T> {
    /// Every exchange so far: the command bytes sent and the reply received.
    pub closed spec fn history(&self) -> Seq<Exchange> {
        self.exchanges@
    }

    /// The transport this `Tpm` drives.
    pub closed spec fn link(&self) -> T {
        self.transport
    }

    /// Wraps a transport.
    pub fn new(transport: T) -> (t: Self)
        ensures
            t.history() == Seq::<Exchange>::empty(),
            t.link() == transport,
    {
        Tpm { transport, exchanges: Ghost(Seq::empty()) }
    }

    /// Borrows the underlying transport (e.g. to power on a simulator).
    pub fn transport_mut(&mut self) -> (t: &mut T)
        ensures
            *t == old(self).link(),
            final(self).link() == *final(t),
            final(self).history() == old(self).history(),
    {
        &mut self.transport
    }

    /// Consumes the `Tpm`, returning the transport.
    pub fn into_transport(self) -> (t: T)
        ensures
            t == self.link(),
    {
        self.transport
    }

    /// Runs one command and returns its parsed response.
    ///
    /// * `code`: the `TPM_CC`.
    /// * `handles`: the handle-area handles, in spec order.
    /// * `names`: the Name of each handle in `handles` (for `cpHash`); only
    ///   consulted for HMAC sessions.
    /// * `params`: the marshalled parameter area.
    /// * `auth`: how the command is authorized.
    /// * `resp_handles`: how many handles the response carries.
    pub(crate) fn run(
        &mut self,
        code: u32,
        handles: &[Handle],
        names: &[&[u8]],
        params: &[u8],
        auth: &mut Auth<'_>,
        resp_handles: usize,
    ) -> (res: Result<RawResponse>)
        requires
            frame_fits(handles@.len(), params@.len(), *old(auth)),
        ensures
            auth_sendable(*old(auth)) ==> appended(
                old(self).history(),
                final(self).history(),
                command_frame(
                    code,
                    handles@,
                    auth_area(*old(auth), *final(auth), code, views(names@), params@),
                    params@,
                ),
            ),
            auth_sendable(*old(auth)) ==> match run_result(
                *final(auth),
                code,
                views(names@),
                final(self).history().last().1,
                resp_handles as nat,
            ) {
                Ok(p) => res matches Ok(raw) && raw.handles@ == p.handles && raw.params@
                    == p.params,
                Err(f) => res matches Err(e) && error_is(e, f),
            },
            res matches Ok(raw) ==> raw.handles@.len() == resp_handles,
            !auth_sendable(*old(auth)) ==> final(self).history() == old(self).history(),
            !auth_sendable(*old(auth)) ==> (res matches Err(e) && e is Usage),
            auth_evolved(
                *old(auth),
                *final(auth),
                auth_sendable(*old(auth)),
                run_result(
                    *final(auth),
                    code,
                    views(names@),
                    final(self).history().last().1,
                    resp_handles as nat,
                ),
            ),
            *old(auth) matches Auth::Session { session: s0, auth_value: _ } ==> *final(auth) matches Auth::Session { session: s1, auth_value: _ } && *final(s1) == *final(s0),
    {
        let use_sessions = auth.uses_session_area();
        let ghost a0 = *auth;
        let ghost mut nonce_sent: Seq<u8> = Seq::empty();

        let mut body: Vec<u8> = Vec::new();
        let mut i: usize = 0;
        while i < handles.len()
            invariant
                i <= handles@.len(),
                10 + 4 * handles@.len() <= 0xFFFF_FFFF,
                body@ == handles_bytes(handles@.take(i as int)),
                body@.len() == 4 * i,
            decreases handles@.len() - i,
        {
            handles[i].marshal(&mut body);
            proof {
                assert(handles@.take(i + 1).drop_last() =~= handles@.take(i as int));
            }
            i = i + 1;
        }
        assert(handles@.take(i as int) =~= handles@);
        let ghost hbytes = body@;

        let ghost mut expected_area: Option<Seq<u8>> = None;
        if use_sessions {
            let mut area: Vec<u8> = Vec::new();
            match auth {
                Auth::NoAuth => {},
                Auth::Password(pw) => {
                    Handle(rh::PW).marshal(&mut area);
                    let empty: [u8; 0] = [];
                    let _ = marshal_tpm2b(empty.as_slice(), &mut area);
                    area.push(SessionAttributes::CONTINUE_SESSION);
                    match marshal_tpm2b(pw, &mut area) {
                        Ok(()) => {},
                        Err(_) => {
                            return Err(Error::Usage("auth value too long"));
                        },
                    }
                    assert(area@ =~= password_area(pw@));
                    proof {
                        expected_area = Some(area@);
                    }
                },
                Auth::Session { session, auth_value } => {
                    let object_name: &[u8] = if names.len() > 0 {
                        names[0]
                    } else {
                        &[]
                    };
                    let alg = session.hash_alg();
                    let cp = match cp_hash(alg, code, names, params) {
                        Ok(c) => c,
                        Err(e) => return Err(e),
                    };
                    let nonce = match session_nonce(session) {
                        Ok(n) => n,
                        Err(e) => return Err(e),
                    };
                    let ac = match session.command_auth(cp.as_slice(), auth_value, object_name, nonce) {
                        Ok(a) => a,
                        Err(e) => return Err(e),
                    };
                    ac.session_handle.marshal(&mut area);
                    let _ = marshal_tpm2b(ac.nonce_caller.as_slice(), &mut area);
                    area.push(ac.attributes.0);
                    let _ = marshal_tpm2b(ac.hmac.as_slice(), &mut area);
                    proof {
                        assert(area@ =~= session_area(
                            ac.session_handle,
                            ac.nonce_caller@,
                            ac.attributes.0,
                            ac.hmac@,
                        ));
                        expected_area = Some(area@);
                        nonce_sent = ac.nonce_caller@;
                        assert(session@.nonce_caller == nonce_sent);
                        assert(a0 matches Auth::Session { session: s0, auth_value: av }
                            && area@ == session_entry((*s0)@, av@, code, views(names@), params@, nonce_sent));
                    }
                },
            }
            assert(expected_area == Some(area@));
            (area.len() as u32).marshal(&mut body);
            body.extend_from_slice(area.as_slice());
        }
        body.extend_from_slice(params);

        let tag = if use_sessions {
            st::SESSIONS
        } else {
            st::NO_SESSIONS
        };
        let total: u32 = 10u32 + body.len() as u32;
        let mut frame: Vec<u8> = Vec::new();
        tag.marshal(&mut frame);
        total.marshal(&mut frame);
        code.marshal(&mut frame);
        frame.extend_from_slice(body.as_slice());

        assert(frame@ =~= command_frame(code, handles@, expected_area, params@));
        let resp = self.transport.transmit(frame.as_slice());
        self.exchanges = Ghost(self.exchanges@.push((frame@, reply_view(resp))));
        assert(self.exchanges@.drop_last() =~= old(self).exchanges@);
        assert(a0 matches Auth::Session { session: _, auth_value: _ } ==> (*auth matches Auth::Session { session: s, auth_value: _ } && (*s)@.nonce_caller == nonce_sent));
        assert(expected_area == auth_area(a0, *auth, code, views(names@), params@));
        match resp {
            Err(e) => Err(e),
            Ok(bytes) => parse_response(code, bytes.as_slice(), auth, names, resp_handles),
        }
    }
}

/// Unframes a reply to command `code`, verifying the session HMAC when an
/// HMAC session authorizes the command.
fn parse_response(
    code: u32,
    resp: &[u8],
    auth: &mut Auth<'_>,
    names: &[&[u8]],
    resp_handles: usize,
) -> (res: Result<RawResponse>)
    requires
        *old(auth) matches Auth::Session { session, auth_value: _ } ==> hash_alg_supported(
            (*session)@.hash_alg,
        ),
    ensures
        res matches Ok(raw) ==> raw.handles@.len() == resp_handles,
        match run_result(*final(auth), code, views(names@), Ok(resp@), resp_handles as nat) {
            Ok(p) => res matches Ok(raw) && raw.handles@ == p.handles && raw.params@ == p.params,
            Err(f) => res matches Err(e) && error_is(e, f),
        },
        match *old(auth) {
            Auth::NoAuth => *final(auth) is NoAuth,
            Auth::Password(pw) => *final(auth) == Auth::Password(pw),
            Auth::Session { session: s0, auth_value: av0 } => match *final(auth) {
                Auth::Session { session: s1, auth_value: av1 } => {
                    let v0 = (*s0)@;
                    let v1 = (*s1)@;
                    &&& av1 == av0
                    &&& *final(s1) == *final(s0)
                    &&& v1.handle == v0.handle
                    &&& v1.hash_alg == v0.hash_alg
                    &&& v1.attributes == v0.attributes
                    &&& v1.key == v0.key
                    &&& v1.bound_name == v0.bound_name
                    &&& v1.nonce_caller == v0.nonce_caller
                    &&& v1.nonce_tpm == (match run_result(
                        *final(auth),
                        code,
                        views(names@),
                        Ok(resp@),
                        resp_handles as nat,
                    ) {
                        Ok(p) => match p.auth {
                            Some((n, _, _)) => n,
                            None => v0.nonce_tpm,
                        },
                        Err(_) => v0.nonce_tpm,
                    })
                },
                _ => false,
            },
        },
{
    let mut r = Reader::new(resp);
    let tag = match r.u16() {
        Ok(t) => t,
        Err(e) => return Err(e),
    };
    let size = match r.u32() {
        Ok(s) => s as usize,
        Err(e) => return Err(e),
    };
    let rc = match r.u32() {
        Ok(c) => c,
        Err(e) => return Err(e),
    };
    proof {
        assert(resp@.skip(2).skip(4) =~= resp@.skip(6));
        assert(resp@.skip(6).skip(4) =~= resp@.skip(10));
    }
    if rc != 0 {
        return Err(Error::rc(rc));
    }
    if size != resp.len() {
        return Err(Error::Protocol("response size header disagrees with received length".to_owned()));
    }

    let ghost after_header = r.rest();
    let mut rhandles: Vec<Handle> = Vec::new();
    let mut i: usize = 0;
    while i < resp_handles
        invariant
            i <= resp_handles,
            rhandles@.len() == i,
            resp@.len() >= 10,
            rc == 0,
            rc == from_be32(resp@.skip(6)),
            from_be32(resp@.skip(2)) as int == resp@.len(),
            tag == from_be16(resp@),
            *auth == *old(auth),
            after_header == resp@.skip(10),
            r.rest().len() <= after_header.len(),
            r.rest() == after_header.skip(after_header.len() - r.rest().len()),
            match parse_handles(r.rest(), (resp_handles - i) as nat) {
                None => parse_handles(after_header, resp_handles as nat) is None,
                Some((hs, m)) => parse_handles(after_header, resp_handles as nat) == Some(
                    (rhandles@ + hs, (after_header.len() - r.rest().len()) + m),
                ),
            },
        decreases resp_handles - i,
    {
        let ghost before = r.rest();
        let h = match r.u32() {
            Ok(v) => Handle(v),
            Err(e) => {
                assert(parse_handles(before, (resp_handles - i) as nat) is None);
                return Err(e);
            },
        };
        let ghost old_handles = rhandles@;
        rhandles.push(h);
        proof {
            assert(before.skip(4) =~= r.rest());
            assert(r.rest() =~= after_header.skip(after_header.len() - r.rest().len()));
            match parse_handles(r.rest(), (resp_handles - i - 1) as nat) {
                None => {},
                Some((hs, m)) => {
                    assert(rhandles@ + hs =~= old_handles + (seq![h] + hs));
                },
            }
        }
        i = i + 1;
    }
    let ghost used = after_header.len() - r.rest().len();
    proof {
        assert(r.rest() =~= resp@.skip(10 + used));
    }

    let params = if tag == st::SESSIONS {
        let param_size = match r.u32() {
            Ok(p) => p as usize,
            Err(e) => return Err(e),
        };
        let pbytes = match r.take(param_size) {
            Ok(p) => vstd::slice::slice_to_vec(p),
            Err(e) => return Err(e),
        };
        proof {
            let rr = resp@.skip(10 + used);
            assert(pbytes@ =~= rr.subrange(4, 4 + param_size));
            assert(r.rest() =~= rr.skip(4 + param_size));
        }
        // The response authorization area follows the parameters.
        let auth_resp = match parse_auth_response(&mut r) {
            Ok(a) => a,
            Err(e) => return Err(e),
        };
        match auth {
            Auth::Session { session, auth_value } => {
                let object_name: &[u8] = if names.len() > 0 {
                    names[0]
                } else {
                    &[]
                };
                let alg = session.hash_alg();
                let rp = match rp_hash(alg, rc, code, pbytes.as_slice()) {
                    Ok(h) => h,
                    Err(e) => return Err(e),
                };
                match session.verify_response(rp.as_slice(), auth_value, object_name, &auth_resp) {
                    Ok(()) => {},
                    Err(e) => return Err(e),
                }
            },
            _ => {},
        }
        pbytes
    } else {
        match r.take(r.remaining()) {
            Ok(p) => vstd::slice::slice_to_vec(p),
            Err(e) => return Err(e),
        }
    };

    Ok(RawResponse { handles: rhandles, params })
}

/// `cpHash = H(commandCode || Name(handle)... || parameters)`.
fn cp_hash(alg: Alg, code: u32, names: &[&[u8]], params: &[u8]) -> (res: Result<Vec<u8>>)
    ensures
        res is Ok <==> hash_alg_supported(alg),
        res matches Ok(d) ==> d@ == cp_hash_of(alg, code, views(names@), params@),
        res matches Err(e) ==> e is Usage,
{
    let mut data: Vec<u8> = Vec::new();
    code.marshal(&mut data);
    let joined_names = crypto::join_parts(names);
    data.extend_from_slice(joined_names.as_slice());
    data.extend_from_slice(params);
    assert(data@ =~= be32(code) + concat(views(names@)) + params@);
    crypto::hash(alg, data.as_slice())
}

/// `rpHash = H(responseCode || commandCode || parameters)`.
fn rp_hash(alg: Alg, rc: u32, code: u32, params: &[u8]) -> (res: Result<Vec<u8>>)
    ensures
        res is Ok <==> hash_alg_supported(alg),
        res matches Ok(d) ==> d@ == rp_hash_of(alg, rc, code, params@),
        res matches Err(e) ==> e is Usage,
{
    let mut data: Vec<u8> = Vec::new();
    rc.marshal(&mut data);
    code.marshal(&mut data);
    data.extend_from_slice(params);
    assert(data@ =~= be32(rc) + be32(code) + params@);
    crypto::hash(alg, data.as_slice())
}

/// Reads a response authorization entry.
fn parse_auth_response(r: &mut Reader<'_>) -> (res: Result<AuthResponse>)
    ensures
        match parse_auth_area(old(r).rest()) {
            Some((n, a, h)) => res matches Ok(ar) && ar.nonce_tpm@ == n && ar.attributes.0 == a
                && ar.hmac@ == h,
            None => res matches Err(e) && e is Malformed,
        },
{
    let ghost d = r.rest();
    let nonce_tpm = match r.tpm2b() {
        Ok(n) => vstd::slice::slice_to_vec(n),
        Err(e) => return Err(e),
    };
    let attributes = match r.u8() {
        Ok(a) => SessionAttributes(a),
        Err(e) => return Err(e),
    };
    let hmac = match r.tpm2b() {
        Ok(h) => vstd::slice::slice_to_vec(h),
        Err(e) => return Err(e),
    };
    Ok(AuthResponse { nonce_tpm, attributes, hmac })
}

/// A fresh `nonceCaller` for the session's next command.
fn session_nonce(session: &Session) -> (res: Result<Vec<u8>>)
    ensures
        res is Ok <==> hash_alg_supported(session@.hash_alg),
        res matches Ok(n) ==> n@.len() == digest_len(session@.hash_alg),
        res matches Err(e) ==> e is Usage,
{
    session.fresh_nonce()
}

} // verus!
