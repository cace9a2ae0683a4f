//! Error and result types.
//!
//! Two failure domains meet here: errors *the TPM reports* (a 32-bit
//! [`TpmRc`] response code carried in every response header) and errors *the
//! host stack raises* (transport I/O, a malformed response, a misuse of the
//! API). [`Error`] unifies them.
use vstd::prelude::*;

verus! {

/// The crate result alias.
pub type Result<T> = core::result::Result<T, Error>;

/// A TPM 2.0 response code (`TPM_RC`), as carried in the response header.
///
/// `0x000` is success. The "format-zero" space holds version-1.2-compatible
/// codes, warnings (`RC_WARN`) and vendor codes; the "format-one" space (bit 7
/// set) attaches a parameter, handle or session number to the code. [`Self::base`]
/// strips that number back to the canonical code.
#[derive(Clone, Copy, PartialEq, Eq, Hash, Debug, Structural)]
pub struct TpmRc(pub u32);

/// Bit 7: the code is a format-one code.
pub open spec fn rc_format_one(code: u32) -> bool {
    code & 0x080 != 0
}

/// The canonical code of `code`: a format-one code keeps its low six bits and
/// bit 7, a format-zero code is kept whole.
pub open spec fn rc_base(code: u32) -> u32 {
    if rc_format_one(code) {
        code & 0x0BF
    } else {
        code
    }
}

/// The 1-based argument number of a format-one code: bits 8-11 for a
/// parameter (bit 6 set); bits 8-10 for a handle or a session, whose bit 11
/// is the session flag.
pub open spec fn rc_arg_number(code: u32) -> Option<u8> {
    if !rc_format_one(code) {
        None
    } else if code & 0x040 != 0 {
        Some(((code >> 8) & 0xF) as u8)
    } else {
        Some(((code >> 8) & 0x7) as u8)
    }
}

/// The argument kind a format-one code refers to (Part 2 §6.6.3): bit 6 set
/// names a parameter; otherwise bit 11 set names a session, clear a handle.
pub open spec fn rc_arg_kind(code: u32) -> Option<ArgKind> {
    if !rc_format_one(code) {
        None
    } else if code & 0x040 != 0 {
        Some(ArgKind::Parameter)
    } else if code & 0x800 != 0 {
        Some(ArgKind::Session)
    } else {
        Some(ArgKind::Handle)
    }
}

impl TpmRc {
    /// `TPM_RC_SUCCESS`.
    #[verifier::allow_in_spec]
    #[allow(non_snake_case)]
    pub fn SUCCESS() -> TpmRc
        returns
            TpmRc(0x000),
    {
        TpmRc(0x000)
    }

    /// The raw 32-bit code.
    pub fn raw(self) -> (r: u32)
        ensures
            r == self.0,
    {
        self.0
    }

    /// Whether this code is `TPM_RC_SUCCESS`.
    pub fn is_success(self) -> (r: bool)
        ensures
            r == (self.0 == 0),
    {
        self.0 == 0
    }

    /// `true` for a "format-one" code (bit 7 set), one that carries a
    /// parameter/handle/session number.
    pub fn is_format_one(self) -> (r: bool)
        ensures
            r == rc_format_one(self.0),
    {
        self.0 & 0x080 != 0
    }

    /// `true` for an `RC_WARN` warning (format-zero, bit 11 set).
    pub fn is_warning(self) -> (r: bool)
        ensures
            r == (!rc_format_one(self.0) && self.0 & 0x800 != 0),
    {
        !self.is_format_one() && (self.0 & 0x800 != 0)
    }

    /// The canonical code with any format-one parameter/handle/session number
    /// stripped off. For a format-zero code this is the code itself.
    pub fn base(self) -> (r: TpmRc)
        ensures
            r.0 == rc_base(self.0),
    {
        if self.is_format_one() {
            TpmRc(self.0 & 0x0BF)
        } else {
            self
        }
    }

    /// For a format-one code, the 1-based number of the parameter, handle or
    /// session the code refers to; `None` for a format-zero code.
    ///
    /// A parameter number takes bits 8-11. A handle or session number takes
    /// bits 8-10, bit 11 being the flag that tells a session from a handle
    /// (see [`Self::arg_kind`]).
    pub fn arg_number(self) -> (r: Option<u8>)
        ensures
            r == rc_arg_number(self.0),
    {
        if !self.is_format_one() {
            None
        } else if self.0 & 0x040 != 0 {
            Some(((self.0 >> 8) & 0xF) as u8)
        } else {
            Some(((self.0 >> 8) & 0x7) as u8)
        }
    }

    /// For a format-one code, what kind of argument [`Self::arg_number`] counts.
    pub fn arg_kind(self) -> (r: Option<ArgKind>)
        ensures
            r == rc_arg_kind(self.0),
    {
        if !self.is_format_one() {
            return None;
        }
        if self.0 & 0x040 != 0 {
            Some(ArgKind::Parameter)
        } else if self.0 & 0x800 != 0 {
            Some(ArgKind::Session)
        } else {
            Some(ArgKind::Handle)
        }
    }
}

/// Stripping the argument number twice changes nothing: the canonical code
/// of a canonical code is itself.
pub proof fn lemma_base_idempotent(code: u32)
    ensures
        rc_base(rc_base(code)) == rc_base(code),
{
    assert((code & 0x080 != 0) ==> ((code & 0x0BF) & 0x080 != 0 && ((code & 0x0BF) & 0x0BF)
        == (code & 0x0BF))) by (bit_vector);
}

/// A format-one code and its canonical code agree on everything but the
/// argument number: both are format-one, and the canonical code lies in
/// `0x080..=0x0BF` with no argument number left.
pub proof fn lemma_base_of_format_one(code: u32)
    requires
        rc_format_one(code),
    ensures
        rc_format_one(rc_base(code)),
        0x080 <= rc_base(code) <= 0x0BF,
        (rc_base(code) >> 8) & 0xF == 0,
{
    assert((code & 0x080 != 0) ==> ((code & 0x0BF) & 0x080 != 0 && 0x080 <= (code & 0x0BF)
        <= 0x0BF && ((code & 0x0BF) >> 8) & 0xF == 0)) by (bit_vector);
}

/// The argument number of a format-one code fits four bits, and that of a
/// handle or session code fits three: the session flag is never counted in.
pub proof fn lemma_arg_number_range(code: u32)
    ensures
        rc_arg_number(code) matches Some(n) ==> n <= 15,
        rc_arg_kind(code) matches Some(k) ==> (k is Handle || k is Session) ==> (
        rc_arg_number(code) matches Some(n) && n <= 7),
{
    assert((code >> 8) & 0xF <= 15) by (bit_vector);
    assert((code >> 8) & 0x7 <= 7) by (bit_vector);
}

/// The lower-case hexadecimal digit for `d` (`d < 16`).
pub open spec fn hex_char(d: nat) -> char {
    if d == 0 { '0' } else if d == 1 { '1' } else if d == 2 { '2' } else if d == 3 { '3' }
    else if d == 4 { '4' } else if d == 5 { '5' } else if d == 6 { '6' } else if d == 7 { '7' }
    else if d == 8 { '8' } else if d == 9 { '9' } else if d == 10 { 'a' } else if d == 11 { 'b' }
    else if d == 12 { 'c' } else if d == 13 { 'd' } else if d == 14 { 'e' } else { 'f' }
}

/// `v` in lower-case hexadecimal, without leading zeros beyond those that
/// pad it to `width` digits.
pub open spec fn hex_text(v: nat, width: nat) -> Seq<char>
    decreases v + width,
{
    if v < 16 && width <= 1 {
        seq![hex_char(v)]
    } else {
        hex_text(v / 16, if width > 0 { (width - 1) as nat } else { 0 }) + seq![hex_char(v % 16)]
    }
}

/// `v` in decimal.
pub open spec fn dec_text(v: nat) -> Seq<char>
    decreases v,
{
    if v < 10 {
        seq![hex_char(v)]
    } else {
        dec_text(v / 10) + seq![hex_char(v % 10)]
    }
}

/// The label of an argument kind.
pub open spec fn arg_kind_text(k: ArgKind) -> Seq<char> {
    match k {
        ArgKind::Handle => "handle"@,
        ArgKind::Parameter => "parameter"@,
        ArgKind::Session => "session"@,
    }
}

/// How a response code reads: `TPM_RC 0x` and the code in hexadecimal (at
/// least three digits), then, for a format-one code, the kind and number of
/// the argument it names in brackets.
pub open spec fn rc_text(code: u32) -> Seq<char> {
    "TPM_RC 0x"@ + hex_text(code as nat, 3) + match (rc_arg_number(code), rc_arg_kind(code)) {
        (Some(n), Some(k)) => " ("@ + arg_kind_text(k) + " "@ + dec_text(n as nat) + ")"@,
        _ => Seq::empty(),
    }
}

/// How an error reads: what failed, then the detail.
pub open spec fn error_text(e: Error) -> Seq<char> {
    match e {
        Error::Tpm(rc) => "TPM error: "@ + rc_text(rc.0),
        Error::Transport(s) => "transport error: "@ + s@,
        Error::Malformed(s) => "malformed TPM data: "@ + s@,
        Error::Protocol(s) => "protocol error: "@ + s@,
        Error::Usage(s) => "misuse: "@ + s@,
    }
}

/// The one-character text of hexadecimal digit `d`.
fn digit_str(d: u32) -> (s: &'static str)
    requires
        d < 16,
    ensures
        s@ == seq![hex_char(d as nat)],
{
    proof {
        reveal_strlit("0");
        reveal_strlit("1");
        reveal_strlit("2");
        reveal_strlit("3");
        reveal_strlit("4");
        reveal_strlit("5");
        reveal_strlit("6");
        reveal_strlit("7");
        reveal_strlit("8");
        reveal_strlit("9");
        reveal_strlit("a");
        reveal_strlit("b");
        reveal_strlit("c");
        reveal_strlit("d");
        reveal_strlit("e");
        reveal_strlit("f");
    }
    let s = if d == 0 { "0" } else if d == 1 { "1" } else if d == 2 { "2" } else if d == 3 { "3" }
    else if d == 4 { "4" } else if d == 5 { "5" } else if d == 6 { "6" } else if d == 7 { "7" }
    else if d == 8 { "8" } else if d == 9 { "9" } else if d == 10 { "a" } else if d == 11 { "b" }
    else if d == 12 { "c" } else if d == 13 { "d" } else if d == 14 { "e" } else { "f" };
    assert(s@ =~= seq![hex_char(d as nat)]);
    s
}

/// Appends `v` in hexadecimal, padded with zeros to `width` digits.
fn push_hex(out: &mut String, v: u32, width: u32)
    ensures
        final(out)@ == old(out)@ + hex_text(v as nat, width as nat),
    decreases v as int + width as int,
{
    if v < 16 && width <= 1 {
        out.append(digit_str(v));
    } else {
        let w: u32 = if width > 0 { width - 1 } else { 0 };
        push_hex(out, v / 16, w);
        out.append(digit_str(v % 16));
        assert(final(out)@ =~= old(out)@ + hex_text(v as nat, width as nat));
    }
}

/// Appends `v` in decimal.
pub(crate) fn push_dec(out: &mut String, v: u32)
    ensures
        final(out)@ == old(out)@ + dec_text(v as nat),
    decreases v,
{
    if v < 10 {
        out.append(digit_str(v));
    } else {
        push_dec(out, v / 10);
        out.append(digit_str(v % 10));
        assert(final(out)@ =~= old(out)@ + dec_text(v as nat));
    }
}

impl TpmRc {
    /// The code as text, e.g. `TPM_RC 0x98e (session 1)`.
    pub fn to_string(&self) -> (s: String)
        ensures
            s@ == rc_text(self.0),
    {
        let mut s = String::new();
        s.append("TPM_RC 0x");
        push_hex(&mut s, self.0, 3);
        match (self.arg_number(), self.arg_kind()) {
            (Some(n), Some(kind)) => {
                s.append(" (");
                s.append(kind.as_str());
                s.append(" ");
                push_dec(&mut s, n as u32);
                s.append(")");
            },
            _ => {},
        }
        proof {
            match (rc_arg_number(self.0), rc_arg_kind(self.0)) {
                (Some(n), Some(k)) => {},
                _ => {},
            }
        }
        assert(s@ =~= rc_text(self.0));
        s
    }
}

impl Error {
    /// The error as text, e.g. `misuse: auth value too long`.
    pub fn to_string(&self) -> (s: String)
        ensures
            s@ == error_text(*self),
    {
        let mut s = String::new();
        match self {
            Error::Tpm(rc) => {
                s.append("TPM error: ");
                let t = rc.to_string();
                s.append(t.as_str());
            },
            Error::Transport(d) => {
                s.append("transport error: ");
                s.append(d.as_str());
            },
            Error::Malformed(d) => {
                s.append("malformed TPM data: ");
                s.append(d);
            },
            Error::Protocol(d) => {
                s.append("protocol error: ");
                s.append(d.as_str());
            },
            Error::Usage(d) => {
                s.append("misuse: ");
                s.append(d);
            },
        }
        assert(s@ =~= error_text(*self));
        s
    }
}

/// Which kind of argument a format-one [`TpmRc`] refers to.
#[derive(Clone, Copy, PartialEq, Eq, Debug, Structural)]
pub enum ArgKind {
    /// A command handle argument.
    Handle,
    /// A command parameter argument.
    Parameter,
    /// An authorization session.
    Session,
}

impl ArgKind {
    /// A short label for display.
    pub fn as_str(self) -> (s: &'static str)
        ensures
            s@ == (match self {
                ArgKind::Handle => "handle"@,
                ArgKind::Parameter => "parameter"@,
                ArgKind::Session => "session"@,
            }),
    {
        match self {
            ArgKind::Handle => "handle",
            ArgKind::Parameter => "parameter",
            ArgKind::Session => "session",
        }
    }
}

/// Anything that can go wrong talking to a TPM.
#[derive(Debug)]
#[non_exhaustive]
pub enum Error {
    /// The TPM rejected the command with a non-success response code.
    Tpm(TpmRc),
    /// A transport (device / socket) I/O error.
    Transport(String),
    /// A response (or a value we were asked to marshal) was malformed:
    /// truncated, over-long, or structurally invalid.
    Malformed(&'static str),
    /// The TPM's reply did not match the command: an unexpected tag, a
    /// response whose declared size disagrees with the bytes received, or a
    /// failed response HMAC.
    Protocol(String),
    /// The caller used the API incorrectly (an unsupported algorithm, an
    /// over-long buffer).
    Usage(&'static str),
}

impl Error {
    /// Constructs an [`Error::Tpm`] from a raw response code.
    pub(crate) fn rc(code: u32) -> (e: Error)
        ensures
            e == Error::Tpm(TpmRc(code)),
    {
        Error::Tpm(TpmRc(code))
    }
}

} // verus!
