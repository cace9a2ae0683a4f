//! The framing of the TPM simulator's command socket, spoken by `swtpm
//! --tpm2` and by the Microsoft / IBM simulator (`ms-tpm-20-ref`) alike.
//!
//! A command goes out as the `UINT32` selector `TPM_SEND_COMMAND`, a `UINT8`
//! locality, a `UINT32` length and the TPM command bytes. The reply is a
//! `UINT32` length, that many response bytes, then a `UINT32` simulator
//! result code. Platform signals (power, NV, session end) are a bare `UINT32`
//! code, answered on the platform socket by a `UINT32` result code.
//!
//! The socket I/O itself lives with the transport outside the verified
//! library; what is sent and how the simulator's answers are judged is here.
use vstd::prelude::*;

use crate::error::{Error, Result, dec_text, push_dec};
use crate::marshal::{Marshal, be32};

verus! {

/// Platform signal: power the simulated TPM on.
pub const TPM_SIGNAL_POWER_ON: u32 = 1;

/// Platform signal: make NV storage available.
pub const TPM_SIGNAL_NV_ON: u32 = 11;

/// Command-socket selector: a TPM command follows.
pub const TPM_SEND_COMMAND: u32 = 8;

/// Command-socket selector: the client is closing the connection.
pub const TPM_SESSION_END: u32 = 20;

/// The largest reply length accepted from the simulator (1 MiB); a larger
/// declared length is refused rather than allocated.
pub const MAX_RESPONSE: u32 = 0x10_0000;

/// The bytes that send `command` at `locality`.
pub open spec fn send_command_bytes(locality: u8, command: Seq<u8>) -> Seq<u8> {
    be32(TPM_SEND_COMMAND) + seq![locality] + be32(command.len() as u32) + command
}

/// Frames `command` for the simulator's command socket.
pub fn send_command_frame(locality: u8, command: &[u8]) -> (f: Vec<u8>)
    requires
        command@.len() <= 0xFFFF_FFFF,
    ensures
        f@ == send_command_bytes(locality, command@),
{
    let mut f: Vec<u8> = Vec::new();
    TPM_SEND_COMMAND.marshal(&mut f);
    f.push(locality);
    (command.len() as u32).marshal(&mut f);
    f.extend_from_slice(command);
    assert(f@ =~= send_command_bytes(locality, command@));
    f
}

/// Judges the reply length the simulator declared: the number of response
/// bytes to read, or a transport error naming a length over
/// [`MAX_RESPONSE`].
pub fn reply_length(len: u32) -> (res: Result<usize>)
    ensures
        res is Ok <==> len <= MAX_RESPONSE,
        res matches Ok(n) ==> n == len,
        res matches Err(e) ==> e matches Error::Transport(s) && s@
            == "simulator response too large: "@ + dec_text(len as nat) + " bytes"@,
{
    if len > MAX_RESPONSE {
        let mut s = String::new();
        s.append("simulator response too large: ");
        push_dec(&mut s, len);
        s.append(" bytes");
        return Err(Error::Transport(s));
    }
    Ok(len as usize)
}

/// Judges the simulator's result code for a sent command: success exactly
/// when it is zero.
pub fn send_result(rc: u32) -> (res: Result<()>)
    ensures
        res is Ok <==> rc == 0,
        res matches Err(e) ==> e matches Error::Transport(s) && s@ == "simulator send failed: rc="@
            + dec_text(rc as nat),
{
    if rc != 0 {
        let mut s = String::new();
        s.append("simulator send failed: rc=");
        push_dec(&mut s, rc);
        return Err(Error::Transport(s));
    }
    Ok(())
}

/// Judges the simulator's result code for platform signal `code`: success
/// exactly when it is zero.
pub fn signal_result(code: u32, rc: u32) -> (res: Result<()>)
    ensures
        res is Ok <==> rc == 0,
        res matches Err(e) ==> e matches Error::Transport(s) && s@
            == "simulator platform signal "@ + dec_text(code as nat) + " failed: rc="@ + dec_text(
            rc as nat,
        ),
{
    if rc != 0 {
        let mut s = String::new();
        s.append("simulator platform signal ");
        push_dec(&mut s, code);
        s.append(" failed: rc=");
        push_dec(&mut s, rc);
        return Err(Error::Transport(s));
    }
    Ok(())
}

} // verus!
