//! Command failures and their wire form, the ACK line.

use vstd::prelude::*;

verus! {

use vstd::utf8::valid_utf8;
use crate::text::lit;
use crate::text::lit_bytes;
use crate::text::dec_rep;
use crate::text::fmt_dec;
use crate::text::push_bytes;
use crate::text::is_valid_utf8;

/// A command name as it may be echoed back to the client: itself when
/// it is well-formed text, a fixed placeholder otherwise.
pub open spec fn spec_safe_command(c: Seq<u8>) -> Seq<u8> {
    if valid_utf8(c) {
        c
    } else {
        lit("[un-utf8 command]")
    }
}

/// Renders a raw command for echoing in messages: the command itself
/// when its bytes are valid UTF-8, a placeholder otherwise.
pub fn safe_command_print(command: &Vec<u8>) -> (r: Vec<u8>)
    ensures
        r@ == spec_safe_command(command@),
{
    if is_valid_utf8(command) {
        crate::player::clone_bytes(command)
    } else {
        lit_bytes("[un-utf8 command]")
    }
}

/// A failed command, reported to the client as a single ACK line and
/// never fatal to the connection.
#[derive(Debug)]
pub struct MpdCommandError {
    /// The failing command, printable form.
    pub command_str: Vec<u8>,
    /// Human-readable cause.
    pub message: Vec<u8>,
    /// Protocol error code; this bridge reports every failure with the
    /// one code for an unknown cause.
    pub mpd_error_code: u8,
}

/// The protocol code this bridge attaches to every ACK.
pub const ACK_CODE_UNKNOWN: u8 = 5;

impl MpdCommandError {
    /// Builds the error for a raw command, echoing the command safely.
    pub fn new(command: &Vec<u8>, message: Vec<u8>) -> (r: MpdCommandError)
        ensures
            r.command_str@ == spec_safe_command(command@),
            r.message@ == message@,
            r.mpd_error_code == ACK_CODE_UNKNOWN,
    {
        let command_str = safe_command_print(command);
        MpdCommandError { command_str, message, mpd_error_code: ACK_CODE_UNKNOWN }
    }
}

/// The structured failure line: `ACK [<code>@<list-position>]
/// {<command-name>} <message>` and a newline.
pub open spec fn spec_ack_line(code: u8, pos: nat, command: Seq<u8>, message: Seq<u8>) -> Seq<u8> {
    lit("ACK [") + dec_rep(code as nat) + lit("@") + dec_rep(pos) + lit("] {") + command + lit(
        "} ",
    ) + message + lit("\n")
}

/// Renders the ACK line for an error at the given list position.
pub fn ack_line(err: &MpdCommandError, pos: u64) -> (r: Vec<u8>)
    ensures
        r@ == spec_ack_line(err.mpd_error_code, pos as nat, err.command_str@, err.message@),
{
    let mut out = lit_bytes("ACK [");
    let code = fmt_dec(err.mpd_error_code as u64);
    push_bytes(&mut out, code.as_slice());
    push_bytes(&mut out, lit_bytes("@").as_slice());
    let p = fmt_dec(pos);
    push_bytes(&mut out, p.as_slice());
    push_bytes(&mut out, lit_bytes("] {").as_slice());
    push_bytes(&mut out, err.command_str.as_slice());
    push_bytes(&mut out, lit_bytes("} ").as_slice());
    push_bytes(&mut out, err.message.as_slice());
    push_bytes(&mut out, lit_bytes("\n").as_slice());
    proof {
        assert(out@ =~= spec_ack_line(
            err.mpd_error_code,
            pos as nat,
            err.command_str@,
            err.message@,
        ));
    }
    out
}

} // verus!
