//! Diagnostic errors of the IPC-listing utility that ships alongside the
//! recorder.  Operating-system failures are carried as a context message
//! plus the raw error code; rendering turns an error into the bytes of its
//! one-line diagnostic.

use vstd::prelude::*;
use vstd::utf8::encode_utf8;

use crate::session::append_bytes;
use crate::timing::{dec_digits, push_dec};

verus! {

#[derive(Debug)]
pub enum LsIpcError {
    InvalidColumnName(String),
    InvalidColumnSequence(String),
    InvalidTimeFormat(String),
    /// An operating-system failure: context message and raw error code.
    IO0(String, i32),
    /// An operating-system failure tied to a path: context message, the
    /// path, and the raw error code.
    IO1(String, String, i32),
}

/// Relies on `std::io::Error::last_os_error` and `raw_os_error`: the error
/// code the calling thread's most recent failed system call left behind.
/// Nothing can be promised of its value, so nothing is.
#[verifier::external_body]
fn last_os_error_code() -> i32 {
    std::io::Error::last_os_error().raw_os_error().unwrap_or(0)
}

/// The decimal digits of `i`, with a leading minus sign when negative.
pub open spec fn int_digits(i: int) -> Seq<u8> {
    if i < 0 {
        seq![45u8] + dec_digits((-i) as nat)
    } else {
        dec_digits(i as nat)
    }
}

/// Append the decimal rendering of `code` to `out`.
fn push_i32(out: &mut Vec<u8>, code: i32)
    ensures
        final(out)@ == old(out)@ + int_digits(code as int),
{
    if code < 0 {
        out.push(45);
        let mag: i64 = -(code as i64);
        push_dec(out, mag as u64);
        assert(final(out)@ =~= old(out)@ + int_digits(code as int));
    } else {
        push_dec(out, code as u64);
    }
}

impl LsIpcError {
    /// What the one-line diagnostic of this error reads, as bytes.
    pub open spec fn render_spec(&self) -> Seq<u8> {
        match self {
            LsIpcError::InvalidColumnName(name) => encode_utf8("invalid column name: "@)
                + encode_utf8(name@),
            LsIpcError::InvalidColumnSequence(sequence) => encode_utf8(
                "invalid column sequence: "@,
            ) + encode_utf8(sequence@),
            LsIpcError::InvalidTimeFormat(mode) => encode_utf8("invalid time format: "@)
                + encode_utf8(mode@),
            LsIpcError::IO0(message, code) => encode_utf8(message@) + encode_utf8(": os error "@)
                + int_digits(*code as int),
            LsIpcError::IO1(message, path, code) => encode_utf8(message@) + encode_utf8(" '"@)
                + encode_utf8(path@) + encode_utf8("': os error "@) + int_digits(*code as int),
        }
    }

    /// An operating-system error wrapped with a context message.
    pub fn io0(message: String, code: i32) -> (r: Self)
        ensures
            r matches LsIpcError::IO0(m, c) && m@ == message@ && c == code,
    {
        LsIpcError::IO0(message, code)
    }

    /// The calling thread's most recent operating-system error, wrapped
    /// with a context message.
    pub fn last_io0(message: String) -> (r: Self)
        ensures
            r matches LsIpcError::IO0(m, c) && m@ == message@,
    {
        let code = last_os_error_code();
        LsIpcError::IO0(message, code)
    }

    /// An operating-system error tied to a path.
    pub fn io1(message: String, path: String, code: i32) -> (r: Self)
        ensures
            r matches LsIpcError::IO1(m, p, c) && m@ == message@ && p@ == path@ && c == code,
    {
        LsIpcError::IO1(message, path, code)
    }

    /// Interpret a system-call style return value: a non-negative result is
    /// the count it yielded, a negative one is a negated error code.
    pub fn io_from_neg_errno(message: String, result: i32) -> (r: Result<usize, LsIpcError>)
        requires
            result > i32::MIN,
        ensures
            result >= 0 ==> (r matches Ok(v) && v as int == result as int),
            result < 0 ==> (r matches Err(e) && (e matches LsIpcError::IO0(m, c) && m@
                == message@ && c == -result)),
    {
        if result >= 0 {
            Ok(result as usize)
        } else {
            Err(LsIpcError::IO0(message, -result))
        }
    }

    /// This utility's process exit code for any diagnostic error.
    pub fn code(&self) -> (r: i32)
        ensures
            r == 1,
    {
        1
    }

    /// A diagnostic error never asks for the usage text.
    pub fn usage(&self) -> (r: bool)
        ensures
            !r,
    {
        false
    }

    /// The bytes of the one-line diagnostic for this error.
    pub fn render(&self) -> (r: Vec<u8>)
        ensures
            r@ == self.render_spec(),
    {
        let mut out: Vec<u8> = Vec::new();
        match self {
            LsIpcError::InvalidColumnName(name) => {
                append_bytes(&mut out, "invalid column name: ".as_bytes());
                append_bytes(&mut out, name.as_str().as_bytes());
            },
            LsIpcError::InvalidColumnSequence(sequence) => {
                append_bytes(&mut out, "invalid column sequence: ".as_bytes());
                append_bytes(&mut out, sequence.as_str().as_bytes());
            },
            LsIpcError::InvalidTimeFormat(mode) => {
                append_bytes(&mut out, "invalid time format: ".as_bytes());
                append_bytes(&mut out, mode.as_str().as_bytes());
            },
            LsIpcError::IO0(message, code) => {
                append_bytes(&mut out, message.as_str().as_bytes());
                append_bytes(&mut out, ": os error ".as_bytes());
                push_i32(&mut out, *code);
            },
            LsIpcError::IO1(message, path, code) => {
                append_bytes(&mut out, message.as_str().as_bytes());
                append_bytes(&mut out, " '".as_bytes());
                append_bytes(&mut out, path.as_str().as_bytes());
                append_bytes(&mut out, "': os error ".as_bytes());
                push_i32(&mut out, *code);
            },
        }
        assert(out@ =~= self.render_spec());
        out
    }
}

} // verus!
