//! Timing-line formatting.
//!
//! Each relayed transfer is timestamped with the time elapsed since the
//! previous transfer and serialized as one line of the timing log.  Elapsed
//! time is carried in whole microseconds and printed as seconds with six
//! decimal digits, so no floating point is involved anywhere.

use vstd::prelude::*;

use crate::options::LogFormat;

verus! {

/// Direction of one relayed transfer.
#[derive(Debug, Clone, Copy, PartialEq, Eq, Structural)]
pub enum Direction {
    Input,
    Output,
}

pub open spec fn is_digit_byte(b: u8) -> bool {
    48 <= b && b <= 57
}

pub open spec fn all_digit_bytes(s: Seq<u8>) -> bool {
    forall|i: int| 0 <= i < s.len() ==> is_digit_byte(s[i])
}

/// The ASCII digit for `d % 10`.
pub open spec fn digit_byte(d: nat) -> u8 {
    (48 + (d % 10)) as u8
}

/// The decimal digits of `n`, most significant first.
pub open spec fn dec_digits(n: nat) -> Seq<u8>
    decreases n,
{
    if n < 10 {
        seq![digit_byte(n)]
    } else {
        dec_digits(n / 10).push(digit_byte(n % 10))
    }
}

/// Six zero-padded digits for the fractional part of an elapsed second.
pub open spec fn frac6_digits(micros: nat) -> Seq<u8> {
    seq![
        digit_byte(micros / 100000),
        digit_byte(micros / 10000),
        digit_byte(micros / 1000),
        digit_byte(micros / 100),
        digit_byte(micros / 10),
        digit_byte(micros),
    ]
}

/// Elapsed seconds with six decimal digits: `<seconds>.<micros>`.
pub open spec fn elapsed_text(micros: nat) -> Seq<u8> {
    dec_digits(micros / 1000000) + seq![46u8] + frac6_digits(micros % 1000000)
}

/// `I` for input transfers, `O` for output transfers.
pub open spec fn direction_tag(dir: Direction) -> u8 {
    match dir {
        Direction::Input => 73u8,
        Direction::Output => 79u8,
    }
}

/// The bytes of one timing line for a transfer of `count` bytes made
/// `micros` microseconds after the previous transfer.  The classic format
/// writes `<elapsed> <count>`; the advanced format prefixes the direction
/// tag.
pub open spec fn timing_line(format: LogFormat, dir: Direction, micros: nat, count: nat) -> Seq<
    u8,
> {
    let body = elapsed_text(micros) + seq![32u8] + dec_digits(count) + seq![10u8];
    match format {
        LogFormat::Classic => body,
        LogFormat::Advanced => seq![direction_tag(dir), 32u8] + body,
    }
}

/// Append the decimal digits of `n` to `out`.
pub fn push_dec(out: &mut Vec<u8>, n: u64)
    ensures
        final(out)@ == old(out)@ + dec_digits(n as nat),
    decreases n,
{
    if n < 10 {
        out.push((n as u8) + 48);
        assert(final(out)@ =~= old(out)@ + dec_digits(n as nat));
    } else {
        push_dec(out, n / 10);
        out.push(((n % 10) as u8) + 48);
        assert(final(out)@ =~= old(out)@ + dec_digits(n as nat));
    }
}

/// Append the six zero-padded fractional digits of `micros` to `out`.
pub fn push_frac6(out: &mut Vec<u8>, micros: u64)
    requires
        micros < 1000000,
    ensures
        final(out)@ == old(out)@ + frac6_digits(micros as nat),
{
    out.push(((micros / 100000 % 10) as u8) + 48);
    out.push(((micros / 10000 % 10) as u8) + 48);
    out.push(((micros / 1000 % 10) as u8) + 48);
    out.push(((micros / 100 % 10) as u8) + 48);
    out.push(((micros / 10 % 10) as u8) + 48);
    out.push(((micros % 10) as u8) + 48);
    assert(final(out)@ =~= old(out)@ + frac6_digits(micros as nat));
}

/// Build one timing line.
pub fn build_timing_line(format: LogFormat, dir: Direction, elapsed_micros: u64, count: u64) -> (r:
    Vec<u8>)
    ensures
        r@ == timing_line(format, dir, elapsed_micros as nat, count as nat),
{
    let mut out: Vec<u8> = Vec::new();
    match format {
        LogFormat::Advanced => {
            match dir {
                Direction::Input => out.push(73),
                Direction::Output => out.push(79),
            }
            out.push(32);
        }
        LogFormat::Classic => {},
    }
    push_dec(&mut out, elapsed_micros / 1000000);
    out.push(46);
    push_frac6(&mut out, elapsed_micros % 1000000);
    out.push(32);
    push_dec(&mut out, count);
    out.push(10);
    assert(out@ =~= timing_line(format, dir, elapsed_micros as nat, count as nat));
    out
}

pub proof fn lemma_dec_digits_all_digits(n: nat)
    ensures
        dec_digits(n).len() >= 1,
        all_digit_bytes(dec_digits(n)),
    decreases n,
{
    if n >= 10 {
        lemma_dec_digits_all_digits(n / 10);
    }
}

/// Every timing line has the shape `<digits>.<digits> <digits>` followed by a
/// newline, with exactly six fractional digits, and in the advanced format a
/// leading `I ` or `O ` tag.
pub proof fn lemma_timing_line_shape(format: LogFormat, dir: Direction, micros: nat, count: nat)
    ensures
        ({
            let line = timing_line(format, dir, micros, count);
            let sec = dec_digits(micros / 1000000);
            let frac = frac6_digits(micros % 1000000);
            let cnt = dec_digits(count);
            &&& all_digit_bytes(sec) && sec.len() >= 1
            &&& all_digit_bytes(frac) && frac.len() == 6
            &&& all_digit_bytes(cnt) && cnt.len() >= 1
            &&& (format == LogFormat::Classic ==> line == sec + seq![46u8] + frac + seq![32u8]
                + cnt + seq![10u8])
            &&& (format == LogFormat::Advanced ==> line == seq![direction_tag(dir), 32u8] + sec
                + seq![46u8] + frac + seq![32u8] + cnt + seq![10u8])
        }),
{
    lemma_dec_digits_all_digits(micros / 1000000);
    lemma_dec_digits_all_digits(count);
    assert(all_digit_bytes(frac6_digits(micros % 1000000)));
    assert(timing_line(LogFormat::Classic, dir, micros, count) =~= dec_digits(micros / 1000000)
        + seq![46u8] + frac6_digits(micros % 1000000) + seq![32u8] + dec_digits(count)
        + seq![10u8]);
    assert(timing_line(LogFormat::Advanced, dir, micros, count) =~= seq![
        direction_tag(dir),
        32u8,
    ] + dec_digits(micros / 1000000) + seq![46u8] + frac6_digits(micros % 1000000) + seq![32u8]
        + dec_digits(count) + seq![10u8]);
}

} // verus!
