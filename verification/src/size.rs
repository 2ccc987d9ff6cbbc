//! Parsing of the operator's byte-size threshold.
//!
//! A size is a decimal count of bytes with an optional suffix: `K`, `KiB`,
//! `M`, `MiB`, `G`, `GiB` scale by powers of 1024, and `KB`, `MB`, `GB` by
//! powers of 1000.  The numeric part follows the shape of a standard
//! unsigned decimal numeral: an optional leading plus sign and at least one
//! digit, rejecting anything else and any value that does not fit.  A
//! rejection names the numeric part alone: once a suffix is recognised, it
//! is no longer part of the number complained about.

use vstd::prelude::*;
use vstd::string::StrSliceExecFns;

verus! {

pub open spec fn is_digit_char(c: char) -> bool {
    48 <= c as u32 && c as u32 <= 57
}

pub open spec fn all_digit_chars(s: Seq<char>) -> bool {
    forall|i: int| 0 <= i < s.len() ==> is_digit_char(s[i])
}

pub open spec fn digit_char_val(c: char) -> nat {
    ((c as u32) - 48) as nat
}

/// The value of a big-endian decimal digit string.
pub open spec fn dec_value(s: Seq<char>) -> nat
    decreases s.len(),
{
    if s.len() == 0 {
        0
    } else {
        dec_value(s.drop_last()) * 10 + digit_char_val(s.last())
    }
}

/// Drop one leading plus sign, if any.
pub open spec fn strip_plus(s: Seq<char>) -> Seq<char> {
    if s.len() > 0 && s[0] == '+' {
        s.subrange(1, s.len() as int)
    } else {
        s
    }
}

/// A valid unsigned decimal numeral whose value fits in a `u64`: an optional
/// plus sign, then one or more digits.
pub open spec fn is_u64_numeral(s: Seq<char>) -> bool {
    &&& strip_plus(s).len() > 0
    &&& all_digit_chars(strip_plus(s))
    &&& dec_value(strip_plus(s)) <= u64::MAX as nat
}

pub open spec fn numeral_value(s: Seq<char>) -> nat {
    dec_value(strip_plus(s))
}

pub open spec fn ends_with(s: Seq<char>, suffix: Seq<char>) -> bool {
    s.len() >= suffix.len() && s.subrange(s.len() - suffix.len(), s.len() as int) == suffix
}

/// Split a size string into its numeric part and the multiplier its suffix
/// denotes (1 when there is no suffix).
pub open spec fn split_suffix(s: Seq<char>) -> (Seq<char>, nat) {
    if ends_with(s, seq!['K', 'i', 'B']) {
        (s.take(s.len() - 3), 1024nat)
    } else if ends_with(s, seq!['M', 'i', 'B']) {
        (s.take(s.len() - 3), 1048576nat)
    } else if ends_with(s, seq!['G', 'i', 'B']) {
        (s.take(s.len() - 3), 1073741824nat)
    } else if ends_with(s, seq!['K', 'B']) {
        (s.take(s.len() - 2), 1000nat)
    } else if ends_with(s, seq!['M', 'B']) {
        (s.take(s.len() - 2), 1000000nat)
    } else if ends_with(s, seq!['G', 'B']) {
        (s.take(s.len() - 2), 1000000000nat)
    } else if ends_with(s, seq!['K']) {
        (s.take(s.len() - 1), 1024nat)
    } else if ends_with(s, seq!['M']) {
        (s.take(s.len() - 1), 1048576nat)
    } else if ends_with(s, seq!['G']) {
        (s.take(s.len() - 1), 1073741824nat)
    } else {
        (s, 1nat)
    }
}

/// What a size string denotes: the numeric part scaled by the suffix
/// multiplier, or nothing when the numeric part is not a numeral or the
/// scaled value does not fit in a `u64`.
pub open spec fn parse_size_spec(s: Seq<char>) -> Option<u64> {
    let num = split_suffix(s).0;
    let mult = split_suffix(s).1;
    if is_u64_numeral(num) && numeral_value(num) * mult <= u64::MAX as nat {
        Some(((numeral_value(num) * mult) as u64))
    } else {
        None
    }
}

fn ends_with1(s: &str, len: usize, c0: char) -> (r: bool)
    requires
        len == s@.len(),
    ensures
        r == ends_with(s@, seq![c0]),
{
    if len >= 1 {
        let r = s.get_char(len - 1) == c0;
        proof {
            let t = s@.subrange(len - 1, len as int);
            assert(t[0] == s@[len - 1]);
            if r {
                assert(t =~= seq![c0]);
            } else {
                assert(t != seq![c0]);
            }
        }
        r
    } else {
        false
    }
}

fn ends_with2(s: &str, len: usize, c0: char, c1: char) -> (r: bool)
    requires
        len == s@.len(),
    ensures
        r == ends_with(s@, seq![c0, c1]),
{
    if len >= 2 {
        let r = s.get_char(len - 2) == c0 && s.get_char(len - 1) == c1;
        proof {
            let t = s@.subrange(len - 2, len as int);
            assert(t[0] == s@[len - 2]);
            assert(t[1] == s@[len - 1]);
            if r {
                assert(t =~= seq![c0, c1]);
            } else {
                assert(t != seq![c0, c1]);
            }
        }
        r
    } else {
        false
    }
}

fn ends_with3(s: &str, len: usize, c0: char, c1: char, c2: char) -> (r: bool)
    requires
        len == s@.len(),
    ensures
        r == ends_with(s@, seq![c0, c1, c2]),
{
    if len >= 3 {
        let r = s.get_char(len - 3) == c0 && s.get_char(len - 2) == c1 && s.get_char(len - 1)
            == c2;
        proof {
            let t = s@.subrange(len - 3, len as int);
            assert(t[0] == s@[len - 3]);
            assert(t[1] == s@[len - 2]);
            assert(t[2] == s@[len - 1]);
            if r {
                assert(t =~= seq![c0, c1, c2]);
            } else {
                assert(t != seq![c0, c1, c2]);
            }
        }
        r
    } else {
        false
    }
}

proof fn lemma_dec_value_step(s: Seq<char>, j: int)
    requires
        0 <= j < s.len(),
    ensures
        dec_value(s.take(j + 1)) == dec_value(s.take(j)) * 10 + digit_char_val(s[j]),
{
    assert(s.take(j + 1).drop_last() =~= s.take(j));
    assert(s.take(j + 1).last() == s[j]);
}

/// A digit string is worth at least any of its prefixes.
proof fn lemma_dec_value_prefix(s: Seq<char>, j: int)
    requires
        0 <= j <= s.len(),
    ensures
        dec_value(s.take(j)) <= dec_value(s),
    decreases s.len() - j,
{
    if j == s.len() {
        assert(s.take(j) =~= s);
    } else {
        lemma_dec_value_step(s, j);
        lemma_dec_value_prefix(s, j + 1);
    }
}

/// Parse the decimal numeral in the first `end` characters of `s`: an
/// optional plus sign and at least one digit, rejecting overflow past
/// `u64`.
fn parse_u64_chars(s: &str, len: usize, end: usize) -> (r: Option<u64>)
    requires
        len == s@.len(),
        end <= len,
    ensures
        is_u64_numeral(s@.take(end as int)) ==> (r matches Some(v) && v as nat == numeral_value(
            s@.take(end as int),
        )),
        !is_u64_numeral(s@.take(end as int)) ==> r is None,
{
    let ghost whole = s@.take(end as int);
    let start: usize = if end > 0 && s.get_char(0) == '+' {
        1
    } else {
        0
    };
    proof {
        assert(strip_plus(whole) =~= s@.subrange(start as int, end as int));
    }
    let ghost d = s@.subrange(start as int, end as int);
    if start == end {
        proof {
            assert(strip_plus(whole).len() == 0);
            assert(!is_u64_numeral(whole));
        }
        return None;
    }
    let mut acc: u64 = 0;
    let mut i: usize = start;
    while i < end
        invariant
            start <= i <= end,
            end <= len,
            len == s@.len(),
            d == s@.subrange(start as int, end as int),
            whole == s@.take(end as int),
            strip_plus(whole) == d,
            acc as nat == dec_value(d.take(i - start)),
            all_digit_chars(d.take(i - start)),
        decreases end - i,
    {
        let c = s.get_char(i);
        let v = c as u32;
        if v < 48 || v > 57 {
            proof {
                assert(d[i - start] == s@[i as int]);
                assert(!is_digit_char(d[i - start]));
                assert(!all_digit_chars(d));
                assert(!is_u64_numeral(whole));
            }
            return None;
        }
        let dv: u64 = (v - 48) as u64;
        proof {
            lemma_dec_value_step(d, i - start);
        }
        let shifted = match acc.checked_mul(10) {
            Some(t) => t,
            None => {
                proof {
                    lemma_dec_value_prefix(d, i - start + 1);
                    assert(dec_value(d) > u64::MAX as nat);
                    assert(!is_u64_numeral(whole));
                }
                return None;
            },
        };
        let next = match shifted.checked_add(dv) {
            Some(t) => t,
            None => {
                proof {
                    lemma_dec_value_prefix(d, i - start + 1);
                    assert(dec_value(d) > u64::MAX as nat);
                    assert(!is_u64_numeral(whole));
                }
                return None;
            },
        };
        acc = next;
        i = i + 1;
        proof {
            assert(d.take(i - start).drop_last() =~= d.take(i - start - 1));
        }
    }
    proof {
        assert(d.take(end - start) =~= d);
    }
    Some(acc)
}

/// The rejection diagnostic: it names the numeric part alone.
fn invalid_number(s: &str, len: usize, num_len: usize) -> (r: String)
    requires
        len == s@.len(),
        num_len <= len,
    ensures
        r@ == "Invalid number: "@ + s@.take(num_len as int),
{
    let num = s.substring_char(0, num_len);
    String::from_str("Invalid number: ").concat(num)
}

/// Parse an operator-supplied size string into a byte count.
pub fn parse_size(size_str: &str) -> (r: Result<u64, String>)
    ensures
        parse_size_spec(size_str@) matches Some(v) ==> (r matches Ok(u) && u == v),
        parse_size_spec(size_str@) is None ==> (r matches Err(m) && m@ == "Invalid number: "@
            + split_suffix(size_str@).0),
{
    let n = size_str.unicode_len();
    let (num_len, mult): (usize, u64) = if ends_with3(size_str, n, 'K', 'i', 'B') {
        (n - 3, 1024)
    } else if ends_with3(size_str, n, 'M', 'i', 'B') {
        (n - 3, 1048576)
    } else if ends_with3(size_str, n, 'G', 'i', 'B') {
        (n - 3, 1073741824)
    } else if ends_with2(size_str, n, 'K', 'B') {
        (n - 2, 1000)
    } else if ends_with2(size_str, n, 'M', 'B') {
        (n - 2, 1000000)
    } else if ends_with2(size_str, n, 'G', 'B') {
        (n - 2, 1000000000)
    } else if ends_with1(size_str, n, 'K') {
        (n - 1, 1024)
    } else if ends_with1(size_str, n, 'M') {
        (n - 1, 1048576)
    } else if ends_with1(size_str, n, 'G') {
        (n - 1, 1073741824)
    } else {
        (n, 1)
    };
    proof {
        assert(split_suffix(size_str@).0 == size_str@.take(num_len as int));
        assert(split_suffix(size_str@).1 == mult as nat);
    }
    match parse_u64_chars(size_str, n, num_len) {
        Some(value) => {
            match value.checked_mul(mult) {
                Some(scaled) => Ok(scaled),
                None => Err(invalid_number(size_str, n, num_len)),
            }
        },
        None => Err(invalid_number(size_str, n, num_len)),
    }
}

} // verus!
