//! The configuration surface, and the number parsing it needs.
//!
//! Reading the environment is the surrounding program's business; the
//! values it reads are plain strings, and the two numeric ones — the
//! port and the token lifetime — are parsed here, with the usual decimal
//! syntax: an optional sign, then one or more digits, refused on
//! overflow.

use vstd::prelude::*;
use vstd::string::StrSliceExecFns;

verus! {

/// Process configuration: store connection string, storage root path,
/// bind address and port, signing secret and token lifetime in seconds.
#[derive(Clone, Debug)]
pub struct Config {
    pub database_url: String,
    pub storage_path: String,
    pub server_addr: String,
    pub server_port: u16,
    pub jwt_secret: String,
    pub jwt_expiration: i64,
}

/// The value of a decimal digit; -1 where the character is none.
pub open spec fn dec_val(c: char) -> int {
    if c == '0' { 0 } else if c == '1' { 1 } else if c == '2' { 2 }
    else if c == '3' { 3 } else if c == '4' { 4 } else if c == '5' { 5 }
    else if c == '6' { 6 } else if c == '7' { 7 } else if c == '8' { 8 }
    else if c == '9' { 9 } else { -1 }
}

pub open spec fn is_dec_digit(c: char) -> bool {
    dec_val(c) >= 0
}

pub open spec fn all_dec(s: Seq<char>) -> bool {
    forall|i: int| 0 <= i < s.len() ==> is_dec_digit(#[trigger] s[i])
}

/// The value of a sequence of decimal digits, most significant first.
pub open spec fn dec_seq_val(s: Seq<char>) -> int
    decreases s.len(),
{
    if s.len() == 0 { 0 } else { 10 * dec_seq_val(s.drop_last()) + dec_val(s.last()) }
}

/// What parsing an unsigned 16-bit decimal yields: an optional `+`,
/// then one or more digits, refused over 65535.
pub open spec fn spec_parse_u16(s: Seq<char>) -> Option<u16> {
    let d = if s.len() >= 1 && s[0] == '+' { s.skip(1) } else { s };
    if d.len() == 0 || !all_dec(d) {
        None
    } else if dec_seq_val(d) > u16::MAX {
        None
    } else {
        Some(dec_seq_val(d) as u16)
    }
}

/// What parsing a signed 64-bit decimal yields: an optional `+` or `-`,
/// then one or more digits, refused outside the representable range.
pub open spec fn spec_parse_i64(s: Seq<char>) -> Option<i64> {
    let neg = s.len() >= 1 && s[0] == '-';
    let d = if s.len() >= 1 && (s[0] == '-' || s[0] == '+') { s.skip(1) } else { s };
    if d.len() == 0 || !all_dec(d) {
        None
    } else {
        let v = dec_seq_val(d);
        if neg {
            if v > 0x8000000000000000 { None } else { Some((-v) as i64) }
        } else {
            if v > i64::MAX { None } else { Some(v as i64) }
        }
    }
}

proof fn lemma_dec_seq_val_nonneg(s: Seq<char>)
    requires
        all_dec(s),
    ensures
        dec_seq_val(s) >= 0,
    decreases s.len(),
{
    if s.len() > 0 {
        assert(all_dec(s.drop_last())) by {
            assert(forall|i: int| 0 <= i < s.len() - 1 ==> s.drop_last()[i] == s[i]);
        }
        lemma_dec_seq_val_nonneg(s.drop_last());
    }
}

/// Appending digits never shrinks the value: a prefix already past a
/// bound keeps the whole string past it.
proof fn lemma_dec_prefix_le(s: Seq<char>, k: int)
    requires
        all_dec(s),
        0 <= k <= s.len(),
    ensures
        dec_seq_val(s.take(k)) <= dec_seq_val(s),
    decreases s.len(),
{
    if k < s.len() {
        assert(all_dec(s.drop_last())) by {
            assert(forall|i: int| 0 <= i < s.len() - 1 ==> s.drop_last()[i] == s[i]);
        }
        assert(s.take(k) =~= s.drop_last().take(k));
        lemma_dec_prefix_le(s.drop_last(), k);
        lemma_dec_seq_val_nonneg(s.drop_last());
    } else {
        assert(s.take(k) =~= s);
    }
}

/// The value of a decimal digit character, or `None`.
fn dec_val_exec(c: char) -> (r: Option<u8>)
    ensures
        r is Some <==> is_dec_digit(c),
        r is Some ==> r->0 == dec_val(c) && r->0 <= 9,
{
    match c {
        '0' => Some(0), '1' => Some(1), '2' => Some(2), '3' => Some(3),
        '4' => Some(4), '5' => Some(5), '6' => Some(6), '7' => Some(7),
        '8' => Some(8), '9' => Some(9),
        _ => None,
    }
}

/// Reads the digits of `s` from position `from` on as an unsigned value.
fn parse_digits_u64(s: &str, from: usize) -> (r: Option<u64>)
    requires
        from <= s@.len(),
    ensures
        ({
            let d = s@.skip(from as int);
            match r {
                Some(v) => d.len() > 0 && all_dec(d) && v == dec_seq_val(d),
                None => d.len() == 0 || !all_dec(d) || dec_seq_val(d) > u64::MAX,
            }
        }),
{
    let ghost d = s@.skip(from as int);
    let n = s.unicode_len();
    if from == n {
        return None;
    }
    let mut acc: u64 = 0;
    let mut i: usize = from;
    while i < n
        invariant
            from <= i <= n,
            n == s@.len(),
            d == s@.skip(from as int),
            forall|j: int| 0 <= j < i - from ==> is_dec_digit(#[trigger] d[j]),
            acc == dec_seq_val(d.take(i - from)),
        decreases n - i,
    {
        let c = s.get_char(i);
        match dec_val_exec(c) {
            None => {
                proof {
                    assert(d[i - from] == s@[i as int]);
                }
                return None;
            },
            Some(dg) => {
                proof {
                    assert(d.take(i - from + 1).drop_last() =~= d.take(i - from));
                    assert(d[i - from] == s@[i as int]);
                }
                let shifted = match acc.checked_mul(10) {
                    Some(x) => x,
                    None => {
                        proof {
                            overflow_note(d, i - from, acc, dec_val(s@[i as int]));
                        }
                        return None;
                    },
                };
                acc = match shifted.checked_add(dg as u64) {
                    Some(x) => x,
                    None => {
                        proof {
                            overflow_note(d, i - from, acc, dec_val(s@[i as int]));
                        }
                        return None;
                    },
                };
            },
        }
        i = i + 1;
    }
    proof {
        assert(d.take(n - from) =~= d);
    }
    Some(acc)
}

/// Where the next digit overflows the accumulator, the value of the whole
/// digit string exceeds the accumulator's range.
proof fn overflow_note(d: Seq<char>, k: int, acc: u64, dg: int)
    requires
        0 <= k < d.len(),
        acc == dec_seq_val(d.take(k)),
        dg == dec_val(d[k]),
        0 <= dg,
        10 * acc + dg > u64::MAX,
    ensures
        !all_dec(d) || dec_seq_val(d) > u64::MAX,
{
    if all_dec(d) {
        assert(d.take(k + 1).drop_last() =~= d.take(k));
        assert(dec_seq_val(d.take(k + 1)) == 10 * acc + dg);
        lemma_dec_prefix_le(d, k + 1);
    }
}

/// Parses a port number: the usual decimal syntax for `u16`.
pub fn parse_u16(s: &str) -> (r: Option<u16>)
    ensures
        r == spec_parse_u16(s@),
{
    let n = s.unicode_len();
    let from: usize = if n >= 1 && s.get_char(0) == '+' {
        1
    } else {
        0
    };
    proof {
        if from == 0 {
            assert(s@.skip(0) =~= s@);
        }
    }
    match parse_digits_u64(s, from) {
        Some(v) => if v <= 65535 {
            Some(v as u16)
        } else {
            None
        },
        None => None,
    }
}

/// Parses a lifetime in seconds: the usual decimal syntax for `i64`.
pub fn parse_i64(s: &str) -> (r: Option<i64>)
    ensures
        r == spec_parse_i64(s@),
{
    let n = s.unicode_len();
    let neg = n >= 1 && s.get_char(0) == '-';
    let from: usize = if n >= 1 && (s.get_char(0) == '-' || s.get_char(0) == '+') {
        1
    } else {
        0
    };
    proof {
        if from == 0 {
            assert(s@.skip(0) =~= s@);
        }
    }
    match parse_digits_u64(s, from) {
        Some(v) => {
            if neg {
                if v > 0x8000000000000000 {
                    None
                } else if v == 0x8000000000000000 {
                    Some(i64::MIN)
                } else {
                    Some(-(v as i64))
                }
            } else {
                if v > 0x7fffffffffffffff {
                    None
                } else {
                    Some(v as i64)
                }
            }
        },
        None => None,
    }
}

} // verus!
