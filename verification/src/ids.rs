//! Principal, bucket and file identifiers.
//!
//! An identifier is a 128-bit value.  Its textual form is the usual
//! hyphenated shape of 36 characters: 32 lowercase hexadecimal digits with
//! hyphens after the 8th, 12th, 16th and 20th digit.  Formatting and
//! parsing are verified against each other: parsing a formatted identifier
//! returns the identifier itself, which also makes the textual form
//! injective.

use vstd::prelude::*;
use vstd::arithmetic::div_mod::{lemma_div_denominator, lemma_fundamental_div_mod};
use vstd::string::StrSliceExecFns;

verus! {

/// Draws a fresh random identifier.
///
/// Relies on `uuid::Uuid::new_v4`: a freshly generated random identifier.
/// Nothing is promised of the value; callers treat it as arbitrary.
#[verifier::external_body]
pub(crate) fn fresh_id() -> u128 {
    uuid::Uuid::new_v4().as_u128()
}

/// Builds a `String` out of a sequence of characters.
///
/// Relies on `<String as FromIterator<char>>::from_iter`, which collects
/// exactly the characters of the iterator, in order.
#[verifier::external_body]
pub(crate) fn string_from_chars(chars: &Vec<char>) -> (s: String)
    ensures
        s@ == chars@,
{
    chars.iter().collect()
}

/// The lowercase hexadecimal digit for a value below 16.
pub open spec fn hex_char(d: int) -> char {
    if d == 0 { '0' } else if d == 1 { '1' } else if d == 2 { '2' }
    else if d == 3 { '3' } else if d == 4 { '4' } else if d == 5 { '5' }
    else if d == 6 { '6' } else if d == 7 { '7' } else if d == 8 { '8' }
    else if d == 9 { '9' } else if d == 10 { 'a' } else if d == 11 { 'b' }
    else if d == 12 { 'c' } else if d == 13 { 'd' } else if d == 14 { 'e' }
    else { 'f' }
}

/// The value of a hexadecimal digit; -1 where the character is none.
/// Both cases are accepted, as the usual identifier parsers do.
pub open spec fn hex_val(c: char) -> int {
    if c == '0' { 0 } else if c == '1' { 1 } else if c == '2' { 2 }
    else if c == '3' { 3 } else if c == '4' { 4 } else if c == '5' { 5 }
    else if c == '6' { 6 } else if c == '7' { 7 } else if c == '8' { 8 }
    else if c == '9' { 9 }
    else if c == 'a' || c == 'A' { 10 } else if c == 'b' || c == 'B' { 11 }
    else if c == 'c' || c == 'C' { 12 } else if c == 'd' || c == 'D' { 13 }
    else if c == 'e' || c == 'E' { 14 } else if c == 'f' || c == 'F' { 15 }
    else { -1 }
}

pub open spec fn is_hex_digit(c: char) -> bool {
    hex_val(c) >= 0
}

/// 16 to the `k`th power.
pub open spec fn pow16(k: nat) -> int
    decreases k,
{
    if k == 0 { 1 } else { 16 * pow16((k - 1) as nat) }
}

proof fn lemma_pow16_pos(k: nat)
    ensures
        pow16(k) >= 1,
    decreases k,
{
    if k > 0 {
        lemma_pow16_pos((k - 1) as nat);
    }
}

/// The `i`th nibble of `v`, counting from the most significant of 32.
pub open spec fn nibble_of(v: u128, i: int) -> int {
    (v as int / pow16((31 - i) as nat)) % 16
}

/// The 32 hexadecimal digits of `v`, most significant first.
pub open spec fn spec_hex32(v: u128) -> Seq<char> {
    Seq::new(32, |i: int| hex_char(nibble_of(v, i)))
}

/// Position of the digit shown at position `i` of the hyphenated form.
pub open spec fn uuid_digit_index(i: int) -> int {
    if i < 8 { i } else if i < 13 { i - 1 } else if i < 18 { i - 2 }
    else if i < 23 { i - 3 } else { i - 4 }
}

pub open spec fn is_hyphen_pos(i: int) -> bool {
    i == 8 || i == 13 || i == 18 || i == 23
}

/// The 36-character hyphenated textual form of `v`.
pub open spec fn spec_uuid_string(v: u128) -> Seq<char> {
    Seq::new(36, |i: int| if is_hyphen_pos(i) { '-' } else { hex_char(nibble_of(v, uuid_digit_index(i))) })
}

/// Whether `s` has the hyphenated shape: 36 characters, hyphens at the
/// four fixed positions, hexadecimal digits everywhere else.
pub open spec fn uuid_shape(s: Seq<char>) -> bool {
    &&& s.len() == 36
    &&& forall|i: int| 0 <= i < 36 && is_hyphen_pos(i) ==> #[trigger] s[i] == '-'
    &&& forall|i: int| 0 <= i < 36 && !is_hyphen_pos(i) ==> is_hex_digit(#[trigger] s[i])
}

/// Position in the hyphenated form of the `k`th digit.
pub open spec fn uuid_digit_pos(k: int) -> int {
    if k < 8 { k } else if k < 12 { k + 1 } else if k < 16 { k + 2 }
    else if k < 20 { k + 3 } else { k + 4 }
}

/// The 32 digit characters of a well-shaped textual form, hyphens dropped.
pub open spec fn uuid_digit_seq(s: Seq<char>) -> Seq<char> {
    Seq::new(32, |k: int| s[uuid_digit_pos(k)])
}

/// The value of a sequence of hexadecimal digits, most significant first.
pub open spec fn nibbles_val(s: Seq<char>) -> int
    decreases s.len(),
{
    if s.len() == 0 { 0 } else { 16 * nibbles_val(s.drop_last()) + hex_val(s.last()) }
}

/// What parsing a textual identifier yields.
pub open spec fn spec_parse_uuid(s: Seq<char>) -> Option<u128> {
    if uuid_shape(s) { Some(nibbles_val(uuid_digit_seq(s)) as u128) } else { None }
}

proof fn lemma_nibbles_val_bounds(s: Seq<char>)
    requires
        forall|i: int| 0 <= i < s.len() ==> is_hex_digit(#[trigger] s[i]),
    ensures
        0 <= nibbles_val(s) < pow16(s.len()),
    decreases s.len(),
{
    if s.len() > 0 {
        lemma_nibbles_val_bounds(s.drop_last());
    }
}

/// 16 to the `k`th exec power.
fn pow16_exec(k: usize) -> (r: u128)
    requires
        k <= 31,
    ensures
        r == pow16(k as nat),
{
    let mut r: u128 = 1;
    let mut j: usize = 0;
    while j < k
        invariant
            j <= k <= 31,
            r == pow16(j as nat),
        decreases k - j,
    {
        proof {
            lemma_pow16_increases(j as nat, 30);
            assert(pow16(30) == 0x1000000000000000000000000000000) by {
                reveal_with_fuel(pow16, 33);
            }
        }
        r = r * 16;
        j = j + 1;
    }
    r
}

proof fn lemma_pow16_increases(a: nat, b: nat)
    requires
        a <= b,
    ensures
        pow16(a) <= pow16(b),
    decreases b,
{
    if a < b {
        lemma_pow16_increases(a, (b - 1) as nat);
        lemma_pow16_pos((b - 1) as nat);
    }
}

/// The lowercase hexadecimal digit for `d`.
fn hex_char_exec(d: u8) -> (c: char)
    requires
        d < 16,
    ensures
        c == hex_char(d as int),
{
    match d {
        0 => '0', 1 => '1', 2 => '2', 3 => '3', 4 => '4', 5 => '5',
        6 => '6', 7 => '7', 8 => '8', 9 => '9', 10 => 'a', 11 => 'b',
        12 => 'c', 13 => 'd', 14 => 'e', _ => 'f',
    }
}

/// The value of a hexadecimal digit character, or `None`.
fn hex_val_exec(c: char) -> (r: Option<u8>)
    ensures
        r is Some <==> is_hex_digit(c),
        r is Some ==> r->0 == hex_val(c) && r->0 < 16,
{
    match c {
        '0' => Some(0), '1' => Some(1), '2' => Some(2), '3' => Some(3),
        '4' => Some(4), '5' => Some(5), '6' => Some(6), '7' => Some(7),
        '8' => Some(8), '9' => Some(9),
        'a' | 'A' => Some(10), 'b' | 'B' => Some(11), 'c' | 'C' => Some(12),
        'd' | 'D' => Some(13), 'e' | 'E' => Some(14), 'f' | 'F' => Some(15),
        _ => None,
    }
}

/// Formats an identifier in its hyphenated textual form.
pub fn format_uuid(v: u128) -> (s: String)
    ensures
        s@ == spec_uuid_string(v),
        s@.len() == 36,
{
    let mut out: Vec<char> = Vec::new();
    let mut i: usize = 0;
    while i < 36
        invariant
            i <= 36,
            out@.len() == i,
            forall|j: int| 0 <= j < i ==> out@[j] == spec_uuid_string(v)[j],
        decreases 36 - i,
    {
        if i == 8 || i == 13 || i == 18 || i == 23 {
            out.push('-');
        } else {
            let di: usize = if i < 8 { i } else if i < 13 { i - 1 }
                else if i < 18 { i - 2 } else if i < 23 { i - 3 } else { i - 4 };
            let p = pow16_exec(31 - di);
            proof {
                lemma_pow16_pos((31 - di) as nat);
            }
            let d: u128 = (v / p) % 16;
            out.push(hex_char_exec(d as u8));
        }
        i = i + 1;
    }
    let s = string_from_chars(&out);
    proof {
        assert(out@ =~= spec_uuid_string(v));
    }
    s
}

/// Parses the hyphenated textual form of an identifier.
pub fn parse_uuid(s: &str) -> (r: Option<u128>)
    ensures
        r == spec_parse_uuid(s@),
{
    let n = s.unicode_len();
    if n != 36 {
        return None;
    }
    let ghost digits = uuid_digit_seq(s@);
    let mut acc: u128 = 0;
    let mut i: usize = 0;
    let ghost mut nd: int = 0;
    while i < 36
        invariant
            i <= 36,
            s@.len() == 36,
            digits == uuid_digit_seq(s@),
            0 <= nd <= 32,
            nd == uuid_digit_index(i as int) + (if is_hyphen_pos(i as int) { 1int } else { 0int }),
            acc == nibbles_val(digits.take(nd)),
            acc < pow16(nd as nat),
            forall|j: int| 0 <= j < i && is_hyphen_pos(j) ==> #[trigger] s@[j] == '-',
            forall|j: int| 0 <= j < i && !is_hyphen_pos(j) ==> is_hex_digit(#[trigger] s@[j]),
        decreases 36 - i,
    {
        let c = s.get_char(i);
        if i == 8 || i == 13 || i == 18 || i == 23 {
            if c != '-' {
                return None;
            }
        } else {
            match hex_val_exec(c) {
                None => {
                    return None;
                },
                Some(d) => {
                    proof {
                        lemma_pow16_increases((nd + 1) as nat, 32);
                        assert(pow16(32) == 0x100000000000000000000000000000000) by {
                            reveal_with_fuel(pow16, 33);
                        }
                        assert(digits.take(nd + 1).drop_last() =~= digits.take(nd));
                        assert(uuid_digit_pos(nd) == i as int);
                        assert(digits[nd] == s@[i as int]);
                    }
                    acc = acc * 16 + (d as u128);
                    proof {
                        nd = nd + 1;
                    }
                },
            }
        }
        i = i + 1;
    }
    proof {
        assert(uuid_shape(s@));
        assert(digits.take(32) =~= digits);
        assert forall|k: int| 0 <= k < 32 implies is_hex_digit(#[trigger] digits[k]) by {
            assert(digits[k] == s@[uuid_digit_pos(k)]);
            assert(!is_hyphen_pos(uuid_digit_pos(k)));
        }
        lemma_nibbles_val_bounds(digits);
        assert(pow16(32) == 0x100000000000000000000000000000000) by {
            reveal_with_fuel(pow16, 33);
        }
    }
    Some(acc)
}

pub proof fn lemma_hex_val_of_hex_char(d: int)
    requires
        0 <= d < 16,
    ensures
        hex_val(hex_char(d)) == d,
        is_hex_digit(hex_char(d)),
{
}

/// The value of the first `k` digits of the textual form of `v` is `v`
/// shifted right past the remaining digits.
proof fn lemma_hex32_prefix_val(v: u128, k: nat)
    requires
        k <= 32,
    ensures
        nibbles_val(spec_hex32(v).take(k as int)) == v as int / pow16((32 - k) as nat),
    decreases k,
{
    if k == 0 {
        assert(pow16(32) == 0x100000000000000000000000000000000) by {
            reveal_with_fuel(pow16, 33);
        }
        assert(v as int / pow16(32) == 0) by {
            vstd::arithmetic::div_mod::lemma_basic_div(v as int, pow16(32));
        }
    } else {
        let s = spec_hex32(v).take(k as int);
        lemma_hex32_prefix_val(v, (k - 1) as nat);
        assert(s.drop_last() =~= spec_hex32(v).take(k as int - 1));
        let e = (32 - k) as nat;
        lemma_pow16_pos(e);
        lemma_hex_val_of_hex_char(nibble_of(v, k as int - 1));
        // s.last() is the digit for nibble k-1, whose value is
        // (v / 16^e) % 16; the prefix value is v / 16^(e+1) == (v / 16^e) / 16.
        let q = v as int / pow16(e);
        assert(v as int / pow16((e + 1) as nat) == q / 16) by {
            lemma_div_denominator(v as int, pow16(e), 16);
            assert(pow16((e + 1) as nat) == pow16(e) * 16) by {
                assert(pow16((e + 1) as nat) == 16 * pow16(e));
            }
        }
        assert(q == 16 * (q / 16) + q % 16) by {
            lemma_fundamental_div_mod(q, 16);
        }
    }
}

/// Parsing a formatted identifier returns the identifier: the textual
/// round trip is the identity.
pub proof fn lemma_uuid_round_trip(v: u128)
    ensures
        spec_parse_uuid(spec_uuid_string(v)) == Some(v),
{
    let s = spec_uuid_string(v);
    assert forall|i: int| 0 <= i < 36 && !is_hyphen_pos(i) implies is_hex_digit(#[trigger] s[i]) by {
        lemma_hex_val_of_hex_char(nibble_of(v, uuid_digit_index(i)));
    }
    assert(uuid_shape(s));
    assert(uuid_digit_seq(s) =~= spec_hex32(v));
    lemma_hex32_prefix_val(v, 32);
    assert(spec_hex32(v).take(32) =~= spec_hex32(v));
    assert(nibbles_val(spec_hex32(v)) == v as int / pow16(0));
    vstd::arithmetic::div_mod::lemma_div_basics(v as int);
}

/// The textual form is injective: distinct identifiers never share it.
pub proof fn lemma_uuid_string_injective(v1: u128, v2: u128)
    requires
        v1 != v2,
    ensures
        spec_uuid_string(v1) != spec_uuid_string(v2),
{
    if spec_uuid_string(v1) == spec_uuid_string(v2) {
        lemma_uuid_round_trip(v1);
        lemma_uuid_round_trip(v2);
    }
}

} // verus!
