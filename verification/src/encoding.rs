//! Text encodings used by the event adapters: lower-case hex, standard
//! base64, and decimal rendering of integers.
//!
//! The hex and base64 encoders are outside calls; their results are pinned to
//! the spec functions below. Decimal rendering is implemented and verified
//! here.

use vstd::prelude::*;
use vstd::string::StringExecFns;
use base64::Engine;

verus! {

/// Hex digit for a value below sixteen, lower case.
pub open spec fn hex_digit(d: int) -> char
    recommends
        0 <= d < 16,
{
    if d == 0 { '0' }
    else if d == 1 { '1' }
    else if d == 2 { '2' }
    else if d == 3 { '3' }
    else if d == 4 { '4' }
    else if d == 5 { '5' }
    else if d == 6 { '6' }
    else if d == 7 { '7' }
    else if d == 8 { '8' }
    else if d == 9 { '9' }
    else if d == 10 { 'a' }
    else if d == 11 { 'b' }
    else if d == 12 { 'c' }
    else if d == 13 { 'd' }
    else if d == 14 { 'e' }
    else { 'f' }
}

/// Lower-case hex encoding: two digits per byte, in order.
pub open spec fn hex_of(bytes: Seq<u8>) -> Seq<char>
    decreases bytes.len(),
{
    if bytes.len() == 0 {
        Seq::<char>::empty()
    } else {
        seq![
            hex_digit(bytes.first() as int / 16),
            hex_digit(bytes.first() as int % 16),
        ] + hex_of(bytes.drop_first())
    }
}

/// Relies on `base16::encode_lower`: two lower-case hex digits per input
/// byte, in input order.
#[verifier::external_body]
pub(crate) fn encode_hex_lower(bytes: &Vec<u8>) -> (r: String)
    ensures
        r@ == hex_of(bytes@),
{
    base16::encode_lower(bytes.as_slice())
}

/// Character of the standard base64 alphabet at an index below 64.
pub open spec fn b64_char(i: int) -> char
    recommends
        0 <= i < 64,
{
    if 0 <= i < 26 {
        ((65 + i) as u8) as char
    } else if 26 <= i < 52 {
        ((97 + (i - 26)) as u8) as char
    } else if 52 <= i < 62 {
        ((48 + (i - 52)) as u8) as char
    } else if i == 62 {
        '+'
    } else {
        '/'
    }
}

/// Standard base64 with padding: three bytes to four characters; a final
/// group of one byte gets two `=`, of two bytes one `=`.
pub open spec fn base64_of(bytes: Seq<u8>) -> Seq<char>
    decreases bytes.len(),
{
    if bytes.len() == 0 {
        Seq::<char>::empty()
    } else if bytes.len() == 1 {
        let b0 = bytes[0] as int;
        seq![b64_char(b0 / 4), b64_char((b0 % 4) * 16), '=', '=']
    } else if bytes.len() == 2 {
        let b0 = bytes[0] as int;
        let b1 = bytes[1] as int;
        seq![b64_char(b0 / 4), b64_char((b0 % 4) * 16 + b1 / 16), b64_char((b1 % 16) * 4), '=']
    } else {
        let b0 = bytes[0] as int;
        let b1 = bytes[1] as int;
        let b2 = bytes[2] as int;
        seq![
            b64_char(b0 / 4),
            b64_char((b0 % 4) * 16 + b1 / 16),
            b64_char((b1 % 16) * 4 + b2 / 64),
            b64_char(b2 % 64),
        ] + base64_of(bytes.skip(3))
    }
}

/// Relies on `Engine::encode` of base64's `STANDARD` engine: the standard
/// alphabet, three bytes to four characters, `=` padding at the end.
#[verifier::external_body]
pub(crate) fn encode_base64(bytes: &Vec<u8>) -> (r: String)
    ensures
        r@ == base64_of(bytes@),
{
    base64::engine::general_purpose::STANDARD.encode(bytes.as_slice())
}

/// Decimal rendering of a non-negative integer, no leading zeros.
pub open spec fn dec_of(n: nat) -> Seq<char>
    decreases n,
{
    if n < 10 {
        seq![hex_digit(n as int)]
    } else {
        dec_of(n / 10) + seq![hex_digit((n % 10) as int)]
    }
}

/// Decimal rendering of an integer: a leading `-` when negative.
pub open spec fn dec_of_int(t: int) -> Seq<char> {
    if t < 0 {
        seq!['-'] + dec_of((-t) as nat)
    } else {
        dec_of(t as nat)
    }
}

/// One decimal digit as a string slice.
fn dec_digit_str(d: u64) -> (r: &'static str)
    requires
        d < 10,
    ensures
        r@ == seq![hex_digit(d as int)],
{
    let r: &'static str = if d == 0 { "0" }
    else if d == 1 { "1" }
    else if d == 2 { "2" }
    else if d == 3 { "3" }
    else if d == 4 { "4" }
    else if d == 5 { "5" }
    else if d == 6 { "6" }
    else if d == 7 { "7" }
    else if d == 8 { "8" }
    else { "9" };
    proof {
        reveal_strlit("0");
        reveal_strlit("1");
        reveal_strlit("2");
        reveal_strlit("3");
        reveal_strlit("4");
        reveal_strlit("5");
        reveal_strlit("6");
        reveal_strlit("7");
        reveal_strlit("8");
        reveal_strlit("9");
    }
    assert(r@ =~= seq![hex_digit(d as int)]);
    r
}

/// Decimal rendering of a `u64`.
pub fn u64_to_dec(n: u64) -> (r: String)
    ensures
        r@ == dec_of(n as nat),
    decreases n,
{
    if n < 10 {
        let mut s = String::new();
        s.append(dec_digit_str(n));
        assert(s@ =~= dec_of(n as nat));
        s
    } else {
        let mut s = u64_to_dec(n / 10);
        s.append(dec_digit_str(n % 10));
        assert(s@ =~= dec_of(n as nat));
        s
    }
}

/// Decimal rendering of an `i64`, with a leading `-` when negative.
pub fn i64_to_dec(t: i64) -> (r: String)
    ensures
        r@ == dec_of_int(t as int),
{
    if t >= 0 {
        u64_to_dec(t as u64)
    } else {
        let wide: i128 = -(t as i128);
        assert(0 < wide <= 0x8000_0000_0000_0000);
        let mag: u64 = wide as u64;
        let mut s = String::from_str("-");
        proof {
            reveal_strlit("-");
        }
        let digits = u64_to_dec(mag);
        s.append(digits.as_str());
        assert(s@ =~= dec_of_int(t as int));
        s
    }
}

} // verus!
