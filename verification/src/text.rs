//! Textual forms used by display records: lowercase hex pairs for link-layer
//! addresses, decimal for byte counts, and dotted decimal for IPv4 addresses.
use vstd::prelude::*;
use vstd::string::StringExecFns;

verus! {

/// The character for one decimal digit.
pub open spec fn digit_char(d: int) -> char
    recommends
        0 <= d < 10,
{
    if d == 0 {
        '0'
    } else if d == 1 {
        '1'
    } else if d == 2 {
        '2'
    } else if d == 3 {
        '3'
    } else if d == 4 {
        '4'
    } else if d == 5 {
        '5'
    } else if d == 6 {
        '6'
    } else if d == 7 {
        '7'
    } else if d == 8 {
        '8'
    } else {
        '9'
    }
}

/// The character for one hexadecimal digit, lowercase.
pub open spec fn hex_char(d: int) -> char
    recommends
        0 <= d < 16,
{
    if d < 10 {
        digit_char(d)
    } else if d == 10 {
        'a'
    } else if d == 11 {
        'b'
    } else if d == 12 {
        'c'
    } else if d == 13 {
        'd'
    } else if d == 14 {
        'e'
    } else {
        'f'
    }
}

/// One byte as two lowercase hex digits.
pub open spec fn byte_hex(b: u8) -> Seq<char> {
    seq![hex_char(b as int / 16), hex_char(b as int % 16)]
}

/// Six bytes as colon-separated lowercase hex pairs, the canonical text of a
/// link-layer address.
pub open spec fn mac_text(b: Seq<u8>) -> Seq<char>
    recommends
        b.len() == 6,
{
    byte_hex(b[0]) + seq![':'] + byte_hex(b[1]) + seq![':'] + byte_hex(b[2]) + seq![':']
        + byte_hex(b[3]) + seq![':'] + byte_hex(b[4]) + seq![':'] + byte_hex(b[5])
}

/// A natural number in decimal, most significant digit first, no leading
/// zeros except for the number zero itself.
pub open spec fn dec_text(n: nat) -> Seq<char>
    decreases n,
{
    if n < 10 {
        seq![digit_char(n as int)]
    } else {
        dec_text(n / 10) + seq![digit_char(n as int % 10)]
    }
}

/// Four bytes in dotted decimal, the canonical text of an IPv4 address.
pub open spec fn ipv4_text(b: Seq<u8>) -> Seq<char>
    recommends
        b.len() == 4,
{
    dec_text(b[0] as nat) + seq!['.'] + dec_text(b[1] as nat) + seq!['.'] + dec_text(b[2] as nat)
        + seq!['.'] + dec_text(b[3] as nat)
}

/// One decimal digit as a string slice.
fn digit_str(d: usize) -> (s: &'static str)
    requires
        d < 10,
    ensures
        s@ == seq![digit_char(d as int)],
{
    proof {
        reveal_strlit("0");
        reveal_strlit("1");
        reveal_strlit("2");
        reveal_strlit("3");
        reveal_strlit("4");
        reveal_strlit("5");
        reveal_strlit("6");
        reveal_strlit("7");
        reveal_strlit("8");
        reveal_strlit("9");
    }
    if d == 0 {
        "0"
    } else if d == 1 {
        "1"
    } else if d == 2 {
        "2"
    } else if d == 3 {
        "3"
    } else if d == 4 {
        "4"
    } else if d == 5 {
        "5"
    } else if d == 6 {
        "6"
    } else if d == 7 {
        "7"
    } else if d == 8 {
        "8"
    } else {
        "9"
    }
}

/// Renders a byte count in decimal.
pub fn usize_to_string(n: usize) -> (s: String)
    ensures
        s@ == dec_text(n as nat),
    decreases n,
{
    if n < 10 {
        String::from_str(digit_str(n))
    } else {
        let q: usize = n / 10;
        let r: usize = n % 10;
        let prefix = usize_to_string(q);
        prefix.concat(digit_str(r))
    }
}

} // verus!
