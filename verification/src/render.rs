//! Text renderings used by the diagnostic decoder: decimal and hexadecimal
//! numbers, colon-separated hex octets for hardware addresses, dotted quads
//! for IPv4 addresses, and the packed EISA letter code of an ACPI hardware
//! ID.

use vstd::prelude::*;

verus! {

/// The decimal digit `d` as text.
pub open spec fn dec_digit(d: int) -> Seq<char> {
    if d == 0 {
        "0"@
    } else if d == 1 {
        "1"@
    } else if d == 2 {
        "2"@
    } else if d == 3 {
        "3"@
    } else if d == 4 {
        "4"@
    } else if d == 5 {
        "5"@
    } else if d == 6 {
        "6"@
    } else if d == 7 {
        "7"@
    } else if d == 8 {
        "8"@
    } else {
        "9"@
    }
}

/// The number `n` in decimal, most significant digit first, no leading
/// zeroes.
pub open spec fn dec_text(n: int) -> Seq<char>
    decreases n,
{
    if n < 0 {
        Seq::empty()
    } else if n < 10 {
        dec_digit(n)
    } else {
        dec_text(n / 10) + dec_digit(n % 10)
    }
}

/// The hexadecimal digit `d` as text, upper case.
pub open spec fn hex_digit_upper(d: int) -> Seq<char> {
    if d < 10 {
        dec_digit(d)
    } else if d == 10 {
        "A"@
    } else if d == 11 {
        "B"@
    } else if d == 12 {
        "C"@
    } else if d == 13 {
        "D"@
    } else if d == 14 {
        "E"@
    } else {
        "F"@
    }
}

/// The hexadecimal digit `d` as text, lower case.
pub open spec fn hex_digit_lower(d: int) -> Seq<char> {
    if d < 10 {
        dec_digit(d)
    } else if d == 10 {
        "a"@
    } else if d == 11 {
        "b"@
    } else if d == 12 {
        "c"@
    } else if d == 13 {
        "d"@
    } else if d == 14 {
        "e"@
    } else {
        "f"@
    }
}

/// The number `n` in upper-case hexadecimal, most significant digit first,
/// no leading zeroes.
pub open spec fn hex_text(n: int) -> Seq<char>
    decreases n,
{
    if n < 0 {
        Seq::empty()
    } else if n < 16 {
        hex_digit_upper(n)
    } else {
        hex_text(n / 16) + hex_digit_upper(n % 16)
    }
}

/// One byte as two lower-case hexadecimal digits.
pub open spec fn two_hex(b: u8) -> Seq<char> {
    hex_digit_lower(b as int / 16) + hex_digit_lower(b as int % 16)
}

/// Six address bytes as colon-separated two-digit hex octets.
pub open spec fn mac_text(b: Seq<u8>) -> Seq<char> {
    two_hex(b[0]) + ":"@ + two_hex(b[1]) + ":"@ + two_hex(b[2]) + ":"@ + two_hex(b[3]) + ":"@
        + two_hex(b[4]) + ":"@ + two_hex(b[5])
}

/// Four address bytes as a dotted decimal quad.
pub open spec fn dotted_quad(b: Seq<u8>) -> Seq<char> {
    dec_text(b[0] as int) + "."@ + dec_text(b[1] as int) + "."@ + dec_text(b[2] as int) + "."@
        + dec_text(b[3] as int)
}

/// One of the 32 packed EISA letter codes: 64 plus the code, as an ASCII
/// character.  Codes 1 through 26 stand for the letters A through Z.
pub open spec fn eisa_letter(c: int) -> Seq<char> {
    if c == 0 {
        "@"@
    } else if c == 1 {
        "A"@
    } else if c == 2 {
        "B"@
    } else if c == 3 {
        "C"@
    } else if c == 4 {
        "D"@
    } else if c == 5 {
        "E"@
    } else if c == 6 {
        "F"@
    } else if c == 7 {
        "G"@
    } else if c == 8 {
        "H"@
    } else if c == 9 {
        "I"@
    } else if c == 10 {
        "J"@
    } else if c == 11 {
        "K"@
    } else if c == 12 {
        "L"@
    } else if c == 13 {
        "M"@
    } else if c == 14 {
        "N"@
    } else if c == 15 {
        "O"@
    } else if c == 16 {
        "P"@
    } else if c == 17 {
        "Q"@
    } else if c == 18 {
        "R"@
    } else if c == 19 {
        "S"@
    } else if c == 20 {
        "T"@
    } else if c == 21 {
        "U"@
    } else if c == 22 {
        "V"@
    } else if c == 23 {
        "W"@
    } else if c == 24 {
        "X"@
    } else if c == 25 {
        "Y"@
    } else if c == 26 {
        "Z"@
    } else if c == 27 {
        "["@
    } else if c == 28 {
        "\\"@
    } else if c == 29 {
        "]"@
    } else if c == 30 {
        "^"@
    } else {
        "_"@
    }
}

/// An ACPI hardware ID decoded from its packed 32-bit EISA form: three
/// 5-bit letters, then the remaining 16-bit number in hexadecimal.
pub open spec fn acpi_hid_text(hid: int) -> Seq<char> {
    eisa_letter(hid % 32) + eisa_letter((hid / 32) % 32) + eisa_letter((hid / 1024) % 32)
        + hex_text(hid / 65536)
}

/// The decimal digit `d` as a string slice.
fn dec_digit_str(d: u8) -> (r: &'static str)
    requires
        d < 10,
    ensures
        r@ == dec_digit(d as int),
{
    if d == 0 {
        "0"
    } else if d == 1 {
        "1"
    } else if d == 2 {
        "2"
    } else if d == 3 {
        "3"
    } else if d == 4 {
        "4"
    } else if d == 5 {
        "5"
    } else if d == 6 {
        "6"
    } else if d == 7 {
        "7"
    } else if d == 8 {
        "8"
    } else {
        "9"
    }
}

/// The hexadecimal digit `d` as a string slice, upper case.
fn hex_digit_upper_str(d: u8) -> (r: &'static str)
    requires
        d < 16,
    ensures
        r@ == hex_digit_upper(d as int),
{
    if d < 10 {
        dec_digit_str(d)
    } else if d == 10 {
        "A"
    } else if d == 11 {
        "B"
    } else if d == 12 {
        "C"
    } else if d == 13 {
        "D"
    } else if d == 14 {
        "E"
    } else {
        "F"
    }
}

/// The hexadecimal digit `d` as a string slice, lower case.
fn hex_digit_lower_str(d: u8) -> (r: &'static str)
    requires
        d < 16,
    ensures
        r@ == hex_digit_lower(d as int),
{
    if d < 10 {
        dec_digit_str(d)
    } else if d == 10 {
        "a"
    } else if d == 11 {
        "b"
    } else if d == 12 {
        "c"
    } else if d == 13 {
        "d"
    } else if d == 14 {
        "e"
    } else {
        "f"
    }
}

/// Renders a byte in decimal.
pub fn dec_u8_string(b: u8) -> (r: String)
    ensures
        r@ == dec_text(b as int),
    decreases b,
{
    if b < 10 {
        String::from_str(dec_digit_str(b))
    } else {
        let mut s = dec_u8_string(b / 10);
        s.append(dec_digit_str(b % 10));
        s
    }
}

/// Renders a 32-bit number in upper-case hexadecimal.
pub fn hex_u32_string(v: u32) -> (r: String)
    ensures
        r@ == hex_text(v as int),
    decreases v,
{
    if v < 16 {
        String::from_str(hex_digit_upper_str(v as u8))
    } else {
        let mut s = hex_u32_string(v / 16);
        s.append(hex_digit_upper_str((v % 16) as u8));
        s
    }
}

/// Renders one byte as two lower-case hexadecimal digits.
fn two_hex_string(s: &mut String, b: u8)
    ensures
        final(s)@ == old(s)@ + two_hex(b),
{
    s.append(hex_digit_lower_str(b / 16));
    s.append(hex_digit_lower_str(b % 16));
}

/// Renders the six address bytes at `at` as colon-separated hex octets.
pub fn mac_string(buf: &Vec<u8>, at: usize) -> (r: String)
    requires
        at + 6 <= buf@.len(),
    ensures
        r@ == mac_text(buf@.subrange(at as int, at + 6)),
{
    let _n = buf.len();
    let mut s = String::new();
    two_hex_string(&mut s, buf[at]);
    s.append(":");
    two_hex_string(&mut s, buf[at + 1]);
    s.append(":");
    two_hex_string(&mut s, buf[at + 2]);
    s.append(":");
    two_hex_string(&mut s, buf[at + 3]);
    s.append(":");
    two_hex_string(&mut s, buf[at + 4]);
    s.append(":");
    two_hex_string(&mut s, buf[at + 5]);
    proof {
        let q = buf@.subrange(at as int, at + 6);
        assert(q[0] == buf@[at as int]);
        assert(q[1] == buf@[at + 1]);
        assert(q[2] == buf@[at + 2]);
        assert(q[3] == buf@[at + 3]);
        assert(q[4] == buf@[at + 4]);
        assert(q[5] == buf@[at + 5]);
    }
    s
}

/// Renders the four address bytes at `at` as a dotted decimal quad.
pub fn quad_string(buf: &Vec<u8>, at: usize) -> (r: String)
    requires
        at + 4 <= buf@.len(),
    ensures
        r@ == dotted_quad(buf@.subrange(at as int, at + 4)),
{
    let _n = buf.len();
    let mut s = dec_u8_string(buf[at]);
    s.append(".");
    let p1 = dec_u8_string(buf[at + 1]);
    s.append(p1.as_str());
    s.append(".");
    let p2 = dec_u8_string(buf[at + 2]);
    s.append(p2.as_str());
    s.append(".");
    let p3 = dec_u8_string(buf[at + 3]);
    s.append(p3.as_str());
    proof {
        let q = buf@.subrange(at as int, at + 4);
        assert(q[0] == buf@[at as int]);
        assert(q[1] == buf@[at + 1]);
        assert(q[2] == buf@[at + 2]);
        assert(q[3] == buf@[at + 3]);
    }
    s
}

/// The EISA letter of code `c` as a string slice.
fn eisa_letter_str(c: u8) -> (r: &'static str)
    requires
        c < 32,
    ensures
        r@ == eisa_letter(c as int),
{
    if c == 0 {
        "@"
    } else if c == 1 {
        "A"
    } else if c == 2 {
        "B"
    } else if c == 3 {
        "C"
    } else if c == 4 {
        "D"
    } else if c == 5 {
        "E"
    } else if c == 6 {
        "F"
    } else if c == 7 {
        "G"
    } else if c == 8 {
        "H"
    } else if c == 9 {
        "I"
    } else if c == 10 {
        "J"
    } else if c == 11 {
        "K"
    } else if c == 12 {
        "L"
    } else if c == 13 {
        "M"
    } else if c == 14 {
        "N"
    } else if c == 15 {
        "O"
    } else if c == 16 {
        "P"
    } else if c == 17 {
        "Q"
    } else if c == 18 {
        "R"
    } else if c == 19 {
        "S"
    } else if c == 20 {
        "T"
    } else if c == 21 {
        "U"
    } else if c == 22 {
        "V"
    } else if c == 23 {
        "W"
    } else if c == 24 {
        "X"
    } else if c == 25 {
        "Y"
    } else if c == 26 {
        "Z"
    } else if c == 27 {
        "["
    } else if c == 28 {
        "\\"
    } else if c == 29 {
        "]"
    } else if c == 30 {
        "^"
    } else {
        "_"
    }
}

/// Renders a packed EISA hardware ID: its three 5-bit letters, then the
/// remaining 16-bit number in upper-case hexadecimal.
pub fn acpi_hid_string(hid: u32) -> (r: String)
    ensures
        r@ == acpi_hid_text(hid as int),
{
    let mut s = String::from_str(eisa_letter_str((hid % 32) as u8));
    s.append(eisa_letter_str(((hid / 32) % 32) as u8));
    s.append(eisa_letter_str(((hid / 1024) % 32) as u8));
    let num = hex_u32_string(hid / 65536);
    s.append(num.as_str());
    s
}

} // verus!
