//! Lower-case hex rendering and hex-digit parsing, fully verified.

use vstd::prelude::*;

verus! {

/// The sixteen lower-case hex digits, least value first.
pub open spec fn hex_digits() -> Seq<char> {
    seq!['0', '1', '2', '3', '4', '5', '6', '7', '8', '9', 'a', 'b', 'c', 'd', 'e', 'f']
}

/// The lower-case hex digit with value `n`.
pub open spec fn hex_char_of(n: int) -> char
    recommends
        0 <= n < 16,
{
    hex_digits()[n]
}

/// Lower-case hex rendering of a byte sequence: two digits per byte,
/// high nibble first.
pub open spec fn spec_hex_lower(bytes: Seq<u8>) -> Seq<char> {
    Seq::new(
        bytes.len() * 2,
        |i: int|
            if i % 2 == 0 {
                hex_char_of(bytes[i / 2] as int / 16)
            } else {
                hex_char_of(bytes[i / 2] as int % 16)
            },
    )
}

/// Whether `c` is a hex digit in either case.
pub open spec fn is_hex_char(c: char) -> bool {
    ('0' <= c && c <= '9') || ('a' <= c && c <= 'f') || ('A' <= c && c <= 'F')
}

/// The value of the hex digit `c`.
pub open spec fn hex_val(c: char) -> int
    recommends
        is_hex_char(c),
{
    if '0' <= c && c <= '9' {
        c as int - '0' as int
    } else if 'a' <= c && c <= 'f' {
        c as int - 'a' as int + 10
    } else {
        c as int - 'A' as int + 10
    }
}

/// A one-character string holding the lower-case hex digit with value `n`.
pub(crate) fn hex_char_str(n: u8) -> (s: &'static str)
    requires
        n < 16,
    ensures
        s@ =~= seq![hex_char_of(n as int)],
{
    proof {
        reveal_strlit("0");
        reveal_strlit("1");
        reveal_strlit("2");
        reveal_strlit("3");
        reveal_strlit("4");
        reveal_strlit("5");
        reveal_strlit("6");
        reveal_strlit("7");
        reveal_strlit("8");
        reveal_strlit("9");
        reveal_strlit("a");
        reveal_strlit("b");
        reveal_strlit("c");
        reveal_strlit("d");
        reveal_strlit("e");
        reveal_strlit("f");
    }
    match n {
        0 => "0",
        1 => "1",
        2 => "2",
        3 => "3",
        4 => "4",
        5 => "5",
        6 => "6",
        7 => "7",
        8 => "8",
        9 => "9",
        10 => "a",
        11 => "b",
        12 => "c",
        13 => "d",
        14 => "e",
        _ => "f",
    }
}

/// Renders bytes as lower-case hex, two digits per byte.
pub fn hex_encode_lower(bytes: &[u8]) -> (r: String)
    ensures
        r@ == spec_hex_lower(bytes@),
{
    let mut r = String::new();
    assert(r@ =~= spec_hex_lower(bytes@.take(0)));
    for i in 0..bytes.len()
        invariant
            r@ == spec_hex_lower(bytes@.take(i as int)),
    {
        let b = bytes[i];
        r.append(hex_char_str(b / 16));
        r.append(hex_char_str(b % 16));
        assert(r@ =~= spec_hex_lower(bytes@.take(i + 1)));
    }
    assert(bytes@.take(bytes@.len() as int) =~= bytes@);
    r
}

/// Tells whether `c` is a hex digit.
pub fn hex_char_check(c: char) -> (r: bool)
    ensures
        r == is_hex_char(c),
{
    ('0' <= c && c <= '9') || ('a' <= c && c <= 'f') || ('A' <= c && c <= 'F')
}

/// A well-formed hex string: even length, hex digits throughout.
pub open spec fn spec_hex_string(s: Seq<char>) -> bool {
    &&& s.len() % 2 == 0
    &&& forall|i: int| 0 <= i < s.len() ==> is_hex_char(#[trigger] s[i])
}

/// The bytes a well-formed hex string denotes, one byte per digit pair.
pub open spec fn spec_hex_parse(s: Seq<char>) -> Seq<u8>
    recommends
        spec_hex_string(s),
{
    Seq::new(s.len() / 2, |i: int| (hex_val(s[2 * i]) * 16 + hex_val(s[2 * i + 1])) as u8)
}

/// Parses a hex string into bytes; a string of odd length or with a
/// non-hex character yields nothing.
pub fn hex_decode_chars(s: &str) -> (r: Option<Vec<u8>>)
    ensures
        r is Some <==> spec_hex_string(s@),
        r matches Some(v) ==> v@ == spec_hex_parse(s@),
{
    let n = vstd::string::StrSliceExecFns::unicode_len(s);
    if n % 2 != 0 {
        return None;
    }
    let mut out: Vec<u8> = Vec::new();
    for i in 0..n / 2
        invariant
            n == s@.len(),
            n % 2 == 0,
            out@.len() == i,
            forall|j: int| 0 <= j < 2 * i ==> is_hex_char(#[trigger] s@[j]),
            forall|j: int| 0 <= j < i ==> out@[j] == spec_hex_parse(s@)[j],
    {
        let c1 = vstd::string::StrSliceExecFns::get_char(s, 2 * i);
        let c2 = vstd::string::StrSliceExecFns::get_char(s, 2 * i + 1);
        if !hex_char_check(c1) || !hex_char_check(c2) {
            return None;
        }
        out.push(hex_char_val(c1) * 16 + hex_char_val(c2));
    }
    assert(out@ =~= spec_hex_parse(s@));
    Some(out)
}

/// The value of the hex digit `c`.
pub fn hex_char_val(c: char) -> (v: u8)
    requires
        is_hex_char(c),
    ensures
        v as int == hex_val(c),
        v < 16,
{
    let u = c as u32;
    if '0' <= c && c <= '9' {
        (u - 48) as u8
    } else if 'a' <= c && c <= 'f' {
        (u - 97 + 10) as u8
    } else {
        (u - 65 + 10) as u8
    }
}

} // verus!
