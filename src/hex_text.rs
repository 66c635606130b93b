//! Lowercase hexadecimal text of byte sequences.
use vstd::prelude::*;

verus! {

/// The lowercase hexadecimal digit for a value below 16.
pub open spec fn hex_digit(n: int) -> char {
    if n < 10 {
        (48 + n) as char
    } else {
        (87 + n) as char
    }
}

/// The value of a lowercase hexadecimal digit.
pub open spec fn hex_value(c: char) -> int {
    let v = c as int;
    if 48 <= v && v <= 57 {
        v - 48
    } else {
        v - 87
    }
}

/// Two lowercase hexadecimal digits per byte, high nibble first, with no
/// separators and no prefix.
pub open spec fn hex_of(b: Seq<u8>) -> Seq<char> {
    Seq::new(
        2 * b.len(),
        |i: int|
            if i % 2 == 0 {
                hex_digit(b[i / 2] as int / 16)
            } else {
                hex_digit(b[i / 2] as int % 16)
            },
    )
}

/// Bytes read back from hexadecimal text, two digits per byte.
pub open spec fn bytes_of_hex(s: Seq<char>) -> Seq<u8> {
    Seq::new(
        s.len() / 2,
        |i: int| (hex_value(s[2 * i]) * 16 + hex_value(s[2 * i + 1])) as u8,
    )
}

/// Each hexadecimal digit is read back as the value it was written for.
pub proof fn lemma_hex_digit_value(n: int)
    requires
        0 <= n < 16,
    ensures
        hex_value(hex_digit(n)) == n,
{
}

/// Decoding the hexadecimal text of a byte sequence gives back exactly that
/// sequence, and the text has two characters per byte.
pub proof fn lemma_hex_round_trip(b: Seq<u8>)
    ensures
        hex_of(b).len() == 2 * b.len(),
        bytes_of_hex(hex_of(b)) == b,
{
    let h = hex_of(b);
    assert forall|i: int| 0 <= i < b.len() implies #[trigger] bytes_of_hex(h)[i] == b[i] by {
        let x = b[i] as int;
        assert(h[2 * i] == hex_digit(x / 16));
        assert(h[2 * i + 1] == hex_digit(x % 16));
        lemma_hex_digit_value(x / 16);
        lemma_hex_digit_value(x % 16);
    }
    assert(bytes_of_hex(h) =~= b);
}

} // verus!
