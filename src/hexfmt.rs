use vstd::prelude::*;

verus! {

/// The lower-case hexadecimal digit of a value below sixteen.
pub open spec fn hex_digit(v: int) -> char {
    if v < 10 {
        (('0' as int) + v) as char
    } else {
        (('a' as int) + v - 10) as char
    }
}

/// Two lower-case hexadecimal digits for each byte, high nibble first.
pub open spec fn hex_chars(b: Seq<u8>) -> Seq<char> {
    Seq::new(2 * b.len(), |i: int| if i % 2 == 0 { hex_digit(b[i / 2] as int / 16) } else { hex_digit(b[i / 2] as int % 16) })
}

/// Each byte as two lower-case hexadecimal digits followed by a space.
pub open spec fn spaced_hex(b: Seq<u8>) -> Seq<char> {
    Seq::new(
        3 * b.len(),
        |i: int|
            if i % 3 == 0 {
                hex_digit(b[i / 3] as int / 16)
            } else if i % 3 == 1 {
                hex_digit(b[i / 3] as int % 16)
            } else {
                ' '
            },
    )
}

/// Relies on `String::push`: appends the character at the end.
pub assume_specification[ String::push ](s: &mut String, ch: char)
    ensures
        final(s)@ == old(s)@.push(ch),
;

/// Relies on `hex::ToHex::encode_hex`: two lower-case digits per byte, high
/// nibble first, taken from the table "0123456789abcdef".
#[verifier::external_body]
fn encode_hex_chars(bytes: &[u8]) -> (r: Vec<char>)
    ensures
        r@ == hex_chars(bytes@),
{
    hex::ToHex::encode_hex::<Vec<char>>(&bytes)
}

/// Renders bytes as spaced lower-case hex, e.g. `[0x0a, 0xff]` as "0a ff ".
pub fn bytes_to_spaced_hex(bytes: &[u8]) -> (r: String)
    ensures
        r@ == spaced_hex(bytes@),
{
    let chars = encode_hex_chars(bytes);
    let mut out = String::new();
    let n_chars = chars.len();
    let mut i: usize = 0;
    while i < bytes.len()
        invariant
            n_chars == chars@.len(),
            i <= bytes@.len(),
            chars@ == hex_chars(bytes@),
            out@ == spaced_hex(bytes@).take(3 * i),
        decreases bytes@.len() - i,
    {
        out.push(chars[2 * i]);
        out.push(chars[2 * i + 1]);
        out.push(' ');
        i = i + 1;
        assert(out@ =~= spaced_hex(bytes@).take(3 * i));
    }
    assert(spaced_hex(bytes@).take(3 * i) =~= spaced_hex(bytes@));
    out
}

} // verus!
