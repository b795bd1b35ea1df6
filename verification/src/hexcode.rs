use vstd::prelude::*;

verus! {

/// The lower-case hexadecimal digit for a value below sixteen.
pub open spec fn hex_digit(value: u8) -> char {
    if value < 10 {
        ((48 + value) as u8) as char
    } else {
        ((87 + value) as u8) as char
    }
}

/// The character at place `i` of the hexadecimal text of `data`: the high
/// digit of a byte at the even places, its low digit at the odd ones.
pub open spec fn hex_char_at(data: Seq<u8>, i: int) -> char {
    if i % 2 == 0 {
        hex_digit(data[i / 2] / 16)
    } else {
        hex_digit(data[i / 2] % 16)
    }
}

/// The lower-case hexadecimal text of a byte string: two digits for each
/// byte, the high one first.
pub open spec fn hex_lower(data: Seq<u8>) -> Seq<char> {
    Seq::new(2 * data.len(), |i: int| hex_char_at(data, i))
}

/// Encodes `data` with `hex::encode` of the `hex` crate, which writes each
/// byte as two lower-case hexadecimal digits.
#[verifier::external_body]
pub(crate) fn hex_encode(data: &[u8]) -> (text: String)
    ensures
        text@ == hex_lower(data@),
{
    hex::encode(data)
}

/// A hexadecimal digit is a digit or one of the letters `a` to `f`, and tells
/// its value.
pub proof fn lemma_hex_digit(a: u8, b: u8)
    requires
        a < 16,
        b < 16,
    ensures
        hex_digit(a) != '|',
        hex_digit(a) == hex_digit(b) ==> a == b,
{
}

/// Two byte strings with the same hexadecimal text are the same.
pub proof fn lemma_hex_lower_injective(a: Seq<u8>, b: Seq<u8>)
    requires
        hex_lower(a) == hex_lower(b),
    ensures
        a == b,
{
    assert(hex_lower(a).len() == 2 * a.len());
    assert(hex_lower(b).len() == 2 * b.len());
    assert(a.len() == b.len());
    assert forall|k: int| 0 <= k < a.len() implies a[k] == b[k] by {
        assert(hex_lower(a)[2 * k] == hex_char_at(a, 2 * k));
        assert(hex_lower(b)[2 * k] == hex_char_at(b, 2 * k));
        assert(hex_lower(a)[2 * k + 1] == hex_char_at(a, 2 * k + 1));
        assert(hex_lower(b)[2 * k + 1] == hex_char_at(b, 2 * k + 1));
        lemma_hex_digit(a[k] / 16, b[k] / 16);
        lemma_hex_digit(a[k] % 16, b[k] % 16);
    }
    assert(a =~= b);
}

} // verus!
