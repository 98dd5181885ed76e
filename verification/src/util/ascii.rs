//! ASCII case folding of characters and bytes.
use vstd::prelude::*;

verus! {

/// `c` with `A..=Z` mapped to `a..=z`; every other character unchanged.
pub open spec fn spec_to_ascii_lowercase(c: char) -> char {
    if 'A' <= c <= 'Z' {
        ((c as u32) + 32) as char
    } else {
        c
    }
}

/// Maps `A..=Z` to `a..=z` and leaves every other character unchanged.
pub fn to_ascii_lowercase(c: char) -> (r: char)
    ensures
        r == spec_to_ascii_lowercase(c),
{
    if c >= 'A' && c <= 'Z' {
        ((c as u8) + 32) as char
    } else {
        c
    }
}

/// Whether `c` is an ASCII character (`U+0000..=U+007F`).
pub open spec fn spec_is_ascii(c: char) -> bool {
    (c as u32) < 128
}

/// Whether `c` is an ASCII character.
pub fn is_ascii(c: char) -> (r: bool)
    ensures
        r == spec_is_ascii(c),
{
    (c as u32) < 128
}

/// Byte-wise case folding by setting bit 5 (`b | 0x20`), which maps ASCII
/// `A..=Z` onto `a..=z`.
pub open spec fn fold_bytes(bytes: Seq<u8>) -> Seq<u8> {
    bytes.map_values(|b: u8| b | 0x20u8)
}

/// `bytes` with `A..=Z` mapped to `a..=z`; every other byte unchanged.
pub open spec fn bytes_to_ascii_lowercase(bytes: Seq<u8>) -> Seq<u8> {
    bytes.map_values(|b: u8| if 65 <= b <= 90 { (b + 32) as u8 } else { b })
}

/// Folding a byte ignores whether it was lowercased first.
pub proof fn lemma_fold_byte_ignores_lowercasing(b: u8)
    ensures
        (if 65 <= b <= 90 { (b + 32) as u8 } else { b }) | 0x20u8 == b | 0x20u8,
{
    if 65 <= b <= 90 {
        let c = (b + 32) as u8;
        assert(c | 0x20u8 == b | 0x20u8) by (bit_vector)
            requires
                65 <= b <= 90,
                c == b + 32,
        ;
    }
}

/// Folding bytes ignores whether they were lowercased first.
pub proof fn lemma_fold_ignores_lowercasing(bytes: Seq<u8>)
    ensures
        fold_bytes(bytes_to_ascii_lowercase(bytes)) == fold_bytes(bytes),
{
    assert forall|i: int| 0 <= i < bytes.len() implies fold_bytes(bytes_to_ascii_lowercase(bytes))[i]
        == #[trigger] fold_bytes(bytes)[i] by {
        lemma_fold_byte_ignores_lowercasing(bytes[i]);
    }
    assert(fold_bytes(bytes_to_ascii_lowercase(bytes)) =~= fold_bytes(bytes));
}

/// The ASCII bytes of a sequence of characters.
pub open spec fn char_bytes(chars: Seq<char>) -> Seq<u8> {
    chars.map_values(|c: char| (c as u32) as u8)
}

/// The byte of an ASCII character.
pub fn ascii_byte(c: char) -> (b: u8)
    requires
        spec_is_ascii(c),
    ensures
        b == (c as u32) as u8,
        b as u32 == c as u32,
        b < 128,
{
    let x = c as u32;
    assert((x as u8) as u32 == x && (x as u8) < 128u8) by (bit_vector)
        requires
            x < 128u32,
    ;
    x as u8
}

} // verus!
