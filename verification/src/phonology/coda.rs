//! Syllable codas: the final consonant cluster of a Vietnamese syllable.
use vstd::prelude::*;
use vstd::string::StringSliceAdditionalSpecFns;

use crate::util::ascii::{
    ascii_byte, bytes_to_ascii_lowercase, lemma_fold_ignores_lowercasing, char_bytes, fold_bytes, is_ascii, spec_is_ascii, spec_to_ascii_lowercase, to_ascii_lowercase,
};

verus! {

/// The error of parsing text that spells no Vietnamese coda.
#[derive(Debug, Clone, Copy, PartialEq, Eq)]
pub struct CodaParseError;

/// Syllable coda: the final consonant cluster of a Vietnamese syllable.
#[derive(Default, Clone, Copy, Debug, PartialEq, Eq, Hash, Structural)]
pub enum Coda {
    /// No final consonant.
    #[default]
    Empty,
    P,
    T,
    C,
    Ch,
    M,
    N,
    Ng,
    Nh,
}

/// The lowercase ASCII spelling of a coda (empty for [`Coda::Empty`]).
pub open spec fn coda_spelling(coda: Coda) -> Seq<u8> {
    match coda {
        Coda::Empty => seq![],
        Coda::P => seq!['p' as u8],
        Coda::T => seq!['t' as u8],
        Coda::C => seq!['c' as u8],
        Coda::Ch => seq!['c' as u8, 'h' as u8],
        Coda::M => seq!['m' as u8],
        Coda::N => seq!['n' as u8],
        Coda::Ng => seq!['n' as u8, 'g' as u8],
        Coda::Nh => seq!['n' as u8, 'h' as u8],
    }
}

/// Whether `bytes` spell `coda`, ignoring ASCII case.
pub open spec fn spells_coda(bytes: Seq<u8>, coda: Coda) -> bool {
    fold_bytes(bytes) == coda_spelling(coda)
}

/// Whether `chars` are ASCII characters that spell `coda`, ignoring case.
pub open spec fn chars_spell_coda(chars: Seq<char>, coda: Coda) -> bool {
    &&& chars.len() <= 2
    &&& forall|i: int| 0 <= i < chars.len() ==> spec_is_ascii(#[trigger] chars[i])
    &&& spells_coda(char_bytes(chars), coda)
}

/// A text spells at most one coda.
pub proof fn lemma_spells_one_coda(bytes: Seq<u8>, a: Coda, b: Coda)
    requires
        spells_coda(bytes, a),
        spells_coda(bytes, b),
    ensures
        a == b,
{
    let s = fold_bytes(bytes);
    if a != b {
        assert(coda_spelling(a) == coda_spelling(b));
        if s.len() > 0 {
            assert(coda_spelling(a)[0] == coda_spelling(b)[0]);
        }
        if s.len() > 1 {
            assert(coda_spelling(a)[1] == coda_spelling(b)[1]);
        }
    }
}

/// Codas are read without regard to ASCII case: lowercasing the bytes first
/// changes nothing (so `from_bytes` gives the same result on both).
pub proof fn lemma_coda_ignores_case(bytes: Seq<u8>, c: Coda)
    ensures
        spells_coda(bytes_to_ascii_lowercase(bytes), c) == spells_coda(bytes, c),
{
    lemma_fold_ignores_lowercasing(bytes);
}

impl Coda {
    pub const MAX_LEN: usize = 2;
    pub const COUNT: usize = 9;

    /// The coda's id (`0..=8`), in declaration order.
    pub open spec fn spec_id(self) -> nat {
        match self {
            Coda::Empty => 0,
            Coda::P => 1,
            Coda::T => 2,
            Coda::C => 3,
            Coda::Ch => 4,
            Coda::M => 5,
            Coda::N => 6,
            Coda::Ng => 7,
            Coda::Nh => 8,
        }
    }

    pub fn is_none(self) -> (r: bool)
        ensures
            r == (self == Coda::Empty),
    {
        matches!(self, Coda::Empty)
    }

    /// The coda with the given id, or `Err` when the id is out of range.
    pub fn from_id(id: usize) -> (r: Result<Self, CodaParseError>)
        ensures
            match r {
                Ok(c) => id < 9 && c.spec_id() == id,
                Err(_) => id >= 9,
            },
    {
        match id {
            0 => Ok(Coda::Empty),
            1 => Ok(Coda::P),
            2 => Ok(Coda::T),
            3 => Ok(Coda::C),
            4 => Ok(Coda::Ch),
            5 => Ok(Coda::M),
            6 => Ok(Coda::N),
            7 => Ok(Coda::Ng),
            8 => Ok(Coda::Nh),
            _ => Err(CodaParseError),
        }
    }

    /// Whether `ch` can start a coda (`c`, `m`, `n`, `p`, `t`, either case).
    pub fn is_possible_first_char(ch: char) -> (r: bool)
        ensures
            r == {
                let l = spec_to_ascii_lowercase(ch);
                l == 'c' || l == 'm' || l == 'n' || l == 'p' || l == 't'
            },
    {
        let l = to_ascii_lowercase(ch);
        l == 'c' || l == 'm' || l == 'n' || l == 'p' || l == 't'
    }

    /// Whether `ch` can appear in a coda (a first character, or `g`/`h`).
    pub fn is_possible_char(ch: char) -> (r: bool)
        ensures
            r == {
                let l = spec_to_ascii_lowercase(ch);
                l == 'c' || l == 'm' || l == 'n' || l == 'p' || l == 't' || l == 'g' || l == 'h'
            },
    {
        let l = to_ascii_lowercase(ch);
        Self::is_possible_first_char(ch) || l == 'g' || l == 'h'
    }

    /// Parses an ASCII byte slice, ignoring case.
    pub fn from_bytes(bytes: &[u8]) -> (r: Result<Self, CodaParseError>)
        ensures
            match r {
                Ok(c) => spells_coda(bytes@, c),
                Err(_) => forall|c: Coda| !spells_coda(bytes@, c),
            },
    {
        let ghost folded = fold_bytes(bytes@);
        if bytes.len() == 0 {
            assert(folded =~= seq![]);
            Ok(Coda::Empty)
        } else if bytes.len() == 1 {
            let b = bytes[0] | 0x20;
            assert(folded =~= seq![b]);
            if b == 'c' as u8 {
                assert(coda_spelling(Coda::C) == seq![b]);
                Ok(Coda::C)
            } else if b == 'm' as u8 {
                Ok(Coda::M)
            } else if b == 'n' as u8 {
                Ok(Coda::N)
            } else if b == 'p' as u8 {
                Ok(Coda::P)
            } else if b == 't' as u8 {
                Ok(Coda::T)
            } else {
                assert forall|c: Coda| !spells_coda(bytes@, c) by {
                    if spells_coda(bytes@, c) {
                        assert(folded[0] == coda_spelling(c)[0]);
                    }
                }
                Err(CodaParseError)
            }
        } else if bytes.len() == 2 {
            let b0 = bytes[0] | 0x20;
            let b1 = bytes[1] | 0x20;
            assert(folded =~= seq![b0, b1]);
            if b0 == 'c' as u8 && b1 == 'h' as u8 {
                Ok(Coda::Ch)
            } else if b0 == 'n' as u8 && b1 == 'g' as u8 {
                Ok(Coda::Ng)
            } else if b0 == 'n' as u8 && b1 == 'h' as u8 {
                Ok(Coda::Nh)
            } else {
                assert forall|c: Coda| !spells_coda(bytes@, c) by {
                    if spells_coda(bytes@, c) {
                        assert(folded[0] == coda_spelling(c)[0]);
                        assert(folded[1] == coda_spelling(c)[1]);
                    }
                }
                Err(CodaParseError)
            }
        } else {
            assert(folded.len() > 2);
            Err(CodaParseError)
        }
    }

    /// Parses a slice of ASCII characters, ignoring case.
    pub fn from_chars(chars: &[char]) -> (r: Result<Self, CodaParseError>)
        ensures
            match r {
                Ok(c) => chars_spell_coda(chars@, c),
                Err(_) => forall|c: Coda| !chars_spell_coda(chars@, c),
            },
    {
        if chars.len() == 0 {
            assert(fold_bytes(char_bytes(chars@)) =~= coda_spelling(Coda::Empty));
            Ok(Coda::Empty)
        } else if chars.len() == 1 && is_ascii(chars[0]) {
            let bytes = [ascii_byte(chars[0])];
            assert(bytes@ =~= char_bytes(chars@));
            Self::from_bytes(&bytes)
        } else if chars.len() == 2 && is_ascii(chars[0]) && is_ascii(chars[1]) {
            let bytes = [ascii_byte(chars[0]), ascii_byte(chars[1])];
            assert(bytes@ =~= char_bytes(chars@));
            Self::from_bytes(&bytes)
        } else {
            assert forall|c: Coda| !chars_spell_coda(chars@, c) by {
                if chars.len() == 1 {
                    assert(!spec_is_ascii(chars@[0]));
                } else if chars.len() == 2 {
                    assert(!spec_is_ascii(chars@[0]) || !spec_is_ascii(chars@[1]));
                }
            }
            Err(CodaParseError)
        }
    }
}

impl std::str::FromStr for Coda {
    type Err = CodaParseError;

    fn from_str(s: &str) -> (r: Result<Self, Self::Err>)
        ensures
            match r {
                Ok(c) => spells_coda(s.spec_bytes(), c),
                Err(_) => forall|c: Coda| !spells_coda(s.spec_bytes(), c),
            },
    {
        Self::from_bytes(s.as_bytes())
    }
}

} // verus!
