//! Syllable onsets: the initial consonant cluster of a Vietnamese syllable.
use vstd::prelude::*;
use vstd::string::StringSliceAdditionalSpecFns;

use crate::util::ascii::{
    ascii_byte, bytes_to_ascii_lowercase, lemma_fold_ignores_lowercasing, char_bytes, fold_bytes, is_ascii, spec_is_ascii, spec_to_ascii_lowercase, to_ascii_lowercase,
};

verus! {

/// The error of parsing text that spells no Vietnamese onset.
#[derive(Debug, Clone, Copy, PartialEq, Eq)]
pub struct OnsetParseError;

/// Syllable onset: the initial consonant cluster of a Vietnamese syllable.
#[derive(Default, Clone, Copy, Debug, PartialEq, Eq, Hash, Structural)]
pub enum Onset {
    /// No initial consonant.
    #[default]
    Empty,
    B,
    C,
    Ch,
    D,
    /// `đ`
    DStroke,
    G,
    Gh,
    Gi,
    H,
    K,
    Kh,
    L,
    M,
    N,
    Nh,
    Ng,
    Ngh,
    P,
    Ph,
    /// Carries the glide `u`; needs care when building syllables.
    Qu,
    R,
    S,
    T,
    Th,
    Tr,
    V,
    X,
}

/// The lowercase spelling of an onset: ASCII bytes, or the UTF-8 bytes of `đ`
/// for [`Onset::DStroke`].
pub open spec fn onset_spelling(onset: Onset) -> Seq<u8> {
    match onset {
        Onset::Empty => seq![],
        Onset::B => seq!['b' as u8],
        Onset::C => seq!['c' as u8],
        Onset::Ch => seq!['c' as u8, 'h' as u8],
        Onset::D => seq!['d' as u8],
        Onset::G => seq!['g' as u8],
        Onset::Gh => seq!['g' as u8, 'h' as u8],
        Onset::Gi => seq!['g' as u8, 'i' as u8],
        Onset::H => seq!['h' as u8],
        Onset::K => seq!['k' as u8],
        Onset::Kh => seq!['k' as u8, 'h' as u8],
        Onset::L => seq!['l' as u8],
        Onset::M => seq!['m' as u8],
        Onset::N => seq!['n' as u8],
        Onset::Nh => seq!['n' as u8, 'h' as u8],
        Onset::Ng => seq!['n' as u8, 'g' as u8],
        Onset::Ngh => seq!['n' as u8, 'g' as u8, 'h' as u8],
        Onset::P => seq!['p' as u8],
        Onset::Ph => seq!['p' as u8, 'h' as u8],
        Onset::Qu => seq!['q' as u8, 'u' as u8],
        Onset::R => seq!['r' as u8],
        Onset::S => seq!['s' as u8],
        Onset::T => seq!['t' as u8],
        Onset::Th => seq!['t' as u8, 'h' as u8],
        Onset::Tr => seq!['t' as u8, 'r' as u8],
        Onset::V => seq!['v' as u8],
        Onset::X => seq!['x' as u8],
        Onset::DStroke => seq![0xC4u8, 0x91u8],
    }
}

/// Whether `bytes` are the UTF-8 encoding of `đ` or `Đ`.
pub open spec fn is_d_stroke_utf8(bytes: Seq<u8>) -> bool {
    bytes == seq![0xC4u8, 0x91u8] || bytes == seq![0xC4u8, 0x90u8]
}

/// Whether `bytes` spell `onset`: the UTF-8 `đ`/`Đ` for [`Onset::DStroke`],
/// the ASCII spelling (ignoring case) for every other onset.
pub open spec fn spells_onset(bytes: Seq<u8>, onset: Onset) -> bool {
    if onset == Onset::DStroke {
        is_d_stroke_utf8(bytes)
    } else {
        fold_bytes(bytes) == onset_spelling(onset)
    }
}

/// Whether `chars` spell `onset`: a single `đ`/`Đ` for [`Onset::DStroke`],
/// at most three ASCII characters spelling it (ignoring case) otherwise.
pub open spec fn chars_spell_onset(chars: Seq<char>, onset: Onset) -> bool {
    if onset == Onset::DStroke {
        chars == seq!['đ'] || chars == seq!['Đ']
    } else {
        &&& chars.len() <= 3
        &&& forall|i: int| 0 <= i < chars.len() ==> spec_is_ascii(#[trigger] chars[i])
        &&& fold_bytes(char_bytes(chars)) == onset_spelling(onset)
    }
}

/// Whether `ch` can start an onset: `đ`/`Đ`, or one of
/// `b c d g h k l m n p q r s t v x` in either case.
pub open spec fn is_onset_first_char(ch: char) -> bool {
    let l = spec_to_ascii_lowercase(ch);
    ||| ch == 'Đ' || ch == 'đ'
    ||| l == 'b' || l == 'c' || l == 'd' || l == 'g' || l == 'h' || l == 'k' || l == 'l' || l == 'm' || l == 'n' || l == 'p' || l == 'q' || l == 'r' || l == 's' || l == 't' || l == 'v' || l == 'x'
}

/// Whether `ch` can appear in an onset: a first character, or `i`/`u` (of
/// `gi`, `qu`).
pub open spec fn is_onset_char(ch: char) -> bool {
    is_onset_first_char(ch) || spec_to_ascii_lowercase(ch) == 'i' || spec_to_ascii_lowercase(ch)
        == 'u'
}

/// The characters that can start an onset are exactly `đ`/`Đ` and the first
/// letters of the other onsets' spellings, in either case ("làm" starts with
/// the onset `l`).
pub proof fn lemma_onset_first_chars(ch: char)
    ensures
        is_onset_first_char(ch) <==> (ch == 'đ' || ch == 'Đ' || exists|o: Onset|
            o != Onset::Empty && o != Onset::DStroke && (#[trigger] onset_spelling(o))[0] as char
                == spec_to_ascii_lowercase(ch)),
{
    let l = spec_to_ascii_lowercase(ch);
    if is_onset_first_char(ch) && ch != 'đ' && ch != 'Đ' {
        if l == 'b' {
            assert(onset_spelling(Onset::B)[0] as char == l);
        } else if l == 'c' {
            assert(onset_spelling(Onset::C)[0] as char == l);
        } else if l == 'd' {
            assert(onset_spelling(Onset::D)[0] as char == l);
        } else if l == 'g' {
            assert(onset_spelling(Onset::G)[0] as char == l);
        } else if l == 'h' {
            assert(onset_spelling(Onset::H)[0] as char == l);
        } else if l == 'k' {
            assert(onset_spelling(Onset::K)[0] as char == l);
        } else if l == 'l' {
            assert(onset_spelling(Onset::L)[0] as char == l);
        } else if l == 'm' {
            assert(onset_spelling(Onset::M)[0] as char == l);
        } else if l == 'n' {
            assert(onset_spelling(Onset::N)[0] as char == l);
        } else if l == 'p' {
            assert(onset_spelling(Onset::P)[0] as char == l);
        } else if l == 'q' {
            assert(onset_spelling(Onset::Qu)[0] as char == l);
        } else if l == 'r' {
            assert(onset_spelling(Onset::R)[0] as char == l);
        } else if l == 's' {
            assert(onset_spelling(Onset::S)[0] as char == l);
        } else if l == 't' {
            assert(onset_spelling(Onset::T)[0] as char == l);
        } else if l == 'v' {
            assert(onset_spelling(Onset::V)[0] as char == l);
        } else if l == 'x' {
            assert(onset_spelling(Onset::X)[0] as char == l);
        }
    }
}

/// The characters that can appear in an onset are exactly `đ`/`Đ` and the
/// letters of the other onsets' spellings, in either case.
pub proof fn lemma_onset_chars(ch: char)
    ensures
        is_onset_char(ch) <==> (ch == 'đ' || ch == 'Đ' || exists|o: Onset, j: int|
            o != Onset::DStroke && 0 <= j < onset_spelling(o).len() && (#[trigger] onset_spelling(
                o,
            )[j]) as char == spec_to_ascii_lowercase(ch)),
{
    let l = spec_to_ascii_lowercase(ch);
    lemma_onset_first_chars(ch);
    if l == 'i' {
        assert(onset_spelling(Onset::Gi)[1] as char == l);
    } else if l == 'u' {
        assert(onset_spelling(Onset::Qu)[1] as char == l);
    } else if is_onset_first_char(ch) && ch != 'đ' && ch != 'Đ' {
        let o = choose|o: Onset|
            o != Onset::Empty && o != Onset::DStroke && (#[trigger] onset_spelling(o))[0] as char
                == l;
        assert(onset_spelling(o)[0] as char == l);
    }
    if exists|o: Onset, j: int|
        o != Onset::DStroke && 0 <= j < onset_spelling(o).len() && (#[trigger] onset_spelling(o)[j]) as char
            == l {
        let (o, j) = choose|o: Onset, j: int|
            o != Onset::DStroke && 0 <= j < onset_spelling(o).len() && (#[trigger] onset_spelling(o)[j]) as char
                == l;
        assert(is_onset_char(ch));
    }
}

/// Distinct onsets have distinct spellings.
proof fn lemma_onset_spelling_injective(a: Onset, b: Onset)
    requires
        onset_spelling(a) =~= onset_spelling(b),
    ensures
        a == b,
{
    let s = onset_spelling(a);
    if s.len() > 0 {
        assert(s[0] == onset_spelling(b)[0]);
    }
    if s.len() > 1 {
        assert(s[1] == onset_spelling(b)[1]);
    }
    if s.len() > 2 {
        assert(s[2] == onset_spelling(b)[2]);
    }
    match a {
        Onset::Empty => {},
        Onset::B => {},
        Onset::C => {},
        Onset::Ch => {},
        Onset::D => {},
        Onset::DStroke => {},
        Onset::G => {},
        Onset::Gh => {},
        Onset::Gi => {},
        Onset::H => {},
        Onset::K => {},
        Onset::Kh => {},
        Onset::L => {},
        Onset::M => {},
        Onset::N => {},
        Onset::Nh => {},
        Onset::Ng => {},
        Onset::Ngh => {},
        Onset::P => {},
        Onset::Ph => {},
        Onset::Qu => {},
        Onset::R => {},
        Onset::S => {},
        Onset::T => {},
        Onset::Th => {},
        Onset::Tr => {},
        Onset::V => {},
        Onset::X => {},
    }
}

/// A text spells at most one onset.
pub proof fn lemma_spells_one_onset(bytes: Seq<u8>, a: Onset, b: Onset)
    requires
        spells_onset(bytes, a),
        spells_onset(bytes, b),
    ensures
        a == b,
{
    let f = fold_bytes(bytes);
    if a == Onset::DStroke && b != Onset::DStroke || b == Onset::DStroke && a != Onset::DStroke {
        let other = if a == Onset::DStroke { b } else { a };
        assert(bytes.len() == 2 && bytes[0] == 0xC4u8);
        assert((0xC4u8 | 0x20u8) == 0xE4u8) by (bit_vector);
        assert(f[0] == 0xE4u8);
        assert(onset_spelling(other) == f);
        assert(onset_spelling(other).len() == 2);
        match other {
        Onset::Empty => {},
        Onset::B => {},
        Onset::C => {},
        Onset::Ch => {},
        Onset::D => {},
        Onset::DStroke => {},
        Onset::G => {},
        Onset::Gh => {},
        Onset::Gi => {},
        Onset::H => {},
        Onset::K => {},
        Onset::Kh => {},
        Onset::L => {},
        Onset::M => {},
        Onset::N => {},
        Onset::Nh => {},
        Onset::Ng => {},
        Onset::Ngh => {},
        Onset::P => {},
        Onset::Ph => {},
        Onset::Qu => {},
        Onset::R => {},
        Onset::S => {},
        Onset::T => {},
        Onset::Th => {},
        Onset::Tr => {},
        Onset::V => {},
        Onset::X => {},
        }
    } else if a != Onset::DStroke && b != Onset::DStroke {
        lemma_onset_spelling_injective(a, b);
    }
}

/// Onsets are read without regard to ASCII case: lowercasing the bytes
/// first changes nothing (so `from_bytes` gives the same result on both).
pub proof fn lemma_onset_ignores_case(bytes: Seq<u8>, o: Onset)
    ensures
        spells_onset(bytes_to_ascii_lowercase(bytes), o) == spells_onset(bytes, o),
{
    let l = bytes_to_ascii_lowercase(bytes);
    lemma_fold_ignores_lowercasing(bytes);
    if bytes.len() == 2 {
        assert(is_d_stroke_utf8(l) == is_d_stroke_utf8(bytes)) by {
            if is_d_stroke_utf8(bytes) {
                assert(bytes[0] == seq![0xC4u8, 0x91u8][0]);
                assert(l =~= bytes);
            }
            if is_d_stroke_utf8(l) {
                assert(l[0] == seq![0xC4u8, 0x91u8][0]);
                assert(l[1] == 0x91u8 || l[1] == 0x90u8);
                assert(l =~= bytes);
            }
        }
    } else {
        assert(l.len() != 2);
    }
}

impl Onset {
    pub const MAX_LEN: usize = 3;
    pub const COUNT: usize = 28;

    /// The onset's id (`0..=27`), in declaration order.
    pub open spec fn spec_id(self) -> nat {
        match self {
            Onset::Empty => 0,
            Onset::B => 1,
            Onset::C => 2,
            Onset::Ch => 3,
            Onset::D => 4,
            Onset::DStroke => 5,
            Onset::G => 6,
            Onset::Gh => 7,
            Onset::Gi => 8,
            Onset::H => 9,
            Onset::K => 10,
            Onset::Kh => 11,
            Onset::L => 12,
            Onset::M => 13,
            Onset::N => 14,
            Onset::Nh => 15,
            Onset::Ng => 16,
            Onset::Ngh => 17,
            Onset::P => 18,
            Onset::Ph => 19,
            Onset::Qu => 20,
            Onset::R => 21,
            Onset::S => 22,
            Onset::T => 23,
            Onset::Th => 24,
            Onset::Tr => 25,
            Onset::V => 26,
            Onset::X => 27,
        }
    }

    pub fn is_none(self) -> (r: bool)
        ensures
            r == (self == Onset::Empty),
    {
        matches!(self, Onset::Empty)
    }

    /// The onset with the given id, or `Err` when the id is out of range.
    pub fn from_id(id: usize) -> (r: Result<Self, OnsetParseError>)
        ensures
            match r {
                Ok(o) => id < 28 && o.spec_id() == id,
                Err(_) => id >= 28,
            },
    {
        match id {
            0 => Ok(Onset::Empty),
            1 => Ok(Onset::B),
            2 => Ok(Onset::C),
            3 => Ok(Onset::Ch),
            4 => Ok(Onset::D),
            5 => Ok(Onset::DStroke),
            6 => Ok(Onset::G),
            7 => Ok(Onset::Gh),
            8 => Ok(Onset::Gi),
            9 => Ok(Onset::H),
            10 => Ok(Onset::K),
            11 => Ok(Onset::Kh),
            12 => Ok(Onset::L),
            13 => Ok(Onset::M),
            14 => Ok(Onset::N),
            15 => Ok(Onset::Nh),
            16 => Ok(Onset::Ng),
            17 => Ok(Onset::Ngh),
            18 => Ok(Onset::P),
            19 => Ok(Onset::Ph),
            20 => Ok(Onset::Qu),
            21 => Ok(Onset::R),
            22 => Ok(Onset::S),
            23 => Ok(Onset::T),
            24 => Ok(Onset::Th),
            25 => Ok(Onset::Tr),
            26 => Ok(Onset::V),
            27 => Ok(Onset::X),
            _ => Err(OnsetParseError),
        }
    }

    /// Parses bytes: an ASCII onset ignoring case, or the UTF-8 `đ`/`Đ`.
    pub fn from_bytes(bytes: &[u8]) -> (r: Result<Self, OnsetParseError>)
        ensures
            match r {
                Ok(o) => spells_onset(bytes@, o),
                Err(_) => forall|o: Onset| !spells_onset(bytes@, o),
            },
    {
        let ghost folded = fold_bytes(bytes@);
        if bytes.len() == 0 {
            assert(folded =~= seq![]);
            Ok(Onset::Empty)
        } else if bytes.len() == 1 {
            // One-byte onset (A-Z, a-z).
            let b = bytes[0] | 0x20;
            assert(folded =~= seq![b]);
            if b == 'b' as u8 {
                Ok(Onset::B)
            } else if b == 'c' as u8 {
                Ok(Onset::C)
            } else if b == 'd' as u8 {
                Ok(Onset::D)
            } else if b == 'g' as u8 {
                Ok(Onset::G)
            } else if b == 'h' as u8 {
                Ok(Onset::H)
            } else if b == 'k' as u8 {
                Ok(Onset::K)
            } else if b == 'l' as u8 {
                Ok(Onset::L)
            } else if b == 'm' as u8 {
                Ok(Onset::M)
            } else if b == 'n' as u8 {
                Ok(Onset::N)
            } else if b == 'p' as u8 {
                Ok(Onset::P)
            } else if b == 'r' as u8 {
                Ok(Onset::R)
            } else if b == 's' as u8 {
                Ok(Onset::S)
            } else if b == 't' as u8 {
                Ok(Onset::T)
            } else if b == 'v' as u8 {
                Ok(Onset::V)
            } else if b == 'x' as u8 {
                Ok(Onset::X)
            } else {
                assert forall|o: Onset| !spells_onset(bytes@, o) by {
                    if spells_onset(bytes@, o) {
                        assert(folded[0] == onset_spelling(o)[0]);
                    }
                }
                Err(OnsetParseError)
            }
        } else if bytes.len() == 2 && bytes[0] == 0xC4 && (bytes[1] == 0x91 || bytes[1] == 0x90) {
            // UTF-8 for 'đ' / 'Đ'.
            assert(bytes@ =~= seq![0xC4u8, 0x91u8] || bytes@ =~= seq![0xC4u8, 0x90u8]);
            Ok(Onset::DStroke)
        } else if bytes.len() == 2 {
            // Two-byte ASCII onsets.
            let b0 = bytes[0] | 0x20;
            let b1 = bytes[1] | 0x20;
            assert(folded =~= seq![b0, b1]);
            assert(!is_d_stroke_utf8(bytes@)) by {
                if is_d_stroke_utf8(bytes@) {
                    assert(bytes@[0] == 0xC4 && (bytes@[1] == 0x91 || bytes@[1] == 0x90));
                }
            }
            if b0 == 'c' as u8 && b1 == 'h' as u8 {
                Ok(Onset::Ch)
            } else if b0 == 'g' as u8 && b1 == 'h' as u8 {
                Ok(Onset::Gh)
            } else if b0 == 'g' as u8 && b1 == 'i' as u8 {
                Ok(Onset::Gi)
            } else if b0 == 'k' as u8 && b1 == 'h' as u8 {
                Ok(Onset::Kh)
            } else if b0 == 'n' as u8 && b1 == 'h' as u8 {
                Ok(Onset::Nh)
            } else if b0 == 'n' as u8 && b1 == 'g' as u8 {
                Ok(Onset::Ng)
            } else if b0 == 'p' as u8 && b1 == 'h' as u8 {
                Ok(Onset::Ph)
            } else if b0 == 'q' as u8 && b1 == 'u' as u8 {
                Ok(Onset::Qu)
            } else if b0 == 't' as u8 && b1 == 'h' as u8 {
                Ok(Onset::Th)
            } else if b0 == 't' as u8 && b1 == 'r' as u8 {
                Ok(Onset::Tr)
            } else {
                assert forall|o: Onset| !spells_onset(bytes@, o) by {
                    if spells_onset(bytes@, o) {
                        assert(folded[0] == onset_spelling(o)[0]);
                        assert(folded[1] == onset_spelling(o)[1]);
                    }
                }
                Err(OnsetParseError)
            }
        } else if bytes.len() == 3 {
            // Three-byte onset ("ngh").
            let b0 = bytes[0] | 0x20;
            let b1 = bytes[1] | 0x20;
            let b2 = bytes[2] | 0x20;
            assert(folded =~= seq![b0, b1, b2]);
            if b0 == 'n' as u8 && b1 == 'g' as u8 && b2 == 'h' as u8 {
                Ok(Onset::Ngh)
            } else {
                assert forall|o: Onset| !spells_onset(bytes@, o) by {
                    if spells_onset(bytes@, o) {
                        assert(folded[0] == onset_spelling(o)[0]);
                        assert(folded[1] == onset_spelling(o)[1]);
                        assert(folded[2] == onset_spelling(o)[2]);
                    }
                }
                Err(OnsetParseError)
            }
        } else {
            assert(folded.len() > 3);
            Err(OnsetParseError)
        }
    }

    /// Parses characters: a single `đ`/`Đ`, or up to three ASCII characters
    /// spelling an onset, ignoring case.
    pub fn from_chars(chars: &[char]) -> (r: Result<Self, OnsetParseError>)
        ensures
            match r {
                Ok(o) => chars_spell_onset(chars@, o),
                Err(_) => forall|o: Onset| !chars_spell_onset(chars@, o),
            },
    {
        if chars.len() == 0 {
            assert(fold_bytes(char_bytes(chars@)) =~= onset_spelling(Onset::Empty));
            Ok(Onset::Empty)
        } else if chars.len() == 1 && (chars[0] == 'đ' || chars[0] == 'Đ') {
            assert(chars@ =~= seq!['đ'] || chars@ =~= seq!['Đ']);
            Ok(Onset::DStroke)
        } else if chars.len() <= 3 && Self::all_ascii(chars) {
            let r = if chars.len() == 1 {
                let bytes = [ascii_byte(chars[0])];
                assert(bytes@ =~= char_bytes(chars@));
                Self::from_ascii_bytes(&bytes)
            } else if chars.len() == 2 {
                let bytes = [ascii_byte(chars[0]), ascii_byte(chars[1])];
                assert(bytes@ =~= char_bytes(chars@));
                Self::from_ascii_bytes(&bytes)
            } else {
                let bytes = [ascii_byte(chars[0]), ascii_byte(chars[1]), ascii_byte(chars[2])];
                assert(bytes@ =~= char_bytes(chars@));
                Self::from_ascii_bytes(&bytes)
            };
            assert forall|o: Onset| o == Onset::DStroke implies !chars_spell_onset(chars@, o) by {
                if chars@ == seq!['đ'] || chars@ == seq!['Đ'] {
                    assert(spec_is_ascii(chars@[0]));
                }
            }
            r
        } else {
            assert forall|o: Onset| !chars_spell_onset(chars@, o) by {
                if o == Onset::DStroke {
                    if chars@ == seq!['đ'] || chars@ == seq!['Đ'] {
                        assert(chars@[0] == 'đ' || chars@[0] == 'Đ');
                    }
                } else if chars.len() <= 3 {
                    let i = choose|i: int| 0 <= i < chars.len() && !spec_is_ascii(chars@[i]);
                    assert(!spec_is_ascii(chars@[i]));
                }
            }
            Err(OnsetParseError)
        }
    }

    fn all_ascii(chars: &[char]) -> (r: bool)
        ensures
            r == forall|i: int| 0 <= i < chars.len() ==> spec_is_ascii(#[trigger] chars@[i]),
    {
        let mut i: usize = 0;
        while i < chars.len()
            invariant
                i <= chars.len(),
                forall|j: int| 0 <= j < i ==> spec_is_ascii(#[trigger] chars@[j]),
            decreases chars.len() - i,
        {
            if !is_ascii(chars[i]) {
                return false;
            }
            i += 1;
        }
        true
    }

    /// [`Onset::from_bytes`] on the bytes of ASCII characters, which never
    /// spell [`Onset::DStroke`].
    fn from_ascii_bytes(bytes: &[u8]) -> (r: Result<Self, OnsetParseError>)
        requires
            forall|i: int| 0 <= i < bytes.len() ==> #[trigger] bytes@[i] < 128,
        ensures
            match r {
                Ok(o) => o != Onset::DStroke && fold_bytes(bytes@) == onset_spelling(o),
                Err(_) => forall|o: Onset|
                    o != Onset::DStroke ==> fold_bytes(bytes@) != onset_spelling(o),
            },
    {
        let r = Self::from_bytes(bytes);
        assert(!is_d_stroke_utf8(bytes@)) by {
            if bytes@ == seq![0xC4u8, 0x91u8] {
                assert(bytes@.len() == 2);
                assert(bytes@[0] == seq![0xC4u8, 0x91u8][0]);
                assert(bytes@[0] < 128);
                assert(false);
            }
            if bytes@ == seq![0xC4u8, 0x90u8] {
                assert(bytes@.len() == 2);
                assert(bytes@[0] == seq![0xC4u8, 0x90u8][0]);
                assert(bytes@[0] < 128);
                assert(false);
            }
        }
        if r.is_err() {
            assert forall|o: Onset| o != Onset::DStroke implies fold_bytes(bytes@) != onset_spelling(
                o,
            ) by {
                assert(!spells_onset(bytes@, o));
            }
        }
        r
    }

    /// Whether `ch` can start an onset.
    pub fn is_possible_first_char(ch: char) -> (r: bool)
        ensures
            r == is_onset_first_char(ch),
    {
        let l = to_ascii_lowercase(ch);
        ch == 'Đ' || ch == 'đ' || l == 'b' || l == 'c' || l == 'd' || l == 'g' || l == 'h' || l == 'k' || l == 'l' || l == 'm' || l == 'n' || l == 'p' || l == 'q' || l == 'r' || l == 's' || l == 't' || l == 'v' || l == 'x'
    }

    /// Whether `ch` can appear in an onset: a first character, or `i`/`u`
    /// (of `gi`, `qu`).
    pub fn is_possible_char(ch: char) -> (r: bool)
        ensures
            r == is_onset_char(ch),
    {
        let l = to_ascii_lowercase(ch);
        Self::is_possible_first_char(ch) || l == 'i' || l == 'u'
    }
}

impl std::str::FromStr for Onset {
    type Err = OnsetParseError;

    fn from_str(s: &str) -> (r: Result<Self, Self::Err>)
        ensures
            match r {
                Ok(o) => spells_onset(s.spec_bytes(), o),
                Err(_) => forall|o: Onset| !spells_onset(s.spec_bytes(), o),
            },
    {
        Self::from_bytes(s.as_bytes())
    }
}

} // verus!
