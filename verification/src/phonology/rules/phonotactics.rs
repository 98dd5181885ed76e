//! Spelling (phonotactic) validation: whether an onset, a vowel nucleus, a
//! coda and a tone combine into a well-spelled Vietnamese syllable.
//!
//! Every phonological property the rules need is encoded as a bit in
//! [`PhonotacticFlags`], so the validator only runs bitwise tests.
use vstd::prelude::*;

use crate::phonology::case::CasedBaseVowel;
use crate::phonology::coda::Coda;
use crate::phonology::onset::Onset;
use crate::phonology::vowel::{BaseVowel, Tone};

verus! {

/// Bitmask of phonotactic attributes of a syllable part (a 16-bit integer).
///
/// - Bits 0..5: vowel (nucleus) properties
/// - Bits 6..8: onset constraints
/// - Bits 9..10: coda constraints
#[derive(Clone, Copy, Debug, Default, PartialEq, Eq, Structural)]
pub struct PhonotacticFlags(u16);

impl PhonotacticFlags {
    // ─────────────── Vowel flags (bits 0..5) ───────────────
    /// Front vowels `i`, `y`, `e`, `ê`; they govern `k/gh/ngh` versus `c/g/ng`.
    pub fn vowel_front() -> (r: PhonotacticFlags)
        ensures
            r.spec_bits() == 1,
    {
        PhonotacticFlags(1)
    }
    /// Short vowels `ă`, `â`; they need a closing coda.
    pub fn vowel_short() -> (r: PhonotacticFlags)
        ensures
            r.spec_bits() == 2,
    {
        PhonotacticFlags(2)
    }
    /// Vowels a palatal coda (`ch`, `nh`) may follow: `i`, `y`, `e`, `ê`, `a`.
    pub fn vowel_allows_palatal() -> (r: PhonotacticFlags)
        ensures
            r.spec_bits() == 4,
    {
        PhonotacticFlags(4)
    }
    /// The vowel `u`, which may not follow `qu`.
    pub fn vowel_u() -> (r: PhonotacticFlags)
        ensures
            r.spec_bits() == 8,
    {
        PhonotacticFlags(8)
    }
    /// Rounded vowels `u`, `o`, `ô`.
    pub fn vowel_round() -> (r: PhonotacticFlags)
        ensures
            r.spec_bits() == 16,
    {
        PhonotacticFlags(16)
    }
    /// The `a` line: `a`, `ă`, `â`.
    pub fn vowel_a() -> (r: PhonotacticFlags)
        ensures
            r.spec_bits() == 32,
    {
        PhonotacticFlags(32)
    }

    // ─────────────── Onset flags (bits 6..8) ───────────────
    /// Onsets that need a front vowel next (`k`, `gh`, `ngh`).
    pub fn onset_requires_front() -> (r: PhonotacticFlags)
        ensures
            r.spec_bits() == 64,
    {
        PhonotacticFlags(64)
    }
    /// Onsets that forbid a front vowel next (`c`, `g`, `ng`).
    pub fn onset_forbids_front() -> (r: PhonotacticFlags)
        ensures
            r.spec_bits() == 128,
    {
        PhonotacticFlags(128)
    }
    /// The labiovelar onset `qu`: no `u` may follow.
    pub fn onset_labiovelar() -> (r: PhonotacticFlags)
        ensures
            r.spec_bits() == 256,
    {
        PhonotacticFlags(256)
    }

    // ─────────────── Coda flags (bits 9..10) ───────────────
    /// Stop codas `p`, `t`, `c`, `ch`: they need an entering tone (sắc / nặng).
    pub fn coda_stop() -> (r: PhonotacticFlags)
        ensures
            r.spec_bits() == 512,
    {
        PhonotacticFlags(512)
    }
    /// Palatal codas `ch`, `nh`: only after a vowel allowing a palatal.
    pub fn coda_palatal() -> (r: PhonotacticFlags)
        ensures
            r.spec_bits() == 1024,
    {
        PhonotacticFlags(1024)
    }

    /// The raw bits.
    pub closed spec fn spec_bits(self) -> u16 {
        self.0
    }

    /// The empty set of flags.
    pub fn empty() -> (r: Self)
        ensures
            r.spec_bits() == 0,
    {
        PhonotacticFlags(0)
    }

    /// The raw `u16` value.
    pub fn bits(self) -> (r: u16)
        ensures
            r == self.spec_bits(),
    {
        self.0
    }

    /// Flags from a raw `u16` value.
    pub fn from_bits_truncate(bits: u16) -> (r: Self)
        ensures
            r.spec_bits() == bits,
    {
        PhonotacticFlags(bits)
    }

    /// Whether `self` holds every bit of `other`.
    pub fn contains(self, other: Self) -> (r: bool)
        ensures
            r == (self.spec_bits() & other.spec_bits() == other.spec_bits()),
            r == (self.spec_union(other) == self),
    {
        proof {
            Self::lemma_contains_is_absorption(self, other, PhonotacticFlags(0));
        }
        (self.0 & other.0) == other.0
    }

    /// Whether `self` and `other` share at least one bit.
    pub fn intersects(self, other: Self) -> (r: bool)
        ensures
            r == (self.spec_bits() & other.spec_bits() != 0),
    {
        (self.0 & other.0) != 0
    }

    /// Whether no bit is set.
    pub fn is_empty(self) -> (r: bool)
        ensures
            r == (self.spec_bits() == 0),
    {
        self.0 == 0
    }

    /// The union of two sets of flags.
    pub closed spec fn spec_union(self, other: Self) -> Self {
        PhonotacticFlags(self.0 | other.0)
    }

    /// Two sets of flags with the same bits are equal.
    pub proof fn lemma_bits_determine_flags(self, other: Self)
        requires
            self.spec_bits() == other.spec_bits(),
        ensures
            self == other,
    {
    }

    /// The union holds the bits of both sets, and is commutative,
    /// associative and idempotent, with the empty set as identity.
    pub proof fn lemma_union_laws(a: Self, b: Self, c: Self, empty: Self)
        requires
            empty.spec_bits() == 0,
        ensures
            a.spec_union(b).spec_bits() == a.spec_bits() | b.spec_bits(),
            a.spec_union(b) == b.spec_union(a),
            a.spec_union(b).spec_union(c) == a.spec_union(b.spec_union(c)),
            a.spec_union(empty) == a,
            a.spec_union(a) == a,
    {
        let (x, y, z) = (a.0, b.0, c.0);
        assert(x | y == y | x && (x | y) | z == x | (y | z) && x | 0u16 == x && x | x == x) by (bit_vector);
    }

    /// `a` contains `b` exactly when adding `b` to `a` changes nothing; every
    /// set contains the empty set and itself.
    pub proof fn lemma_contains_is_absorption(a: Self, b: Self, empty: Self)
        requires
            empty.spec_bits() == 0,
        ensures
            (a.spec_bits() & b.spec_bits() == b.spec_bits()) == (a.spec_union(b) == a),
            a.spec_bits() & empty.spec_bits() == empty.spec_bits(),
            a.spec_bits() & a.spec_bits() == a.spec_bits(),
    {
        let (x, y) = (a.0, b.0);
        assert((x & y == y) == (x | y == x) && x & 0u16 == 0u16 && x & x == x) by (bit_vector);
    }

    /// The union of two sets of flags.
    pub fn union(self, other: Self) -> (r: Self)
        ensures
            r.spec_bits() == self.spec_bits() | other.spec_bits(),
            r == self.spec_union(other),
    {
        PhonotacticFlags(self.0 | other.0)
    }
}

impl std::ops::BitOr for PhonotacticFlags {
    type Output = Self;

    fn bitor(self, other: Self) -> (r: Self)
        ensures
            r.spec_bits() == self.spec_bits() | other.spec_bits(),
            r == self.spec_union(other),
    {
        PhonotacticFlags(self.0 | other.0)
    }
}

impl vstd::std_specs::ops::BitOrSpecImpl for PhonotacticFlags {
    open spec fn obeys_bitor_spec() -> bool {
        true
    }

    open spec fn bitor_req(self, rhs: Self) -> bool {
        true
    }

    closed spec fn bitor_spec(self, rhs: Self) -> Self {
        self.spec_union(rhs)
    }
}

impl std::ops::BitOrAssign for PhonotacticFlags {
    fn bitor_assign(&mut self, other: Self)
        ensures
            final(self).spec_bits() == old(self).spec_bits() | other.spec_bits(),
    {
        self.0 = self.0 | other.0;
    }
}

// ─────────────── Phonological classes ───────────────

/// `k`, `gh`, `ngh`: a front vowel (`i, e, ê, y`) must follow.
pub open spec fn requires_front_vowel(onset: Onset) -> bool {
    onset == Onset::K || onset == Onset::Gh || onset == Onset::Ngh
}

/// `c`, `g`, `ng`: a front vowel may not follow.
pub open spec fn forbids_front_vowel(onset: Onset) -> bool {
    onset == Onset::C || onset == Onset::G || onset == Onset::Ng
}

/// Front vowels `i`, `y`, `e`, `ê`.
pub open spec fn is_front_vowel(v: BaseVowel) -> bool {
    v == BaseVowel::I || v == BaseVowel::Y || v == BaseVowel::E || v == BaseVowel::ECircumflex
}

/// Vowels a palatal coda may follow: the front vowels and plain `a`.
pub open spec fn allows_palatal_coda(v: BaseVowel) -> bool {
    is_front_vowel(v) || v == BaseVowel::A
}

/// Short vowels `ă`, `â`.
pub open spec fn is_short_vowel(v: BaseVowel) -> bool {
    v == BaseVowel::ABreve || v == BaseVowel::ACircumflex
}

/// Stop codas `p`, `t`, `c`, `ch`.
pub open spec fn is_stop_coda(coda: Coda) -> bool {
    coda == Coda::P || coda == Coda::T || coda == Coda::C || coda == Coda::Ch
}

/// Palatal codas `ch`, `nh`.
pub open spec fn is_palatal_coda(coda: Coda) -> bool {
    coda == Coda::Ch || coda == Coda::Nh
}

/// Entering tones sắc and nặng, the only tones a stop coda allows.
pub open spec fn is_entering_tone(tone: Tone) -> bool {
    tone == Tone::Acute || tone == Tone::Dot
}

/// The spelling verdict for a syllable: the first rule it breaks, checked in
/// this order, or `Ok(())` when it breaks none (an empty nucleus breaks none).
///
/// 1. `k/gh/ngh` need a front first vowel; `c/g/ng` forbid one.
/// 2. `qu` already carries the glide, so the first vowel may not be `u`.
/// 3. A stop coda needs an entering tone.
/// 4. A palatal coda needs a last vowel that allows it.
/// 5. A short last vowel needs a coda.
pub open spec fn spelling_verdict(onset: Onset, vowels: Seq<BaseVowel>, coda: Coda, tone: Tone) -> Result<
    (),
    ValidationError,
> {
    if vowels.len() == 0 {
        Ok(())
    } else {
        let first = vowels[0];
        let last = vowels[vowels.len() - 1];
        if requires_front_vowel(onset) && !is_front_vowel(first) {
            Err(ValidationError::MissingFrontVowel)
        } else if forbids_front_vowel(onset) && is_front_vowel(first) {
            Err(ValidationError::ForbiddenFrontVowel)
        } else if onset == Onset::Qu && first == BaseVowel::U {
            Err(ValidationError::GlideAfterQu)
        } else if is_stop_coda(coda) && !is_entering_tone(tone) {
            Err(ValidationError::EnteringToneRequired)
        } else if is_palatal_coda(coda) && !allows_palatal_coda(last) {
            Err(ValidationError::PalatalCodaVowelMismatch)
        } else if is_short_vowel(last) && coda == Coda::Empty {
            Err(ValidationError::CodaRequiredForShortVowel)
        } else {
            Ok(())
        }
    }
}

/// `k`, `gh`, `ngh` are followed by one of `i, y, e, ê`.
pub open spec fn law_front_after_k(onset: Onset, first: BaseVowel) -> bool {
    (onset == Onset::K || onset == Onset::Gh || onset == Onset::Ngh) ==> (first == BaseVowel::I
        || first == BaseVowel::Y || first == BaseVowel::E || first == BaseVowel::ECircumflex)
}

/// `c`, `g`, `ng` are followed by none of `i, y, e, ê`.
pub open spec fn law_no_front_after_c(onset: Onset, first: BaseVowel) -> bool {
    (onset == Onset::C || onset == Onset::G || onset == Onset::Ng) ==> !(first == BaseVowel::I
        || first == BaseVowel::Y || first == BaseVowel::E || first == BaseVowel::ECircumflex)
}

/// `qu` is not followed by `u`.
pub open spec fn law_no_u_after_qu(onset: Onset, first: BaseVowel) -> bool {
    onset == Onset::Qu ==> first != BaseVowel::U
}

/// A stop coda `p, t, c, ch` carries sắc or nặng.
pub open spec fn law_stop_takes_entering_tone(coda: Coda, tone: Tone) -> bool {
    (coda == Coda::P || coda == Coda::T || coda == Coda::C || coda == Coda::Ch) ==> (tone
        == Tone::Acute || tone == Tone::Dot)
}

/// A palatal coda `ch, nh` follows one of `i, y, e, ê, a`.
pub open spec fn law_palatal_after_front_or_a(coda: Coda, last: BaseVowel) -> bool {
    (coda == Coda::Ch || coda == Coda::Nh) ==> (last == BaseVowel::I || last == BaseVowel::Y
        || last == BaseVowel::E || last == BaseVowel::ECircumflex || last == BaseVowel::A)
}

/// A nucleus ending in `ă` or `â` is closed by a coda.
pub open spec fn law_short_vowel_closed(coda: Coda, last: BaseVowel) -> bool {
    (last == BaseVowel::ABreve || last == BaseVowel::ACircumflex) ==> coda != Coda::Empty
}

/// The spelling rules, checked in order: a syllable with a nonempty nucleus
/// is accepted exactly when it keeps all six, and an error names the first
/// rule it breaks. In particular a stop coda (`p, t, c, ch`) with any tone
/// but sắc or nặng is refused ("cảp"), and with sắc or nặng the tone is never
/// the reason for a refusal.
pub proof fn lemma_spelling_rules(onset: Onset, vowels: Seq<BaseVowel>, coda: Coda, tone: Tone)
    requires
        vowels.len() > 0,
    ensures
        ({
            let first = vowels[0];
            let last = vowels[vowels.len() - 1];
            let r1 = law_front_after_k(onset, first);
            let r2 = law_no_front_after_c(onset, first);
            let r3 = law_no_u_after_qu(onset, first);
            let r4 = law_stop_takes_entering_tone(coda, tone);
            let r5 = law_palatal_after_front_or_a(coda, last);
            let r6 = law_short_vowel_closed(coda, last);
            match spelling_verdict(onset, vowels, coda, tone) {
                Ok(()) => r1 && r2 && r3 && r4 && r5 && r6,
                Err(ValidationError::MissingFrontVowel) => !r1,
                Err(ValidationError::ForbiddenFrontVowel) => r1 && !r2,
                Err(ValidationError::GlideAfterQu) => r1 && r2 && !r3,
                Err(ValidationError::EnteringToneRequired) => r1 && r2 && r3 && !r4,
                Err(ValidationError::PalatalCodaVowelMismatch) => r1 && r2 && r3 && r4 && !r5,
                Err(ValidationError::CodaRequiredForShortVowel) => r1 && r2 && r3 && r4 && r5
                    && !r6,
            }
        }),
        (coda == Coda::P || coda == Coda::T || coda == Coda::C || coda == Coda::Ch) && !(tone
            == Tone::Acute || tone == Tone::Dot) ==> spelling_verdict(onset, vowels, coda, tone) is Err,
{
}

/// An empty nucleus breaks no spelling rule.
pub proof fn lemma_empty_nucleus_accepted(onset: Onset, coda: Coda, tone: Tone)
    ensures
        spelling_verdict(onset, Seq::<BaseVowel>::empty(), coda, tone) == Ok::<(), ValidationError>(()),
{
}

// ─────────────── Flag tables ───────────────

/// The flag bits of a vowel.
pub open spec fn vowel_flag_bits(v: BaseVowel) -> u16 {
    match v {
        // i, e, ê, y: front, and a palatal coda may follow.
        BaseVowel::I | BaseVowel::E | BaseVowel::ECircumflex | BaseVowel::Y => 1u16 | 4u16,
        // a: the a line, and a palatal coda may follow.
        BaseVowel::A => 32u16 | 4u16,
        // ă, â: the a line, short.
        BaseVowel::ABreve | BaseVowel::ACircumflex => 32u16 | 2u16,
        // u: rounded, and no u after qu.
        BaseVowel::U => 16u16 | 8u16,
        // o, ô: rounded.
        BaseVowel::O | BaseVowel::OCircumflex => 16,
        // ư, ơ: no flag.
        BaseVowel::UHorn | BaseVowel::OHorn => 0,
    }
}

/// The flag bits of an onset.
pub open spec fn onset_flag_bits(onset: Onset) -> u16 {
    if requires_front_vowel(onset) {
        64
    } else if forbids_front_vowel(onset) {
        128
    } else if onset == Onset::Qu {
        256
    } else {
        0
    }
}

/// The flag bits of a coda.
pub open spec fn coda_flag_bits(coda: Coda) -> u16 {
    match coda {
        Coda::P | Coda::T | Coda::C => 512,
        Coda::Ch => 512u16 | 1024u16,
        Coda::Nh => 1024,
        _ => 0,
    }
}

/// The union of the flag bits of a sequence of vowels.
pub open spec fn vowels_flag_bits(vowels: Seq<BaseVowel>) -> u16
    decreases vowels.len(),
{
    if vowels.len() == 0 {
        0
    } else {
        vowels_flag_bits(vowels.drop_last()) | vowel_flag_bits(vowels.last())
    }
}

/// The bit tests the validator runs, on every flag value it can meet.
proof fn lemma_flag_tests()
    by (bit_vector)
    ensures
        (1u16 | 4u16) == 5u16,
        (32u16 | 4u16) == 36u16,
        (32u16 | 2u16) == 34u16,
        (16u16 | 8u16) == 24u16,
        (512u16 | 1024u16) == 1536u16,
        // front
        5u16 & 1u16 != 0u16,
        36u16 & 1u16 == 0u16,
        34u16 & 1u16 == 0u16,
        24u16 & 1u16 == 0u16,
        16u16 & 1u16 == 0u16,
        0u16 & 1u16 == 0u16,
        // allows palatal
        5u16 & 4u16 != 0u16,
        36u16 & 4u16 != 0u16,
        34u16 & 4u16 == 0u16,
        24u16 & 4u16 == 0u16,
        16u16 & 4u16 == 0u16,
        0u16 & 4u16 == 0u16,
        // u
        5u16 & 8u16 == 0u16,
        36u16 & 8u16 == 0u16,
        34u16 & 8u16 == 0u16,
        24u16 & 8u16 != 0u16,
        16u16 & 8u16 == 0u16,
        0u16 & 8u16 == 0u16,
        // short
        5u16 & 2u16 == 0u16,
        36u16 & 2u16 == 0u16,
        34u16 & 2u16 != 0u16,
        24u16 & 2u16 == 0u16,
        16u16 & 2u16 == 0u16,
        0u16 & 2u16 == 0u16,
        // onsets
        64u16 & 64u16 != 0u16,
        128u16 & 64u16 == 0u16,
        256u16 & 64u16 == 0u16,
        0u16 & 64u16 == 0u16,
        64u16 & 128u16 == 0u16,
        128u16 & 128u16 != 0u16,
        256u16 & 128u16 == 0u16,
        0u16 & 128u16 == 0u16,
        64u16 & 256u16 == 0u16,
        128u16 & 256u16 == 0u16,
        256u16 & 256u16 != 0u16,
        0u16 & 256u16 == 0u16,
        // codas
        512u16 & 512u16 != 0u16,
        1536u16 & 512u16 != 0u16,
        1024u16 & 512u16 == 0u16,
        0u16 & 512u16 == 0u16,
        512u16 & 1024u16 == 0u16,
        1536u16 & 1024u16 != 0u16,
        1024u16 & 1024u16 != 0u16,
        0u16 & 1024u16 == 0u16,
{
}

impl Onset {
    /// The spelling constraints an onset puts on the vowel after it.
    pub fn phonotactic_flags(self) -> (r: PhonotacticFlags)
        ensures
            r.spec_bits() == onset_flag_bits(self),
    {
        match self {
            // k, gh, ngh: a front vowel must follow.
            Onset::K | Onset::Gh | Onset::Ngh => PhonotacticFlags::onset_requires_front(),
            // c, g, ng: a front vowel may not follow.
            Onset::C | Onset::G | Onset::Ng => PhonotacticFlags::onset_forbids_front(),
            // qu: no u may follow.
            Onset::Qu => PhonotacticFlags::onset_labiovelar(),
            _ => PhonotacticFlags::empty(),
        }
    }
}

impl Coda {
    /// The spelling constraints a coda puts on the tone and the last vowel.
    pub fn phonotactic_flags(self) -> (r: PhonotacticFlags)
        ensures
            r.spec_bits() == coda_flag_bits(self),
    {
        proof {
            lemma_flag_tests();
        }
        match self {
            // p, t, c: stops (need sắc / nặng).
            Coda::P | Coda::T | Coda::C => PhonotacticFlags::coda_stop(),
            // ch: both a stop and a palatal.
            Coda::Ch => PhonotacticFlags::coda_stop().union(PhonotacticFlags::coda_palatal()),
            // nh: palatal.
            Coda::Nh => PhonotacticFlags::coda_palatal(),
            _ => PhonotacticFlags::empty(),
        }
    }
}

impl Tone {
    /// Whether the tone is an entering tone (sắc / nặng), the only tones a
    /// stop coda (`p, t, c, ch`) allows.
    pub fn allows_stop_coda(self) -> (r: bool)
        ensures
            r == is_entering_tone(self),
    {
        matches!(self, Tone::Acute | Tone::Dot)
    }
}

impl BaseVowel {
    /// The phonotactic attributes of a vowel.
    pub fn phonotactic_flags(self) -> (r: PhonotacticFlags)
        ensures
            r.spec_bits() == vowel_flag_bits(self),
    {
        proof {
            lemma_flag_tests();
        }
        match self {
            BaseVowel::I | BaseVowel::E | BaseVowel::ECircumflex | BaseVowel::Y => {
                PhonotacticFlags::vowel_front().union(PhonotacticFlags::vowel_allows_palatal())
            },
            BaseVowel::A => PhonotacticFlags::vowel_a().union(PhonotacticFlags::vowel_allows_palatal()),
            BaseVowel::ABreve | BaseVowel::ACircumflex => {
                PhonotacticFlags::vowel_a().union(PhonotacticFlags::vowel_short())
            },
            BaseVowel::U => PhonotacticFlags::vowel_round().union(PhonotacticFlags::vowel_u()),
            BaseVowel::O | BaseVowel::OCircumflex => PhonotacticFlags::vowel_round(),
            BaseVowel::UHorn | BaseVowel::OHorn => PhonotacticFlags::empty(),
        }
    }
}

/// The union of the flags of the first (at most three) vowels of a nucleus.
pub fn nucleus_flags(vowels: &[BaseVowel]) -> (r: PhonotacticFlags)
    ensures
        r.spec_bits() == vowels_flag_bits(vowels@.take(if vowels.len() > 3 { 3 } else { vowels.len() as int })),
{
    let mut bits: u16 = 0;
    let len = if vowels.len() > 3 {
        3
    } else {
        vowels.len()
    };
    let mut i: usize = 0;
    while i < len
        invariant
            i <= len,
            len <= vowels.len(),
            bits == vowels_flag_bits(vowels@.take(i as int)),
        decreases len - i,
    {
        assert(vowels@.take(i + 1).drop_last() =~= vowels@.take(i as int));
        bits = bits | vowels[i].phonotactic_flags().bits();
        i += 1;
    }
    PhonotacticFlags(bits)
}

/// [`nucleus_flags`] over cased vowels, as held while the user types.
pub fn cased_nucleus_flags(vowels: &[CasedBaseVowel]) -> (r: PhonotacticFlags)
    ensures
        r.spec_bits() == vowels_flag_bits(
            vowels@.take(if vowels.len() > 3 { 3 } else { vowels.len() as int }).map_values(
                |v: CasedBaseVowel| v.spec_value(),
            ),
        ),
{
    let mut bits: u16 = 0;
    let len = if vowels.len() > 3 {
        3
    } else {
        vowels.len()
    };
    let mut i: usize = 0;
    while i < len
        invariant
            i <= len,
            len <= vowels.len(),
            bits == vowels_flag_bits(
                vowels@.take(i as int).map_values(|v: CasedBaseVowel| v.spec_value()),
            ),
        decreases len - i,
    {
        assert(vowels@.take(i + 1).map_values(|v: CasedBaseVowel| v.spec_value()).drop_last()
            =~= vowels@.take(i as int).map_values(|v: CasedBaseVowel| v.spec_value()));
        bits = bits | vowels[i].value().phonotactic_flags().bits();
        i += 1;
    }
    PhonotacticFlags(bits)
}

/// The spelling errors a syllable can have.
#[derive(Debug, Clone, Copy, PartialEq, Eq, Structural)]
#[non_exhaustive]
pub enum ValidationError {
    /// `k/gh/ngh` before a vowel that is not front (`i, e, ê, y`).
    MissingFrontVowel,
    /// `c/g/ng` before a front vowel (`i, e, ê, y`).
    ForbiddenFrontVowel,
    /// `qu` right before the vowel `u` (a doubled glide, `quu`).
    GlideAfterQu,
    /// A stop coda (`p, t, c, ch`) without sắc or nặng.
    EnteringToneRequired,
    /// A palatal coda (`ch, nh`) after a vowel other than `i, e, ê, y, a`.
    PalatalCodaVowelMismatch,
    /// A short vowel (`ă, â`) ending an open syllable.
    CodaRequiredForShortVowel,
}

/// Checks the spelling of a syllable.
pub trait PhonotacticValidator {
    /// Checks the spelling of a syllable with bitmask tests on the flags of
    /// its first and last vowels, its onset and its coda.
    fn validate(&self, onset: Onset, vowels: &[BaseVowel], coda: Coda, tone: Tone) -> Result<
        (),
        ValidationError,
    >;
}

/// The standard Vietnamese spelling rules.
#[derive(Debug, Clone, Copy, Default)]
pub struct DefaultPhonotacticValidator;

impl PhonotacticValidator for DefaultPhonotacticValidator {
    fn validate(&self, onset: Onset, vowels: &[BaseVowel], coda: Coda, tone: Tone) -> (r: Result<
        (),
        ValidationError,
    >)
        ensures
            r == spelling_verdict(onset, vowels@, coda, tone),
    {
        proof {
            lemma_flag_tests();
        }
        if vowels.len() == 0 {
            return Ok(());
        }
        // Flags of the first and last vowels of the nucleus.
        let first_flags = vowels[0].phonotactic_flags();
        let last_flags = vowels[vowels.len() - 1].phonotactic_flags();
        let o_flags = onset.phonotactic_flags();

        // Rule 1: k, gh, ngh need a front first vowel; c, g, ng forbid one.
        if o_flags.intersects(PhonotacticFlags::onset_requires_front()) && !first_flags.intersects(
            PhonotacticFlags::vowel_front(),
        ) {
            return Err(ValidationError::MissingFrontVowel);
        }
        if o_flags.intersects(PhonotacticFlags::onset_forbids_front()) && first_flags.intersects(
            PhonotacticFlags::vowel_front(),
        ) {
            return Err(ValidationError::ForbiddenFrontVowel);
        }
        // Rule 2: qu already carries the glide u.
        if o_flags.intersects(PhonotacticFlags::onset_labiovelar()) && first_flags.intersects(
            PhonotacticFlags::vowel_u(),
        ) {
            return Err(ValidationError::GlideAfterQu);
        }
        let c_flags = coda.phonotactic_flags();
        // Rule 3: a stop coda needs sắc or nặng.
        if c_flags.intersects(PhonotacticFlags::coda_stop()) && !tone.allows_stop_coda() {
            return Err(ValidationError::EnteringToneRequired);
        }
        // Rule 4: ch, nh only after i, e, ê, y or plain a.
        if c_flags.intersects(PhonotacticFlags::coda_palatal()) && !last_flags.intersects(
            PhonotacticFlags::vowel_allows_palatal(),
        ) {
            return Err(ValidationError::PalatalCodaVowelMismatch);
        }
        // Rule 5: ă, â need a closing coda.
        if last_flags.intersects(PhonotacticFlags::vowel_short()) && coda.is_none() {
            return Err(ValidationError::CodaRequiredForShortVowel);
        }
        Ok(())
    }
}

} // verus!
