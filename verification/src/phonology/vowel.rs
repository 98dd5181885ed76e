//! Vietnamese vowel codec: the 12 base vowels, their diacritic shapes, tones,
//! case, and the precomposed-character encode/decode pair
//! ([`encode_vowel`] / [`decode_vowel`]).
//!
//! [`BaseVowel`] packs `(Priority ID | Shape | Root)` into a `u16` layout
//! ([`BaseVowel::bits`]); [`ExtendedBaseVowel`] wraps it with a case flag and
//! reserved extension bits. [`decode_vowel`] splits a precomposed character
//! back into those parts.
use vstd::prelude::*;

verus! {

/// Base ASCII vowel letter independent of shape, tone, and case.
#[derive(Debug, Clone, Copy, PartialEq, Eq, Hash, Structural)]
pub enum RootVowel {
    A,
    E,
    I,
    O,
    U,
    Y,
}

impl RootVowel {
    /// Value of the root field (`0..=5`) in the packed [`BaseVowel`] layout.
    pub open spec fn code(self) -> u16 {
        match self {
            RootVowel::A => 0,
            RootVowel::E => 1,
            RootVowel::I => 2,
            RootVowel::O => 3,
            RootVowel::U => 4,
            RootVowel::Y => 5,
        }
    }

    fn field(self) -> (r: u16)
        ensures
            r == self.code(),
    {
        match self {
            RootVowel::A => 0,
            RootVowel::E => 1,
            RootVowel::I => 2,
            RootVowel::O => 3,
            RootVowel::U => 4,
            RootVowel::Y => 5,
        }
    }
}

/// A diacritic shape that attaches to a base vowel.
#[derive(Debug, Clone, Copy, PartialEq, Eq, Hash, Default, Structural)]
pub enum Shape {
    /// No diacritic.
    #[default]
    Plain,
    /// The circumflex `^` (â, ô, ê).
    Circumflex,
    /// The breve `˘` (ă).
    Breve,
    /// The horn (ư, ơ).
    Horn,
}

impl Shape {
    /// Value of the shape field (`0..=3`) in the packed [`BaseVowel`] layout.
    pub open spec fn code(self) -> u16 {
        match self {
            Shape::Plain => 0,
            Shape::Circumflex => 1,
            Shape::Breve => 2,
            Shape::Horn => 3,
        }
    }

    pub(crate) fn field(self) -> (r: u16)
        ensures
            r == self.code(),
    {
        match self {
            Shape::Plain => 0,
            Shape::Circumflex => 1,
            Shape::Breve => 2,
            Shape::Horn => 3,
        }
    }

    /// Returns `true` if the shape is a real diacritic (Horn, Circumflex,
    /// Breve) rather than `None`.
    pub fn is_some(self) -> (r: bool)
        ensures
            r == (self != Shape::Plain),
    {
        !matches!(self, Shape::Plain)
    }
}

/// A Vietnamese lexical tone applied to the vowel.
#[derive(Debug, Clone, Copy, PartialEq, Eq, Hash, Default, Structural)]
pub enum Tone {
    #[default]
    Flat,
    Acute,
    Grave,
    Hook,
    Tilde,
    Dot,
}

impl Tone {
    /// The tone's id (`0..=5`), in declaration order.
    pub open spec fn code(self) -> nat {
        match self {
            Tone::Flat => 0,
            Tone::Acute => 1,
            Tone::Grave => 2,
            Tone::Hook => 3,
            Tone::Tilde => 4,
            Tone::Dot => 5,
        }
    }

    pub(crate) fn id(self) -> (r: usize)
        ensures
            r == self.code(),
    {
        match self {
            Tone::Flat => 0,
            Tone::Acute => 1,
            Tone::Grave => 2,
            Tone::Hook => 3,
            Tone::Tilde => 4,
            Tone::Dot => 5,
        }
    }

    /// The tone with the given id; out-of-range ids map to [`Tone::Flat`]
    /// instead of panicking.
    pub fn from_id(id: usize) -> (r: Self)
        ensures
            id <= 5 ==> r.code() == id,
            id > 5 ==> r == Tone::Flat,
    {
        match id {
            1 => Tone::Acute,
            2 => Tone::Grave,
            3 => Tone::Hook,
            4 => Tone::Tilde,
            5 => Tone::Dot,
            _ => Tone::Flat,
        }
    }

    pub fn is_some(self) -> (r: bool)
        ensures
            r == (self != Tone::Flat),
    {
        !matches!(self, Tone::Flat)
    }
}

/// Letter case of a vowel (affects the rendered character).
#[derive(Clone, Copy, Debug, PartialEq, Eq, Hash, Structural)]
pub enum Case {
    Lower,
    Upper,
}

/// The 12 base vowels of Vietnamese, declared in tone-placement priority order.
///
/// # Bit layout ([`BaseVowel::bits`], a `u16`)
/// `[7 bits Reserved | 4 bits Priority ID | 2 bits Shape | 3 bits Root]`
///
/// - **Bits 5..=8**: tone priority ID (`0..=11`); higher means higher priority.
/// - **Bits 3..=4**: [`Shape`] (`0..=3`).
/// - **Bits 0..=2**: [`RootVowel`] (`0..=5`).
#[derive(Clone, Copy, Debug, PartialEq, Eq, Hash, Ord, Structural)]
pub enum BaseVowel {
    // Priority 0..=2: closed vowels (lowest).
    Y,
    U,
    I,
    // Priority 3..=5: open plain vowels (e, o, a).
    E,
    O,
    A,
    // Priority 6..=9: vowels with a diacritic (ư, â, ô, ă).
    UHorn,
    ACircumflex,
    OCircumflex,
    ABreve,
    // Priority 10..=11: highest (ê, ơ); the tone always lands on ơ / ê.
    ECircumflex,
    OHorn,
}

/// The packed layout of a priority id, shape and root: each field can be read
/// back from the packed value, and the value fits below bit 9.
pub proof fn lemma_layout_fields(id: u16, shape: u16, root: u16)
    by (bit_vector)
    requires
        id < 16,
        shape < 4,
        root < 8,
    ensures
        ((id << 5u16) | (shape << 3u16) | root) >> 5u16 == id,
        (((id << 5u16) | (shape << 3u16) | root) >> 3u16) & 3u16 == shape,
        ((id << 5u16) | (shape << 3u16) | root) & 7u16 == root,
        ((((id << 5u16) | (shape << 3u16) | root) & 0x18u16) != 0u16) == (shape != 0u16),
        ((id << 5u16) | (shape << 3u16) | root) < 512u16,
{
}

impl BaseVowel {
    pub const COUNT: usize = 12;

    // ── field widths ──
    /// Width of the [`RootVowel`] field: 3 bits cover `RootVowel::A..=Y` (0..=5).
    pub const ROOT_WIDTH: u32 = 3;
    /// Width of the [`Shape`] field: 2 bits cover `Shape::Plain..=Horn` (0..=3).
    pub const SHAPE_WIDTH: u32 = 2;
    /// Width of the priority id field.
    pub const ID_WIDTH: u32 = 4;

    // ── field shifts ──
    /// Shift of the [`Shape`] field (directly above the root field).
    pub const SHAPE_OFFSET: u32 = 3;
    /// Shift of the priority id field (directly above the shape field).
    pub const ID_OFFSET: u32 = 5;
    /// First bit available after the packed base-vowel fields.
    pub const NEXT_OFFSET: u32 = 9;

    // ── field masks ──
    /// Bitmask for the [`RootVowel`] field.
    pub const ROOT_MASK: u16 = 7;
    /// Bitmask for the [`Shape`] field.
    pub const SHAPE_MASK: u16 = 3;
    /// Fully positioned mask for the [`Shape`] field (`0b11000` / `0x18`).
    pub const SHAPE_MASK_FULL: u16 = 0x18;

    /// Tone-placement priority id (`0..=11`); higher = higher priority.
    pub open spec fn spec_id(self) -> nat {
        match self {
            BaseVowel::Y => 0,
            BaseVowel::U => 1,
            BaseVowel::I => 2,
            BaseVowel::E => 3,
            BaseVowel::O => 4,
            BaseVowel::A => 5,
            BaseVowel::UHorn => 6,
            BaseVowel::ACircumflex => 7,
            BaseVowel::OCircumflex => 8,
            BaseVowel::ABreve => 9,
            BaseVowel::ECircumflex => 10,
            BaseVowel::OHorn => 11,
        }
    }

    /// The root letter of the vowel.
    pub open spec fn spec_root(self) -> RootVowel {
        match self {
            BaseVowel::Y => RootVowel::Y,
            BaseVowel::U | BaseVowel::UHorn => RootVowel::U,
            BaseVowel::I => RootVowel::I,
            BaseVowel::E | BaseVowel::ECircumflex => RootVowel::E,
            BaseVowel::O | BaseVowel::OCircumflex | BaseVowel::OHorn => RootVowel::O,
            BaseVowel::A | BaseVowel::ACircumflex | BaseVowel::ABreve => RootVowel::A,
        }
    }

    /// The diacritic shape of the vowel.
    pub open spec fn spec_shape(self) -> Shape {
        match self {
            BaseVowel::UHorn | BaseVowel::OHorn => Shape::Horn,
            BaseVowel::ACircumflex | BaseVowel::OCircumflex | BaseVowel::ECircumflex => {
                Shape::Circumflex
            },
            BaseVowel::ABreve => Shape::Breve,
            _ => Shape::Plain,
        }
    }

    /// The packed `(priority id | shape | root)` value.
    pub open spec fn spec_bits(self) -> u16 {
        ((self.spec_id() as u16) << 5u16) | (self.spec_shape().code() << 3u16)
            | self.spec_root().code()
    }

    /// The fields of the packed value read back as the vowel's own fields.
    pub proof fn lemma_bits(self)
        ensures
            self.spec_bits() >> 5u16 == self.spec_id(),
            (self.spec_bits() >> 3u16) & 3u16 == self.spec_shape().code(),
            self.spec_bits() & 7u16 == self.spec_root().code(),
            ((self.spec_bits() & 0x18u16) != 0u16) == (self.spec_shape() != Shape::Plain),
            self.spec_bits() < 512u16,
    {
        lemma_layout_fields(self.spec_id() as u16, self.spec_shape().code(), self.spec_root().code());
    }

    /// A vowel is determined by its root and shape: [`BaseVowel::from_parts`]
    /// of a vowel's own root and shape gives back that vowel.
    pub proof fn lemma_fields_determine_vowel(self, other: BaseVowel)
        requires
            self.spec_root() == other.spec_root(),
            self.spec_shape() == other.spec_shape(),
        ensures
            self == other,
    {
    }

    /// Shaped vowels (ư, â, ô, ă, ê, ơ) have higher tone-placement priority
    /// than the plain ones: exactly the plain vowels have ids `0..=5`.
    pub proof fn lemma_shaped_priority(self)
        ensures
            (self.spec_shape() == Shape::Plain) == (self.spec_id() <= 5),
    {
    }

    /// Two vowels with the same packed value are the same vowel.
    pub proof fn lemma_bits_injective(self, other: BaseVowel)
        requires
            self.spec_bits() == other.spec_bits(),
        ensures
            self == other,
    {
        self.lemma_bits();
        other.lemma_bits();
    }

    fn priority(self) -> (r: u16)
        ensures
            r == self.spec_id(),
    {
        match self {
            BaseVowel::Y => 0,
            BaseVowel::U => 1,
            BaseVowel::I => 2,
            BaseVowel::E => 3,
            BaseVowel::O => 4,
            BaseVowel::A => 5,
            BaseVowel::UHorn => 6,
            BaseVowel::ACircumflex => 7,
            BaseVowel::OCircumflex => 8,
            BaseVowel::ABreve => 9,
            BaseVowel::ECircumflex => 10,
            BaseVowel::OHorn => 11,
        }
    }

    /// The packed `(priority id | shape | root)` value of this vowel.
    pub fn bits(self) -> (r: u16)
        ensures
            r == self.spec_bits(),
            r < 512,
    {
        proof {
            self.lemma_bits();
        }
        (self.priority() << 5u16) | (self.shape_of_variant().field() << 3u16)
            | self.root_of_variant().field()
    }

    fn shape_of_variant(self) -> (r: Shape)
        ensures
            r == self.spec_shape(),
    {
        match self {
            BaseVowel::UHorn | BaseVowel::OHorn => Shape::Horn,
            BaseVowel::ACircumflex | BaseVowel::OCircumflex | BaseVowel::ECircumflex => {
                Shape::Circumflex
            },
            BaseVowel::ABreve => Shape::Breve,
            _ => Shape::Plain,
        }
    }

    fn root_of_variant(self) -> (r: RootVowel)
        ensures
            r == self.spec_root(),
    {
        match self {
            BaseVowel::Y => RootVowel::Y,
            BaseVowel::U | BaseVowel::UHorn => RootVowel::U,
            BaseVowel::I => RootVowel::I,
            BaseVowel::E | BaseVowel::ECircumflex => RootVowel::E,
            BaseVowel::O | BaseVowel::OCircumflex | BaseVowel::OHorn => RootVowel::O,
            BaseVowel::A | BaseVowel::ACircumflex | BaseVowel::ABreve => RootVowel::A,
        }
    }

    /// Returns the tone-placement priority id (`0..=11`); higher = higher priority.
    pub fn id(self) -> (r: usize)
        ensures
            r == self.spec_id(),
            r < 12,
    {
        proof {
            self.lemma_bits();
        }
        (self.bits() >> 5u16) as usize
    }

    /// Returns the base vowel for the given priority id, or `Err` if out of range.
    pub fn from_id(id: usize) -> (r: Result<Self, ()>)
        ensures
            match r {
                Ok(v) => id < 12 && v.spec_id() == id,
                Err(_) => id >= 12,
            },
    {
        if id < Self::COUNT {
            Ok(Self::from_id_unchecked(id))
        } else {
            Err(())
        }
    }

    /// Returns the base vowel for a priority id known to be in range.
    pub fn from_id_unchecked(id: usize) -> (r: Self)
        requires
            id < 12,
        ensures
            r.spec_id() == id,
    {
        // All base vowels in priority-id order; the index equals the priority id.
        let variants_by_id: [BaseVowel; 12] = [
            BaseVowel::Y,
            BaseVowel::U,
            BaseVowel::I,
            BaseVowel::E,
            BaseVowel::O,
            BaseVowel::A,
            BaseVowel::UHorn,
            BaseVowel::ACircumflex,
            BaseVowel::OCircumflex,
            BaseVowel::ABreve,
            BaseVowel::ECircumflex,
            BaseVowel::OHorn,
        ];
        variants_by_id[id]
    }

    /// The [`BaseVowel`] for a root letter and shape, or `Err` for a
    /// combination Vietnamese has no letter for.
    pub fn from_parts(root: RootVowel, shape: Shape) -> (r: Result<Self, ()>)
        ensures
            match r {
                Ok(v) => v.spec_root() == root && v.spec_shape() == shape,
                Err(_) => forall|v: BaseVowel|
                    !(#[trigger] v.spec_root() == root && v.spec_shape() == shape),
            },
    {
        match (root, shape) {
            (RootVowel::O, Shape::Plain) => Ok(BaseVowel::O),
            (RootVowel::O, Shape::Horn) => Ok(BaseVowel::OHorn),
            (RootVowel::O, Shape::Circumflex) => Ok(BaseVowel::OCircumflex),
            (RootVowel::E, Shape::Plain) => Ok(BaseVowel::E),
            (RootVowel::E, Shape::Circumflex) => Ok(BaseVowel::ECircumflex),
            (RootVowel::A, Shape::Plain) => Ok(BaseVowel::A),
            (RootVowel::A, Shape::Breve) => Ok(BaseVowel::ABreve),
            (RootVowel::A, Shape::Circumflex) => Ok(BaseVowel::ACircumflex),
            (RootVowel::U, Shape::Plain) => Ok(BaseVowel::U),
            (RootVowel::U, Shape::Horn) => Ok(BaseVowel::UHorn),
            (RootVowel::I, Shape::Plain) => Ok(BaseVowel::I),
            (RootVowel::Y, Shape::Plain) => Ok(BaseVowel::Y),
            _ => Err(()),
        }
    }

    /// Returns the base vowel with the given root and no shape.
    pub fn from_root(root: RootVowel) -> (r: Self)
        ensures
            r.spec_root() == root,
            r.spec_shape() == Shape::Plain,
    {
        match root {
            RootVowel::A => BaseVowel::A,
            RootVowel::E => BaseVowel::E,
            RootVowel::I => BaseVowel::I,
            RootVowel::O => BaseVowel::O,
            RootVowel::U => BaseVowel::U,
            RootVowel::Y => BaseVowel::Y,
        }
    }

    /// Returns the [`Shape`] component of this vowel, read from the packed layout.
    pub fn shape(self) -> (r: Shape)
        ensures
            r == self.spec_shape(),
    {
        proof {
            self.lemma_bits();
        }
        let raw = (self.bits() >> 3u16) & Self::SHAPE_MASK;
        match raw {
            0 => Shape::Plain,
            1 => Shape::Circumflex,
            2 => Shape::Breve,
            _ => Shape::Horn,
        }
    }

    /// Whether this vowel carries the given shape.
    pub fn has_shape(self, shape: Shape) -> (r: bool)
        ensures
            r == (self.spec_shape() == shape),
    {
        self.shape() == shape
    }

    /// Returns `true` when this vowel has a structural diacritic shape (ă, â, ê, ô, ơ, ư).
    pub fn is_shaped(self) -> (r: bool)
        ensures
            r == (self.spec_shape() != Shape::Plain),
    {
        proof {
            self.lemma_bits();
        }
        (self.bits() & Self::SHAPE_MASK_FULL) != 0
    }

    /// Returns `true` when this vowel has no structural shape.
    pub fn is_plain(self) -> (r: bool)
        ensures
            r == (self.spec_shape() == Shape::Plain),
    {
        !self.is_shaped()
    }

    /// Returns the [`RootVowel`] component of this vowel, read from the packed layout.
    pub fn root(self) -> (r: RootVowel)
        ensures
            r == self.spec_root(),
    {
        proof {
            self.lemma_bits();
        }
        let raw = self.bits() & Self::ROOT_MASK;
        match raw {
            0 => RootVowel::A,
            1 => RootVowel::E,
            2 => RootVowel::I,
            3 => RootVowel::O,
            4 => RootVowel::U,
            _ => RootVowel::Y,
        }
    }

    /// Keeps the root vowel but swaps the shape for a new one (e.g. ă → â).
    ///
    /// Returns the canonical [`BaseVowel`] for the root and shape; `Err` when
    /// Vietnamese has no letter for that combination (e.g. `A` + [`Shape::Horn`]).
    pub fn replace_shape(self, shape: Shape) -> (r: Result<Self, ()>)
        ensures
            match r {
                Ok(v) => v.spec_root() == self.spec_root() && v.spec_shape() == shape,
                Err(_) => forall|v: BaseVowel|
                    !(#[trigger] v.spec_root() == self.spec_root() && v.spec_shape() == shape),
            },
    {
        Self::from_parts(self.root(), shape)
    }

    /// Returns the vowel with the shape removed (shape becomes [`Shape::Plain`]).
    pub fn remove_shape(self) -> (r: Self)
        ensures
            r.spec_root() == self.spec_root(),
            r.spec_shape() == Shape::Plain,
    {
        match self {
            BaseVowel::OHorn | BaseVowel::OCircumflex => BaseVowel::O,
            BaseVowel::ACircumflex | BaseVowel::ABreve => BaseVowel::A,
            BaseVowel::ECircumflex => BaseVowel::E,
            BaseVowel::UHorn => BaseVowel::U,
            _ => self,
        }
    }
}

/// Facts about the low bits of an [`ExtendedBaseVowel`] when a base value,
/// the case bit and the reserved bits are combined or replaced.
proof fn lemma_extended_bits(x: u16, v: u16)
    by (bit_vector)
    requires
        v < 512,
    ensures
        v & 0x1FFu16 == v,
        v & 0x200u16 == 0u16,
        v >> 10u16 == 0u16,
        (v | 0x200u16) & 0x1FFu16 == v,
        (v | 0x200u16) & 0x200u16 != 0u16,
        (v | 0x200u16) >> 10u16 == 0u16,
        ((x & !0x1FFu16) | v) & 0x1FFu16 == v,
        ((x & !0x1FFu16) | v) & 0x200u16 == x & 0x200u16,
        ((x & !0x1FFu16) | v) >> 10u16 == x >> 10u16,
        ((x & !0x200u16) | 0x200u16) & 0x1FFu16 == x & 0x1FFu16,
        ((x & !0x200u16) | 0x200u16) & 0x200u16 != 0u16,
        ((x & !0x200u16) | 0x200u16) >> 10u16 == x >> 10u16,
        ((x & !0x200u16) | 0u16) & 0x1FFu16 == x & 0x1FFu16,
        ((x & !0x200u16) | 0u16) & 0x200u16 == 0u16,
        ((x & !0x200u16) | 0u16) >> 10u16 == x >> 10u16,
{
}

/// A [`BaseVowel`] together with a case flag and reserved extension bits,
/// packed in a `u16`: bits `0..=8` hold [`BaseVowel::bits`], bit 9 is the
/// case flag (upper), bits `10..=15` are reserved for future flags.
#[derive(Clone, Copy, Debug, PartialEq, Eq, Hash, Structural)]
pub struct ExtendedBaseVowel(u16);

impl ExtendedBaseVowel {
    /// Mask of the base-vowel bits (`0..=8`).
    pub const BASE_MASK: u16 = 0x1FF;
    /// Position of the case flag.
    pub const CASE_OFFSET: u32 = 9;
    /// Mask of the case flag.
    pub const CASE_MASK: u16 = 0x200;

    /// The base bits always hold a valid [`BaseVowel`].
    #[verifier::type_invariant]
    pub closed spec fn holds_base(self) -> bool {
        exists|b: BaseVowel| #[trigger] b.spec_bits() == self.0 & 0x1FFu16
    }

    /// Two values with the same base vowel, case flag and reserved bits are
    /// equal.
    pub proof fn lemma_parts_determine_value(self, other: Self)
        requires
            self.holds_base(),
            other.holds_base(),
            self.base() == other.base(),
            self.spec_upper() == other.spec_upper(),
            self.reserved() == other.reserved(),
        ensures
            self == other,
    {
        let b1 = choose|b: BaseVowel| #[trigger] b.spec_bits() == self.0 & 0x1FFu16;
        let b2 = choose|b: BaseVowel| #[trigger] b.spec_bits() == other.0 & 0x1FFu16;
        self.lemma_base_of(b1);
        other.lemma_base_of(b2);
        let x = self.0;
        let y = other.0;
        assert(x == y) by (bit_vector)
            requires
                x & 0x1FFu16 == y & 0x1FFu16,
                (x & 0x200u16 != 0u16) == (y & 0x200u16 != 0u16),
                x >> 10u16 == y >> 10u16,
        ;
    }

    /// The packed value.
    pub closed spec fn spec_raw(self) -> u16 {
        self.0
    }

    /// The base vowel held in bits `0..=8`.
    pub closed spec fn base(self) -> BaseVowel {
        choose|b: BaseVowel| #[trigger] b.spec_bits() == self.0 & 0x1FFu16
    }

    /// The case flag (bit 9).
    pub closed spec fn spec_upper(self) -> bool {
        self.0 & 0x200u16 != 0u16
    }

    /// The reserved extension bits (`10..=15`).
    pub closed spec fn reserved(self) -> u16 {
        self.0 >> 10u16
    }

    proof fn lemma_base_of(self, b: BaseVowel)
        requires
            b.spec_bits() == self.0 & 0x1FFu16,
        ensures
            self.base() == b,
    {
        let c = self.base();
        assert(c.spec_bits() == self.0 & 0x1FFu16);
        c.lemma_bits_injective(b);
    }

    /// Builds an [`ExtendedBaseVowel`] carrying only the base value; the case
    /// bit is left clear.
    pub fn new(value: BaseVowel) -> (r: Self)
        ensures
            r.base() == value,
            !r.spec_upper(),
            r.reserved() == 0,
    {
        Self::lower(value)
    }

    /// Builds a lowercase [`ExtendedBaseVowel`].
    pub fn lower(value: BaseVowel) -> (r: Self)
        ensures
            r.base() == value,
            !r.spec_upper(),
            r.reserved() == 0,
    {
        let bits = value.bits();
        proof {
            lemma_extended_bits(0, bits);
        }
        let r = ExtendedBaseVowel(bits);
        proof {
            r.lemma_base_of(value);
        }
        r
    }

    /// Builds an uppercase [`ExtendedBaseVowel`] by setting the case bit.
    pub fn upper(value: BaseVowel) -> (r: Self)
        ensures
            r.base() == value,
            r.spec_upper(),
            r.reserved() == 0,
    {
        let bits = value.bits();
        proof {
            lemma_extended_bits(0, bits);
        }
        let r = ExtendedBaseVowel(bits | Self::CASE_MASK);
        proof {
            r.lemma_base_of(value);
        }
        r
    }

    /// Builds from a base value and an explicit case flag.
    pub fn with_case(value: BaseVowel, upper: bool) -> (r: Self)
        ensures
            r.base() == value,
            r.spec_upper() == upper,
            r.reserved() == 0,
    {
        if upper {
            Self::upper(value)
        } else {
            Self::lower(value)
        }
    }

    /// The packed value.
    pub fn bits(self) -> (r: u16)
        ensures
            r == self.spec_raw(),
    {
        self.0
    }

    /// The base vowel.
    pub fn get(self) -> (r: BaseVowel)
        ensures
            r == self.base(),
    {
        proof {
            use_type_invariant(&self);
        }
        let raw = self.0 & Self::BASE_MASK;
        let ghost b = choose|b: BaseVowel| #[trigger] b.spec_bits() == raw;
        proof {
            b.lemma_bits();
            self.lemma_base_of(b);
        }
        BaseVowel::from_id_unchecked((raw >> 5u16) as usize)
    }

    /// Replaces the base vowel, keeping the case flag and every reserved bit.
    pub fn set(&mut self, value: BaseVowel)
        ensures
            final(self).base() == value,
            final(self).spec_upper() == old(self).spec_upper(),
            final(self).reserved() == old(self).reserved(),
    {
        let bits = value.bits();
        proof {
            lemma_extended_bits(self.0, bits);
        }
        self.0 = (self.0 & !Self::BASE_MASK) | bits;
        proof {
            self.lemma_base_of(value);
        }
    }

    /// The case flag.
    pub fn is_upper(self) -> (r: bool)
        ensures
            r == self.spec_upper(),
    {
        self.0 & Self::CASE_MASK != 0
    }

    /// Replaces the case flag, keeping the base vowel and every reserved bit.
    pub fn set_case(&mut self, upper: bool)
        ensures
            final(self).base() == old(self).base(),
            final(self).spec_upper() == upper,
            final(self).reserved() == old(self).reserved(),
    {
        proof {
            use_type_invariant(&*self);
            lemma_extended_bits(self.0, 0);
        }
        let ghost b = self.base();
        let flag: u16 = if upper { Self::CASE_MASK } else { 0 };
        self.0 = (self.0 & !Self::CASE_MASK) | flag;
        proof {
            self.lemma_base_of(b);
        }
    }

    /// The flat (toneless) character.
    pub fn to_char(self) -> (r: char)
        ensures
            r == glyph(self.base(), Tone::Flat, self.spec_upper()),
    {
        encode_vowel(self.get(), Tone::Flat, self.is_upper())
    }

    /// The character carrying `tone`.
    pub fn to_char_tone(self, tone: Tone) -> (r: char)
        ensures
            r == glyph(self.base(), tone, self.spec_upper()),
    {
        encode_vowel(self.get(), tone, self.is_upper())
    }
}

/// The 12 precomposed characters of a base vowel: the 6 tones in id order,
/// each as a lowercase/uppercase pair.
pub open spec fn glyph_row(base: BaseVowel) -> Seq<char> {
    match base {
        BaseVowel::Y => seq!['y', 'Y', 'ý', 'Ý', 'ỳ', 'Ỳ', 'ỷ', 'Ỷ', 'ỹ', 'Ỹ', 'ỵ', 'Ỵ'],
        BaseVowel::U => seq!['u', 'U', 'ú', 'Ú', 'ù', 'Ù', 'ủ', 'Ủ', 'ũ', 'Ũ', 'ụ', 'Ụ'],
        BaseVowel::I => seq!['i', 'I', 'í', 'Í', 'ì', 'Ì', 'ỉ', 'Ỉ', 'ĩ', 'Ĩ', 'ị', 'Ị'],
        BaseVowel::E => seq!['e', 'E', 'é', 'É', 'è', 'È', 'ẻ', 'Ẻ', 'ẽ', 'Ẽ', 'ẹ', 'Ẹ'],
        BaseVowel::O => seq!['o', 'O', 'ó', 'Ó', 'ò', 'Ò', 'ỏ', 'Ỏ', 'õ', 'Õ', 'ọ', 'Ọ'],
        BaseVowel::A => seq!['a', 'A', 'á', 'Á', 'à', 'À', 'ả', 'Ả', 'ã', 'Ã', 'ạ', 'Ạ'],
        BaseVowel::UHorn => seq!['ư', 'Ư', 'ứ', 'Ứ', 'ừ', 'Ừ', 'ử', 'Ử', 'ữ', 'Ữ', 'ự', 'Ự'],
        BaseVowel::ACircumflex => seq!['â', 'Â', 'ấ', 'Ấ', 'ầ', 'Ầ', 'ẩ', 'Ẩ', 'ẫ', 'Ẫ', 'ậ', 'Ậ'],
        BaseVowel::OCircumflex => seq!['ô', 'Ô', 'ố', 'Ố', 'ồ', 'Ồ', 'ổ', 'Ổ', 'ỗ', 'Ỗ', 'ộ', 'Ộ'],
        BaseVowel::ABreve => seq!['ă', 'Ă', 'ắ', 'Ắ', 'ằ', 'Ằ', 'ẳ', 'Ẳ', 'ẵ', 'Ẵ', 'ặ', 'Ặ'],
        BaseVowel::ECircumflex => seq!['ê', 'Ê', 'ế', 'Ế', 'ề', 'Ề', 'ể', 'Ể', 'ễ', 'Ễ', 'ệ', 'Ệ'],
        BaseVowel::OHorn => seq!['ơ', 'Ơ', 'ớ', 'Ớ', 'ờ', 'Ờ', 'ở', 'Ở', 'ỡ', 'Ỡ', 'ợ', 'Ợ'],
    }
}

/// Position of `(base, tone, upper)` in the 144-entry table of all vowel
/// characters (one 12-entry block per base vowel in priority-id order).
pub open spec fn glyph_index(base: BaseVowel, tone: Tone, upper: bool) -> int {
    (base.spec_id() * 6 + tone.code()) * 2 + if upper { 1int } else { 0int }
}

/// The precomposed character of a base vowel with a tone and case.
pub open spec fn glyph(base: BaseVowel, tone: Tone, upper: bool) -> char {
    glyph_row(base)[tone.code() * 2 + if upper { 1int } else { 0int }]
}

/// Whether `c` is one of the 144 precomposed Vietnamese vowel characters,
/// listed by Unicode block.
pub open spec fn is_vowel_char(c: char) -> bool {
    ||| c == 'A' || c == 'E' || c == 'I' || c == 'O' || c == 'U' || c == 'Y' || c == 'a' || c == 'e' || c == 'i' || c == 'o' || c == 'u' || c == 'y'
    ||| c == 'À' || c == 'Á' || c == 'Â' || c == 'Ã' || c == 'È' || c == 'É' || c == 'Ê' || c == 'Ì' || c == 'Í' || c == 'Ò' || c == 'Ó' || c == 'Ô' || c == 'Õ' || c == 'Ù' || c == 'Ú' || c == 'Ý' || c == 'à' || c == 'á' || c == 'â' || c == 'ã' || c == 'è' || c == 'é' || c == 'ê' || c == 'ì' || c == 'í' || c == 'ò' || c == 'ó' || c == 'ô' || c == 'õ' || c == 'ù' || c == 'ú' || c == 'ý'
    ||| c == 'Ă' || c == 'ă' || c == 'Ĩ' || c == 'ĩ' || c == 'Ũ' || c == 'ũ' || c == 'Ơ' || c == 'ơ' || c == 'Ư' || c == 'ư'
    ||| 0x1EA0 <= c as u32 <= 0x1EF9
}

/// The `(base, tone, upper)` triple a vowel character encodes.
spec fn glyph_source(c: char) -> (BaseVowel, Tone, bool) {
    match c {
        'A' => (BaseVowel::A, Tone::Flat, true),
        'E' => (BaseVowel::E, Tone::Flat, true),
        'I' => (BaseVowel::I, Tone::Flat, true),
        'O' => (BaseVowel::O, Tone::Flat, true),
        'U' => (BaseVowel::U, Tone::Flat, true),
        'Y' => (BaseVowel::Y, Tone::Flat, true),
        'a' => (BaseVowel::A, Tone::Flat, false),
        'e' => (BaseVowel::E, Tone::Flat, false),
        'i' => (BaseVowel::I, Tone::Flat, false),
        'o' => (BaseVowel::O, Tone::Flat, false),
        'u' => (BaseVowel::U, Tone::Flat, false),
        'y' => (BaseVowel::Y, Tone::Flat, false),
        'À' => (BaseVowel::A, Tone::Grave, true),
        'Á' => (BaseVowel::A, Tone::Acute, true),
        'Â' => (BaseVowel::ACircumflex, Tone::Flat, true),
        'Ã' => (BaseVowel::A, Tone::Tilde, true),
        'È' => (BaseVowel::E, Tone::Grave, true),
        'É' => (BaseVowel::E, Tone::Acute, true),
        'Ê' => (BaseVowel::ECircumflex, Tone::Flat, true),
        'Ì' => (BaseVowel::I, Tone::Grave, true),
        'Í' => (BaseVowel::I, Tone::Acute, true),
        'Ò' => (BaseVowel::O, Tone::Grave, true),
        'Ó' => (BaseVowel::O, Tone::Acute, true),
        'Ô' => (BaseVowel::OCircumflex, Tone::Flat, true),
        'Õ' => (BaseVowel::O, Tone::Tilde, true),
        'Ù' => (BaseVowel::U, Tone::Grave, true),
        'Ú' => (BaseVowel::U, Tone::Acute, true),
        'Ý' => (BaseVowel::Y, Tone::Acute, true),
        'à' => (BaseVowel::A, Tone::Grave, false),
        'á' => (BaseVowel::A, Tone::Acute, false),
        'â' => (BaseVowel::ACircumflex, Tone::Flat, false),
        'ã' => (BaseVowel::A, Tone::Tilde, false),
        'è' => (BaseVowel::E, Tone::Grave, false),
        'é' => (BaseVowel::E, Tone::Acute, false),
        'ê' => (BaseVowel::ECircumflex, Tone::Flat, false),
        'ì' => (BaseVowel::I, Tone::Grave, false),
        'í' => (BaseVowel::I, Tone::Acute, false),
        'ò' => (BaseVowel::O, Tone::Grave, false),
        'ó' => (BaseVowel::O, Tone::Acute, false),
        'ô' => (BaseVowel::OCircumflex, Tone::Flat, false),
        'õ' => (BaseVowel::O, Tone::Tilde, false),
        'ù' => (BaseVowel::U, Tone::Grave, false),
        'ú' => (BaseVowel::U, Tone::Acute, false),
        'ý' => (BaseVowel::Y, Tone::Acute, false),
        'Ă' => (BaseVowel::ABreve, Tone::Flat, true),
        'ă' => (BaseVowel::ABreve, Tone::Flat, false),
        'Ĩ' => (BaseVowel::I, Tone::Tilde, true),
        'ĩ' => (BaseVowel::I, Tone::Tilde, false),
        'Ũ' => (BaseVowel::U, Tone::Tilde, true),
        'ũ' => (BaseVowel::U, Tone::Tilde, false),
        'Ơ' => (BaseVowel::OHorn, Tone::Flat, true),
        'ơ' => (BaseVowel::OHorn, Tone::Flat, false),
        'Ư' => (BaseVowel::UHorn, Tone::Flat, true),
        'ư' => (BaseVowel::UHorn, Tone::Flat, false),
        'Ạ' => (BaseVowel::A, Tone::Dot, true),
        'ạ' => (BaseVowel::A, Tone::Dot, false),
        'Ả' => (BaseVowel::A, Tone::Hook, true),
        'ả' => (BaseVowel::A, Tone::Hook, false),
        'Ấ' => (BaseVowel::ACircumflex, Tone::Acute, true),
        'ấ' => (BaseVowel::ACircumflex, Tone::Acute, false),
        'Ầ' => (BaseVowel::ACircumflex, Tone::Grave, true),
        'ầ' => (BaseVowel::ACircumflex, Tone::Grave, false),
        'Ẩ' => (BaseVowel::ACircumflex, Tone::Hook, true),
        'ẩ' => (BaseVowel::ACircumflex, Tone::Hook, false),
        'Ẫ' => (BaseVowel::ACircumflex, Tone::Tilde, true),
        'ẫ' => (BaseVowel::ACircumflex, Tone::Tilde, false),
        'Ậ' => (BaseVowel::ACircumflex, Tone::Dot, true),
        'ậ' => (BaseVowel::ACircumflex, Tone::Dot, false),
        'Ắ' => (BaseVowel::ABreve, Tone::Acute, true),
        'ắ' => (BaseVowel::ABreve, Tone::Acute, false),
        'Ằ' => (BaseVowel::ABreve, Tone::Grave, true),
        'ằ' => (BaseVowel::ABreve, Tone::Grave, false),
        'Ẳ' => (BaseVowel::ABreve, Tone::Hook, true),
        'ẳ' => (BaseVowel::ABreve, Tone::Hook, false),
        'Ẵ' => (BaseVowel::ABreve, Tone::Tilde, true),
        'ẵ' => (BaseVowel::ABreve, Tone::Tilde, false),
        'Ặ' => (BaseVowel::ABreve, Tone::Dot, true),
        'ặ' => (BaseVowel::ABreve, Tone::Dot, false),
        'Ẹ' => (BaseVowel::E, Tone::Dot, true),
        'ẹ' => (BaseVowel::E, Tone::Dot, false),
        'Ẻ' => (BaseVowel::E, Tone::Hook, true),
        'ẻ' => (BaseVowel::E, Tone::Hook, false),
        'Ẽ' => (BaseVowel::E, Tone::Tilde, true),
        'ẽ' => (BaseVowel::E, Tone::Tilde, false),
        'Ế' => (BaseVowel::ECircumflex, Tone::Acute, true),
        'ế' => (BaseVowel::ECircumflex, Tone::Acute, false),
        'Ề' => (BaseVowel::ECircumflex, Tone::Grave, true),
        'ề' => (BaseVowel::ECircumflex, Tone::Grave, false),
        'Ể' => (BaseVowel::ECircumflex, Tone::Hook, true),
        'ể' => (BaseVowel::ECircumflex, Tone::Hook, false),
        'Ễ' => (BaseVowel::ECircumflex, Tone::Tilde, true),
        'ễ' => (BaseVowel::ECircumflex, Tone::Tilde, false),
        'Ệ' => (BaseVowel::ECircumflex, Tone::Dot, true),
        'ệ' => (BaseVowel::ECircumflex, Tone::Dot, false),
        'Ỉ' => (BaseVowel::I, Tone::Hook, true),
        'ỉ' => (BaseVowel::I, Tone::Hook, false),
        'Ị' => (BaseVowel::I, Tone::Dot, true),
        'ị' => (BaseVowel::I, Tone::Dot, false),
        'Ọ' => (BaseVowel::O, Tone::Dot, true),
        'ọ' => (BaseVowel::O, Tone::Dot, false),
        'Ỏ' => (BaseVowel::O, Tone::Hook, true),
        'ỏ' => (BaseVowel::O, Tone::Hook, false),
        'Ố' => (BaseVowel::OCircumflex, Tone::Acute, true),
        'ố' => (BaseVowel::OCircumflex, Tone::Acute, false),
        'Ồ' => (BaseVowel::OCircumflex, Tone::Grave, true),
        'ồ' => (BaseVowel::OCircumflex, Tone::Grave, false),
        'Ổ' => (BaseVowel::OCircumflex, Tone::Hook, true),
        'ổ' => (BaseVowel::OCircumflex, Tone::Hook, false),
        'Ỗ' => (BaseVowel::OCircumflex, Tone::Tilde, true),
        'ỗ' => (BaseVowel::OCircumflex, Tone::Tilde, false),
        'Ộ' => (BaseVowel::OCircumflex, Tone::Dot, true),
        'ộ' => (BaseVowel::OCircumflex, Tone::Dot, false),
        'Ớ' => (BaseVowel::OHorn, Tone::Acute, true),
        'ớ' => (BaseVowel::OHorn, Tone::Acute, false),
        'Ờ' => (BaseVowel::OHorn, Tone::Grave, true),
        'ờ' => (BaseVowel::OHorn, Tone::Grave, false),
        'Ở' => (BaseVowel::OHorn, Tone::Hook, true),
        'ở' => (BaseVowel::OHorn, Tone::Hook, false),
        'Ỡ' => (BaseVowel::OHorn, Tone::Tilde, true),
        'ỡ' => (BaseVowel::OHorn, Tone::Tilde, false),
        'Ợ' => (BaseVowel::OHorn, Tone::Dot, true),
        'ợ' => (BaseVowel::OHorn, Tone::Dot, false),
        'Ụ' => (BaseVowel::U, Tone::Dot, true),
        'ụ' => (BaseVowel::U, Tone::Dot, false),
        'Ủ' => (BaseVowel::U, Tone::Hook, true),
        'ủ' => (BaseVowel::U, Tone::Hook, false),
        'Ứ' => (BaseVowel::UHorn, Tone::Acute, true),
        'ứ' => (BaseVowel::UHorn, Tone::Acute, false),
        'Ừ' => (BaseVowel::UHorn, Tone::Grave, true),
        'ừ' => (BaseVowel::UHorn, Tone::Grave, false),
        'Ử' => (BaseVowel::UHorn, Tone::Hook, true),
        'ử' => (BaseVowel::UHorn, Tone::Hook, false),
        'Ữ' => (BaseVowel::UHorn, Tone::Tilde, true),
        'ữ' => (BaseVowel::UHorn, Tone::Tilde, false),
        'Ự' => (BaseVowel::UHorn, Tone::Dot, true),
        'ự' => (BaseVowel::UHorn, Tone::Dot, false),
        'Ỳ' => (BaseVowel::Y, Tone::Grave, true),
        'ỳ' => (BaseVowel::Y, Tone::Grave, false),
        'Ỵ' => (BaseVowel::Y, Tone::Dot, true),
        'ỵ' => (BaseVowel::Y, Tone::Dot, false),
        'Ỷ' => (BaseVowel::Y, Tone::Hook, true),
        'ỷ' => (BaseVowel::Y, Tone::Hook, false),
        'Ỹ' => (BaseVowel::Y, Tone::Tilde, true),
        'ỹ' => (BaseVowel::Y, Tone::Tilde, false),
        _ => (BaseVowel::Y, Tone::Flat, false),
    }
}

proof fn lemma_glyph_source(b: BaseVowel, t: Tone, u: bool)
    ensures
        glyph_source(glyph(b, t, u)) == (b, t, u),
        is_vowel_char(glyph(b, t, u)),
{
    match b {
        BaseVowel::Y => {},
        BaseVowel::U => {},
        BaseVowel::I => {},
        BaseVowel::E => {},
        BaseVowel::O => {},
        BaseVowel::A => {},
        BaseVowel::UHorn => {},
        BaseVowel::ACircumflex => {},
        BaseVowel::OCircumflex => {},
        BaseVowel::ABreve => {},
        BaseVowel::ECircumflex => {},
        BaseVowel::OHorn => {},
    }
}

/// Every encoded character is a vowel character, and encoding is one-to-one:
/// two `(base, tone, case)` triples with the same character are the same
/// triple.
pub proof fn lemma_glyph_injective(b1: BaseVowel, t1: Tone, u1: bool, b2: BaseVowel, t2: Tone, u2: bool)
    ensures
        is_vowel_char(glyph(b1, t1, u1)),
        glyph(b1, t1, u1) == glyph(b2, t2, u2) ==> b1 == b2 && t1 == t2 && u1 == u2,
{
    lemma_glyph_source(b1, t1, u1);
    lemma_glyph_source(b2, t2, u2);
}

/// The flat table used by [`encode_vowel`] holds [`glyph`] at [`glyph_index`].
proof fn lemma_encoded_table(table: Seq<char>, base: BaseVowel, tone: Tone, upper: bool)
    requires
        table == seq![
        'y', 'Y', 'ý', 'Ý', 'ỳ', 'Ỳ', 'ỷ', 'Ỷ', 'ỹ', 'Ỹ', 'ỵ', 'Ỵ',  // id 0: Y
        'u', 'U', 'ú', 'Ú', 'ù', 'Ù', 'ủ', 'Ủ', 'ũ', 'Ũ', 'ụ', 'Ụ',  // id 1: U
        'i', 'I', 'í', 'Í', 'ì', 'Ì', 'ỉ', 'Ỉ', 'ĩ', 'Ĩ', 'ị', 'Ị',  // id 2: I
        'e', 'E', 'é', 'É', 'è', 'È', 'ẻ', 'Ẻ', 'ẽ', 'Ẽ', 'ẹ', 'Ẹ',  // id 3: E
        'o', 'O', 'ó', 'Ó', 'ò', 'Ò', 'ỏ', 'Ỏ', 'õ', 'Õ', 'ọ', 'Ọ',  // id 4: O
        'a', 'A', 'á', 'Á', 'à', 'À', 'ả', 'Ả', 'ã', 'Ã', 'ạ', 'Ạ',  // id 5: A
        'ư', 'Ư', 'ứ', 'Ứ', 'ừ', 'Ừ', 'ử', 'Ử', 'ữ', 'Ữ', 'ự', 'Ự',  // id 6: UHorn
        'â', 'Â', 'ấ', 'Ấ', 'ầ', 'Ầ', 'ẩ', 'Ẩ', 'ẫ', 'Ẫ', 'ậ', 'Ậ',  // id 7: ACircumflex
        'ô', 'Ô', 'ố', 'Ố', 'ồ', 'Ồ', 'ổ', 'Ổ', 'ỗ', 'Ỗ', 'ộ', 'Ộ',  // id 8: OCircumflex
        'ă', 'Ă', 'ắ', 'Ắ', 'ằ', 'Ằ', 'ẳ', 'Ẳ', 'ẵ', 'Ẵ', 'ặ', 'Ặ',  // id 9: ABreve
        'ê', 'Ê', 'ế', 'Ế', 'ề', 'Ề', 'ể', 'Ể', 'ễ', 'Ễ', 'ệ', 'Ệ',  // id 10: ECircumflex
        'ơ', 'Ơ', 'ớ', 'Ớ', 'ờ', 'Ờ', 'ở', 'Ở', 'ỡ', 'Ỡ', 'ợ', 'Ợ',  // id 11: OHorn
        ],
    ensures
        table[glyph_index(base, tone, upper)] == glyph(base, tone, upper),
{
    match base {
        BaseVowel::Y => {},
        BaseVowel::U => {},
        BaseVowel::I => {},
        BaseVowel::E => {},
        BaseVowel::O => {},
        BaseVowel::A => {},
        BaseVowel::UHorn => {},
        BaseVowel::ACircumflex => {},
        BaseVowel::OCircumflex => {},
        BaseVowel::ABreve => {},
        BaseVowel::ECircumflex => {},
        BaseVowel::OHorn => {},
    }
}

/// Encodes a `(base, tone, uppercase)` triple as a precomposed character.
///
/// Index = `(base.id() * 6 + tone) * 2 + uppercase`; the bounds guarantee
/// `0..=143`, so the lookup can't go out of range.
pub fn encode_vowel(base: BaseVowel, tone: Tone, uppercase: bool) -> (r: char)
    ensures
        r == glyph(base, tone, uppercase),
{
    let encoded_vowels: [char; 144] = [
        'y', 'Y', 'ý', 'Ý', 'ỳ', 'Ỳ', 'ỷ', 'Ỷ', 'ỹ', 'Ỹ', 'ỵ', 'Ỵ',  // id 0: Y
        'u', 'U', 'ú', 'Ú', 'ù', 'Ù', 'ủ', 'Ủ', 'ũ', 'Ũ', 'ụ', 'Ụ',  // id 1: U
        'i', 'I', 'í', 'Í', 'ì', 'Ì', 'ỉ', 'Ỉ', 'ĩ', 'Ĩ', 'ị', 'Ị',  // id 2: I
        'e', 'E', 'é', 'É', 'è', 'È', 'ẻ', 'Ẻ', 'ẽ', 'Ẽ', 'ẹ', 'Ẹ',  // id 3: E
        'o', 'O', 'ó', 'Ó', 'ò', 'Ò', 'ỏ', 'Ỏ', 'õ', 'Õ', 'ọ', 'Ọ',  // id 4: O
        'a', 'A', 'á', 'Á', 'à', 'À', 'ả', 'Ả', 'ã', 'Ã', 'ạ', 'Ạ',  // id 5: A
        'ư', 'Ư', 'ứ', 'Ứ', 'ừ', 'Ừ', 'ử', 'Ử', 'ữ', 'Ữ', 'ự', 'Ự',  // id 6: UHorn
        'â', 'Â', 'ấ', 'Ấ', 'ầ', 'Ầ', 'ẩ', 'Ẩ', 'ẫ', 'Ẫ', 'ậ', 'Ậ',  // id 7: ACircumflex
        'ô', 'Ô', 'ố', 'Ố', 'ồ', 'Ồ', 'ổ', 'Ổ', 'ỗ', 'Ỗ', 'ộ', 'Ộ',  // id 8: OCircumflex
        'ă', 'Ă', 'ắ', 'Ắ', 'ằ', 'Ằ', 'ẳ', 'Ẳ', 'ẵ', 'Ẵ', 'ặ', 'Ặ',  // id 9: ABreve
        'ê', 'Ê', 'ế', 'Ế', 'ề', 'Ề', 'ể', 'Ể', 'ễ', 'Ễ', 'ệ', 'Ệ',  // id 10: ECircumflex
        'ơ', 'Ơ', 'ớ', 'Ớ', 'ờ', 'Ờ', 'ở', 'Ở', 'ỡ', 'Ỡ', 'ợ', 'Ợ',  // id 11: OHorn
    ];
    proof {
        lemma_encoded_table(encoded_vowels@, base, tone, uppercase);
    }
    let base_id = base.id();
    let case_bit: usize = if uppercase { 1 } else { 0 };
    let row = base_id * 6 + tone.id();
    assert((row << 1usize) | case_bit == row * 2 + case_bit) by (bit_vector)
        requires
            row < 72,
            case_bit < 2,
    ;
    let idx = (row << 1usize) | case_bit;
    encoded_vowels[idx]
}

/// Decodes a precomposed Vietnamese vowel into a `(ExtendedBaseVowel, Tone)`
/// pair, or `None` if `character` is not a vowel.
///
/// Four non-overlapping code-point regions keep the branch tree small: ASCII,
/// Latin-1, Latin Extended, and the Vietnamese block (U+1EA0..=U+1EF9), which
/// is dispatched on the offset into the block.
pub fn decode_vowel(character: char) -> (r: Option<(ExtendedBaseVowel, Tone)>)
    ensures
        r is Some <==> is_vowel_char(character),
        r matches Some((v, t)) ==> v.reserved() == 0 && glyph(v.base(), t, v.spec_upper()) == character,
        forall|b: BaseVowel, t: Tone, u: bool|
            #[trigger] glyph(b, t, u) == character ==> (r matches Some((v, t2)) && v.base() == b
                && t2 == t && v.spec_upper() == u),
{
    let code = character as u32;
    let r = if code <= 0x7F {
        decode_ascii(character)
    } else if code <= 0xFF {
        decode_latin1(character)
    } else if code >= 0x0100 && code <= 0x01B0 {
        decode_latin_extended(character)
    } else if code >= 0x1EA0 && code <= 0x1EF9 {
        Some(decode_vietnamese_block(character))
    } else {
        None
    };
    proof {
        assert forall|b: BaseVowel, t: Tone, u: bool| #[trigger] glyph(b, t, u) == character implies (
        r matches Some((v, t2)) && v.base() == b && t2 == t && v.spec_upper() == u) by {
            lemma_glyph_injective(b, t, u, b, t, u);
            let (v, t2) = r.unwrap();
            lemma_glyph_injective(b, t, u, v.base(), t2, v.spec_upper());
        }
    }
    r
}

/// ASCII block (fast path: keystrokes).
fn decode_ascii(character: char) -> (r: Option<(ExtendedBaseVowel, Tone)>)
    requires
        character as u32 <= 0x7F,
    ensures
        r is Some <==> is_vowel_char(character),
        r matches Some((v, t)) ==> v.reserved() == 0 && glyph(v.base(), t, v.spec_upper()) == character,
{
    match character {
        'A' => Some((ExtendedBaseVowel::upper(BaseVowel::A), Tone::Flat)),
        'E' => Some((ExtendedBaseVowel::upper(BaseVowel::E), Tone::Flat)),
        'I' => Some((ExtendedBaseVowel::upper(BaseVowel::I), Tone::Flat)),
        'O' => Some((ExtendedBaseVowel::upper(BaseVowel::O), Tone::Flat)),
        'U' => Some((ExtendedBaseVowel::upper(BaseVowel::U), Tone::Flat)),
        'Y' => Some((ExtendedBaseVowel::upper(BaseVowel::Y), Tone::Flat)),
        'a' => Some((ExtendedBaseVowel::lower(BaseVowel::A), Tone::Flat)),
        'e' => Some((ExtendedBaseVowel::lower(BaseVowel::E), Tone::Flat)),
        'i' => Some((ExtendedBaseVowel::lower(BaseVowel::I), Tone::Flat)),
        'o' => Some((ExtendedBaseVowel::lower(BaseVowel::O), Tone::Flat)),
        'u' => Some((ExtendedBaseVowel::lower(BaseVowel::U), Tone::Flat)),
        'y' => Some((ExtendedBaseVowel::lower(BaseVowel::Y), Tone::Flat)),
        _ => None,
    }
}

/// Latin-1 Supplement.
#[verifier::rlimit(30)]
fn decode_latin1(character: char) -> (r: Option<(ExtendedBaseVowel, Tone)>)
    requires
        0x80 <= character as u32 <= 0xFF,
    ensures
        r is Some <==> is_vowel_char(character),
        r matches Some((v, t)) ==> v.reserved() == 0 && glyph(v.base(), t, v.spec_upper()) == character,
{
    match character {
        'À' => Some((ExtendedBaseVowel::upper(BaseVowel::A), Tone::Grave)),
        'Á' => Some((ExtendedBaseVowel::upper(BaseVowel::A), Tone::Acute)),
        'Â' => Some((ExtendedBaseVowel::upper(BaseVowel::ACircumflex), Tone::Flat)),
        'Ã' => Some((ExtendedBaseVowel::upper(BaseVowel::A), Tone::Tilde)),
        'È' => Some((ExtendedBaseVowel::upper(BaseVowel::E), Tone::Grave)),
        'É' => Some((ExtendedBaseVowel::upper(BaseVowel::E), Tone::Acute)),
        'Ê' => Some((ExtendedBaseVowel::upper(BaseVowel::ECircumflex), Tone::Flat)),
        'Ì' => Some((ExtendedBaseVowel::upper(BaseVowel::I), Tone::Grave)),
        'Í' => Some((ExtendedBaseVowel::upper(BaseVowel::I), Tone::Acute)),
        'Ò' => Some((ExtendedBaseVowel::upper(BaseVowel::O), Tone::Grave)),
        'Ó' => Some((ExtendedBaseVowel::upper(BaseVowel::O), Tone::Acute)),
        'Ô' => Some((ExtendedBaseVowel::upper(BaseVowel::OCircumflex), Tone::Flat)),
        'Õ' => Some((ExtendedBaseVowel::upper(BaseVowel::O), Tone::Tilde)),
        'Ù' => Some((ExtendedBaseVowel::upper(BaseVowel::U), Tone::Grave)),
        'Ú' => Some((ExtendedBaseVowel::upper(BaseVowel::U), Tone::Acute)),
        'Ý' => Some((ExtendedBaseVowel::upper(BaseVowel::Y), Tone::Acute)),
        'à' => Some((ExtendedBaseVowel::lower(BaseVowel::A), Tone::Grave)),
        'á' => Some((ExtendedBaseVowel::lower(BaseVowel::A), Tone::Acute)),
        'â' => Some((ExtendedBaseVowel::lower(BaseVowel::ACircumflex), Tone::Flat)),
        'ã' => Some((ExtendedBaseVowel::lower(BaseVowel::A), Tone::Tilde)),
        'è' => Some((ExtendedBaseVowel::lower(BaseVowel::E), Tone::Grave)),
        'é' => Some((ExtendedBaseVowel::lower(BaseVowel::E), Tone::Acute)),
        'ê' => Some((ExtendedBaseVowel::lower(BaseVowel::ECircumflex), Tone::Flat)),
        'ì' => Some((ExtendedBaseVowel::lower(BaseVowel::I), Tone::Grave)),
        'í' => Some((ExtendedBaseVowel::lower(BaseVowel::I), Tone::Acute)),
        'ò' => Some((ExtendedBaseVowel::lower(BaseVowel::O), Tone::Grave)),
        'ó' => Some((ExtendedBaseVowel::lower(BaseVowel::O), Tone::Acute)),
        'ô' => Some((ExtendedBaseVowel::lower(BaseVowel::OCircumflex), Tone::Flat)),
        'õ' => Some((ExtendedBaseVowel::lower(BaseVowel::O), Tone::Tilde)),
        'ù' => Some((ExtendedBaseVowel::lower(BaseVowel::U), Tone::Grave)),
        'ú' => Some((ExtendedBaseVowel::lower(BaseVowel::U), Tone::Acute)),
        'ý' => Some((ExtendedBaseVowel::lower(BaseVowel::Y), Tone::Acute)),
        _ => None,
    }
}

/// Latin Extended.
fn decode_latin_extended(character: char) -> (r: Option<(ExtendedBaseVowel, Tone)>)
    requires
        0x100 <= character as u32 <= 0x1B0,
    ensures
        r is Some <==> is_vowel_char(character),
        r matches Some((v, t)) ==> v.reserved() == 0 && glyph(v.base(), t, v.spec_upper()) == character,
{
    match character {
        'Ă' => Some((ExtendedBaseVowel::upper(BaseVowel::ABreve), Tone::Flat)),
        'ă' => Some((ExtendedBaseVowel::lower(BaseVowel::ABreve), Tone::Flat)),
        'Ĩ' => Some((ExtendedBaseVowel::upper(BaseVowel::I), Tone::Tilde)),
        'ĩ' => Some((ExtendedBaseVowel::lower(BaseVowel::I), Tone::Tilde)),
        'Ũ' => Some((ExtendedBaseVowel::upper(BaseVowel::U), Tone::Tilde)),
        'ũ' => Some((ExtendedBaseVowel::lower(BaseVowel::U), Tone::Tilde)),
        'Ơ' => Some((ExtendedBaseVowel::upper(BaseVowel::OHorn), Tone::Flat)),
        'ơ' => Some((ExtendedBaseVowel::lower(BaseVowel::OHorn), Tone::Flat)),
        'Ư' => Some((ExtendedBaseVowel::upper(BaseVowel::UHorn), Tone::Flat)),
        'ư' => Some((ExtendedBaseVowel::lower(BaseVowel::UHorn), Tone::Flat)),
        _ => None,
    }
}

/// The precomposed Vietnamese block (U+1EA0..=U+1EF9): each `(base, tone)`
/// occupies an uppercase/lowercase pair of adjacent code points.
#[verifier::rlimit(80)]
fn decode_vietnamese_block(character: char) -> (r: (ExtendedBaseVowel, Tone))
    requires
        0x1EA0 <= character as u32 <= 0x1EF9,
    ensures
        r.0.reserved() == 0 && glyph(r.0.base(), r.1, r.0.spec_upper()) == character,
{
    let offset = character as u32 - 0x1EA0;
    let upper = offset % 2 == 0;
    let (base, tone) = match offset / 2 {
        0 => (BaseVowel::A, Tone::Dot),  // Ạ ạ
        1 => (BaseVowel::A, Tone::Hook),  // Ả ả
        2 => (BaseVowel::ACircumflex, Tone::Acute),  // Ấ ấ
        3 => (BaseVowel::ACircumflex, Tone::Grave),  // Ầ ầ
        4 => (BaseVowel::ACircumflex, Tone::Hook),  // Ẩ ẩ
        5 => (BaseVowel::ACircumflex, Tone::Tilde),  // Ẫ ẫ
        6 => (BaseVowel::ACircumflex, Tone::Dot),  // Ậ ậ
        7 => (BaseVowel::ABreve, Tone::Acute),  // Ắ ắ
        8 => (BaseVowel::ABreve, Tone::Grave),  // Ằ ằ
        9 => (BaseVowel::ABreve, Tone::Hook),  // Ẳ ẳ
        10 => (BaseVowel::ABreve, Tone::Tilde),  // Ẵ ẵ
        11 => (BaseVowel::ABreve, Tone::Dot),  // Ặ ặ
        12 => (BaseVowel::E, Tone::Dot),  // Ẹ ẹ
        13 => (BaseVowel::E, Tone::Hook),  // Ẻ ẻ
        14 => (BaseVowel::E, Tone::Tilde),  // Ẽ ẽ
        15 => (BaseVowel::ECircumflex, Tone::Acute),  // Ế ế
        16 => (BaseVowel::ECircumflex, Tone::Grave),  // Ề ề
        17 => (BaseVowel::ECircumflex, Tone::Hook),  // Ể ể
        18 => (BaseVowel::ECircumflex, Tone::Tilde),  // Ễ ễ
        19 => (BaseVowel::ECircumflex, Tone::Dot),  // Ệ ệ
        20 => (BaseVowel::I, Tone::Hook),  // Ỉ ỉ
        21 => (BaseVowel::I, Tone::Dot),  // Ị ị
        22 => (BaseVowel::O, Tone::Dot),  // Ọ ọ
        23 => (BaseVowel::O, Tone::Hook),  // Ỏ ỏ
        24 => (BaseVowel::OCircumflex, Tone::Acute),  // Ố ố
        25 => (BaseVowel::OCircumflex, Tone::Grave),  // Ồ ồ
        26 => (BaseVowel::OCircumflex, Tone::Hook),  // Ổ ổ
        27 => (BaseVowel::OCircumflex, Tone::Tilde),  // Ỗ ỗ
        28 => (BaseVowel::OCircumflex, Tone::Dot),  // Ộ ộ
        29 => (BaseVowel::OHorn, Tone::Acute),  // Ớ ớ
        30 => (BaseVowel::OHorn, Tone::Grave),  // Ờ ờ
        31 => (BaseVowel::OHorn, Tone::Hook),  // Ở ở
        32 => (BaseVowel::OHorn, Tone::Tilde),  // Ỡ ỡ
        33 => (BaseVowel::OHorn, Tone::Dot),  // Ợ ợ
        34 => (BaseVowel::U, Tone::Dot),  // Ụ ụ
        35 => (BaseVowel::U, Tone::Hook),  // Ủ ủ
        36 => (BaseVowel::UHorn, Tone::Acute),  // Ứ ứ
        37 => (BaseVowel::UHorn, Tone::Grave),  // Ừ ừ
        38 => (BaseVowel::UHorn, Tone::Hook),  // Ử ử
        39 => (BaseVowel::UHorn, Tone::Tilde),  // Ữ ữ
        40 => (BaseVowel::UHorn, Tone::Dot),  // Ự ự
        41 => (BaseVowel::Y, Tone::Grave),  // Ỳ ỳ
        42 => (BaseVowel::Y, Tone::Dot),  // Ỵ ỵ
        43 => (BaseVowel::Y, Tone::Hook),  // Ỷ ỷ
        _ => (BaseVowel::Y, Tone::Tilde),  // Ỹ ỹ
    };
    (ExtendedBaseVowel::with_case(base, upper), tone)
}

/// Whether `ch` is a Vietnamese vowel, without decoding its parts.
///
/// Compact range checks and lookup masks.
pub fn is_vowel(ch: char) -> (r: bool)
    ensures
        r == is_vowel_char(ch),
{
    let code = ch as u32;
    // 1. ASCII: A..Z and a..z.
    if code >= 65 && code - 65 <= 57 {
        let ascii_shift = code - 65;
        let ascii_vowel_mask: u64 = 0x0110411101104111;
        let hit = ((ascii_vowel_mask >> ascii_shift) & 1) != 0;
        assert(hit == (ascii_shift == 0 || ascii_shift == 4 || ascii_shift == 8 || ascii_shift == 14
            || ascii_shift == 20 || ascii_shift == 24 || ascii_shift == 32 || ascii_shift == 36
            || ascii_shift == 40 || ascii_shift == 46 || ascii_shift == 52 || ascii_shift == 56))
            by (bit_vector)
            requires
                ascii_shift <= 57,
                ascii_vowel_mask == 0x0110411101104111u64,
                hit == (((ascii_vowel_mask >> (ascii_shift as u64)) & 1u64) != 0u64),
        ;
        return hit;
    } else if code >= 7840 && code <= 7929 {
        // 2. Vietnamese Extended: every code point in this range is a vowel.
        return true;
    } else if code >= 192 && code <= 253 {
        // 3. Latin-1 Supplement.
        let shift = code - 192;
        let latin1_vowel_mask: u64 = 0x263C370F_263C370F;
        let hit = ((latin1_vowel_mask >> shift) & 1) != 0;
        assert(hit == (shift == 0 || shift == 1 || shift == 2 || shift == 3 || shift == 8 || shift == 9
            || shift == 10 || shift == 12 || shift == 13 || shift == 18 || shift == 19 || shift == 20
            || shift == 21 || shift == 25 || shift == 26 || shift == 29 || shift == 32 || shift == 33
            || shift == 34 || shift == 35 || shift == 40 || shift == 41 || shift == 42 || shift == 44
            || shift == 45 || shift == 50 || shift == 51 || shift == 52 || shift == 53 || shift == 57
            || shift == 58 || shift == 61)) by (bit_vector)
            requires
                shift <= 61,
                latin1_vowel_mask == 0x263C370F_263C370Fu64,
                hit == (((latin1_vowel_mask >> (shift as u64)) & 1u64) != 0u64),
        ;
        return hit;
    } else if code >= 258 && code <= 432 {
        // 4. Latin Extended.
        let offset = code - 258;
        return offset == 0 || offset == 1 || offset == 38 || offset == 39 || offset == 102
            || offset == 103 || offset == 158 || offset == 159 || offset == 173 || offset == 174;
    }
    false
}

} // verus!
