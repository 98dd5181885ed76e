//! Tone placement: which vowel of a nucleus carries the tone mark.
use vstd::prelude::*;

use super::vowel::{BaseVowel, ExtendedBaseVowel, Shape};
use super::vowel_sequence::VowelSequence;

verus! {

/// A read-only view over a vowel nucleus.
pub trait NucleusView {
    /// The base vowels, in order.
    spec fn nucleus_seq(&self) -> Seq<BaseVowel>;

    fn len(&self) -> (r: usize)
        ensures
            r == self.nucleus_seq().len(),
    ;

    /// Returns the vowel at `index`, which must be below `len()`.
    fn at(&self, index: usize) -> (r: BaseVowel)
        requires
            index < self.nucleus_seq().len(),
        ensures
            r == self.nucleus_seq()[index as int],
    ;
}

impl NucleusView for [BaseVowel] {
    open spec fn nucleus_seq(&self) -> Seq<BaseVowel> {
        self@
    }

    fn len(&self) -> (r: usize) {
        self.len()
    }

    fn at(&self, index: usize) -> (r: BaseVowel) {
        self[index]
    }
}

impl NucleusView for [ExtendedBaseVowel] {
    open spec fn nucleus_seq(&self) -> Seq<BaseVowel> {
        self@.map_values(|v: ExtendedBaseVowel| v.base())
    }

    fn len(&self) -> (r: usize) {
        self.len()
    }

    fn at(&self, index: usize) -> (r: BaseVowel) {
        self[index].get()
    }
}

/// The orthography that decides where the tone mark goes.
#[derive(Clone, Copy, Debug, Default, Eq, PartialEq, Structural)]
pub enum TonePlacement {
    /// Modern standard orthography ("học sinh", "hoá", "thuý").
    #[default]
    Modern,
    /// Pre-1975 classic orthography ("hóa", "thúy").
    Old,
}

/// Whether `vowels[i]` holds the highest priority id of `vowels`, and no
/// earlier vowel holds it.
pub open spec fn is_first_highest(vowels: Seq<BaseVowel>, i: int) -> bool {
    &&& 0 <= i < vowels.len()
    &&& forall|j: int| 0 <= j < vowels.len() ==> #[trigger] vowels[j].spec_id() <= vowels[i].spec_id()
    &&& forall|j: int| 0 <= j < i ==> #[trigger] vowels[j].spec_id() < vowels[i].spec_id()
}

/// Tone vowel of a two-vowel nucleus under the modern standard: a shaped
/// vowel always takes the tone (second first); otherwise `oa`, `oe`, `uy`
/// put it on the second vowel and every other pair on the first.
pub open spec fn pair_tone_modern(v0: BaseVowel, v1: BaseVowel) -> usize {
    if v1.spec_shape() != Shape::Plain {
        1
    } else if v0.spec_shape() != Shape::Plain {
        0
    } else if (v0 == BaseVowel::O && (v1 == BaseVowel::A || v1 == BaseVowel::E)) || (v0
        == BaseVowel::U && v1 == BaseVowel::Y) {
        1
    } else {
        0
    }
}

/// Tone vowel of a two-vowel nucleus under the old style: a shaped vowel
/// always takes the tone (second first); otherwise an open syllable puts it
/// on the first vowel, a closed one on the second.
pub open spec fn pair_tone_old(v0: BaseVowel, v1: BaseVowel, coda_is_empty: bool) -> usize {
    if v1.spec_shape() != Shape::Plain {
        1
    } else if v0.spec_shape() != Shape::Plain {
        0
    } else if coda_is_empty {
        0
    } else {
        1
    }
}

/// Tone vowel of a three-vowel nucleus: the rightmost shaped vowel, else the
/// middle one.
pub open spec fn triple_tone(v0: BaseVowel, v1: BaseVowel, v2: BaseVowel) -> usize {
    if v2.spec_shape() != Shape::Plain {
        2
    } else if v1.spec_shape() != Shape::Plain {
        1
    } else if v0.spec_shape() != Shape::Plain {
        0
    } else {
        1
    }
}

/// The index of the vowel that carries the tone mark, or `None` for an empty
/// nucleus. Longer nuclei than three vowels (never built by composition) put
/// it on the first vowel with the highest priority id.
pub open spec fn tone_vowel(placement: TonePlacement, vowels: Seq<BaseVowel>, coda_is_empty: bool) -> Option<usize> {
    if vowels.len() == 0 {
        None
    } else if vowels.len() == 1 {
        Some(0)
    } else if vowels.len() == 2 {
        Some(
            match placement {
                TonePlacement::Modern => pair_tone_modern(vowels[0], vowels[1]),
                TonePlacement::Old => pair_tone_old(vowels[0], vowels[1], coda_is_empty),
            },
        )
    } else if vowels.len() == 3 {
        Some(triple_tone(vowels[0], vowels[1], vowels[2]))
    } else {
        Some((choose|i: int| is_first_highest(vowels, i)) as usize)
    }
}

/// At most one position is the first holding the highest priority id.
proof fn lemma_first_highest_unique(vowels: Seq<BaseVowel>, i: int, j: int)
    requires
        is_first_highest(vowels, i),
        is_first_highest(vowels, j),
    ensures
        i == j,
{
    if i < j {
        assert(vowels[i].spec_id() < vowels[j].spec_id());
        assert(vowels[i].spec_id() <= vowels[j].spec_id());
        assert(vowels[j].spec_id() <= vowels[i].spec_id());
    } else if j < i {
        assert(vowels[j].spec_id() < vowels[i].spec_id());
        assert(vowels[i].spec_id() <= vowels[j].spec_id());
    }
}

/// The chosen position of a nucleus of four or more vowels is the one found.
proof fn lemma_choose_first_highest(vowels: Seq<BaseVowel>, i: usize)
    requires
        is_first_highest(vowels, i as int),
    ensures
        (choose|k: int| is_first_highest(vowels, k)) == i,
{
    let k = choose|k: int| is_first_highest(vowels, k);
    lemma_first_highest_unique(vowels, k, i as int);
}

/// Every nonempty nucleus has a first position holding its highest priority id.
proof fn lemma_first_highest_exists(vowels: Seq<BaseVowel>)
    requires
        vowels.len() > 0,
    ensures
        exists|i: int| is_first_highest(vowels, i),
    decreases vowels.len(),
{
    if vowels.len() == 1 {
        assert(is_first_highest(vowels, 0));
    } else {
        let prefix = vowels.drop_last();
        lemma_first_highest_exists(prefix);
        let i = choose|i: int| is_first_highest(prefix, i);
        let last = vowels.len() - 1;
        let best = if vowels[last].spec_id() > vowels[i].spec_id() {
            last
        } else {
            i
        };
        assert forall|j: int| 0 <= j < vowels.len() implies #[trigger] vowels[j].spec_id()
            <= vowels[best].spec_id() by {
            if j < last {
                assert(prefix[j] == vowels[j]);
                assert(prefix[j].spec_id() <= prefix[i].spec_id());
            }
        }
        assert forall|j: int| 0 <= j < best implies #[trigger] vowels[j].spec_id()
            < vowels[best].spec_id() by {
            assert(prefix[j] == vowels[j]);
            if j < i {
                assert(prefix[j].spec_id() < prefix[i].spec_id());
            } else {
                assert(prefix[j].spec_id() <= prefix[i].spec_id());
            }
        }
        assert(is_first_highest(vowels, best));
    }
}

/// The tone goes on a vowel of the nucleus: a nonempty nucleus always gets an
/// index, and the index is below the nucleus length.
pub proof fn lemma_tone_vowel_in_nucleus(
    placement: TonePlacement,
    vowels: Seq<BaseVowel>,
    coda_is_empty: bool,
)
    ensures
        tone_vowel(placement, vowels, coda_is_empty) is None <==> vowels.len() == 0,
        tone_vowel(placement, vowels, coda_is_empty) matches Some(i) ==> i < vowels.len(),
{
    if vowels.len() > 3 {
        lemma_first_highest_exists(vowels);
    }
}

/// A marked vowel always takes the tone in a nucleus of two or three vowels:
/// the rightmost shaped vowel gets it, under either orthography.
pub proof fn lemma_marked_vowel_takes_tone(
    placement: TonePlacement,
    vowels: Seq<BaseVowel>,
    coda_is_empty: bool,
    i: int,
)
    requires
        2 <= vowels.len() <= 3,
        0 <= i < vowels.len(),
        vowels[i].spec_shape() != Shape::Plain,
        forall|j: int| i < j < vowels.len() ==> #[trigger] vowels[j].spec_shape() == Shape::Plain,
    ensures
        tone_vowel(placement, vowels, coda_is_empty) == Some(i as usize),
{
    if vowels.len() == 3 && i < 2 {
        assert(vowels[2].spec_shape() == Shape::Plain);
        if i == 0 {
            assert(vowels[1].spec_shape() == Shape::Plain);
        }
    }
    if vowels.len() == 2 && i == 0 {
        assert(vowels[1].spec_shape() == Shape::Plain);
    }
}

/// One of the plain vowels `a, e, i, o, u, y`, which carry no shape mark.
pub open spec fn is_plain_letter(v: BaseVowel) -> bool {
    v == BaseVowel::A || v == BaseVowel::E || v == BaseVowel::I || v == BaseVowel::O || v
        == BaseVowel::U || v == BaseVowel::Y
}

/// A single vowel always takes the tone.
pub proof fn lemma_single_vowel_takes_tone(placement: TonePlacement, v: BaseVowel, coda_is_empty: bool)
    ensures
        tone_vowel(placement, seq![v], coda_is_empty) == Some(0usize),
{
}

/// Under the modern orthography a nucleus of two plain vowels takes the tone
/// on its second vowel exactly for `oa`, `oe` and `uy` ("hoá", "khoẻ",
/// "thuý"), and on its first for every other pair ("cáo", "mía", "hai").
pub proof fn lemma_modern_plain_pair(v0: BaseVowel, v1: BaseVowel, coda_is_empty: bool)
    requires
        is_plain_letter(v0),
        is_plain_letter(v1),
    ensures
        tone_vowel(TonePlacement::Modern, seq![v0, v1], coda_is_empty) == Some(
            if (v0 == BaseVowel::O && v1 == BaseVowel::A) || (v0 == BaseVowel::O && v1
                == BaseVowel::E) || (v0 == BaseVowel::U && v1 == BaseVowel::Y) {
                1usize
            } else {
                0usize
            },
        ),
{
}

/// Under the old orthography a nucleus of two plain vowels takes the tone on
/// its first vowel in an open syllable ("hóa", "thúy") and on its second in
/// a closed one ("hoán", "huỳnh"), whatever the two vowels are.
pub proof fn lemma_old_plain_pair(v0: BaseVowel, v1: BaseVowel, coda_is_empty: bool)
    requires
        is_plain_letter(v0),
        is_plain_letter(v1),
    ensures
        tone_vowel(TonePlacement::Old, seq![v0, v1], coda_is_empty) == Some(
            if coda_is_empty {
                0usize
            } else {
                1usize
            },
        ),
{
}

/// A nucleus of three plain vowels takes the tone on its middle vowel
/// ("khuỷu", "ngoài"), under either orthography.
pub proof fn lemma_plain_triple_takes_middle(
    placement: TonePlacement,
    v0: BaseVowel,
    v1: BaseVowel,
    v2: BaseVowel,
    coda_is_empty: bool,
)
    requires
        is_plain_letter(v0),
        is_plain_letter(v1),
        is_plain_letter(v2),
    ensures
        tone_vowel(placement, seq![v0, v1, v2], coda_is_empty) == Some(1usize),
{
}

/// A nucleus of more than three vowels takes the tone on the first vowel
/// with the highest priority id.
pub proof fn lemma_long_nucleus_takes_first_highest(
    placement: TonePlacement,
    vowels: Seq<BaseVowel>,
    coda_is_empty: bool,
)
    requires
        3 < vowels.len() <= usize::MAX,
    ensures
        tone_vowel(placement, vowels, coda_is_empty) matches Some(i) && i < vowels.len() && (forall|
            j: int,
        | 0 <= j < vowels.len() ==> #[trigger] vowels[j].spec_id() <= vowels[i as int].spec_id()) && (
        forall|j: int| 0 <= j < i ==> #[trigger] vowels[j].spec_id() < vowels[i as int].spec_id()),
{
    lemma_first_highest_exists(vowels);
    let i = choose|i: int| is_first_highest(vowels, i);
    assert(is_first_highest(vowels, i));
    assert((i as usize) as int == i);
}

/// The modern placement does not depend on the coda, so
/// `TonePlacement::Modern.tone_index(v, c)` is `tone_index_modern(v)` and
/// `TonePlacement::Old.tone_index(v, c)` is `tone_index_old(v, c)`.
pub proof fn lemma_modern_ignores_coda(vowels: Seq<BaseVowel>, coda_is_empty: bool)
    ensures
        tone_vowel(TonePlacement::Modern, vowels, coda_is_empty) == tone_vowel(TonePlacement::Modern, vowels, true),
{
}

impl TonePlacement {
    /// Index of the tone-bearing vowel, or `None` for an empty nucleus.
    pub fn tone_index<V: VowelSequence + ?Sized>(self, vowels: &V, coda_is_empty: bool) -> (r: Option<usize>)
        ensures
            r == tone_vowel(self, vowels.vowel_seq(), coda_is_empty),
    {
        match self {
            TonePlacement::Modern => tone_index_modern(vowels),
            TonePlacement::Old => tone_index_old(vowels, coda_is_empty),
        }
    }

    /// The 0-based index, within `vowels`, of the vowel that should receive
    /// the tone mark, or `None` if the nucleus is empty.
    pub fn vowel_index<V: NucleusView + ?Sized>(self, vowels: &V, coda_is_empty: bool) -> (r: Option<usize>)
        ensures
            r == tone_vowel(self, vowels.nucleus_seq(), coda_is_empty),
    {
        let len = vowels.len();
        if len == 0 {
            None
        } else if len == 1 {
            Some(0)
        } else if len == 2 {
            Some(
                match self {
                    TonePlacement::Modern => Self::tone_index_2_modern(vowels),
                    TonePlacement::Old => Self::tone_index_2_old(vowels, coda_is_empty),
                },
            )
        } else if len == 3 {
            Some(Self::tone_index_3(vowels))
        } else {
            Self::tone_index_fallback(vowels)
        }
    }

    /// Tone placement for a two-vowel nucleus under the modern standard.
    fn tone_index_2_modern<V: NucleusView + ?Sized>(vowels: &V) -> (r: usize)
        requires
            vowels.nucleus_seq().len() == 2,
        ensures
            r == pair_tone_modern(vowels.nucleus_seq()[0], vowels.nucleus_seq()[1]),
    {
        let v0 = vowels.at(0);
        let v1 = vowels.at(1);
        // A shaped vowel always takes the tone ("thuế" -> ê, "cuối" -> ô).
        if v1.is_shaped() {
            return 1;
        }
        if v0.is_shaped() {
            return 0;
        }
        // Open diphthongs "oa", "oe", "uy" put the tone on the second vowel.
        if (v0 == BaseVowel::O && (v1 == BaseVowel::A || v1 == BaseVowel::E)) || (v0 == BaseVowel::U
            && v1 == BaseVowel::Y) {
            1
        } else {
            // Otherwise the first vowel ("mía", "ai", "ao").
            0
        }
    }

    /// Tone placement for a two-vowel nucleus under the old style.
    fn tone_index_2_old<V: NucleusView + ?Sized>(vowels: &V, coda_is_empty: bool) -> (r: usize)
        requires
            vowels.nucleus_seq().len() == 2,
        ensures
            r == pair_tone_old(vowels.nucleus_seq()[0], vowels.nucleus_seq()[1], coda_is_empty),
    {
        let v0 = vowels.at(0);
        let v1 = vowels.at(1);
        // A shaped vowel always takes the tone.
        if v1.is_shaped() {
            return 1;
        }
        if v0.is_shaped() {
            return 0;
        }
        // Open syllable: first vowel ("hóa"); closed syllable: second ("hoán").
        if coda_is_empty {
            0
        } else {
            1
        }
    }

    /// Tone placement for a three-vowel nucleus ("oai", "uôi", "uyu").
    fn tone_index_3<V: NucleusView + ?Sized>(vowels: &V) -> (r: usize)
        requires
            vowels.nucleus_seq().len() == 3,
        ensures
            r == triple_tone(
                vowels.nucleus_seq()[0],
                vowels.nucleus_seq()[1],
                vowels.nucleus_seq()[2],
            ),
    {
        // The rightmost shaped vowel wins ("uôi" -> ô), else the middle one.
        if vowels.at(2).is_shaped() {
            2
        } else if vowels.at(1).is_shaped() {
            1
        } else if vowels.at(0).is_shaped() {
            0
        } else {
            1
        }
    }

    /// Fallback for more than three vowels: the first one with the highest
    /// [`BaseVowel::id`]. Never reached by composition, which caps nuclei at
    /// three vowels.
    fn tone_index_fallback<V: NucleusView + ?Sized>(vowels: &V) -> (r: Option<usize>)
        requires
            vowels.nucleus_seq().len() > 3,
        ensures
            r == Some((choose|i: int| is_first_highest(vowels.nucleus_seq(), i)) as usize),
    {
        let ghost s = vowels.nucleus_seq();
        let mut best = vowels.at(0);
        let mut at: usize = 0;
        let mut index: usize = 1;
        let len = vowels.len();
        while index < len
            invariant
                s == vowels.nucleus_seq(),
                len == s.len(),
                1 <= index <= len,
                at < index,
                best == s[at as int],
                forall|j: int| 0 <= j < index ==> #[trigger] s[j].spec_id() <= best.spec_id(),
                forall|j: int| 0 <= j < at ==> #[trigger] s[j].spec_id() < best.spec_id(),
            decreases len - index,
        {
            let v = vowels.at(index);
            if v.id() > best.id() {
                best = v;
                at = index;
            }
            index += 1;
        }
        proof {
            lemma_choose_first_highest(s, at);
        }
        Some(at)
    }
}

/// Tone-bearing vowel index under the modern standard, or `None` for an
/// empty nucleus.
pub fn tone_index_modern<V: VowelSequence + ?Sized>(vowels: &V) -> (r: Option<usize>)
    ensures
        r == tone_vowel(TonePlacement::Modern, vowels.vowel_seq(), true),
{
    let len = vowels.len();
    if len == 0 {
        None
    } else if len == 1 {
        Some(0)
    } else if len == 2 {
        let v0 = vowels.at(0);
        let v1 = vowels.at(1);
        // A marked vowel always takes the tone (thuế -> ê, cuối -> ô).
        if v1.is_shaped() {
            Some(1)
        } else if v0.is_shaped() {
            Some(0)
        } else if (v0 == BaseVowel::O && (v1 == BaseVowel::A || v1 == BaseVowel::E)) || (v0
            == BaseVowel::U && v1 == BaseVowel::Y) {
            // oa / oe / uy: tone on the second (hoá, khoèo, huý).
            Some(1)
        } else {
            // Everything else: tone on the first (ia -> i, ai -> a).
            Some(0)
        }
    } else if len == 3 {
        Some(tone_index_3(vowels))
    } else {
        fallback_tone_index(vowels)
    }
}

/// Tone-bearing vowel index under the pre-1975 style, or `None` for an empty
/// nucleus: a marked vowel always wins; otherwise an open syllable takes the
/// first vowel and a closed one the second (tòa -> o, toán -> a).
pub fn tone_index_old<V: VowelSequence + ?Sized>(vowels: &V, coda_is_empty: bool) -> (r: Option<usize>)
    ensures
        r == tone_vowel(TonePlacement::Old, vowels.vowel_seq(), coda_is_empty),
{
    let len = vowels.len();
    if len == 0 {
        None
    } else if len == 1 {
        Some(0)
    } else if len == 2 {
        let v0 = vowels.at(0);
        let v1 = vowels.at(1);
        if v1.is_shaped() {
            Some(1)
        } else if v0.is_shaped() {
            Some(0)
        } else if coda_is_empty {
            Some(0)
        } else {
            Some(1)
        }
    } else if len == 3 {
        Some(tone_index_3(vowels))
    } else {
        fallback_tone_index(vowels)
    }
}

/// Tone-bearing vowel of a three-vowel nucleus: the rightmost marked vowel
/// wins (uôi -> ô), else the middle one (oai -> a).
fn tone_index_3<V: VowelSequence + ?Sized>(vowels: &V) -> (r: usize)
    requires
        vowels.vowel_seq().len() == 3,
    ensures
        r == triple_tone(vowels.vowel_seq()[0], vowels.vowel_seq()[1], vowels.vowel_seq()[2]),
{
    if vowels.at(2).is_shaped() {
        2
    } else if vowels.at(1).is_shaped() {
        1
    } else if vowels.at(0).is_shaped() {
        0
    } else {
        1
    }
}

/// Fallback for more than three vowels: the first one with the highest
/// [`BaseVowel::id`].
fn fallback_tone_index<V: VowelSequence + ?Sized>(vowels: &V) -> (r: Option<usize>)
    requires
        vowels.vowel_seq().len() > 3,
    ensures
        r == Some((choose|i: int| is_first_highest(vowels.vowel_seq(), i)) as usize),
{
    let ghost s = vowels.vowel_seq();
    let mut best = vowels.at(0);
    let mut at: usize = 0;
    let mut index: usize = 1;
    let len = vowels.len();
    while index < len
        invariant
            s == vowels.vowel_seq(),
            len == s.len(),
            1 <= index <= len,
            at < index,
            best == s[at as int],
            forall|j: int| 0 <= j < index ==> #[trigger] s[j].spec_id() <= best.spec_id(),
            forall|j: int| 0 <= j < at ==> #[trigger] s[j].spec_id() < best.spec_id(),
        decreases len - index,
    {
        let v = vowels.at(index);
        if v.id() > best.id() {
            best = v;
            at = index;
        }
        index += 1;
    }
    proof {
        lemma_choose_first_highest(s, at);
    }
    Some(at)
}

} // verus!
