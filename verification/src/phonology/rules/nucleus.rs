//! The table of Vietnamese vowel nuclei: which sequences of base vowels
//! form a nucleus, may still grow into one, or never can.
use vstd::prelude::*;

use crate::phonology::vowel::BaseVowel;

verus! {

/// Whether a vowel nucleus is a known Vietnamese sequence.
#[derive(Clone, Copy, Debug, PartialEq, Eq, Structural)]
pub enum NucleusState {
    /// The sequence can never form a valid Vietnamese nucleus.
    Dead,
    /// The sequence is a complete, valid nucleus.
    Valid,
    /// The sequence is not yet complete but may become valid.
    InComplete,
}

/// The longest nucleus, in vowels.
pub const NUCLEUS_MAX_LEN: usize = 3;

/// The state of a single-vowel nucleus: every base vowel is one.
pub open spec fn single_state(v: BaseVowel) -> NucleusState {
    NucleusState::Valid
}

/// The state of a two-vowel nucleus.
pub open spec fn pair_state(v0: BaseVowel, v1: BaseVowel) -> NucleusState {
    match (v0, v1) {
        (BaseVowel::A, BaseVowel::I) => NucleusState::Valid,  // ai
        (BaseVowel::A, BaseVowel::O) => NucleusState::Valid,  // ao
        (BaseVowel::A, BaseVowel::U) => NucleusState::Valid,  // au
        (BaseVowel::A, BaseVowel::Y) => NucleusState::Valid,  // ay
        (BaseVowel::ACircumflex, BaseVowel::U) => NucleusState::Valid,  // âu
        (BaseVowel::ACircumflex, BaseVowel::Y) => NucleusState::Valid,  // ây
        (BaseVowel::I, BaseVowel::A) => NucleusState::Valid,  // ia
        (BaseVowel::I, BaseVowel::E) => NucleusState::InComplete,  // ie
        (BaseVowel::I, BaseVowel::ECircumflex) => NucleusState::Valid,  // iê
        (BaseVowel::I, BaseVowel::U) => NucleusState::Valid,  // iu
        (BaseVowel::Y, BaseVowel::E) => NucleusState::InComplete,  // ye
        (BaseVowel::Y, BaseVowel::ECircumflex) => NucleusState::Valid,  // yê
        (BaseVowel::E, BaseVowel::O) => NucleusState::Valid,  // eo
        (BaseVowel::E, BaseVowel::U) => NucleusState::InComplete,  // eu
        (BaseVowel::ECircumflex, BaseVowel::U) => NucleusState::Valid,  // êu
        (BaseVowel::O, BaseVowel::A) => NucleusState::Valid,  // oa
        (BaseVowel::O, BaseVowel::ABreve) => NucleusState::Valid,  // oă
        (BaseVowel::O, BaseVowel::E) => NucleusState::Valid,  // oe
        (BaseVowel::O, BaseVowel::I) => NucleusState::Valid,  // oi
        (BaseVowel::OCircumflex, BaseVowel::I) => NucleusState::Valid,  // ôi
        (BaseVowel::OHorn, BaseVowel::I) => NucleusState::Valid,  // ơi
        (BaseVowel::O, BaseVowel::O) => NucleusState::InComplete,  // oo
        (BaseVowel::U, BaseVowel::Y) => NucleusState::Valid,  // uy
        (BaseVowel::U, BaseVowel::A) => NucleusState::Valid,  // ua
        (BaseVowel::U, BaseVowel::ACircumflex) => NucleusState::Valid,  // uâ
        (BaseVowel::U, BaseVowel::O) => NucleusState::InComplete,  // uo
        (BaseVowel::U, BaseVowel::OHorn) => NucleusState::Valid,  // uơ
        (BaseVowel::U, BaseVowel::OCircumflex) => NucleusState::Valid,  // uô
        (BaseVowel::U, BaseVowel::E) => NucleusState::InComplete,  // ue
        (BaseVowel::U, BaseVowel::ECircumflex) => NucleusState::Valid,  // uê
        (BaseVowel::U, BaseVowel::I) => NucleusState::Valid,  // ui
        (BaseVowel::UHorn, BaseVowel::O) => NucleusState::InComplete,  // ưo
        (BaseVowel::UHorn, BaseVowel::OHorn) => NucleusState::Valid,  // ươ
        (BaseVowel::UHorn, BaseVowel::A) => NucleusState::Valid,  // ưa
        (BaseVowel::UHorn, BaseVowel::I) => NucleusState::Valid,  // ưi
        (BaseVowel::U, BaseVowel::U) => NucleusState::InComplete,  // uu
        (BaseVowel::UHorn, BaseVowel::U) => NucleusState::Valid,  // ưu
        _ => NucleusState::Dead,
    }
}

/// The state of a three-vowel nucleus.
pub open spec fn triple_state(v0: BaseVowel, v1: BaseVowel, v2: BaseVowel) -> NucleusState {
    match (v0, v1, v2) {
        (BaseVowel::I, BaseVowel::E, BaseVowel::U) => NucleusState::InComplete,  // ieu
        (BaseVowel::I, BaseVowel::ECircumflex, BaseVowel::U) => NucleusState::Valid,  // iêu
        (BaseVowel::Y, BaseVowel::E, BaseVowel::U) => NucleusState::InComplete,  // yeu
        (BaseVowel::Y, BaseVowel::ECircumflex, BaseVowel::U) => NucleusState::Valid,  // yêu
        (BaseVowel::O, BaseVowel::A, BaseVowel::I) => NucleusState::Valid,  // oai
        (BaseVowel::O, BaseVowel::A, BaseVowel::O) => NucleusState::Valid,  // oao
        (BaseVowel::O, BaseVowel::A, BaseVowel::U) => NucleusState::Valid,  // oau
        (BaseVowel::O, BaseVowel::A, BaseVowel::Y) => NucleusState::Valid,  // oay
        (BaseVowel::O, BaseVowel::E, BaseVowel::O) => NucleusState::Valid,  // oeo
        (BaseVowel::U, BaseVowel::Y, BaseVowel::U) => NucleusState::Valid,  // uyu
        (BaseVowel::U, BaseVowel::Y, BaseVowel::A) => NucleusState::Valid,  // uya
        (BaseVowel::U, BaseVowel::Y, BaseVowel::E) => NucleusState::InComplete,  // uye
        (BaseVowel::U, BaseVowel::Y, BaseVowel::ECircumflex) => NucleusState::Valid,  // uyê
        (BaseVowel::U, BaseVowel::A, BaseVowel::O) => NucleusState::Valid,  // uao
        (BaseVowel::U, BaseVowel::ACircumflex, BaseVowel::Y) => NucleusState::Valid,  // uây
        (BaseVowel::U, BaseVowel::O, BaseVowel::I) => NucleusState::InComplete,  // uoi
        (BaseVowel::U, BaseVowel::OCircumflex, BaseVowel::I) => NucleusState::Valid,  // uôi
        (BaseVowel::U, BaseVowel::OHorn, BaseVowel::I) => NucleusState::InComplete,  // uơi
        (BaseVowel::U, BaseVowel::O, BaseVowel::U) => NucleusState::InComplete,  // uou
        (BaseVowel::U, BaseVowel::OHorn, BaseVowel::U) => NucleusState::InComplete,  // uơu
        (BaseVowel::UHorn, BaseVowel::O, BaseVowel::I) => NucleusState::InComplete,  // ưoi
        (BaseVowel::UHorn, BaseVowel::OHorn, BaseVowel::I) => NucleusState::Valid,  // ươi
        (BaseVowel::UHorn, BaseVowel::O, BaseVowel::U) => NucleusState::InComplete,  // ưou
        (BaseVowel::UHorn, BaseVowel::OHorn, BaseVowel::U) => NucleusState::Valid,  // ươu
        _ => NucleusState::Dead,
    }
}

/// The state of a sequence of base vowels: sequences of one to three vowels
/// are looked up in the table, any other length is dead.
pub open spec fn nucleus_state(vowels: Seq<BaseVowel>) -> NucleusState {
    if vowels.len() == 1 {
        single_state(vowels[0])
    } else if vowels.len() == 2 {
        pair_state(vowels[0], vowels[1])
    } else if vowels.len() == 3 {
        triple_state(vowels[0], vowels[1], vowels[2])
    } else {
        NucleusState::Dead
    }
}

/// A dead nucleus stays dead when a vowel is added: the nucleus a live
/// three-vowel nucleus starts with is live, and every single vowel is valid.
pub proof fn lemma_dead_is_final(v: Seq<BaseVowel>)
    requires
        2 <= v.len() <= 3,
        nucleus_state(v) != NucleusState::Dead,
    ensures
        nucleus_state(v.drop_last()) != NucleusState::Dead,
{
}

impl NucleusState {
    /// Classifies a sequence of base vowels against the nucleus table.
    pub fn check(vowels: &[BaseVowel]) -> (r: Self)
        ensures
            r == nucleus_state(vowels@),
    {
        if vowels.len() == 1 {
            // Single vowels: every base vowel is a nucleus.
            NucleusState::Valid
        } else if vowels.len() == 2 {
            Self::check_pair(vowels[0], vowels[1])
        } else if vowels.len() == 3 {
            Self::check_triple(vowels[0], vowels[1], vowels[2])
        } else {
            NucleusState::Dead
        }
    }

    fn check_pair(v0: BaseVowel, v1: BaseVowel) -> (r: Self)
        ensures
            r == pair_state(v0, v1),
    {
        match (v0, v1) {
            (BaseVowel::A, BaseVowel::I) => NucleusState::Valid,  // ai
            (BaseVowel::A, BaseVowel::O) => NucleusState::Valid,  // ao
            (BaseVowel::A, BaseVowel::U) => NucleusState::Valid,  // au
            (BaseVowel::A, BaseVowel::Y) => NucleusState::Valid,  // ay
            (BaseVowel::ACircumflex, BaseVowel::U) => NucleusState::Valid,  // âu
            (BaseVowel::ACircumflex, BaseVowel::Y) => NucleusState::Valid,  // ây
            (BaseVowel::I, BaseVowel::A) => NucleusState::Valid,  // ia
            (BaseVowel::I, BaseVowel::E) => NucleusState::InComplete,  // ie
            (BaseVowel::I, BaseVowel::ECircumflex) => NucleusState::Valid,  // iê
            (BaseVowel::I, BaseVowel::U) => NucleusState::Valid,  // iu
            (BaseVowel::Y, BaseVowel::E) => NucleusState::InComplete,  // ye
            (BaseVowel::Y, BaseVowel::ECircumflex) => NucleusState::Valid,  // yê
            (BaseVowel::E, BaseVowel::O) => NucleusState::Valid,  // eo
            (BaseVowel::E, BaseVowel::U) => NucleusState::InComplete,  // eu
            (BaseVowel::ECircumflex, BaseVowel::U) => NucleusState::Valid,  // êu
            (BaseVowel::O, BaseVowel::A) => NucleusState::Valid,  // oa
            (BaseVowel::O, BaseVowel::ABreve) => NucleusState::Valid,  // oă
            (BaseVowel::O, BaseVowel::E) => NucleusState::Valid,  // oe
            (BaseVowel::O, BaseVowel::I) => NucleusState::Valid,  // oi
            (BaseVowel::OCircumflex, BaseVowel::I) => NucleusState::Valid,  // ôi
            (BaseVowel::OHorn, BaseVowel::I) => NucleusState::Valid,  // ơi
            (BaseVowel::O, BaseVowel::O) => NucleusState::InComplete,  // oo
            (BaseVowel::U, BaseVowel::Y) => NucleusState::Valid,  // uy
            (BaseVowel::U, BaseVowel::A) => NucleusState::Valid,  // ua
            (BaseVowel::U, BaseVowel::ACircumflex) => NucleusState::Valid,  // uâ
            (BaseVowel::U, BaseVowel::O) => NucleusState::InComplete,  // uo
            (BaseVowel::U, BaseVowel::OHorn) => NucleusState::Valid,  // uơ
            (BaseVowel::U, BaseVowel::OCircumflex) => NucleusState::Valid,  // uô
            (BaseVowel::U, BaseVowel::E) => NucleusState::InComplete,  // ue
            (BaseVowel::U, BaseVowel::ECircumflex) => NucleusState::Valid,  // uê
            (BaseVowel::U, BaseVowel::I) => NucleusState::Valid,  // ui
            (BaseVowel::UHorn, BaseVowel::O) => NucleusState::InComplete,  // ưo
            (BaseVowel::UHorn, BaseVowel::OHorn) => NucleusState::Valid,  // ươ
            (BaseVowel::UHorn, BaseVowel::A) => NucleusState::Valid,  // ưa
            (BaseVowel::UHorn, BaseVowel::I) => NucleusState::Valid,  // ưi
            (BaseVowel::U, BaseVowel::U) => NucleusState::InComplete,  // uu
            (BaseVowel::UHorn, BaseVowel::U) => NucleusState::Valid,  // ưu
            _ => NucleusState::Dead,
        }
    }

    fn check_triple(v0: BaseVowel, v1: BaseVowel, v2: BaseVowel) -> (r: Self)
        ensures
            r == triple_state(v0, v1, v2),
    {
        match (v0, v1, v2) {
            (BaseVowel::I, BaseVowel::E, BaseVowel::U) => NucleusState::InComplete,  // ieu
            (BaseVowel::I, BaseVowel::ECircumflex, BaseVowel::U) => NucleusState::Valid,  // iêu
            (BaseVowel::Y, BaseVowel::E, BaseVowel::U) => NucleusState::InComplete,  // yeu
            (BaseVowel::Y, BaseVowel::ECircumflex, BaseVowel::U) => NucleusState::Valid,  // yêu
            (BaseVowel::O, BaseVowel::A, BaseVowel::I) => NucleusState::Valid,  // oai
            (BaseVowel::O, BaseVowel::A, BaseVowel::O) => NucleusState::Valid,  // oao
            (BaseVowel::O, BaseVowel::A, BaseVowel::U) => NucleusState::Valid,  // oau
            (BaseVowel::O, BaseVowel::A, BaseVowel::Y) => NucleusState::Valid,  // oay
            (BaseVowel::O, BaseVowel::E, BaseVowel::O) => NucleusState::Valid,  // oeo
            (BaseVowel::U, BaseVowel::Y, BaseVowel::U) => NucleusState::Valid,  // uyu
            (BaseVowel::U, BaseVowel::Y, BaseVowel::A) => NucleusState::Valid,  // uya
            (BaseVowel::U, BaseVowel::Y, BaseVowel::E) => NucleusState::InComplete,  // uye
            (BaseVowel::U, BaseVowel::Y, BaseVowel::ECircumflex) => NucleusState::Valid,  // uyê
            (BaseVowel::U, BaseVowel::A, BaseVowel::O) => NucleusState::Valid,  // uao
            (BaseVowel::U, BaseVowel::ACircumflex, BaseVowel::Y) => NucleusState::Valid,  // uây
            (BaseVowel::U, BaseVowel::O, BaseVowel::I) => NucleusState::InComplete,  // uoi
            (BaseVowel::U, BaseVowel::OCircumflex, BaseVowel::I) => NucleusState::Valid,  // uôi
            (BaseVowel::U, BaseVowel::OHorn, BaseVowel::I) => NucleusState::InComplete,  // uơi
            (BaseVowel::U, BaseVowel::O, BaseVowel::U) => NucleusState::InComplete,  // uou
            (BaseVowel::U, BaseVowel::OHorn, BaseVowel::U) => NucleusState::InComplete,  // uơu
            (BaseVowel::UHorn, BaseVowel::O, BaseVowel::I) => NucleusState::InComplete,  // ưoi
            (BaseVowel::UHorn, BaseVowel::OHorn, BaseVowel::I) => NucleusState::Valid,  // ươi
            (BaseVowel::UHorn, BaseVowel::O, BaseVowel::U) => NucleusState::InComplete,  // ưou
            (BaseVowel::UHorn, BaseVowel::OHorn, BaseVowel::U) => NucleusState::Valid,  // ươu
            _ => NucleusState::Dead,
        }
    }
}

} // verus!
