//! The compact nucleus table of the keystroke engine.
use vstd::prelude::*;

use super::rules::nucleus;
use super::vowel::BaseVowel;

verus! {

/// Whether a vowel nucleus is a known Vietnamese sequence.
#[derive(Clone, Copy, Debug, PartialEq, Eq, Structural)]
pub enum NucleusStatus {
    /// The sequence can never form a valid Vietnamese nucleus.
    Dead,
    /// The sequence is a complete, valid nucleus.
    Valid,
    /// The sequence is not yet complete but may become valid.
    InComplete,
}

/// The status of a two-vowel nucleus in the engine's table.
pub open spec fn engine_pair_status(v0: BaseVowel, v1: BaseVowel) -> NucleusStatus {
    match (v0, v1) {
        (BaseVowel::A, BaseVowel::I) => NucleusStatus::Valid,  // ai
        (BaseVowel::A, BaseVowel::O) => NucleusStatus::Valid,  // ao
        (BaseVowel::A, BaseVowel::U) => NucleusStatus::Valid,  // au
        (BaseVowel::A, BaseVowel::Y) => NucleusStatus::Valid,  // ay
        (BaseVowel::ACircumflex, BaseVowel::U) => NucleusStatus::Valid,  // âu
        (BaseVowel::ACircumflex, BaseVowel::Y) => NucleusStatus::Valid,  // ây
        (BaseVowel::I, BaseVowel::A) => NucleusStatus::Valid,  // ia
        (BaseVowel::I, BaseVowel::E) => NucleusStatus::InComplete,  // ie
        (BaseVowel::I, BaseVowel::ECircumflex) => NucleusStatus::Valid,  // iê
        (BaseVowel::Y, BaseVowel::E) => NucleusStatus::InComplete,  // ye
        (BaseVowel::Y, BaseVowel::ECircumflex) => NucleusStatus::Valid,  // yê
        (BaseVowel::E, BaseVowel::O) => NucleusStatus::Valid,  // eo
        (BaseVowel::E, BaseVowel::U) => NucleusStatus::InComplete,  // eu
        (BaseVowel::ECircumflex, BaseVowel::U) => NucleusStatus::Valid,  // êu
        (BaseVowel::O, BaseVowel::A) => NucleusStatus::Valid,  // oa
        (BaseVowel::O, BaseVowel::E) => NucleusStatus::Valid,  // oe
        (BaseVowel::O, BaseVowel::ABreve) => NucleusStatus::Valid,  // oa
        (BaseVowel::U, BaseVowel::Y) => NucleusStatus::Valid,  // uy
        (BaseVowel::U, BaseVowel::A) => NucleusStatus::Valid,  // ua
        (BaseVowel::U, BaseVowel::O) => NucleusStatus::InComplete,  // uo
        (BaseVowel::U, BaseVowel::OHorn) => NucleusStatus::Valid,  // uơ
        (BaseVowel::U, BaseVowel::OCircumflex) => NucleusStatus::Valid,  // uô
        (BaseVowel::U, BaseVowel::E) => NucleusStatus::InComplete,  // ue
        (BaseVowel::U, BaseVowel::ECircumflex) => NucleusStatus::Valid,  // uê
        (BaseVowel::UHorn, BaseVowel::O) => NucleusStatus::InComplete,  // ưo
        (BaseVowel::UHorn, BaseVowel::OHorn) => NucleusStatus::Valid,  // ươ
        (BaseVowel::UHorn, BaseVowel::A) => NucleusStatus::Valid,  // ưa
        (BaseVowel::UHorn, BaseVowel::I) => NucleusStatus::Valid,  // ưi
        (BaseVowel::UHorn, BaseVowel::U) => NucleusStatus::Valid,  // ưu
        _ => NucleusStatus::Dead,
    }
}

/// The status of a three-vowel nucleus in the engine's table.
pub open spec fn engine_triple_status(v0: BaseVowel, v1: BaseVowel, v2: BaseVowel) -> NucleusStatus {
    match (v0, v1, v2) {
        (BaseVowel::I, BaseVowel::ECircumflex, BaseVowel::U) => NucleusStatus::Valid,  // iêu
        (BaseVowel::Y, BaseVowel::E, BaseVowel::U) => NucleusStatus::InComplete,  // yeu
        (BaseVowel::Y, BaseVowel::ECircumflex, BaseVowel::U) => NucleusStatus::Valid,  // yêu
        (BaseVowel::O, BaseVowel::A, BaseVowel::I) => NucleusStatus::Valid,  // oai
        (BaseVowel::O, BaseVowel::A, BaseVowel::O) => NucleusStatus::Valid,  // oao
        (BaseVowel::U, BaseVowel::Y, BaseVowel::E) => NucleusStatus::InComplete,  // uye
        (BaseVowel::U, BaseVowel::Y, BaseVowel::ECircumflex) => NucleusStatus::Valid,  // uyê
        (BaseVowel::U, BaseVowel::O, BaseVowel::I) => NucleusStatus::InComplete,  // uoi
        (BaseVowel::U, BaseVowel::OCircumflex, BaseVowel::I) => NucleusStatus::Valid,  // uôi
        (BaseVowel::UHorn, BaseVowel::OHorn, BaseVowel::I) => NucleusStatus::Valid,  // ươi
        (BaseVowel::UHorn, BaseVowel::OHorn, BaseVowel::U) => NucleusStatus::Valid,  // ươu
        _ => NucleusStatus::Dead,
    }
}

/// The status of a sequence of base vowels in the engine's table: every
/// single vowel is valid, pairs and triples are looked up, any other length
/// is dead.
pub open spec fn engine_nucleus_status(vowels: Seq<BaseVowel>) -> NucleusStatus {
    if vowels.len() == 1 {
        NucleusStatus::Valid
    } else if vowels.len() == 2 {
        engine_pair_status(vowels[0], vowels[1])
    } else if vowels.len() == 3 {
        engine_triple_status(vowels[0], vowels[1], vowels[2])
    } else {
        NucleusStatus::Dead
    }
}

/// Checks a vowel nucleus (1–3 vowels) against the engine's rule table.
pub fn check_nucleus_validity(vowels: &[BaseVowel]) -> (r: NucleusStatus)
    ensures
        r == engine_nucleus_status(vowels@),
{
    if vowels.len() == 1 {
        // Single vowels: all twelve are nuclei.
        NucleusStatus::Valid
    } else if vowels.len() == 2 {
        match (vowels[0], vowels[1]) {
            (BaseVowel::A, BaseVowel::I) => NucleusStatus::Valid,  // ai
            (BaseVowel::A, BaseVowel::O) => NucleusStatus::Valid,  // ao
            (BaseVowel::A, BaseVowel::U) => NucleusStatus::Valid,  // au
            (BaseVowel::A, BaseVowel::Y) => NucleusStatus::Valid,  // ay
            (BaseVowel::ACircumflex, BaseVowel::U) => NucleusStatus::Valid,  // âu
            (BaseVowel::ACircumflex, BaseVowel::Y) => NucleusStatus::Valid,  // ây
            (BaseVowel::I, BaseVowel::A) => NucleusStatus::Valid,  // ia
            (BaseVowel::I, BaseVowel::E) => NucleusStatus::InComplete,  // ie
            (BaseVowel::I, BaseVowel::ECircumflex) => NucleusStatus::Valid,  // iê
            (BaseVowel::Y, BaseVowel::E) => NucleusStatus::InComplete,  // ye
            (BaseVowel::Y, BaseVowel::ECircumflex) => NucleusStatus::Valid,  // yê
            (BaseVowel::E, BaseVowel::O) => NucleusStatus::Valid,  // eo
            (BaseVowel::E, BaseVowel::U) => NucleusStatus::InComplete,  // eu
            (BaseVowel::ECircumflex, BaseVowel::U) => NucleusStatus::Valid,  // êu
            (BaseVowel::O, BaseVowel::A) => NucleusStatus::Valid,  // oa
            (BaseVowel::O, BaseVowel::E) => NucleusStatus::Valid,  // oe
            (BaseVowel::O, BaseVowel::ABreve) => NucleusStatus::Valid,  // oa
            (BaseVowel::U, BaseVowel::Y) => NucleusStatus::Valid,  // uy
            (BaseVowel::U, BaseVowel::A) => NucleusStatus::Valid,  // ua
            (BaseVowel::U, BaseVowel::O) => NucleusStatus::InComplete,  // uo
            (BaseVowel::U, BaseVowel::OHorn) => NucleusStatus::Valid,  // uơ
            (BaseVowel::U, BaseVowel::OCircumflex) => NucleusStatus::Valid,  // uô
            (BaseVowel::U, BaseVowel::E) => NucleusStatus::InComplete,  // ue
            (BaseVowel::U, BaseVowel::ECircumflex) => NucleusStatus::Valid,  // uê
            (BaseVowel::UHorn, BaseVowel::O) => NucleusStatus::InComplete,  // ưo
            (BaseVowel::UHorn, BaseVowel::OHorn) => NucleusStatus::Valid,  // ươ
            (BaseVowel::UHorn, BaseVowel::A) => NucleusStatus::Valid,  // ưa
            (BaseVowel::UHorn, BaseVowel::I) => NucleusStatus::Valid,  // ưi
            (BaseVowel::UHorn, BaseVowel::U) => NucleusStatus::Valid,  // ưu
            _ => NucleusStatus::Dead,
        }
    } else if vowels.len() == 3 {
        match (vowels[0], vowels[1], vowels[2]) {
            (BaseVowel::I, BaseVowel::ECircumflex, BaseVowel::U) => NucleusStatus::Valid,  // iêu
            (BaseVowel::Y, BaseVowel::E, BaseVowel::U) => NucleusStatus::InComplete,  // yeu
            (BaseVowel::Y, BaseVowel::ECircumflex, BaseVowel::U) => NucleusStatus::Valid,  // yêu
            (BaseVowel::O, BaseVowel::A, BaseVowel::I) => NucleusStatus::Valid,  // oai
            (BaseVowel::O, BaseVowel::A, BaseVowel::O) => NucleusStatus::Valid,  // oao
            (BaseVowel::U, BaseVowel::Y, BaseVowel::E) => NucleusStatus::InComplete,  // uye
            (BaseVowel::U, BaseVowel::Y, BaseVowel::ECircumflex) => NucleusStatus::Valid,  // uyê
            (BaseVowel::U, BaseVowel::O, BaseVowel::I) => NucleusStatus::InComplete,  // uoi
            (BaseVowel::U, BaseVowel::OCircumflex, BaseVowel::I) => NucleusStatus::Valid,  // uôi
            (BaseVowel::UHorn, BaseVowel::OHorn, BaseVowel::I) => NucleusStatus::Valid,  // ươi
            (BaseVowel::UHorn, BaseVowel::OHorn, BaseVowel::U) => NucleusStatus::Valid,  // ươu
            _ => NucleusStatus::Dead,
        }
    } else {
        NucleusStatus::Dead
    }
}

/// The nuclei of the core nucleus table that the engine's table leaves out:
/// iu, oi, ôi, ơi, oo, uâ, ui, uu; ieu, oau, oay, oeo, uyu, uya, uao, uây,
/// uơi, uou, uơu, ưoi, ưou.
pub open spec fn engine_omits(v: Seq<BaseVowel>) -> bool {
    ||| v.len() == 2 && ((v[0] == BaseVowel::I && v[1] == BaseVowel::U)
        || (v[0] == BaseVowel::O && v[1] == BaseVowel::I)
        || (v[0] == BaseVowel::OCircumflex && v[1] == BaseVowel::I)
        || (v[0] == BaseVowel::OHorn && v[1] == BaseVowel::I)
        || (v[0] == BaseVowel::O && v[1] == BaseVowel::O)
        || (v[0] == BaseVowel::U && v[1] == BaseVowel::ACircumflex)
        || (v[0] == BaseVowel::U && v[1] == BaseVowel::I)
        || (v[0] == BaseVowel::U && v[1] == BaseVowel::U))
    ||| v.len() == 3 && ((v[0] == BaseVowel::I && v[1] == BaseVowel::E && v[2] == BaseVowel::U)
        || (v[0] == BaseVowel::O && v[1] == BaseVowel::A && v[2] == BaseVowel::U)
        || (v[0] == BaseVowel::O && v[1] == BaseVowel::A && v[2] == BaseVowel::Y)
        || (v[0] == BaseVowel::O && v[1] == BaseVowel::E && v[2] == BaseVowel::O)
        || (v[0] == BaseVowel::U && v[1] == BaseVowel::Y && v[2] == BaseVowel::U)
        || (v[0] == BaseVowel::U && v[1] == BaseVowel::Y && v[2] == BaseVowel::A)
        || (v[0] == BaseVowel::U && v[1] == BaseVowel::A && v[2] == BaseVowel::O)
        || (v[0] == BaseVowel::U && v[1] == BaseVowel::ACircumflex && v[2] == BaseVowel::Y)
        || (v[0] == BaseVowel::U && v[1] == BaseVowel::OHorn && v[2] == BaseVowel::I)
        || (v[0] == BaseVowel::U && v[1] == BaseVowel::O && v[2] == BaseVowel::U)
        || (v[0] == BaseVowel::U && v[1] == BaseVowel::OHorn && v[2] == BaseVowel::U)
        || (v[0] == BaseVowel::UHorn && v[1] == BaseVowel::O && v[2] == BaseVowel::I)
        || (v[0] == BaseVowel::UHorn && v[1] == BaseVowel::O && v[2] == BaseVowel::U))
}

/// The engine status that a status of the core nucleus table stands for.
pub open spec fn engine_status_of(s: nucleus::NucleusState) -> NucleusStatus {
    match s {
        nucleus::NucleusState::Dead => NucleusStatus::Dead,
        nucleus::NucleusState::Valid => NucleusStatus::Valid,
        nucleus::NucleusState::InComplete => NucleusStatus::InComplete,
    }
}

/// The engine's table is the core nucleus table ([`nucleus::nucleus_state`])
/// without the nuclei [`engine_omits`] lists, which it calls dead: on every
/// other sequence the two classify alike ("oa" is valid in both).
pub proof fn lemma_engine_table_within_core(v: Seq<BaseVowel>)
    ensures
        engine_nucleus_status(v) == if engine_omits(v) {
            NucleusStatus::Dead
        } else {
            engine_status_of(nucleus::nucleus_state(v))
        },
{
}

/// A dead nucleus stays dead when a vowel is added: the nucleus a live
/// three-vowel nucleus starts with is live ("oai" is valid, so "oa" is not
/// dead).
pub proof fn lemma_engine_dead_is_final(v: Seq<BaseVowel>)
    requires
        2 <= v.len() <= 3,
        engine_nucleus_status(v) != NucleusStatus::Dead,
    ensures
        engine_nucleus_status(v.drop_last()) != NucleusStatus::Dead,
{
}

} // verus!
