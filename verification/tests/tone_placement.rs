use arrayvec::ArrayVec;
use vime_engine::phonology::tone_placement::{tone_index_modern, tone_index_old};
use vime_engine::phonology::BaseVowel::{
    ABreve, ACircumflex, ECircumflex, OCircumflex, OHorn, UHorn, A, E, I, O, U, Y,
};
use vime_engine::phonology::{BaseVowel, Cased, ExtendedBaseVowel, TonePlacement};

#[test]
fn modern_places_tones_by_the_standard() {
    let m = TonePlacement::Modern;
    assert_eq!(m.tone_index(&[][..] as &[BaseVowel], true), None);
    assert_eq!(m.tone_index(&[A][..], true), Some(0)); // á
    assert_eq!(m.tone_index(&[O, A][..], true), Some(1)); // hoá
    assert_eq!(m.tone_index(&[O, E][..], true), Some(1)); // khoẻ
    assert_eq!(m.tone_index(&[U, Y][..], true), Some(1)); // thuý
    assert_eq!(m.tone_index(&[I, A][..], true), Some(0)); // kìa
    assert_eq!(m.tone_index(&[A, I][..], true), Some(0)); // hái
    assert_eq!(m.tone_index(&[U, ECircumflex][..], true), Some(1)); // thuế
    assert_eq!(m.tone_index(&[UHorn, A][..], true), Some(0)); // mưa
    assert_eq!(m.tone_index(&[U, OCircumflex, I][..], true), Some(1)); // cuối
    assert_eq!(m.tone_index(&[O, A, I][..], true), Some(1)); // ngoài
    assert_eq!(m.tone_index(&[UHorn, OHorn, I][..], true), Some(1)); // người
    assert_eq!(m.tone_index(&[U, Y, ECircumflex][..], true), Some(2)); // khuyết
}

#[test]
fn old_style_depends_on_the_coda() {
    let o = TonePlacement::Old;
    assert_eq!(o.tone_index(&[O, A][..], true), Some(0)); // hòa
    assert_eq!(o.tone_index(&[O, A][..], false), Some(1)); // hoàn
    assert_eq!(o.tone_index(&[U, Y][..], true), Some(0)); // thùy
    assert_eq!(o.tone_index(&[O, ABreve][..], false), Some(1)); // hoặc
    assert_eq!(o.tone_index(&[ACircumflex, U][..], true), Some(0)); // cầu
    assert_eq!(o.tone_index(&[O, A, I][..], true), Some(1));
}

#[test]
fn free_functions_agree_with_the_placement() {
    let nuclei: [&[BaseVowel]; 6] = [&[E], &[O, E], &[A, Y], &[I, ECircumflex, U], &[Y, E, U], &[U, O]];
    for n in nuclei {
        for coda in [false, true] {
            assert_eq!(TonePlacement::Modern.tone_index(n, coda), tone_index_modern(n));
            assert_eq!(TonePlacement::Old.tone_index(n, coda), tone_index_old(n, coda));
            assert_eq!(TonePlacement::Modern.vowel_index(n, coda), tone_index_modern(n));
            assert_eq!(TonePlacement::Old.vowel_index(n, coda), tone_index_old(n, coda));
        }
    }
}

#[test]
fn longer_nuclei_fall_back_to_the_highest_priority_vowel() {
    // Never produced by composition, but the rule is total.
    assert_eq!(tone_index_modern(&[A, OHorn, E, OHorn][..]), Some(1));
    assert_eq!(tone_index_old(&[Y, U, I, E][..], true), Some(3));
    assert_eq!(TonePlacement::Modern.vowel_index(&[I, I, I, I][..], false), Some(0));
}

#[test]
fn extended_vowels_place_by_their_base() {
    let nucleus = [ExtendedBaseVowel::upper(O), ExtendedBaseVowel::lower(A)];
    assert_eq!(TonePlacement::Modern.vowel_index(&nucleus[..], true), Some(1));
    assert_eq!(TonePlacement::Old.vowel_index(&nucleus[..], true), Some(0));
}

#[test]
fn array_vec_nucleus_places_like_a_slice() {
    let mut nucleus: ArrayVec<Cased<BaseVowel>, 3> = ArrayVec::new();
    nucleus.push(Cased::new(U, true));
    nucleus.push(Cased::new(Y, false));
    assert_eq!(TonePlacement::Modern.tone_index(&nucleus, true), Some(1));
    assert_eq!(TonePlacement::Old.tone_index(&nucleus, true), Some(0));
    nucleus.push(Cased::new(ECircumflex, false));
    assert_eq!(TonePlacement::Modern.tone_index(&nucleus, false), Some(2));
    let empty: ArrayVec<Cased<BaseVowel>, 3> = ArrayVec::new();
    assert_eq!(TonePlacement::Modern.tone_index(&empty, true), None);
}

#[test]
fn default_placement_is_modern() {
    assert_eq!(TonePlacement::default(), TonePlacement::Modern);
    let _ = (I, O, OCircumflex, E);
}
