use vime_engine::phonology::rules::nucleus_lut::{build, check, key_of, lut, SENTINEL};
use vime_engine::phonology::rules::NucleusState;
use vime_engine::phonology::BaseVowel;

const VOWELS: [BaseVowel; 12] = [
    BaseVowel::Y,
    BaseVowel::U,
    BaseVowel::I,
    BaseVowel::E,
    BaseVowel::O,
    BaseVowel::A,
    BaseVowel::UHorn,
    BaseVowel::ACircumflex,
    BaseVowel::OCircumflex,
    BaseVowel::ABreve,
    BaseVowel::ECircumflex,
    BaseVowel::OHorn,
];

#[test]
fn parity_with_slice_match() {
    let mut checked = 0;
    for &a in &VOWELS {
        assert_eq!(check(&[a]), NucleusState::check(&[a]));
        for &b in &VOWELS {
            assert_eq!(check(&[a, b]), NucleusState::check(&[a, b]));
            for &c in &VOWELS {
                assert_eq!(check(&[a, b, c]), NucleusState::check(&[a, b, c]));
                checked += 1;
            }
        }
    }
    assert!(checked > 0);
}

#[test]
fn rejects_illformed_inputs() {
    assert_eq!(check(&[]), NucleusState::Dead);
    let four = [BaseVowel::A, BaseVowel::A, BaseVowel::A, BaseVowel::A];
    assert_eq!(check(&four), NucleusState::Dead);
}

#[test]
fn keys_pack_ids_with_sentinels() {
    assert_eq!(key_of(5, SENTINEL, SENTINEL), 0xFF5);
    assert_eq!(key_of(2, 3, SENTINEL), 0xF32);
    assert_eq!(key_of(1, 4, 2), 0x241);
    assert_eq!(key_of(SENTINEL, SENTINEL, SENTINEL), 0xFFF);
}

#[test]
fn table_entries_match_the_rule_table() {
    let table = lut();
    assert_eq!(table, build());
    // "ai" is valid, "ie" incomplete, "aa" dead, and unused keys are dead.
    assert_eq!(table[key_of(BaseVowel::A.id(), BaseVowel::I.id(), SENTINEL)], NucleusState::Valid);
    assert_eq!(table[key_of(BaseVowel::I.id(), BaseVowel::E.id(), SENTINEL)], NucleusState::InComplete);
    assert_eq!(table[key_of(BaseVowel::A.id(), BaseVowel::A.id(), SENTINEL)], NucleusState::Dead);
    assert_eq!(table[0xFFF], NucleusState::Dead);
    assert_eq!(table[key_of(SENTINEL, 1, 1)], NucleusState::Dead);
}
