use vime_engine::phonology::rule::{check_nucleus_validity, NucleusStatus};
use vime_engine::phonology::rules::{cased_nucleus_flags, nucleus_flags, NucleusState, PhonotacticFlags};
use vime_engine::phonology::BaseVowel::{
    ABreve, ACircumflex, ECircumflex, OCircumflex, OHorn, UHorn, A, E, I, O, U, Y,
};
use vime_engine::phonology::{BaseVowel, Cased, Coda, Onset, Tone, NUCLEUS_MAX_LEN};

#[test]
fn nucleus_table_classifies_sequences() {
    assert_eq!(NucleusState::check(&[A]), NucleusState::Valid);
    assert_eq!(NucleusState::check(&[O, A, I]), NucleusState::Valid);
    assert_eq!(NucleusState::check(&[U, O]), NucleusState::InComplete);
    assert_eq!(NucleusState::check(&[Y, E, U]), NucleusState::InComplete);
    assert_eq!(NucleusState::check(&[A, A]), NucleusState::Dead);
    assert_eq!(NucleusState::check(&[]), NucleusState::Dead);
    assert_eq!(NucleusState::check(&[U, Y, E, U]), NucleusState::Dead);
    assert_eq!(NUCLEUS_MAX_LEN, 3);
}

#[test]
fn engine_table_classifies_sequences() {
    assert_eq!(check_nucleus_validity(&[A]), NucleusStatus::Valid);
    assert_eq!(check_nucleus_validity(&[O, ABreve]), NucleusStatus::Valid);
    assert_eq!(check_nucleus_validity(&[I, E]), NucleusStatus::InComplete);
    assert_eq!(check_nucleus_validity(&[I, O]), NucleusStatus::Dead);
    assert_eq!(check_nucleus_validity(&[]), NucleusStatus::Dead);
    assert_eq!(check_nucleus_validity(&[UHorn, OHorn, I]), NucleusStatus::Valid);
    assert_eq!(check_nucleus_validity(&[U, Y, E, U]), NucleusStatus::Dead);
}

#[test]
fn flag_operations() {
    let front = PhonotacticFlags::vowel_front();
    let palatal = PhonotacticFlags::vowel_allows_palatal();
    let both = front | palatal;
    assert_eq!(both.bits(), 0b101);
    assert_eq!(front.union(palatal), both);
    assert!(both.contains(front));
    assert!(!front.contains(both));
    assert!(both.intersects(palatal));
    assert!(!front.intersects(palatal));
    assert!(PhonotacticFlags::empty().is_empty());
    assert!(!both.is_empty());
    assert_eq!(PhonotacticFlags::from_bits_truncate(0x0200), PhonotacticFlags::coda_stop());
    let mut acc = PhonotacticFlags::empty();
    acc |= PhonotacticFlags::coda_palatal();
    acc |= PhonotacticFlags::coda_stop();
    assert_eq!(acc.bits(), 0x0600);
    assert_eq!(PhonotacticFlags::vowel_short().bits(), 1 << 1);
    assert_eq!(PhonotacticFlags::vowel_u().bits(), 1 << 3);
    assert_eq!(PhonotacticFlags::vowel_round().bits(), 1 << 4);
    assert_eq!(PhonotacticFlags::vowel_a().bits(), 1 << 5);
    assert_eq!(PhonotacticFlags::onset_requires_front().bits(), 1 << 6);
    assert_eq!(PhonotacticFlags::onset_forbids_front().bits(), 1 << 7);
    assert_eq!(PhonotacticFlags::onset_labiovelar().bits(), 1 << 8);
}

#[test]
fn component_flags() {
    assert_eq!(Onset::K.phonotactic_flags(), PhonotacticFlags::onset_requires_front());
    assert_eq!(Onset::Ng.phonotactic_flags(), PhonotacticFlags::onset_forbids_front());
    assert_eq!(Onset::Qu.phonotactic_flags(), PhonotacticFlags::onset_labiovelar());
    assert!(Onset::B.phonotactic_flags().is_empty());
    assert_eq!(Coda::Ch.phonotactic_flags().bits(), 0x0600);
    assert_eq!(Coda::Nh.phonotactic_flags(), PhonotacticFlags::coda_palatal());
    assert_eq!(Coda::P.phonotactic_flags(), PhonotacticFlags::coda_stop());
    assert!(Coda::Ng.phonotactic_flags().is_empty());
    assert!(Tone::Acute.allows_stop_coda());
    assert!(Tone::Dot.allows_stop_coda());
    assert!(!Tone::Flat.allows_stop_coda());
    assert!(!Tone::Tilde.allows_stop_coda());
    assert_eq!(A.phonotactic_flags().bits(), (1 << 5) | (1 << 2));
    assert_eq!(ABreve.phonotactic_flags().bits(), (1 << 5) | (1 << 1));
    assert_eq!(ACircumflex.phonotactic_flags().bits(), (1 << 5) | (1 << 1));
    assert_eq!(ECircumflex.phonotactic_flags().bits(), 0b101);
    assert_eq!(U.phonotactic_flags().bits(), (1 << 4) | (1 << 3));
    assert_eq!(OCircumflex.phonotactic_flags().bits(), 1 << 4);
    assert!(UHorn.phonotactic_flags().is_empty());
    assert!(OHorn.phonotactic_flags().is_empty());
}

#[test]
fn nucleus_flags_join_the_first_three_vowels() {
    assert_eq!(nucleus_flags(&[]), PhonotacticFlags::empty());
    assert_eq!(nucleus_flags(&[O, A, I]).bits(), (1 << 4) | (1 << 5) | (1 << 2) | 1);
    // Only the first three vowels count.
    assert_eq!(nucleus_flags(&[UHorn, OHorn, UHorn, I]), PhonotacticFlags::empty());
    let cased: Vec<Cased<BaseVowel>> = vec![Cased::new(U, true), Cased::new(Y, false)];
    assert_eq!(cased_nucleus_flags(&cased), nucleus_flags(&[U, Y]));
    let four = [Cased::new(O, false), Cased::new(O, false), Cased::new(O, false), Cased::new(E, false)];
    assert_eq!(cased_nucleus_flags(&four), PhonotacticFlags::vowel_round());
    let _ = I;
}

#[test]
fn cased_values_and_setters() {
    let mut c = Cased::new(A, false);
    assert_eq!(*c.value(), A);
    assert!(!c.is_upper());
    c.set_upper(true);
    assert!(c.is_upper());
    assert_eq!(*c.value(), A);
    c.set_value(OHorn);
    assert_eq!(*c.value(), OHorn);
    assert!(c.is_upper());
    assert_eq!(Cased::upper(E), Cased::new(E, true));
    assert_eq!(Cased::lower(E), Cased::new(E, false));
}

#[test]
fn flag_set_laws() {
    let all = [
        PhonotacticFlags::empty(),
        PhonotacticFlags::vowel_front(),
        PhonotacticFlags::vowel_front() | PhonotacticFlags::coda_stop(),
        PhonotacticFlags::from_bits_truncate(0x07FF),
    ];
    for a in all {
        assert!(a.contains(PhonotacticFlags::empty()));
        assert!(a.contains(a));
        assert_eq!(a.union(PhonotacticFlags::empty()), a);
        assert_eq!(a.union(a), a);
        for b in all {
            assert_eq!(a.contains(b), a.union(b) == a);
            assert_eq!(a.union(b), b.union(a));
            assert_eq!(a | b, a.union(b));
            for c in all {
                assert_eq!(a.union(b).union(c), a.union(b.union(c)));
            }
        }
    }
}
