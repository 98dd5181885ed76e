use vime_engine::phonology::rules::NucleusState as Nucleus;
use vime_engine::phonology::rules::NucleusState::{Dead, InComplete, Valid};
use vime_engine::phonology::vowel::Shape::{Breve, Circumflex, Horn};
use vime_engine::phonology::vowel::BaseVowel::{
    ABreve, ACircumflex, ECircumflex, OCircumflex, OHorn, UHorn, A, E, I, O, U, Y,
};
use vime_engine::phonology::vowel::{BaseVowel, Shape};
use vime_engine::phonology::vowel_dfa::{
    base_vowel_names, generate, is_complete, shape_id, shape_names, vowel_rules, Completion,
    DfaError, NucleusState, Rule, VowelDfa, COMPLETE_BIT, INPUT_MASK,
};

const VOWELS: [BaseVowel; 12] = [
    Y, U, I, E, O, A, UHorn, ACircumflex, OCircumflex, ABreve, ECircumflex, OHorn,
];

fn dfa() -> VowelDfa {
    VowelDfa::new().expect("the nucleus table makes a DFA")
}

/// The rule-table oracle.
fn reference(vowels: &[BaseVowel]) -> Nucleus {
    if vowels.is_empty() || vowels.len() > 3 {
        return Nucleus::Dead;
    }
    Nucleus::check(vowels)
}

/// Walks the base-vowel edges, resolving the id of the state whose nucleus
/// is exactly `letters`.
fn resolve(d: &VowelDfa, letters: &[BaseVowel]) -> u8 {
    let mut i = 0;
    let mut state = letters[i].id() as u8;
    i += 1;
    while i < letters.len() {
        state = d
            .transition(state, letters[i].id() as u8)
            .unwrap_or_else(|| panic!("no base step for {letters:?}"));
        i += 1;
    }
    state
}

/// An unmarked "uơ" / "ưo" pair folds to "ươ" once a third vowel is pushed.
fn finalize_uo(vowels: &[BaseVowel]) -> Vec<BaseVowel> {
    if vowels.len() == 3 {
        match (vowels[0], vowels[1]) {
            (BaseVowel::U, BaseVowel::OHorn) | (BaseVowel::UHorn, BaseVowel::O) => {
                return vec![BaseVowel::UHorn, BaseVowel::OHorn, vowels[2]];
            }
            _ => {}
        }
    }
    vowels.to_vec()
}

#[test]
fn exhaustive_matches_reference() {
    let d = dfa();
    assert_eq!(d.check_nucleus_validity(&[]), reference(&[]), "empty");
    for &v1 in &VOWELS {
        assert_eq!(d.check_nucleus_validity(&[v1]), reference(&[v1]), "1 [{v1:?}]");
        for &v2 in &VOWELS {
            assert_eq!(
                d.check_nucleus_validity(&[v1, v2]),
                reference(&[v1, v2]),
                "2 [{v1:?}{v2:?}]"
            );
            for &v3 in &VOWELS {
                let seq = [v1, v2, v3];
                assert_eq!(
                    d.check_nucleus_validity(&seq),
                    reference(&finalize_uo(&seq)),
                    "3 [{v1:?}{v2:?}{v3:?}]"
                );
            }
        }
    }
}

#[test]
fn rule_spot_checks() {
    let d = dfa();
    let cases: &[(&[BaseVowel], Nucleus)] = &[
        (&[A], Valid),
        (&[ABreve], Valid),
        (&[ACircumflex], Valid),
        (&[E], Valid),
        (&[ECircumflex], Valid),
        (&[I], Valid),
        (&[Y], Valid),
        (&[O], Valid),
        (&[OCircumflex], Valid),
        (&[OHorn], Valid),
        (&[U], Valid),
        (&[UHorn], Valid),
        (&[A, I], Valid),
        (&[A, O], Valid),
        (&[A, U], Valid),
        (&[A, Y], Valid),
        (&[ACircumflex, U], Valid),
        (&[ACircumflex, Y], Valid),
        (&[I, A], Valid),
        (&[I, E], InComplete),
        (&[I, ECircumflex], Valid),
        (&[I, E, U], InComplete),
        (&[I, ECircumflex, U], Valid),
        (&[I, U], Valid),
        (&[Y, E], InComplete),
        (&[Y, ECircumflex], Valid),
        (&[Y, E, U], InComplete),
        (&[Y, ECircumflex, U], Valid),
        (&[E, O], Valid),
        (&[E, U], InComplete),
        (&[ECircumflex, U], Valid),
        (&[O, A], Valid),
        (&[O, ABreve], Valid),
        (&[O, A, I], Valid),
        (&[O, A, O], Valid),
        (&[O, A, U], Valid),
        (&[O, A, Y], Valid),
        (&[O, E], Valid),
        (&[O, E, O], Valid),
        (&[O, I], Valid),
        (&[OCircumflex, I], Valid),
        (&[OHorn, I], Valid),
        (&[O, O], InComplete),
        (&[U, Y], Valid),
        (&[U, Y, U], Valid),
        (&[U, Y, A], Valid),
        (&[U, Y, E], InComplete),
        (&[U, Y, ECircumflex], Valid),
        (&[U, A], Valid),
        (&[U, A, O], Valid),
        (&[U, ACircumflex], Valid),
        (&[U, ACircumflex, Y], Valid),
        (&[U, O], InComplete),
        (&[U, OHorn], Valid),
        (&[U, OCircumflex], Valid),
        (&[U, O, I], InComplete),
        (&[U, OCircumflex, I], Valid),
        (&[U, O, U], InComplete),
        (&[U, E], InComplete),
        (&[U, ECircumflex], Valid),
        (&[U, I], Valid),
        (&[UHorn, O], InComplete),
        (&[UHorn, OHorn], Valid),
        (&[UHorn, OHorn, I], Valid),
        (&[UHorn, OHorn, U], Valid),
        (&[UHorn, A], Valid),
        (&[UHorn, I], Valid),
        (&[U, U], InComplete),
        (&[UHorn, U], Valid),
        (&[A, A], Dead),
        (&[I, O], Dead),
        (&[E, ECircumflex], Dead),
        (&[U, UHorn], Dead),
        (&[Y, I], Dead),
        (&[O, A, A], Dead),
    ];
    for (sequence, want) in cases {
        assert_eq!(d.check_nucleus_validity(sequence), *want, "rule spot-check: {sequence:?}");
        assert_eq!(reference(sequence), *want, "reference disagrees: {sequence:?}");
    }
}

#[test]
fn uo_fold_transitions() {
    let d = dfa();
    let u_oh = resolve(&d, &[U, OHorn]);
    let uh_o = resolve(&d, &[UHorn, O]);
    let uh_oh_i = resolve(&d, &[UHorn, OHorn, I]);
    let uh_oh_u = resolve(&d, &[UHorn, OHorn, U]);
    for (src, input, dst) in [
        (u_oh, I, uh_oh_i),
        (u_oh, U, uh_oh_u),
        (uh_o, I, uh_oh_i),
        (uh_o, U, uh_oh_u),
    ] {
        assert_eq!(d.transition(src, input.id() as u8), Some(dst), "fold edge");
    }
    for seq in [
        &[U, OHorn, I][..],
        &[U, OHorn, U][..],
        &[UHorn, O, I][..],
        &[UHorn, O, U][..],
    ] {
        assert_eq!(d.check_nucleus_validity(seq), Valid, "{seq:?}");
    }
    assert_eq!(d.check_nucleus_validity(&[U, OHorn]), Valid);
    assert_eq!(d.check_nucleus_validity(&[UHorn, O]), InComplete);
}

fn shape_off(v: BaseVowel) -> BaseVowel {
    match v {
        OCircumflex | OHorn => O,
        ACircumflex | ABreve => A,
        ECircumflex => E,
        UHorn => U,
        other => other,
    }
}

fn shape_at(vowels: &[BaseVowel], index: usize, shape: Shape) -> Option<Vec<BaseVowel>> {
    let old = vowels[index];
    if old.shape() == shape && shape != Shape::Plain {
        let mut v = vowels.to_vec();
        v[index] = shape_off(old);
        return Some(v);
    }
    let new_vowel = BaseVowel::from_parts(old.root(), shape).ok()?;
    let mut v = vowels.to_vec();
    v[index] = new_vowel;
    if vowels.len() < 2 {
        return Some(v);
    }
    match reference(&v) {
        Nucleus::Dead => None,
        _ => Some(v),
    }
}

fn uo_horn(vowels: &[BaseVowel]) -> Option<Vec<BaseVowel>> {
    match (vowels[0], vowels[1]) {
        (UHorn, OHorn) => {
            let mut v = vowels.to_vec();
            v[0] = U;
            v[1] = O;
            Some(v)
        }
        (UHorn, OCircumflex) => None,
        (UHorn, O) => shape_at(vowels, 1, Shape::Horn),
        (U, O) => shape_at(vowels, 1, Shape::Horn),
        (U, OHorn) => shape_at(vowels, 0, Shape::Horn),
        (U, OCircumflex) => shape_at(vowels, 1, Shape::Horn),
        _ => None,
    }
}

fn uo_circumflex(vowels: &[BaseVowel]) -> Option<Vec<BaseVowel>> {
    match (vowels[0], vowels[1]) {
        (UHorn, OHorn) => {
            let mut v = vowels.to_vec();
            v[0] = U;
            shape_at(&v, 1, Shape::Circumflex)
        }
        (UHorn, OCircumflex) => None,
        (UHorn, O) => {
            let mut v = vowels.to_vec();
            v[0] = U;
            shape_at(&v, 1, Shape::Circumflex)
        }
        (U, O) => shape_at(vowels, 1, Shape::Circumflex),
        (U, OHorn) => shape_at(vowels, 1, Shape::Circumflex),
        (U, OCircumflex) => {
            let mut v = vowels.to_vec();
            v[1] = O;
            Some(v)
        }
        _ => None,
    }
}

/// The engine's shape transform: scan the nucleus right-to-left and shape the
/// rightmost vowel that can take the shape, with the "u o" prefix handled as a
/// pair.
fn shape_model(vowels: &[BaseVowel], shape: Shape) -> Option<Vec<BaseVowel>> {
    let uo = vowels.len() > 1
        && matches!(vowels[0], U | UHorn)
        && matches!(vowels[1], O | OCircumflex | OHorn);
    for index in (0..vowels.len()).rev() {
        if BaseVowel::from_parts(vowels[index].root(), shape).is_err() {
            continue;
        }
        if uo {
            match shape {
                Shape::Horn => return uo_horn(vowels),
                Shape::Circumflex => return uo_circumflex(vowels),
                _ => {}
            }
        }
        if let Some(out) = shape_at(vowels, index, shape) {
            return Some(out);
        }
    }
    None
}

#[test]
fn shape_edges_match_engine_model() {
    let d = dfa();
    let h = shape_id(Horn);
    let uoi = resolve(&d, &[U, O, I]);
    let uou = resolve(&d, &[U, O, U]);
    let u_oh_i = d.transition(uoi, h).unwrap();
    let u_oh_u = d.transition(uou, h).unwrap();
    let id = |letters: &[BaseVowel]| -> u8 {
        if letters == [U, OHorn, I] {
            u_oh_i
        } else if letters == [U, OHorn, U] {
            u_oh_u
        } else {
            resolve(&d, letters)
        }
    };
    let edges: &[(&[BaseVowel], Shape, &[BaseVowel])] = &[
        (&[A, U], Circumflex, &[ACircumflex, U]),
        (&[ACircumflex, U], Circumflex, &[A, U]),
        (&[A, Y], Circumflex, &[ACircumflex, Y]),
        (&[ACircumflex, Y], Circumflex, &[A, Y]),
        (&[I, E], Circumflex, &[I, ECircumflex]),
        (&[I, ECircumflex], Circumflex, &[I, E]),
        (&[I, E, U], Circumflex, &[I, ECircumflex, U]),
        (&[I, ECircumflex, U], Circumflex, &[I, E, U]),
        (&[Y, E, U], Circumflex, &[Y, ECircumflex, U]),
        (&[Y, ECircumflex, U], Circumflex, &[Y, E, U]),
        (&[E, U], Circumflex, &[ECircumflex, U]),
        (&[ECircumflex, U], Circumflex, &[E, U]),
        (&[O, I], Circumflex, &[OCircumflex, I]),
        (&[OCircumflex, I], Circumflex, &[O, I]),
        (&[OHorn, I], Circumflex, &[OCircumflex, I]),
        (&[O, I], Horn, &[OHorn, I]),
        (&[OCircumflex, I], Horn, &[OHorn, I]),
        (&[OHorn, I], Horn, &[O, I]),
        (&[U, A], Circumflex, &[U, ACircumflex]),
        (&[U, ACircumflex], Circumflex, &[U, A]),
        (&[U, A], Horn, &[UHorn, A]),
        (&[UHorn, A], Horn, &[U, A]),
        (&[U, O], Circumflex, &[U, OCircumflex]),
        (&[U, OCircumflex], Circumflex, &[U, O]),
        (&[U, OHorn], Circumflex, &[U, OCircumflex]),
        (&[UHorn, O], Circumflex, &[U, OCircumflex]),
        (&[UHorn, OHorn], Circumflex, &[U, OCircumflex]),
        (&[U, O, I], Circumflex, &[U, OCircumflex, I]),
        (&[U, OCircumflex, I], Circumflex, &[U, O, I]),
        (&[U, OHorn, I], Circumflex, &[U, OCircumflex, I]),
        (&[UHorn, OHorn, I], Circumflex, &[U, OCircumflex, I]),
        (&[U, O], Horn, &[U, OHorn]),
        (&[U, OCircumflex], Horn, &[U, OHorn]),
        (&[U, OHorn], Horn, &[UHorn, OHorn]),
        (&[UHorn, OHorn], Horn, &[U, O]),
        (&[UHorn, O], Horn, &[UHorn, OHorn]),
        (&[U, O, I], Horn, &[U, OHorn, I]),
        (&[U, O, U], Horn, &[U, OHorn, U]),
        (&[U, OCircumflex, I], Horn, &[U, OHorn, I]),
        (&[U, OHorn, I], Horn, &[UHorn, OHorn, I]),
        (&[U, OHorn, U], Horn, &[UHorn, OHorn, U]),
        (&[UHorn, OHorn, I], Horn, &[U, O, I]),
        (&[UHorn, OHorn, U], Horn, &[U, O, U]),
        (&[U, E], Circumflex, &[U, ECircumflex]),
        (&[U, ECircumflex], Circumflex, &[U, E]),
        (&[U, I], Horn, &[UHorn, I]),
        (&[UHorn, I], Horn, &[U, I]),
        (&[UHorn, U], Horn, &[U, U]),
        (&[U, U], Horn, &[UHorn, U]),
        (&[O, A], Breve, &[O, ABreve]),
        (&[O, ABreve], Breve, &[O, A]),
    ];
    for (src, shape, dst) in edges {
        let model = shape_model(src, *shape);
        assert_eq!(model.as_deref(), Some(*dst), "model mismatch for {src:?} + {shape:?}");
        assert_ne!(reference(dst), Nucleus::Dead, "target is not a nucleus: {dst:?}");
        assert_eq!(
            d.transition(id(src), shape_id(*shape)),
            Some(id(dst)),
            "DFA edge for {src:?} + {shape:?}"
        );
    }
    assert_eq!(d.transition_count(), d.transitions().len());
}

#[test]
fn no_shape_over_generation() {
    let d = dfa();
    let none: &[(&[BaseVowel], Shape)] = &[
        (&[A, O], Circumflex),
        (&[A, O], Horn),
        (&[A, O], Breve),
        (&[A, I], Circumflex),
        (&[A, I], Horn),
        (&[E, U], Horn),
        (&[ECircumflex, U], Horn),
        (&[E, O], Circumflex),
        (&[E, O], Horn),
        (&[Y, E, U], Horn),
        (&[U, Y], Circumflex),
        (&[U, Y], Horn),
        (&[U, Y, E], Horn),
        (&[U, Y, ECircumflex], Horn),
        (&[O, A], Circumflex),
        (&[O, A], Horn),
        (&[O, ABreve], Circumflex),
        (&[O, ABreve], Horn),
        (&[O, E], Circumflex),
        (&[O, E], Horn),
        (&[O, E, O], Circumflex),
        (&[O, E, O], Horn),
        (&[O, A, U], Circumflex),
        (&[O, A, U], Horn),
        (&[U, A, O], Circumflex),
        (&[U, A, O], Horn),
        (&[U, ACircumflex, Y], Circumflex),
        (&[U, ACircumflex, Y], Horn),
        (&[U, ACircumflex, Y], Breve),
        (&[U, A], Breve),
        (&[UHorn, A], Circumflex),
        (&[UHorn, A], Breve),
        (&[U, E], Horn),
        (&[U, ECircumflex], Horn),
        (&[U, I], Circumflex),
        (&[U, I], Breve),
        (&[U, U], Circumflex),
        (&[UHorn, U], Circumflex),
    ];
    for (letters, shape) in none {
        let src = resolve(&d, letters);
        assert_eq!(
            d.transition(src, shape_id(*shape)),
            None,
            "unexpected edge for {letters:?} + {shape:?}"
        );
    }
}

#[test]
fn base_state_ids_are_base_vowels() {
    let d = dfa();
    assert_eq!(d.state_count(), d.states().len());
    assert_eq!(d.transition_count(), d.transitions().len());
    for (i, vowel) in VOWELS.iter().enumerate() {
        assert_eq!(vowel.id(), i, "id order");
        let state = d.states()[i];
        assert_eq!(state.mask & COMPLETE_BIT, COMPLETE_BIT, "single vowel {i}");
    }
}

#[test]
fn bitmap_is_consistent_and_dangling_free() {
    let d = dfa();
    let states = d.states();
    let mut state = 0usize;
    while state < states.len() {
        let row = &states[state];
        let mut input = 0u8;
        while input < 15 {
            let bit = 1u16 << input;
            let has_edge = row.mask & bit != 0;
            assert_eq!(
                d.transition(state as u8, input).is_some(),
                has_edge,
                "state {} input {}",
                state,
                input
            );
            if has_edge {
                let target = d.transition(state as u8, input).unwrap();
                assert!(
                    (target as usize) < states.len(),
                    "state {} input {} -> dangling {}",
                    state,
                    input,
                    target
                );
            }
            input += 1;
        }
        state += 1;
    }
    assert_eq!(d.transition(0, 15), None);
    assert_eq!(d.transition(0, 255), None);
}

/// The outgoing-input bitmap of `state`, rebuilt from the name table.
fn declared_mask(state: usize, d: &VowelDfa) -> u16 {
    let mut mask = 0u16;
    let mut input = 0u8;
    while input < 15 {
        if d.transition(state as u8, input).is_some() {
            mask |= 1u16 << input;
        }
        input += 1;
    }
    mask
}

#[test]
fn mask_matches_edge_table() {
    let d = dfa();
    let states = d.states();
    let mut state = 0usize;
    while state < states.len() {
        let row = &states[state];
        assert_eq!(row.mask & INPUT_MASK, declared_mask(state, &d), "mask for state {state}");
        let mut inputs = 0;
        let mut input = 0u8;
        while input < 15 {
            if row.mask & (1u16 << input) != 0 {
                inputs += 1;
            }
            input += 1;
        }
        assert_eq!(
            (row.mask & INPUT_MASK).count_ones() as i32,
            inputs,
            "bit count for state {state}"
        );
        state += 1;
    }
}

#[test]
fn spelling_edges() {
    let d = dfa();
    let c = shape_id(Circumflex);
    let b = shape_id(Breve);
    let h = shape_id(Horn);
    let t = |v: BaseVowel, input: u8| d.transition(v.id() as u8, input);
    let id = |v: BaseVowel| Some(v.id() as u8);

    assert_eq!(t(A, c), id(ACircumflex));
    assert_eq!(t(A, b), id(ABreve));
    assert_eq!(t(A, h), None);
    assert_eq!(t(U, h), id(UHorn));
    assert_eq!(t(U, c), None);
    assert_eq!(t(I, c), None);
    assert_eq!(t(I, b), None);
    assert_eq!(t(I, h), None);
    assert_eq!(t(Y, c), None);
    assert_eq!(t(E, c), id(ECircumflex));
    assert_eq!(t(O, c), id(OCircumflex));
    assert_eq!(t(O, h), id(OHorn));
    assert_eq!(t(O, b), None);

    assert_eq!(t(ACircumflex, c), id(A));
    assert_eq!(t(ABreve, b), id(A));
    assert_eq!(t(OCircumflex, c), id(O));
    assert_eq!(t(OHorn, h), id(O));
    assert_eq!(t(ECircumflex, c), id(E));
    assert_eq!(t(UHorn, h), id(U));

    assert_eq!(t(ACircumflex, b), id(ABreve));
    assert_eq!(t(ABreve, c), id(ACircumflex));
    assert_eq!(t(OCircumflex, h), id(OHorn));
    assert_eq!(t(OHorn, c), id(OCircumflex));

    assert_eq!(t(ACircumflex, h), None);
    assert_eq!(t(ECircumflex, b), None);
    assert_eq!(t(ECircumflex, h), None);
    assert_eq!(t(UHorn, c), None);
}

#[test]
fn compound_spelling_toggles() {
    let d = dfa();
    let c = shape_id(Shape::Circumflex);
    let ye = d.transition(Y.id() as u8, E.id() as u8).unwrap();
    let yec = d.transition(ye, c).unwrap();
    assert_eq!(d.transition(yec, c), Some(ye));
    let uy = d.transition(U.id() as u8, Y.id() as u8).unwrap();
    let uye = d.transition(uy, E.id() as u8).unwrap();
    let uyec = d.transition(uye, c).unwrap();
    assert_eq!(d.transition(uyec, c), Some(uye));
    assert_eq!(d.transition(uy, c), None);
}

#[test]
fn table_totals() {
    let d = dfa();
    let count = d.state_count();
    let mut complete = 0;
    let mut s = 0;
    while s < count {
        if d.is_state_complete(s as u8) {
            complete += 1;
        }
        s += 1;
    }
    println!(
        "states={} ({} base + {} compound), complete={}, transitions={}",
        count,
        12,
        count - 12,
        complete,
        d.transitions().len()
    );
}

#[test]
fn every_state_is_reachable_from_a_base_state() {
    let d = dfa();
    let count = d.state_count();
    let mut reachable = vec![false; count];
    let mut s = 0;
    while s < 12 {
        reachable[s] = true;
        s += 1;
    }
    let mut changed = true;
    while changed {
        changed = false;
        let mut s = 0;
        while s < count {
            if !reachable[s] {
                s += 1;
                continue;
            }
            let mut input = 0u8;
            while input < 15 {
                if let Some(next) = d.transition(s as u8, input) {
                    if next as usize >= count {
                        panic!("dangling target {} from state {} input {}", next, s, input);
                    }
                    if !reachable[next as usize] {
                        reachable[next as usize] = true;
                        changed = true;
                    }
                }
                input += 1;
            }
            s += 1;
        }
    }
    let mut s = 0;
    let mut missing: Vec<usize> = Vec::new();
    while s < count {
        if !reachable[s] {
            missing.push(s);
        }
        s += 1;
    }
    assert!(missing.is_empty(), "unreachable states: {missing:?}");
}

#[test]
fn layout_is_exactly_mask_plus_offset() {
    assert_eq!(std::mem::size_of::<NucleusState>(), 4);
    assert_eq!(std::mem::align_of::<NucleusState>(), 2);
    assert_eq!(std::mem::size_of::<u8>(), 1);
}

#[test]
fn rank_matches_linear_scan() {
    let d = dfa();
    let states = d.states();
    let transitions = d.transitions();
    let mut state = 0usize;
    while state < states.len() {
        let row = &states[state];
        let mut packed: Vec<u8> = Vec::new();
        let mut input = 0u8;
        while input < 15 {
            if row.mask & (1u16 << input) != 0 {
                let tgt = d.transition(state as u8, input).expect("an edge for a mask bit");
                packed.push(tgt);
            }
            input += 1;
        }
        let off = row.transition_offset as usize;
        for (k, tgt) in packed.iter().enumerate() {
            assert_eq!(transitions[off + k], *tgt, "row {} rank {}", state, k);
        }
        state += 1;
    }
}

// ── further checks of the generator ──

#[test]
fn dfa_states_and_names() {
    let d = dfa();
    assert_eq!(base_vowel_names().len(), 12);
    assert_eq!(shape_names(), vec!["Circumflex", "Breve", "Horn"]);
    assert!(d.state_count() > 12);
    assert!(d.is_state_complete(0));
    assert!(!d.is_state_complete(255));
    assert!(is_complete(NucleusState { mask: COMPLETE_BIT, transition_offset: 0 }));
    assert!(!is_complete(NucleusState { mask: INPUT_MASK, transition_offset: 0 }));
    assert_eq!(shape_id(Shape::Circumflex), 12);
    assert_eq!(shape_id(Shape::Breve), 13);
    assert_eq!(shape_id(Shape::Horn), 14);
    assert_eq!(shape_id(Shape::Plain), 11);
    // ie is incomplete, iê complete.
    let ie = resolve(&d, &[I, E]);
    let iec = resolve(&d, &[I, ECircumflex]);
    assert!(!d.is_state_complete(ie));
    assert!(d.is_state_complete(iec));
}

fn rule(src: &'static str, input: &'static str, tgt: &'static str, status: Completion) -> Rule {
    Rule { src, input, tgt, status }
}

fn build(rules: &[Rule]) -> Result<VowelDfa, DfaError> {
    generate(rules, &base_vowel_names(), &shape_names())
}

#[test]
fn generator_rejects_unknown_input() {
    let rules = vec![rule("A", "Tilde", "Â", Completion::Complete)];
    assert_eq!(build(&rules).err(), Some(DfaError::UnknownInput));
}

#[test]
fn generator_rejects_incomplete_base_state() {
    let rules = vec![rule("A", "Circumflex", "Â", Completion::Incomplete)];
    assert_eq!(build(&rules).err(), Some(DfaError::IncompleteBaseState));
}

#[test]
fn generator_rejects_conflicting_status() {
    let rules = vec![
        rule("A", "I", "AI", Completion::Complete),
        rule("Â", "I", "AI", Completion::Incomplete),
    ];
    assert_eq!(build(&rules).err(), Some(DfaError::ConflictingStatus));
}

#[test]
fn generator_rejects_missing_status() {
    let rules = vec![rule("AI", "Circumflex", "A", Completion::Complete)];
    assert_eq!(build(&rules).err(), Some(DfaError::MissingStatus));
}

#[test]
fn generator_rejects_conflicting_target() {
    let rules = vec![
        rule("A", "Circumflex", "Â", Completion::Complete),
        rule("A", "Circumflex", "Ă", Completion::Complete),
    ];
    assert_eq!(build(&rules).err(), Some(DfaError::ConflictingTarget));
}

#[test]
fn generator_tolerates_identical_duplicates() {
    let rules = vec![
        rule("A", "Circumflex", "Â", Completion::Complete),
        rule("A", "Circumflex", "Â", Completion::Complete),
    ];
    let d = build(&rules).unwrap();
    assert_eq!(d.state_count(), 12);
    assert_eq!(d.transition_count(), 1);
    assert_eq!(d.transition(A.id() as u8, 12), Some(ACircumflex.id() as u8));
}

#[test]
fn generator_rejects_too_many_states() {
    let more: Vec<&'static str> = (0..64)
        .map(|i| &*Box::leak(format!("Z{i}").into_boxed_str()))
        .collect();
    let rules: Vec<Rule> = more.iter().map(|n| rule("A", "I", n, Completion::Complete)).collect();
    assert_eq!(build(&rules).err(), Some(DfaError::TooManyStates));
}

#[test]
fn generator_rejects_offset_overflow() {
    // 17 compounds with 15 edges each start a row beyond offset 255.
    let names: Vec<&'static str> = (0..20)
        .map(|i| &*Box::leak(format!("W{i}").into_boxed_str()))
        .collect();
    let inputs = ["Y", "U", "I", "E", "O", "A", "Ư", "Â", "Ô", "Ă", "Ê", "Ơ", "Circumflex", "Breve", "Horn"];
    let mut rules = Vec::new();
    for n in &names {
        rules.push(rule("A", "I", n, Completion::Complete));
    }
    for n in &names {
        for input in inputs {
            rules.push(rule(n, input, "A", Completion::Complete));
        }
    }
    assert_eq!(build(&rules).err(), Some(DfaError::ConflictingTarget));
    let mut rules = Vec::new();
    for (k, n) in names.iter().enumerate() {
        if k == 0 {
            rules.push(rule("A", "I", n, Completion::Complete));
        } else {
            rules.push(rule(names[k - 1], "I", n, Completion::Complete));
        }
    }
    for n in &names {
        for input in inputs {
            if input != "I" {
                rules.push(rule(n, input, "A", Completion::Complete));
            }
        }
    }
    assert_eq!(build(&rules).err(), Some(DfaError::OffsetOverflow));
}

#[test]
fn built_in_dfa_matches_the_nucleus_table() {
    let d = dfa();
    assert!(vime_engine::phonology::vowel_dfa::matches_nucleus_table(&d));
}

#[test]
fn a_changed_table_no_longer_matches() {
    let mut rules = vowel_rules();
    // "ai" becomes incomplete, unlike the nucleus table.
    for r in rules.iter_mut() {
        if r.src == "A" && r.input == "I" {
            r.status = Completion::Incomplete;
        }
    }
    let d = build(&rules).unwrap();
    assert!(!vime_engine::phonology::vowel_dfa::matches_nucleus_table(&d));
}

#[test]
fn built_in_table_sizes() {
    let d = dfa();
    assert_eq!(d.state_count(), 71);
    assert_eq!(d.transition_count(), 132);
}
