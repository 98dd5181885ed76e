use vime_engine::phonology::{BaseVowel, ExtendedBaseVowel, RootVowel, Shape};

/// Every [`BaseVowel`], in id order.
const ALL_BASES: [BaseVowel; BaseVowel::COUNT] = [
    BaseVowel::Y,
    BaseVowel::U,
    BaseVowel::I,
    BaseVowel::E,
    BaseVowel::O,
    BaseVowel::A,
    BaseVowel::UHorn,
    BaseVowel::ACircumflex,
    BaseVowel::OCircumflex,
    BaseVowel::ABreve,
    BaseVowel::ECircumflex,
    BaseVowel::OHorn,
];

/// Every [`BaseVowel`] discriminant must fit entirely below the case bit.
#[test]
fn base_vowel_discriminants_fit_below_the_case_bit() {
    for &base in &ALL_BASES {
        let raw = base.bits();
        assert!(
            raw < ExtendedBaseVowel::CASE_MASK,
            "{base:?} (0x{raw:x}) overlaps the case bit at bit {}",
            ExtendedBaseVowel::CASE_OFFSET,
        );
    }
}

/// All 24 `(base, case)` combinations pack into distinct `u16`s, with the
/// lower form equal to the bare discriminant and the upper form exactly one
/// case-bit away. Reserved bits above the case bit stay clear.
#[test]
fn all_base_case_combinations_pack_distinctly() {
    const PACK_SPACE: usize = 1 << (BaseVowel::NEXT_OFFSET as usize + 1);
    let mut seen = [false; PACK_SPACE];

    for &base in &ALL_BASES {
        let lower = ExtendedBaseVowel::lower(base);
        let upper = ExtendedBaseVowel::upper(base);

        assert_eq!(lower.bits(), base.bits(), "lower form must be the bare discriminant");
        assert_eq!(
            upper.bits(),
            base.bits() | ExtendedBaseVowel::CASE_MASK,
            "upper form must set exactly the case bit",
        );

        for cased in [lower, upper] {
            assert_eq!(
                cased.bits() >> (ExtendedBaseVowel::CASE_OFFSET + 1),
                0,
                "reserved bits above the case bit are set in {cased:?}",
            );
            assert!(!seen[cased.bits() as usize], "duplicate packed value for {cased:?}");
            seen[cased.bits() as usize] = true;
        }
    }
}

/// Setters never push the packed value outside the `(base, case)` space.
#[test]
fn setters_preserve_packed_bounds() {
    for &base in &ALL_BASES {
        let mut cased = ExtendedBaseVowel::lower(base);

        cased.set_case(true);
        assert_eq!(cased, ExtendedBaseVowel::upper(base));

        cased.set_case(false);
        assert_eq!(cased, ExtendedBaseVowel::lower(base));

        for &replacement in &ALL_BASES {
            cased.set(replacement);
            assert_eq!(cased.get(), replacement);
            assert!(
                cased.bits() < ExtendedBaseVowel::CASE_MASK
                    || cased.bits() - ExtendedBaseVowel::CASE_MASK < ExtendedBaseVowel::CASE_MASK,
                "{replacement:?} pushed the pack out of bounds: 0x{:x}",
                cased.bits(),
            );
        }
    }
}

/// `new`, `lower` and `upper` are exact aliases of `with_case`.
#[test]
fn extended_constructors_are_with_case_aliases() {
    for &base in &ALL_BASES {
        let lower = ExtendedBaseVowel::with_case(base, false);
        let upper = ExtendedBaseVowel::with_case(base, true);

        assert_eq!(ExtendedBaseVowel::new(base), lower);
        assert_eq!(ExtendedBaseVowel::lower(base), lower);
        assert_eq!(ExtendedBaseVowel::upper(base), upper);
    }
}

/// `root()` / `shape()` are the exact inverse of `from_parts` for every
/// variant, and `id()` the inverse of `from_id`.
#[test]
fn base_vowel_fields_round_trip_through_from_parts() {
    for &base in &ALL_BASES {
        assert_eq!(base.id(), (base.bits() >> BaseVowel::ID_OFFSET as usize) as usize);
        assert_eq!(BaseVowel::from_id(base.id()), Ok(base));

        assert_eq!(
            BaseVowel::from_parts(base.root(), base.shape()),
            Ok(base),
            "root/shape extraction must rebuild {base:?}"
        );
    }
}

/// `remove_shape` drops the shape and keeps the plain root.
#[test]
fn remove_shape_matches_from_parts_with_none() {
    for &base in &ALL_BASES {
        assert_eq!(
            base.remove_shape(),
            BaseVowel::from_parts(base.root(), Shape::Plain).expect("a plain root always exists"),
            "remove_shape mismatch for {base:?}"
        );
    }
}

#[test]
fn set_keeps_case_and_case_keeps_base() {
    let mut v = ExtendedBaseVowel::upper(BaseVowel::A);
    v.set(BaseVowel::OHorn);
    assert_eq!(v.get(), BaseVowel::OHorn);
    assert!(v.is_upper());
    v.set_case(false);
    assert_eq!(v.get(), BaseVowel::OHorn);
    assert!(!v.is_upper());
    assert_eq!(v.to_char(), 'ơ');
}

#[test]
fn from_parts_rejects_impossible_shapes() {
    assert_eq!(BaseVowel::from_parts(RootVowel::I, Shape::Horn), Err(()));
    assert_eq!(BaseVowel::from_parts(RootVowel::Y, Shape::Circumflex), Err(()));
    assert_eq!(BaseVowel::from_parts(RootVowel::U, Shape::Breve), Err(()));
    assert_eq!(BaseVowel::from_parts(RootVowel::A, Shape::Breve), Ok(BaseVowel::ABreve));
    assert_eq!(BaseVowel::from_parts(RootVowel::O, Shape::Horn), Ok(BaseVowel::OHorn));
    assert_eq!(BaseVowel::from_root(RootVowel::E), BaseVowel::E);
    assert_eq!(BaseVowel::A.replace_shape(Shape::Horn), Err(()));
    assert_eq!(BaseVowel::OHorn.replace_shape(Shape::Circumflex), Ok(BaseVowel::OCircumflex));
    assert!(BaseVowel::ECircumflex.has_shape(Shape::Circumflex));
    assert!(!BaseVowel::E.has_shape(Shape::Circumflex));
    assert_eq!(BaseVowel::from_id(12), Err(()));
    assert_eq!(BaseVowel::from_id_unchecked(11), BaseVowel::OHorn);
}

#[test]
fn vowels_order_by_priority_id() {
    for &a in &ALL_BASES {
        for &b in &ALL_BASES {
            assert_eq!(a < b, a.id() < b.id(), "{a:?} < {b:?}");
            assert_eq!(a.partial_cmp(&b), a.id().partial_cmp(&b.id()));
        }
        assert_eq!(a.is_plain(), a <= BaseVowel::A, "{a:?}");
    }
    assert!(BaseVowel::OHorn > BaseVowel::Y);
}
