use vime_engine::phonology::{RootVowel, Shape, Tone};
use vime_engine::rule_engine::{
    ConfiguredRuleEngine, LayoutError, RuleEngine, ShapeRule, ToneRule, TypingRules,
};

const TELEX_TONES: [(char, Tone); 6] = [
    ('s', Tone::Acute),
    ('f', Tone::Grave),
    ('r', Tone::Hook),
    ('x', Tone::Tilde),
    ('j', Tone::Dot),
    ('z', Tone::Flat),
];

const TELEX_SHAPES: [(char, RootVowel, Shape); 6] = [
    ('a', RootVowel::A, Shape::Circumflex),
    ('w', RootVowel::A, Shape::Breve),
    ('e', RootVowel::E, Shape::Circumflex),
    ('o', RootVowel::O, Shape::Circumflex),
    ('w', RootVowel::O, Shape::Horn),
    ('w', RootVowel::U, Shape::Horn),
];

const VNI_TONES: [(char, Tone); 6] = [
    ('1', Tone::Acute),
    ('2', Tone::Grave),
    ('3', Tone::Hook),
    ('4', Tone::Tilde),
    ('5', Tone::Dot),
    ('0', Tone::Flat),
];

const VNI_SHAPES: [(char, RootVowel, Shape); 6] = [
    ('6', RootVowel::A, Shape::Circumflex),
    ('7', RootVowel::A, Shape::Breve),
    ('6', RootVowel::E, Shape::Circumflex),
    ('6', RootVowel::O, Shape::Circumflex),
    ('7', RootVowel::O, Shape::Horn),
    ('8', RootVowel::U, Shape::Horn),
];

const VIQR_TONES: [(char, Tone); 6] = [
    ('`', Tone::Grave),
    ('?', Tone::Hook),
    ('~', Tone::Tilde),
    ('\'', Tone::Acute),
    ('.', Tone::Dot),
    ('z', Tone::Flat),
];

const VIQR_SHAPES: [(char, RootVowel, Shape); 6] = [
    ('^', RootVowel::A, Shape::Circumflex),
    ('^', RootVowel::E, Shape::Circumflex),
    ('^', RootVowel::O, Shape::Circumflex),
    ('(', RootVowel::A, Shape::Breve),
    ('+', RootVowel::O, Shape::Horn),
    ('+', RootVowel::U, Shape::Horn),
];

const NEUTRAL: [char; 14] = ['b', 'c', 'g', 'h', 'k', 'l', 'm', 'n', 'p', 'q', 't', 'u', 'y', 'v'];

fn is_tone_key(e: &ConfiguredRuleEngine, key: char) -> bool {
    e.tone(key).is_some()
}

fn is_shape_key(e: &ConfiguredRuleEngine, key: char) -> bool {
    [RootVowel::A, RootVowel::E, RootVowel::I, RootVowel::O, RootVowel::U, RootVowel::Y]
        .iter()
        .any(|&on| e.shape(key, on).is_some())
}

fn assert_tone_keys(e: &ConfiguredRuleEngine, tones: &[(char, Tone)]) {
    for &(key, tone) in tones {
        assert!(is_tone_key(e, key), "{key:?} must be a tone key");
        assert!(is_tone_key(e, key.to_ascii_uppercase()), "uppercase {key:?} must be a tone key");
        assert_eq!(e.tone(key), Some(tone), "tone decode mismatch for {key:?}");
        assert!(e.is_rule_key(key));
        assert!(!is_shape_key(e, key), "tone key {key:?} must not be a shape key");
        assert!(!e.stroke(key), "tone key {key:?} must not be a stroke key");
    }
}

fn assert_shape_keys(e: &ConfiguredRuleEngine, shapes: &[(char, RootVowel, Shape)]) {
    for &(key, owner, shape) in shapes {
        assert!(is_shape_key(e, key), "{key:?} must be a shape key");
        assert!(is_shape_key(e, key.to_ascii_uppercase()), "uppercase {key:?} must be a shape key");
        assert_eq!(e.shape(key, owner), Some(shape), "shape decode mismatch for {key:?} on {owner:?}");
        assert!(e.is_rule_key(key));
        assert!(!is_tone_key(e, key), "shape key {key:?} must not be a tone key");
        assert!(!e.stroke(key), "shape key {key:?} must not be a stroke key");
        assert_eq!(e.shape(key, RootVowel::Y), None, "shape {key:?} must not apply to Y");
    }
}

fn assert_stroke_keys(e: &ConfiguredRuleEngine, strokes: &[char]) {
    for &key in strokes {
        assert!(e.stroke(key), "{key:?} must be a stroke key");
        assert!(e.stroke(key.to_ascii_uppercase()), "uppercase {key:?} must be a stroke key");
        assert!(e.is_rule_key(key));
        assert!(!is_tone_key(e, key), "stroke key {key:?} must not be a tone key");
        assert!(!is_shape_key(e, key), "stroke key {key:?} must not be a shape key");
    }
}

fn assert_neutral(e: &ConfiguredRuleEngine, neutral: &[char]) {
    for &ch in neutral {
        assert!(!e.is_rule_key(ch), "{ch:?} must not be a rule key");
        assert!(!e.stroke(ch), "{ch:?} must not be a stroke key");
        assert_eq!(e.tone(ch), None, "{ch:?} must not decode as a tone");
        assert_eq!(e.shape(ch, RootVowel::A), None, "{ch:?} must not decode as a shape");
    }
}

#[test]
fn telex_tone_keys_match_layout() {
    assert_tone_keys(&ConfiguredRuleEngine::telex(), &TELEX_TONES);
}

#[test]
fn telex_shape_keys_match_layout() {
    assert_shape_keys(&ConfiguredRuleEngine::telex(), &TELEX_SHAPES);
}

#[test]
fn telex_stroke_key_matches_layout() {
    assert_stroke_keys(&ConfiguredRuleEngine::telex(), &['d']);
}

#[test]
fn telex_transform_key_matches_classification() {
    let e = ConfiguredRuleEngine::telex();
    for &(key, _) in &TELEX_TONES {
        assert!(e.is_rule_key(key));
    }
    for &(key, _, _) in &TELEX_SHAPES {
        assert!(e.is_rule_key(key));
    }
    assert!(e.is_rule_key('d'));
    assert_neutral(&e, &NEUTRAL);
}

#[test]
fn telex_unbound_keys_are_rejected() {
    assert_neutral(&ConfiguredRuleEngine::telex(), &NEUTRAL);
}

#[test]
fn vni_tone_keys_match_layout() {
    assert_tone_keys(&ConfiguredRuleEngine::vni(), &VNI_TONES);
}

#[test]
fn vni_shape_keys_match_layout() {
    assert_shape_keys(&ConfiguredRuleEngine::vni(), &VNI_SHAPES);
}

#[test]
fn vni_stroke_key_matches_layout() {
    assert_stroke_keys(&ConfiguredRuleEngine::vni(), &['9']);
}

#[test]
fn vni_unbound_keys_are_rejected() {
    assert_neutral(&ConfiguredRuleEngine::vni(), &NEUTRAL);
}

#[test]
fn viqr_tone_keys_match_layout() {
    assert_tone_keys(&ConfiguredRuleEngine::viqr(), &VIQR_TONES);
}

#[test]
fn viqr_shape_keys_match_layout() {
    assert_shape_keys(&ConfiguredRuleEngine::viqr(), &VIQR_SHAPES);
}

#[test]
fn viqr_stroke_key_matches_layout() {
    assert_stroke_keys(&ConfiguredRuleEngine::viqr(), &['d']);
}

#[test]
fn viqr_unbound_keys_are_rejected() {
    assert_neutral(&ConfiguredRuleEngine::viqr(), &NEUTRAL);
}

#[test]
fn mask_is_case_insensitive_for_punctuation_too() {
    // Lower-casing folds only A-Z; punctuation and digits map to themselves.
    let viqr = ConfiguredRuleEngine::viqr();
    for &ch in &['^', '`', '~', '(', '+', '?', '.'] {
        assert!(is_shape_key(&viqr, ch) || is_tone_key(&viqr, ch), "viqr {ch:?} must be bound");
    }
}

#[test]
fn ascii_boundary_characters_are_rejected() {
    for &ch in &['\0', '\x7F'] {
        assert_neutral(&ConfiguredRuleEngine::telex(), &[ch]);
        assert_neutral(&ConfiguredRuleEngine::vni(), &[ch]);
        assert_neutral(&ConfiguredRuleEngine::viqr(), &[ch]);
    }
}

#[test]
fn non_ascii_input_is_rejected_without_panic() {
    for &ch in &['đ', 'Đ', 'ư', 'ơ', 'â', '\u{3000}', '😀', '\u{10FFFF}'] {
        assert_neutral(&ConfiguredRuleEngine::telex(), &[ch]);
    }
}

#[test]
fn config_exposes_the_layout() {
    let e = ConfiguredRuleEngine::telex();
    assert_eq!(e.config().tones.len(), 6);
    assert_eq!(e.config().shapes.len(), 6);
    assert_eq!(e.config().strokes, vec!['d']);
    let copy = ConfiguredRuleEngine::new(e.config().clone());
    assert_eq!(copy, e);
}

#[test]
fn rules_reject_duplicate_tone_key() {
    let tones = [ToneRule { key: 's', tone: Tone::Acute }, ToneRule { key: 's', tone: Tone::Grave }];
    assert_eq!(TypingRules::check(&tones, &[], &[]), Err(LayoutError::DuplicateToneKey));
}

#[test]
fn rules_reject_tone_shape_collision() {
    let tones = [ToneRule { key: 's', tone: Tone::Acute }];
    let shapes = [ShapeRule { key: 's', on: RootVowel::A, shape: Shape::Breve }];
    assert_eq!(TypingRules::check(&tones, &shapes, &[]), Err(LayoutError::ToneShapeCollision));
}

#[test]
fn rules_reject_shape_same_owner_duplicate() {
    let shapes = [
        ShapeRule { key: 'w', on: RootVowel::A, shape: Shape::Breve },
        ShapeRule { key: 'w', on: RootVowel::A, shape: Shape::Circumflex },
    ];
    assert_eq!(TypingRules::check(&[], &shapes, &[]), Err(LayoutError::DuplicateShapeKey));
}

#[test]
fn rules_allow_multi_owner_shape_reuse() {
    let shapes = vec![
        ShapeRule { key: 'w', on: RootVowel::A, shape: Shape::Breve },
        ShapeRule { key: 'w', on: RootVowel::O, shape: Shape::Horn },
        ShapeRule { key: 'w', on: RootVowel::U, shape: Shape::Horn },
    ];
    assert_eq!(TypingRules::check(&[], &shapes, &[]), Ok(()));
    let rules = TypingRules::new(vec![], shapes, vec![]);
    assert_eq!(rules.shapes.len(), 3);
}

#[test]
fn rules_reject_duplicate_stroke() {
    assert_eq!(TypingRules::check(&[], &[], &['z', 'z']), Err(LayoutError::DuplicateStrokeKey));
}

#[test]
fn rules_reject_stroke_tone_collision() {
    let tones = [ToneRule { key: 'z', tone: Tone::Acute }];
    assert_eq!(TypingRules::check(&tones, &[], &['z']), Err(LayoutError::StrokeToneCollision));
}

#[test]
fn rules_reject_stroke_shape_collision() {
    let shapes = [ShapeRule { key: 'z', on: RootVowel::A, shape: Shape::Breve }];
    assert_eq!(TypingRules::check(&[], &shapes, &['z']), Err(LayoutError::StrokeShapeCollision));
}

#[test]
fn built_in_layouts_pass_validation() {
    for e in [ConfiguredRuleEngine::telex(), ConfiguredRuleEngine::vni(), ConfiguredRuleEngine::viqr()] {
        let c = e.config();
        assert_eq!(TypingRules::check(&c.tones, &c.shapes, &c.strokes), Ok(()));
    }
}

#[test]
fn first_matching_rule_wins_in_an_unchecked_config() {
    // A config built without checking keeps the first rule for a key.
    let rules = TypingRules {
        tones: vec![ToneRule { key: 's', tone: Tone::Acute }, ToneRule { key: 's', tone: Tone::Grave }],
        shapes: vec![],
        strokes: vec![],
    };
    let e = ConfiguredRuleEngine::new(rules);
    assert_eq!(e.tone('S'), Some(Tone::Acute));
}
