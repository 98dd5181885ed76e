//! A rule engine driven by a declarative key configuration, and the
//! Telex, VNI and VIQR layouts.
use vstd::prelude::*;

use crate::phonology::vowel::{RootVowel, Shape, Tone};
use crate::rule_engine::api::RuleEngine;
use crate::util::ascii::{spec_to_ascii_lowercase, to_ascii_lowercase};

pub mod config;
pub mod telex;
pub mod viqr;
pub mod vni;

pub use config::{LayoutError, ShapeRule, ToneRule, TypingRules};
use config::{layout_valid, shape_keys_unique_per_owner, tone_keys_unique};

verus! {

/// The tone of the first tone rule at or after `i` whose key is `key`.
pub open spec fn tone_from(tones: Seq<ToneRule>, key: char, i: int) -> Option<Tone>
    decreases tones.len() - i,
{
    if i < 0 || i >= tones.len() {
        None
    } else if tones[i].key == key {
        Some(tones[i].tone)
    } else {
        tone_from(tones, key, i + 1)
    }
}

/// The tone of the first tone rule whose key is `key`.
pub open spec fn tone_for(tones: Seq<ToneRule>, key: char) -> Option<Tone> {
    tone_from(tones, key, 0)
}

/// The shape of the first shape rule at or after `i` for `key` on `on`.
pub open spec fn shape_from(shapes: Seq<ShapeRule>, key: char, on: RootVowel, i: int) -> Option<Shape>
    decreases shapes.len() - i,
{
    if i < 0 || i >= shapes.len() {
        None
    } else if shapes[i].key == key && shapes[i].on == on {
        Some(shapes[i].shape)
    } else {
        shape_from(shapes, key, on, i + 1)
    }
}

/// The shape of the first shape rule for `key` on `on`.
pub open spec fn shape_for(shapes: Seq<ShapeRule>, key: char, on: RootVowel) -> Option<Shape> {
    shape_from(shapes, key, on, 0)
}

/// Whether some tone rule uses `key`.
pub open spec fn is_tone_key(tones: Seq<ToneRule>, key: char) -> bool {
    exists|i: int| 0 <= i < tones.len() && #[trigger] tones[i].key == key
}

/// Whether some shape rule uses `key`.
pub open spec fn is_shape_key(shapes: Seq<ShapeRule>, key: char) -> bool {
    exists|i: int| 0 <= i < shapes.len() && #[trigger] shapes[i].key == key
}

proof fn lemma_tone_from(tones: Seq<ToneRule>, i: int, j: int)
    requires
        tone_keys_unique(tones),
        0 <= j <= i < tones.len(),
    ensures
        tone_from(tones, tones[i].key, j) == Some(tones[i].tone),
    decreases i - j,
{
    if j < i {
        assert(tones[j].key != tones[i].key);
        lemma_tone_from(tones, i, j + 1);
    }
}

/// In a layout whose tone keys are unique, a tone key decodes to the tone of
/// its one rule.
pub proof fn lemma_tone_lookup_exact(tones: Seq<ToneRule>, i: int)
    requires
        tone_keys_unique(tones),
        0 <= i < tones.len(),
    ensures
        tone_for(tones, tones[i].key) == Some(tones[i].tone),
{
    lemma_tone_from(tones, i, 0);
}

proof fn lemma_tone_from_absent(tones: Seq<ToneRule>, key: char, j: int)
    requires
        !is_tone_key(tones, key),
        0 <= j,
    ensures
        tone_from(tones, key, j) is None,
    decreases tones.len() - j,
{
    if j < tones.len() {
        assert(tones[j].key != key);
        lemma_tone_from_absent(tones, key, j + 1);
    }
}

/// A key that no tone rule uses decodes to no tone.
pub proof fn lemma_tone_lookup_absent(tones: Seq<ToneRule>, key: char)
    requires
        !is_tone_key(tones, key),
    ensures
        tone_for(tones, key) is None,
{
    lemma_tone_from_absent(tones, key, 0);
}

proof fn lemma_shape_from(shapes: Seq<ShapeRule>, i: int, j: int)
    requires
        shape_keys_unique_per_owner(shapes),
        0 <= j <= i < shapes.len(),
    ensures
        shape_from(shapes, shapes[i].key, shapes[i].on, j) == Some(shapes[i].shape),
    decreases i - j,
{
    if j < i {
        assert(!(shapes[j].key == shapes[i].key && shapes[j].on == shapes[i].on));
        lemma_shape_from(shapes, i, j + 1);
    }
}

/// In a layout whose shape keys are unique per owner, a shape key decodes on
/// its owner to the shape of its one rule for that owner.
pub proof fn lemma_shape_lookup_exact(shapes: Seq<ShapeRule>, i: int)
    requires
        shape_keys_unique_per_owner(shapes),
        0 <= i < shapes.len(),
    ensures
        shape_for(shapes, shapes[i].key, shapes[i].on) == Some(shapes[i].shape),
{
    lemma_shape_from(shapes, i, 0);
}

proof fn lemma_shape_from_absent(shapes: Seq<ShapeRule>, key: char, on: RootVowel, j: int)
    requires
        !is_shape_key(shapes, key),
        0 <= j,
    ensures
        shape_from(shapes, key, on, j) is None,
    decreases shapes.len() - j,
{
    if j < shapes.len() {
        assert(shapes[j].key != key);
        lemma_shape_from_absent(shapes, key, on, j + 1);
    }
}

/// A key that no shape rule uses decodes to no shape, on any owner.
pub proof fn lemma_shape_lookup_absent(shapes: Seq<ShapeRule>, key: char, on: RootVowel)
    requires
        !is_shape_key(shapes, key),
    ensures
        shape_for(shapes, key, on) is None,
{
    lemma_shape_from_absent(shapes, key, on, 0);
}

/// In a valid layout a key plays at most one role: tone, shape or stroke.
pub proof fn lemma_roles_exclusive(tones: Seq<ToneRule>, shapes: Seq<ShapeRule>, strokes: Seq<char>, key: char)
    requires
        layout_valid(tones, shapes, strokes),
    ensures
        !(is_tone_key(tones, key) && is_shape_key(shapes, key)),
        !(strokes.contains(key) && is_tone_key(tones, key)),
        !(strokes.contains(key) && is_shape_key(shapes, key)),
{
    if is_tone_key(tones, key) && is_shape_key(shapes, key) {
        let i = choose|i: int| 0 <= i < tones.len() && #[trigger] tones[i].key == key;
        let j = choose|j: int| 0 <= j < shapes.len() && #[trigger] shapes[j].key == key;
        assert(tones[i].key != shapes[j].key);
    }
    if strokes.contains(key) && is_tone_key(tones, key) {
        let i = choose|i: int| 0 <= i < strokes.len() && strokes[i] == key;
        let j = choose|j: int| 0 <= j < tones.len() && #[trigger] tones[j].key == key;
        assert(strokes[i] != tones[j].key);
    }
    if strokes.contains(key) && is_shape_key(shapes, key) {
        let i = choose|i: int| 0 <= i < strokes.len() && strokes[i] == key;
        let j = choose|j: int| 0 <= j < shapes.len() && #[trigger] shapes[j].key == key;
        assert(strokes[i] != shapes[j].key);
    }
}

/// Configuration-driven key mapping implementation.
///
/// This is used by input methods whose behavior can be described
/// declaratively through a [`TypingRules`]. Lookups fold ASCII letters to
/// lower case first.
#[derive(Clone, Debug, Eq, PartialEq)]
pub struct ConfiguredRuleEngine {
    config: TypingRules,
}

impl ConfiguredRuleEngine {
    /// The key map the engine reads.
    pub closed spec fn spec_config(&self) -> TypingRules {
        self.config
    }

    /// Creates a key mapping from a declarative configuration.
    pub fn new(config: TypingRules) -> (r: Self)
        ensures
            r.spec_config() == config,
    {
        ConfiguredRuleEngine { config }
    }

    /// The Telex input method.
    pub fn telex() -> (r: Self)
        ensures
            r.spec_config().tones@ == telex::tones(),
            r.spec_config().shapes@ == telex::shapes(),
            r.spec_config().strokes@ == telex::strokes(),
    {
        Self::new(telex::config())
    }

    /// The VNI input method.
    pub fn vni() -> (r: Self)
        ensures
            r.spec_config().tones@ == vni::tones(),
            r.spec_config().shapes@ == vni::shapes(),
            r.spec_config().strokes@ == vni::strokes(),
    {
        Self::new(vni::config())
    }

    /// The VIQR input method.
    pub fn viqr() -> (r: Self)
        ensures
            r.spec_config().tones@ == viqr::tones(),
            r.spec_config().shapes@ == viqr::shapes(),
            r.spec_config().strokes@ == viqr::strokes(),
    {
        Self::new(viqr::config())
    }

    /// The underlying configuration.
    pub fn config(&self) -> (r: &TypingRules)
        ensures
            *r == self.spec_config(),
    {
        &self.config
    }
}

fn find_tone(tones: &Vec<ToneRule>, key: char) -> (r: Option<Tone>)
    ensures
        r == tone_for(tones@, key),
{
    let mut i: usize = 0;
    while i < tones.len()
        invariant
            i <= tones.len(),
            tone_for(tones@, key) == tone_from(tones@, key, i as int),
        decreases tones.len() - i,
    {
        if tones[i].key == key {
            return Some(tones[i].tone);
        }
        i += 1;
    }
    None
}

fn find_shape(shapes: &Vec<ShapeRule>, key: char, on: RootVowel) -> (r: Option<Shape>)
    ensures
        r == shape_for(shapes@, key, on),
{
    let mut i: usize = 0;
    while i < shapes.len()
        invariant
            i <= shapes.len(),
            shape_for(shapes@, key, on) == shape_from(shapes@, key, on, i as int),
        decreases shapes.len() - i,
    {
        if shapes[i].key == key && shapes[i].on == on {
            return Some(shapes[i].shape);
        }
        i += 1;
    }
    None
}

fn any_tone_key(tones: &Vec<ToneRule>, key: char) -> (r: bool)
    ensures
        r == is_tone_key(tones@, key),
{
    let mut i: usize = 0;
    while i < tones.len()
        invariant
            i <= tones.len(),
            forall|j: int| 0 <= j < i ==> #[trigger] tones@[j].key != key,
        decreases tones.len() - i,
    {
        if tones[i].key == key {
            return true;
        }
        i += 1;
    }
    false
}

fn any_shape_key(shapes: &Vec<ShapeRule>, key: char) -> (r: bool)
    ensures
        r == is_shape_key(shapes@, key),
{
    let mut i: usize = 0;
    while i < shapes.len()
        invariant
            i <= shapes.len(),
            forall|j: int| 0 <= j < i ==> #[trigger] shapes@[j].key != key,
        decreases shapes.len() - i,
    {
        if shapes[i].key == key {
            return true;
        }
        i += 1;
    }
    false
}

fn any_stroke_key(strokes: &Vec<char>, key: char) -> (r: bool)
    ensures
        r == strokes@.contains(key),
{
    let mut i: usize = 0;
    while i < strokes.len()
        invariant
            i <= strokes.len(),
            forall|j: int| 0 <= j < i ==> #[trigger] strokes@[j] != key,
        decreases strokes.len() - i,
    {
        if strokes[i] == key {
            return true;
        }
        i += 1;
    }
    false
}

impl RuleEngine for ConfiguredRuleEngine {
    /// Returns whether `key` is configured as a tone, shape, or stroke key.
    fn is_rule_key(&self, key: char) -> (r: bool)
        ensures
            r == (is_tone_key(self.spec_config().tones@, spec_to_ascii_lowercase(key))
                || self.spec_config().strokes@.contains(spec_to_ascii_lowercase(key)) || is_shape_key(
                self.spec_config().shapes@,
                spec_to_ascii_lowercase(key),
            )),
    {
        let key = to_ascii_lowercase(key);
        any_tone_key(&self.config.tones, key) || any_stroke_key(&self.config.strokes, key)
            || any_shape_key(&self.config.shapes, key)
    }

    fn tone(&self, input: char) -> (r: Option<Tone>)
        ensures
            r == tone_for(self.spec_config().tones@, spec_to_ascii_lowercase(input)),
    {
        let lower = to_ascii_lowercase(input);
        find_tone(&self.config.tones, lower)
    }

    fn stroke(&self, input: char) -> (r: bool)
        ensures
            r == self.spec_config().strokes@.contains(spec_to_ascii_lowercase(input)),
    {
        let lower = to_ascii_lowercase(input);
        any_stroke_key(&self.config.strokes, lower)
    }

    fn shape(&self, input: char, target: RootVowel) -> (r: Option<Shape>)
        ensures
            r == shape_for(self.spec_config().shapes@, spec_to_ascii_lowercase(input), target),
    {
        let lower = to_ascii_lowercase(input);
        find_shape(&self.config.shapes, lower, target)
    }
}

} // verus!
