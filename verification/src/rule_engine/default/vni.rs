//! VNI layout: tones on the digits `1..=5` and `0`, shapes on `6` (circumflex),
//! `7` (breve/horn) and `8` (horn on `u`), stroke on `9`.
use vstd::prelude::*;

use super::config::{layout_valid, ShapeRule, ToneRule, TypingRules};
use crate::phonology::vowel::{RootVowel, Shape, Tone};

verus! {

/// The tone keys.
pub open spec fn tones() -> Seq<ToneRule> {
    seq![
            ToneRule { key: '1', tone: Tone::Acute },
            ToneRule { key: '2', tone: Tone::Grave },
            ToneRule { key: '3', tone: Tone::Hook },
            ToneRule { key: '4', tone: Tone::Tilde },
            ToneRule { key: '5', tone: Tone::Dot },
            ToneRule { key: '0', tone: Tone::Flat },
    ]
}

/// The shape keys.
pub open spec fn shapes() -> Seq<ShapeRule> {
    seq![
            ShapeRule { key: '6', on: RootVowel::A, shape: Shape::Circumflex },
            ShapeRule { key: '7', on: RootVowel::A, shape: Shape::Breve },
            ShapeRule { key: '6', on: RootVowel::E, shape: Shape::Circumflex },
            ShapeRule { key: '6', on: RootVowel::O, shape: Shape::Circumflex },
            ShapeRule { key: '7', on: RootVowel::O, shape: Shape::Horn },
            ShapeRule { key: '8', on: RootVowel::U, shape: Shape::Horn },
    ]
}

/// The stroke keys.
pub open spec fn strokes() -> Seq<char> {
    seq!['9']
}

/// The layout's key map.
pub fn config() -> (r: TypingRules)
    ensures
        r.tones@ == tones(),
        r.shapes@ == shapes(),
        r.strokes@ == strokes(),
        layout_valid(r.tones@, r.shapes@, r.strokes@),
{
    let tone_keys = vec![
            ToneRule { key: '1', tone: Tone::Acute },
            ToneRule { key: '2', tone: Tone::Grave },
            ToneRule { key: '3', tone: Tone::Hook },
            ToneRule { key: '4', tone: Tone::Tilde },
            ToneRule { key: '5', tone: Tone::Dot },
            ToneRule { key: '0', tone: Tone::Flat },
    ];
    let shape_keys = vec![
            ShapeRule { key: '6', on: RootVowel::A, shape: Shape::Circumflex },
            ShapeRule { key: '7', on: RootVowel::A, shape: Shape::Breve },
            ShapeRule { key: '6', on: RootVowel::E, shape: Shape::Circumflex },
            ShapeRule { key: '6', on: RootVowel::O, shape: Shape::Circumflex },
            ShapeRule { key: '7', on: RootVowel::O, shape: Shape::Horn },
            ShapeRule { key: '8', on: RootVowel::U, shape: Shape::Horn },
    ];
    let stroke_keys = vec!['9'];
    assert(tone_keys@ == tones());
    assert(shape_keys@ == shapes());
    assert(stroke_keys@ == strokes());
    TypingRules::new(tone_keys, shape_keys, stroke_keys)
}

} // verus!
