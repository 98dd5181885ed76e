//! VIQR layout: tones on `` ` ? ~ ' . `` and `z`, shapes on `^` (circumflex),
//! `(` (breve) and `+` (horn), stroke on `d`.
use vstd::prelude::*;

use super::config::{layout_valid, ShapeRule, ToneRule, TypingRules};
use crate::phonology::vowel::{RootVowel, Shape, Tone};

verus! {

/// The tone keys.
pub open spec fn tones() -> Seq<ToneRule> {
    seq![
            ToneRule { key: '`', tone: Tone::Grave },
            ToneRule { key: '?', tone: Tone::Hook },
            ToneRule { key: '~', tone: Tone::Tilde },
            ToneRule { key: '\'', tone: Tone::Acute },
            ToneRule { key: '.', tone: Tone::Dot },
            ToneRule { key: 'z', tone: Tone::Flat },
    ]
}

/// The shape keys.
pub open spec fn shapes() -> Seq<ShapeRule> {
    seq![
            ShapeRule { key: '^', on: RootVowel::A, shape: Shape::Circumflex },
            ShapeRule { key: '^', on: RootVowel::E, shape: Shape::Circumflex },
            ShapeRule { key: '^', on: RootVowel::O, shape: Shape::Circumflex },
            ShapeRule { key: '(', on: RootVowel::A, shape: Shape::Breve },
            ShapeRule { key: '+', on: RootVowel::O, shape: Shape::Horn },
            ShapeRule { key: '+', on: RootVowel::U, shape: Shape::Horn },
    ]
}

/// The stroke keys.
pub open spec fn strokes() -> Seq<char> {
    seq!['d']
}

/// The layout's key map.
pub fn config() -> (r: TypingRules)
    ensures
        r.tones@ == tones(),
        r.shapes@ == shapes(),
        r.strokes@ == strokes(),
        layout_valid(r.tones@, r.shapes@, r.strokes@),
{
    let tone_keys = vec![
            ToneRule { key: '`', tone: Tone::Grave },
            ToneRule { key: '?', tone: Tone::Hook },
            ToneRule { key: '~', tone: Tone::Tilde },
            ToneRule { key: '\'', tone: Tone::Acute },
            ToneRule { key: '.', tone: Tone::Dot },
            ToneRule { key: 'z', tone: Tone::Flat },
    ];
    let shape_keys = vec![
            ShapeRule { key: '^', on: RootVowel::A, shape: Shape::Circumflex },
            ShapeRule { key: '^', on: RootVowel::E, shape: Shape::Circumflex },
            ShapeRule { key: '^', on: RootVowel::O, shape: Shape::Circumflex },
            ShapeRule { key: '(', on: RootVowel::A, shape: Shape::Breve },
            ShapeRule { key: '+', on: RootVowel::O, shape: Shape::Horn },
            ShapeRule { key: '+', on: RootVowel::U, shape: Shape::Horn },
    ];
    let stroke_keys = vec!['d'];
    assert(tone_keys@ == tones());
    assert(shape_keys@ == shapes());
    assert(stroke_keys@ == strokes());
    TypingRules::new(tone_keys, shape_keys, stroke_keys)
}

} // verus!
