//! Declarative key configurations and the rules a layout must obey.
use vstd::prelude::*;

use crate::phonology::vowel::{RootVowel, Shape, Tone};

verus! {

/// A keyboard key mapped to a Vietnamese tone.
#[derive(Clone, Copy, Debug, Eq, PartialEq, Structural)]
pub struct ToneRule {
    pub key: char,
    pub tone: Tone,
}

/// A keyboard key mapped to a Vietnamese vowel shape.
#[derive(Clone, Copy, Debug, Eq, PartialEq, Structural)]
pub struct ShapeRule {
    pub key: char,
    pub on: RootVowel,
    pub shape: Shape,
}

/// Which rule of a layout a key map breaks.
#[derive(Clone, Copy, Debug, Eq, PartialEq, Structural)]
pub enum LayoutError {
    /// A tone key maps to multiple tones.
    DuplicateToneKey,
    /// A key maps to both a tone and a shape.
    ToneShapeCollision,
    /// A shape key applies multiple shapes to one owner.
    DuplicateShapeKey,
    /// A stroke key is duplicated.
    DuplicateStrokeKey,
    /// A key maps to both a stroke and a tone.
    StrokeToneCollision,
    /// A key maps to both a stroke and a shape.
    StrokeShapeCollision,
}

/// Rule 1: a tone key is unique across all tone definitions.
pub open spec fn tone_keys_unique(tones: Seq<ToneRule>) -> bool {
    forall|i: int, j: int| 0 <= i < j < tones.len() ==> #[trigger] tones[i].key != #[trigger] tones[j].key
}

/// Rule 2: no key is both a tone key and a shape key.
pub open spec fn tones_apart_from_shapes(tones: Seq<ToneRule>, shapes: Seq<ShapeRule>) -> bool {
    forall|i: int, j: int|
        0 <= i < tones.len() && 0 <= j < shapes.len() ==> #[trigger] tones[i].key != #[trigger] shapes[j].key
}

/// Rules 3 and 4: a shape key applies one shape per owner, though it may
/// serve several owners.
pub open spec fn shape_keys_unique_per_owner(shapes: Seq<ShapeRule>) -> bool {
    forall|i: int, j: int|
        0 <= i < j < shapes.len() ==> !(#[trigger] shapes[i].key == #[trigger] shapes[j].key && shapes[i].on
            == shapes[j].on)
}

/// Rule 5: a stroke key is unique.
pub open spec fn stroke_keys_unique(strokes: Seq<char>) -> bool {
    forall|i: int, j: int| 0 <= i < j < strokes.len() ==> #[trigger] strokes[i] != #[trigger] strokes[j]
}

/// Rule 6: no key is both a stroke key and a tone key.
pub open spec fn strokes_apart_from_tones(strokes: Seq<char>, tones: Seq<ToneRule>) -> bool {
    forall|i: int, j: int|
        0 <= i < strokes.len() && 0 <= j < tones.len() ==> #[trigger] strokes[i] != #[trigger] tones[j].key
}

/// Rule 7: no key is both a stroke key and a shape key.
pub open spec fn strokes_apart_from_shapes(strokes: Seq<char>, shapes: Seq<ShapeRule>) -> bool {
    forall|i: int, j: int|
        0 <= i < strokes.len() && 0 <= j < shapes.len() ==> #[trigger] strokes[i] != #[trigger] shapes[j].key
}

/// Whether a key map obeys every layout rule.
pub open spec fn layout_valid(tones: Seq<ToneRule>, shapes: Seq<ShapeRule>, strokes: Seq<char>) -> bool {
    &&& tone_keys_unique(tones)
    &&& tones_apart_from_shapes(tones, shapes)
    &&& shape_keys_unique_per_owner(shapes)
    &&& stroke_keys_unique(strokes)
    &&& strokes_apart_from_tones(strokes, tones)
    &&& strokes_apart_from_shapes(strokes, shapes)
}

/// What an error of [`TypingRules::check`] says of the key map: the rules
/// checked before it hold and its own rule fails.
pub open spec fn layout_error(
    tones: Seq<ToneRule>,
    shapes: Seq<ShapeRule>,
    strokes: Seq<char>,
    e: LayoutError,
) -> bool {
    let r1 = tone_keys_unique(tones);
    let r2 = tones_apart_from_shapes(tones, shapes);
    let r3 = shape_keys_unique_per_owner(shapes);
    let r5 = stroke_keys_unique(strokes);
    let r6 = strokes_apart_from_tones(strokes, tones);
    let r7 = strokes_apart_from_shapes(strokes, shapes);
    match e {
        LayoutError::DuplicateToneKey => !r1,
        LayoutError::ToneShapeCollision => r1 && !r2,
        LayoutError::DuplicateShapeKey => r1 && r2 && !r3,
        LayoutError::DuplicateStrokeKey => r1 && r2 && r3 && !r5,
        LayoutError::StrokeToneCollision => r1 && r2 && r3 && r5 && !r6,
        LayoutError::StrokeShapeCollision => r1 && r2 && r3 && r5 && r6 && !r7,
    }
}

fn check_tone_keys_unique(tones: &[ToneRule]) -> (r: bool)
    ensures
        r == tone_keys_unique(tones@),
{
    let mut i: usize = 0;
    while i < tones.len()
        invariant
            i <= tones.len(),
            forall|a: int, b: int| 0 <= a < i && a < b < tones@.len() ==> #[trigger] tones@[a].key
                != #[trigger] tones@[b].key,
        decreases tones.len() - i,
    {
        let mut j: usize = i + 1;
        while j < tones.len()
            invariant
                i < tones.len(),
                i < j <= tones.len(),
                forall|a: int, b: int| 0 <= a < i && a < b < tones@.len() ==> #[trigger] tones@[a].key
                    != #[trigger] tones@[b].key,
                forall|b: int| i < b < j ==> tones@[i as int].key != #[trigger] tones@[b].key,
            decreases tones.len() - j,
        {
            if tones[i].key == tones[j].key {
                return false;
            }
            j += 1;
        }
        i += 1;
    }
    true
}

fn check_tones_apart_from_shapes(tones: &[ToneRule], shapes: &[ShapeRule]) -> (r: bool)
    ensures
        r == tones_apart_from_shapes(tones@, shapes@),
{
    let mut i: usize = 0;
    while i < tones.len()
        invariant
            i <= tones.len(),
            forall|a: int, b: int| 0 <= a < i && 0 <= b < shapes@.len() ==> #[trigger] tones@[a].key
                != #[trigger] shapes@[b].key,
        decreases tones.len() - i,
    {
        let mut j: usize = 0;
        while j < shapes.len()
            invariant
                i < tones.len(),
                j <= shapes.len(),
                forall|a: int, b: int| 0 <= a < i && 0 <= b < shapes@.len() ==> #[trigger] tones@[a].key
                    != #[trigger] shapes@[b].key,
                forall|b: int| 0 <= b < j ==> tones@[i as int].key != #[trigger] shapes@[b].key,
            decreases shapes.len() - j,
        {
            if tones[i].key == shapes[j].key {
                return false;
            }
            j += 1;
        }
        i += 1;
    }
    true
}

fn check_shape_keys_unique_per_owner(shapes: &[ShapeRule]) -> (r: bool)
    ensures
        r == shape_keys_unique_per_owner(shapes@),
{
    let mut i: usize = 0;
    while i < shapes.len()
        invariant
            i <= shapes.len(),
            forall|a: int, b: int| 0 <= a < i && a < b < shapes@.len() ==> !(#[trigger] shapes@[a].key
                == #[trigger] shapes@[b].key && shapes@[a].on == shapes@[b].on),
        decreases shapes.len() - i,
    {
        let mut j: usize = i + 1;
        while j < shapes.len()
            invariant
                i < shapes.len(),
                i < j <= shapes.len(),
                forall|a: int, b: int| 0 <= a < i && a < b < shapes@.len() ==> !(#[trigger] shapes@[a].key
                    == #[trigger] shapes@[b].key && shapes@[a].on == shapes@[b].on),
                forall|b: int| i < b < j ==> !(shapes@[i as int].key == #[trigger] shapes@[b].key
                    && shapes@[i as int].on == shapes@[b].on),
            decreases shapes.len() - j,
        {
            if shapes[i].key == shapes[j].key && shapes[i].on == shapes[j].on {
                return false;
            }
            j += 1;
        }
        i += 1;
    }
    true
}

fn check_stroke_keys_unique(strokes: &[char]) -> (r: bool)
    ensures
        r == stroke_keys_unique(strokes@),
{
    let mut i: usize = 0;
    while i < strokes.len()
        invariant
            i <= strokes.len(),
            forall|a: int, b: int| 0 <= a < i && a < b < strokes@.len() ==> #[trigger] strokes@[a]
                != #[trigger] strokes@[b],
        decreases strokes.len() - i,
    {
        let mut j: usize = i + 1;
        while j < strokes.len()
            invariant
                i < strokes.len(),
                i < j <= strokes.len(),
                forall|a: int, b: int| 0 <= a < i && a < b < strokes@.len() ==> #[trigger] strokes@[a]
                    != #[trigger] strokes@[b],
                forall|b: int| i < b < j ==> strokes@[i as int] != #[trigger] strokes@[b],
            decreases strokes.len() - j,
        {
            if strokes[i] == strokes[j] {
                return false;
            }
            j += 1;
        }
        i += 1;
    }
    true
}

fn check_strokes_apart_from_tones(strokes: &[char], tones: &[ToneRule]) -> (r: bool)
    ensures
        r == strokes_apart_from_tones(strokes@, tones@),
{
    let mut i: usize = 0;
    while i < strokes.len()
        invariant
            i <= strokes.len(),
            forall|a: int, b: int| 0 <= a < i && 0 <= b < tones@.len() ==> #[trigger] strokes@[a]
                != #[trigger] tones@[b].key,
        decreases strokes.len() - i,
    {
        let mut j: usize = 0;
        while j < tones.len()
            invariant
                i < strokes.len(),
                j <= tones.len(),
                forall|a: int, b: int| 0 <= a < i && 0 <= b < tones@.len() ==> #[trigger] strokes@[a]
                    != #[trigger] tones@[b].key,
                forall|b: int| 0 <= b < j ==> strokes@[i as int] != #[trigger] tones@[b].key,
            decreases tones.len() - j,
        {
            if strokes[i] == tones[j].key {
                return false;
            }
            j += 1;
        }
        i += 1;
    }
    true
}

fn check_strokes_apart_from_shapes(strokes: &[char], shapes: &[ShapeRule]) -> (r: bool)
    ensures
        r == strokes_apart_from_shapes(strokes@, shapes@),
{
    let mut i: usize = 0;
    while i < strokes.len()
        invariant
            i <= strokes.len(),
            forall|a: int, b: int| 0 <= a < i && 0 <= b < shapes@.len() ==> #[trigger] strokes@[a]
                != #[trigger] shapes@[b].key,
        decreases strokes.len() - i,
    {
        let mut j: usize = 0;
        while j < shapes.len()
            invariant
                i < strokes.len(),
                j <= shapes.len(),
                forall|a: int, b: int| 0 <= a < i && 0 <= b < shapes@.len() ==> #[trigger] strokes@[a]
                    != #[trigger] shapes@[b].key,
                forall|b: int| 0 <= b < j ==> strokes@[i as int] != #[trigger] shapes@[b].key,
            decreases shapes.len() - j,
        {
            if strokes[i] == shapes[j].key {
                return false;
            }
            j += 1;
        }
        i += 1;
    }
    true
}

/// A validated key map: tone keys, shape keys and stroke keys.
#[derive(Clone, Debug, Eq, PartialEq)]
pub struct TypingRules {
    pub tones: Vec<ToneRule>,
    pub shapes: Vec<ShapeRule>,
    pub strokes: Vec<char>,
}

impl TypingRules {
    /// Checks a key map against the layout rules, in order:
    ///
    /// 1. **Tone key uniqueness**: a tone key is unique across all tone
    ///    definitions (`'s'` cannot map to both Acute and Grave).
    /// 2. **Tone & Shape mutual exclusivity**: a key mapped to a tone cannot
    ///    also be mapped to a shape, and vice versa.
    /// 3. **Shape key uniqueness per owner**: a shape key is unique for a given
    ///    `RootVowel` (`'w'` cannot map to both Breve and Circumflex under `A`).
    /// 4. **Multi-owner shape key allowance**: a shape key may be reused across
    ///    different owners (`'w'` shared by `A`, `O` and `U` is valid).
    /// 5. **Stroke key uniqueness**: a stroke key is unique.
    /// 6. **Stroke & Tone mutual exclusivity**.
    /// 7. **Stroke & Shape mutual exclusivity**.
    pub fn check(tones: &[ToneRule], shapes: &[ShapeRule], strokes: &[char]) -> (r: Result<(), LayoutError>)
        ensures
            r is Ok <==> layout_valid(tones@, shapes@, strokes@),
            match r {
                Ok(_) => true,
                Err(e) => layout_error(tones@, shapes@, strokes@, e),
            },
    {
        if !check_tone_keys_unique(tones) {
            return Err(LayoutError::DuplicateToneKey);
        }
        if !check_tones_apart_from_shapes(tones, shapes) {
            return Err(LayoutError::ToneShapeCollision);
        }
        if !check_shape_keys_unique_per_owner(shapes) {
            return Err(LayoutError::DuplicateShapeKey);
        }
        if !check_stroke_keys_unique(strokes) {
            return Err(LayoutError::DuplicateStrokeKey);
        }
        if !check_strokes_apart_from_tones(strokes, tones) {
            return Err(LayoutError::StrokeToneCollision);
        }
        if !check_strokes_apart_from_shapes(strokes, shapes) {
            return Err(LayoutError::StrokeShapeCollision);
        }
        Ok(())
    }

    /// Creates a config from a key map that obeys the layout rules (see
    /// [`TypingRules::check`]).
    pub fn new(tones: Vec<ToneRule>, shapes: Vec<ShapeRule>, strokes: Vec<char>) -> (r: Self)
        requires
            layout_valid(tones@, shapes@, strokes@),
        ensures
            r.tones@ == tones@,
            r.shapes@ == shapes@,
            r.strokes@ == strokes@,
    {
        TypingRules { tones, shapes, strokes }
    }
}

} // verus!
