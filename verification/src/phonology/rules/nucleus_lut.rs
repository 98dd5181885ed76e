//! Lookup-table variant of [`NucleusState::check`].
//!
//! The 4-bit [`BaseVowel::id`] of up to three vowels is packed into a 12-bit
//! key `a | (b << 4) | (c << 8)`; absent slots contribute the sentinel `0xF`,
//! which keeps keys of different lengths disjoint and caps the index at
//! `0xFFF = 4095`. One table load then replaces the two-stage dispatch.
use vstd::prelude::*;

use crate::phonology::rules::nucleus::{nucleus_state, NucleusState};
use crate::phonology::vowel::BaseVowel;

verus! {

/// Sentinel 4-bit value marking an absent vowel slot in the key.
pub const SENTINEL: usize = 0xF;

/// The vowel with priority id `id`, or `None` for an absent (or unused) slot.
pub open spec fn slot_vowel(id: int) -> Option<BaseVowel> {
    if 0 <= id < 12 {
        Some(choose|v: BaseVowel| v.spec_id() == id)
    } else {
        None
    }
}

/// The vowel sequence a 12-bit key stands for: one, two or three present
/// slots from the low end, the rest holding [`SENTINEL`].
pub open spec fn key_vowels(key: int) -> Option<Seq<BaseVowel>> {
    let a = key % 16;
    let b = (key / 16) % 16;
    let c = key / 256;
    if a < 12 && b == 15 && c == 15 {
        Some(seq![slot_vowel(a).unwrap()])
    } else if a < 12 && b < 12 && c == 15 {
        Some(seq![slot_vowel(a).unwrap(), slot_vowel(b).unwrap()])
    } else if a < 12 && b < 12 && c < 12 {
        Some(seq![slot_vowel(a).unwrap(), slot_vowel(b).unwrap(), slot_vowel(c).unwrap()])
    } else {
        None
    }
}

/// The table entry at `key`: the state of the sequence it stands for, or
/// [`NucleusState::Dead`] for keys that stand for none.
pub open spec fn lut_entry(key: int) -> NucleusState {
    match key_vowels(key) {
        Some(vowels) => nucleus_state(vowels),
        None => NucleusState::Dead,
    }
}

/// Which keys the build loops have filled once the keys of `(i, 15, 15)` and
/// `(i, b, _)` for every `b < j` are written.
spec fn filled(key: int, i: int, j: int) -> bool {
    let a = key % 16;
    let b = (key / 16) % 16;
    a < i || (a == i && (b == 15 || b < j))
}

/// Which keys the build loops have filled once, in addition, the keys of
/// `(i, j, 15)` and `(i, j, c)` for every `c < k` are written.
spec fn filled_within(key: int, i: int, j: int, k: int) -> bool {
    let b = (key / 16) % 16;
    let c = key / 256;
    filled(key, i, j) || (key % 16 == i && b == j && (c == 15 || c < k))
}

proof fn lemma_key_fields(a: int, b: int, c: int)
    requires
        0 <= a < 16,
        0 <= b < 16,
        0 <= c < 16,
    ensures
        (a + b * 16 + c * 256) % 16 == a,
        ((a + b * 16 + c * 256) / 16) % 16 == b,
        (a + b * 16 + c * 256) / 256 == c,
        0 <= a + b * 16 + c * 256 < 4096,
{
    assert((a + b * 16 + c * 256) % 16 == a) by (nonlinear_arith)
        requires
            0 <= a < 16,
            0 <= b < 16,
            0 <= c < 16,
    ;
    assert(((a + b * 16 + c * 256) / 16) % 16 == b) by (nonlinear_arith)
        requires
            0 <= a < 16,
            0 <= b < 16,
            0 <= c < 16,
    ;
    assert((a + b * 16 + c * 256) / 256 == c) by (nonlinear_arith)
        requires
            0 <= a < 16,
            0 <= b < 16,
            0 <= c < 16,
    ;
}

proof fn lemma_key_unique(key: int, a: int, b: int, c: int)
    requires
        0 <= key < 4096,
        0 <= a < 16,
        0 <= b < 16,
        0 <= c < 16,
        key % 16 == a,
        (key / 16) % 16 == b,
        key / 256 == c,
    ensures
        key == a + b * 16 + c * 256,
{
}

/// Maps a vowel id to itself: the slot of a present vowel.
proof fn lemma_slot_vowel(v: BaseVowel)
    ensures
        slot_vowel(v.spec_id() as int) == Some(v),
{
    let w = choose|w: BaseVowel| w.spec_id() == v.spec_id();
    assert(w.spec_id() == v.spec_id());
}

/// Keys are one-to-one in their three slots: sequences of different lengths
/// (told apart by the sentinel) or different vowels never share a key.
pub proof fn lemma_key_injective(a1: int, b1: int, c1: int, a2: int, b2: int, c2: int)
    requires
        0 <= a1 < 16,
        0 <= b1 < 16,
        0 <= c1 < 16,
        0 <= a2 < 16,
        0 <= b2 < 16,
        0 <= c2 < 16,
        a1 + b1 * 16 + c1 * 256 == a2 + b2 * 16 + c2 * 256,
    ensures
        a1 == a2,
        b1 == b2,
        c1 == c2,
{
}

/// 12-bit LUT key from three 4-bit vowel slots (id or [`SENTINEL`]).
pub fn key_of(a: usize, b: usize, c: usize) -> (r: usize)
    requires
        a < 16,
        b < 16,
        c < 16,
    ensures
        r == a + b * 16 + c * 256,
        r < 4096,
{
    assert(a | (b << 4usize) | (c << 8usize) == a + b * 16 + c * 256) by (bit_vector)
        requires
            a < 16,
            b < 16,
            c < 16,
    ;
    a | (b << 4) | (c << 8)
}

/// Builds the 4096-entry table: every sequence of one to three base vowels at
/// its key, [`NucleusState::Dead`] everywhere else.
pub fn build() -> (table: [NucleusState; 4096])
    ensures
        forall|key: int| 0 <= key < 4096 ==> #[trigger] table@[key] == lut_entry(key),
{
    let mut table = [NucleusState::Dead; 4096];
    let mut i: usize = 0;
    while i < 12
        invariant
            i <= 12,
            forall|key: int|
                0 <= key < 4096 ==> #[trigger] table@[key] == if key % 16 < i {
                    lut_entry(key)
                } else {
                    NucleusState::Dead
                },
        decreases 12 - i,
    {
        let a = BaseVowel::from_id_unchecked(i);
        let single = [a];
        let key1 = key_of(i, SENTINEL, SENTINEL);
        proof {
            lemma_key_fields(i as int, 15, 15);
            lemma_slot_vowel(a);
            assert(key_vowels(key1 as int) == Some(single@));
        }
        table.set(key1, NucleusState::check(&single));
        proof {
            assert forall|key: int| 0 <= key < 4096 implies #[trigger] table@[key] == if filled(key, i as int, 0) {
                lut_entry(key)
            } else {
                NucleusState::Dead
            } by {
                if key == key1 {
                    assert(filled(key, i as int, 0));
                    assert(lut_entry(key) == nucleus_state(single@));
                }
                if key != key1 && key % 16 == i && (key / 16) % 16 == 15 {
                    assert(key / 256 < 16);
                    if key / 256 == 15 {
                        lemma_key_unique(key, i as int, 15, 15);
                    }
                    assert(key_vowels(key) is None);
                }
            }
        }
        let mut j: usize = 0;
        while j < 12
            invariant
                i < 12,
                j <= 12,
                a.spec_id() == i,
                forall|key: int|
                    0 <= key < 4096 ==> #[trigger] table@[key] == if filled(key, i as int, j as int) {
                        lut_entry(key)
                    } else {
                        NucleusState::Dead
                    },
            decreases 12 - j,
        {
            let b = BaseVowel::from_id_unchecked(j);
            let pair = [a, b];
            let key2 = key_of(i, j, SENTINEL);
            proof {
                lemma_key_fields(i as int, j as int, 15);
                lemma_slot_vowel(a);
                lemma_slot_vowel(b);
                assert(key_vowels(key2 as int) == Some(pair@));
            }
            table.set(key2, NucleusState::check(&pair));
            proof {
                assert forall|key: int| 0 <= key < 4096 implies #[trigger] table@[key] == if filled_within(key, i as int, j as int, 0) {
                    lut_entry(key)
                } else {
                    NucleusState::Dead
                } by {
                    if key != key2 && key % 16 == i && (key / 16) % 16 == j && key / 256 == 15 {
                        lemma_key_unique(key, i as int, j as int, 15);
                    }
                }
            }
            let mut k: usize = 0;
            while k < 12
                invariant
                    i < 12,
                    j < 12,
                    k <= 12,
                    a.spec_id() == i,
                    b.spec_id() == j,
                    forall|key: int|
                        0 <= key < 4096 ==> #[trigger] table@[key] == if filled_within(key, i as int, j as int, k as int) {
                            lut_entry(key)
                        } else {
                            NucleusState::Dead
                        },
                decreases 12 - k,
            {
                let c = BaseVowel::from_id_unchecked(k);
                let triple = [a, b, c];
                let key3 = key_of(i, j, k);
                proof {
                    lemma_key_fields(i as int, j as int, k as int);
                    lemma_slot_vowel(a);
                    lemma_slot_vowel(b);
                    lemma_slot_vowel(c);
                    assert(key_vowels(key3 as int) == Some(triple@));
                }
                table.set(key3, NucleusState::check(&triple));
                proof {
                    assert forall|key: int| 0 <= key < 4096 implies #[trigger] table@[key]
                        == if filled_within(key, i as int, j as int, (k + 1) as int) {
                        lut_entry(key)
                    } else {
                        NucleusState::Dead
                    } by {
                        if key != key3 && key % 16 == i && (key / 16) % 16 == j && key / 256
                            == k {
                            lemma_key_unique(key, i as int, j as int, k as int);
                        }
                    }
                }
                k += 1;
            }
            proof {
                assert forall|key: int| 0 <= key < 4096 implies #[trigger] table@[key] == if filled(key, i as int, (j + 1) as int) {
                    lut_entry(key)
                } else {
                    NucleusState::Dead
                } by {
                    if filled(key, i as int, (j + 1) as int) && !filled_within(
                        key,
                        i as int,
                        j as int,
                        12,
                    ) {
                        // (i, j, c) with an unused slot value c in 12..=14.
                        assert(key / 256 < 16);
                        assert(key % 16 == i);
                        assert((key / 16) % 16 == j);
                        assert(12 <= key / 256 && key / 256 != 15);
                        assert(key_vowels(key) is None);
                    }
                }
            }
            j += 1;
        }
        proof {
            assert forall|key: int| 0 <= key < 4096 implies #[trigger] table@[key] == if key % 16 < i
                + 1 {
                lut_entry(key)
            } else {
                NucleusState::Dead
            } by {
                if key % 16 == i && !filled(key, i as int, 12) {
                    // (i, b, c) with an unused slot value b in 12..=14.
                    assert(key / 256 < 16);
                    assert(key_vowels(key) is None);
                }
            }
        }
        i += 1;
    }
    proof {
        assert forall|key: int| 0 <= key < 4096 implies #[trigger] table@[key] == lut_entry(key) by {
            if key % 16 >= 12 {
                assert(key_vowels(key) is None);
            }
        }
    }
    table
}

/// The lookup table. Statics are out of reach here, so the table is built
/// on each call rather than once per process.
pub fn lut() -> (table: [NucleusState; 4096])
    ensures
        forall|key: int| 0 <= key < 4096 ==> #[trigger] table@[key] == lut_entry(key),
{
    build()
}

/// LUT-backed [`NucleusState::check`].
pub fn check(vowels: &[BaseVowel]) -> (r: NucleusState)
    ensures
        r == nucleus_state(vowels@),
{
    if vowels.len() == 0 || vowels.len() > 3 {
        return NucleusState::Dead;
    }
    let a = vowels[0].id();
    let b = if vowels.len() > 1 {
        vowels[1].id()
    } else {
        SENTINEL
    };
    let c = if vowels.len() > 2 {
        vowels[2].id()
    } else {
        SENTINEL
    };
    let key = key_of(a, b, c);
    proof {
        lemma_key_fields(a as int, b as int, c as int);
        lemma_slot_vowel(vowels@[0]);
        if vowels.len() > 1 {
            lemma_slot_vowel(vowels@[1]);
        }
        if vowels.len() > 2 {
            lemma_slot_vowel(vowels@[2]);
        }
        assert(key_vowels(key as int) == Some(vowels@));
    }
    let table = lut();
    table[key]
}

} // verus!
