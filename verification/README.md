# vime_engine

The phonology core of a Vietnamese input method, written in Verus: every
function carries a contract that the verifier proves.

## Layout

- `src/phonology/vowel.rs`: root vowels, shapes, tones, the packed
  `BaseVowel` / `ExtendedBaseVowel` types and the codec between
  `(base, tone, case)` and the 144 precomposed vowel characters;
  `vowel_order.rs` orders base vowels by priority id.
- `src/phonology/onset.rs`, `coda.rs`: parsing of initial and final consonant
  clusters.
- `src/phonology/rules/`: the nucleus table (`nucleus.rs`), its lookup-table
  form (`nucleus_lut.rs`) and the spelling validator (`phonotactics.rs`).
- `src/phonology/vowel_dfa.rs`: a generator that compiles a table of named
  rules into a sparse DFA over vowel nuclei, and the DFA's runtime API;
  `builtin_dfa.rs` holds the Vietnamese nucleus table in resolved form and
  proves that it passes every check of the generator and that its DFA
  classifies every nucleus of up to three vowels as the nucleus table does.
- `src/phonology/tone_placement.rs`: which vowel of a nucleus carries the tone
  mark, under the modern and the old orthography.
- `src/phonology/rule.rs`: the keystroke engine's compact nucleus table.
- `src/rule_engine/`: declarative key maps (Telex, VNI, VIQR), their layout
  rules, and the rule engine that reads them.
- `src/util/`: ASCII case folding and `InlineVec`, a fixed-capacity inline
  sequence.

`tests/` holds the integration tests.
