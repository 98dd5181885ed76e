//! Vietnamese input-method engine: phonology (vowels, onsets, codas, tones),
//! spelling rules, tone placement and keyboard rule configurations.
pub mod phonology;
pub mod renderer;
pub mod result;
pub mod rule_engine;
pub mod util;
