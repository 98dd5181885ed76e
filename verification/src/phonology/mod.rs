//! Vietnamese phonology: the vowel codec, onsets, codas, nuclei and the
//! spelling rules that combine them.
pub mod case;
pub mod coda;
pub mod onset;
pub mod rule;
pub mod rules;
pub mod tone_placement;
pub mod vowel;
pub mod builtin_dfa;
pub mod vowel_dfa;
pub mod vowel_order;
pub mod vowel_sequence;

pub use case::{Cased, CasedBaseVowel};
pub use coda::{Coda, CodaParseError};
pub use onset::{Onset, OnsetParseError};
pub use vowel::{
    decode_vowel, encode_vowel, is_vowel, BaseVowel, Case, ExtendedBaseVowel, RootVowel, Shape,
    Tone,
};
pub use rules::{NucleusState, NUCLEUS_MAX_LEN};
pub use vowel_sequence::VowelSequence;
pub use tone_placement::{NucleusView, TonePlacement};
