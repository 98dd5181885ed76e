//! Spelling rules over whole syllables: nucleus validity, phonotactic
//! constraints and tone placement.
pub mod nucleus;
pub mod nucleus_lut;
pub mod phonotactics;

pub use nucleus::{NucleusState, NUCLEUS_MAX_LEN};
pub use phonotactics::{
    cased_nucleus_flags, nucleus_flags, DefaultPhonotacticValidator, PhonotacticFlags,
    PhonotacticValidator, ValidationError,
};
