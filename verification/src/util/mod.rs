//! Small building blocks shared by the phonology and keyboard layers.
pub mod ascii;
pub mod inline_vec;

pub use inline_vec::InlineVec;
