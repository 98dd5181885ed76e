//! Rendering parsed syllables into Unicode Vietnamese text.
pub mod default;

pub use default::DefaultRenderer;
