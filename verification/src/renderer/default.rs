//! The default renderer.
use vstd::prelude::*;

verus! {

/// Renders a syllable to a Vietnamese string using a given tone orthography.
#[derive(Clone, Copy, Debug, PartialEq, Eq, Structural)]
pub struct DefaultRenderer {}

impl DefaultRenderer {
    /// Creates a renderer.
    pub fn new() -> (r: Self)
        ensures
            r == (DefaultRenderer {}),
    {
        DefaultRenderer {}
    }
}

impl Default for DefaultRenderer {
    fn default() -> (r: Self)
        ensures
            r == (DefaultRenderer {}),
    {
        Self::new()
    }
}

} // verus!
