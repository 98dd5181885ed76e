//! The order of base vowels: by tone-placement priority id.
use vstd::prelude::*;
use vstd::std_specs::cmp::PartialOrdSpec;

use std::cmp::Ordering;

use super::vowel::{BaseVowel, Shape};

verus! {

impl PartialOrd for BaseVowel {
    /// Compares two base vowels by their priority ids.
    fn partial_cmp(&self, other: &Self) -> (r: Option<Ordering>) {
        let a = self.id();
        let b = other.id();
        if a < b {
            Some(Ordering::Less)
        } else if a == b {
            Some(Ordering::Equal)
        } else {
            Some(Ordering::Greater)
        }
    }
}

impl vstd::std_specs::cmp::PartialOrdSpecImpl for BaseVowel {
    open spec fn obeys_partial_cmp_spec() -> bool {
        true
    }

    open spec fn partial_cmp_spec(&self, other: &Self) -> Option<Ordering> {
        if self.spec_id() < other.spec_id() {
            Some(Ordering::Less)
        } else if self.spec_id() == other.spec_id() {
            Some(Ordering::Equal)
        } else {
            Some(Ordering::Greater)
        }
    }
}

/// The plain vowels (y, u, i, e, o, a) order at or below `A`, the shaped
/// ones (ư, â, ô, ă, ê, ơ) above it.
pub proof fn lemma_plain_vowels_order_lowest(b: BaseVowel)
    ensures
        (b.spec_shape() == Shape::Plain) == (b.partial_cmp_spec(&BaseVowel::A) != Some(Ordering::Greater)),
{
    b.lemma_shaped_priority();
}

} // verus!
