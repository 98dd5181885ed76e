//! A read-only view over the base vowels of a nucleus, whatever holds them.
use vstd::prelude::*;

use arrayvec::ArrayVec;

use super::case::CasedBaseVowel;
use super::rules::nucleus::NUCLEUS_MAX_LEN;
use super::vowel::BaseVowel;

verus! {

/// A read-only view over a vowel nucleus.
pub trait VowelSequence {
    /// The base vowels, in order.
    spec fn vowel_seq(&self) -> Seq<BaseVowel>;

    fn len(&self) -> (r: usize)
        ensures
            r == self.vowel_seq().len(),
    ;

    fn at(&self, index: usize) -> (r: BaseVowel)
        requires
            index < self.vowel_seq().len(),
        ensures
            r == self.vowel_seq()[index as int],
    ;
}

impl VowelSequence for [BaseVowel] {
    open spec fn vowel_seq(&self) -> Seq<BaseVowel> {
        self@
    }

    fn len(&self) -> (r: usize) {
        self.len()
    }

    fn at(&self, index: usize) -> (r: BaseVowel) {
        self[index]
    }
}

#[verifier::external_type_specification]
#[verifier::external_body]
#[verifier::reject_recursive_types(T)]
pub struct ExArrayVec<T, const CAP: usize>(ArrayVec<T, CAP>);

/// The elements an `ArrayVec` of cased vowels holds, in order.
pub uninterp spec fn nucleus_items(v: ArrayVec<CasedBaseVowel, NUCLEUS_MAX_LEN>) -> Seq<CasedBaseVowel>;

/// `ArrayVec::len`: the number of elements the vector holds.
#[verifier::external_body]
fn nucleus_len(v: &ArrayVec<CasedBaseVowel, NUCLEUS_MAX_LEN>) -> (r: usize)
    ensures
        r == nucleus_items(*v).len(),
{
    v.len()
}

/// Indexing an `ArrayVec` (through its slice of initialized elements): the
/// element at `index`, for an index below the length.
#[verifier::external_body]
fn nucleus_get(v: &ArrayVec<CasedBaseVowel, NUCLEUS_MAX_LEN>, index: usize) -> (r: CasedBaseVowel)
    requires
        index < nucleus_items(*v).len(),
    ensures
        r == nucleus_items(*v)[index as int],
{
    v[index]
}

impl VowelSequence for ArrayVec<CasedBaseVowel, NUCLEUS_MAX_LEN> {
    open spec fn vowel_seq(&self) -> Seq<BaseVowel> {
        nucleus_items(*self).map_values(|v: CasedBaseVowel| v.spec_value())
    }

    fn len(&self) -> (r: usize) {
        nucleus_len(self)
    }

    fn at(&self, index: usize) -> (r: BaseVowel) {
        *nucleus_get(self, index).value()
    }
}

} // verus!
