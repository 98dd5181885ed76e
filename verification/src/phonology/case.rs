//! A value paired with an upper/lower case flag.
use vstd::prelude::*;

use super::vowel::BaseVowel;

verus! {

/// A value together with the letter case it is rendered in.
#[derive(Clone, Copy, Debug, PartialEq, Eq)]
pub struct Cased<T> {
    value: T,
    is_upper: bool,
}

/// A base vowel with its case flag.
pub type CasedBaseVowel = Cased<BaseVowel>;

impl<T> Cased<T> {
    /// The cased value.
    pub closed spec fn spec_value(self) -> T {
        self.value
    }

    /// The case flag.
    pub closed spec fn spec_is_upper(self) -> bool {
        self.is_upper
    }

    pub fn new(value: T, is_upper: bool) -> (r: Self)
        ensures
            r.spec_value() == value,
            r.spec_is_upper() == is_upper,
    {
        Self { value, is_upper }
    }

    /// Creates an uppercased value.
    pub fn upper(value: T) -> (r: Self)
        ensures
            r.spec_value() == value,
            r.spec_is_upper(),
    {
        Self::new(value, true)
    }

    /// Creates a lowercased value.
    pub fn lower(value: T) -> (r: Self)
        ensures
            r.spec_value() == value,
            !r.spec_is_upper(),
    {
        Self::new(value, false)
    }

    /// The cased value.
    pub fn value(&self) -> (r: &T)
        ensures
            *r == self.spec_value(),
    {
        &self.value
    }

    /// `true` when the value carries the upper-case variant.
    pub fn is_upper(&self) -> (r: bool)
        ensures
            r == self.spec_is_upper(),
    {
        self.is_upper
    }

    /// Replaces the value, keeping the case as-is.
    pub fn set_value(&mut self, value: T)
        ensures
            final(self).spec_value() == value,
            final(self).spec_is_upper() == old(self).spec_is_upper(),
    {
        self.value = value;
    }

    /// Replaces the case flag, keeping the value as-is.
    pub fn set_upper(&mut self, is_upper: bool)
        ensures
            final(self).spec_value() == old(self).spec_value(),
            final(self).spec_is_upper() == is_upper,
    {
        self.is_upper = is_upper;
    }
}

} // verus!
