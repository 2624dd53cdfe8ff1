use super::import::{chain, chain_length, split_first};
use vstd::prelude::*;

verus! {

/// A walk along the indices of a reference that names no known function:
/// a packed reference word.
#[derive(Clone)]
pub struct RefUnknown(u32);

impl View for RefUnknown {
    type V = Seq<usize>;

    /// The indices that are still to come.
    open spec fn view(&self) -> Seq<usize> {
        chain(self.word())
    }
}

impl RefUnknown {
    /// The word that holds what is still to come.
    pub closed spec fn word(&self) -> u32 {
        self.0
    }

    /// The next index, if the chain has one left.
    pub fn next(&mut self) -> (item: Option<usize>)
        ensures
            match item {
                Some(index) => old(self)@.len() > 0 && index == old(self)@[0] && final(self)@
                    == old(self)@.drop_first(),
                None => old(self)@.len() == 0 && final(self)@ == old(self)@,
            },
    {
        match split_first(self.0) {
            Some((index, rest)) => {
                self.0 = rest;
                Some(index)
            },
            None => None,
        }
    }

    /// The number of indices that are still to come.
    pub fn len(&self) -> (len: usize)
        ensures
            len == self@.len(),
            len <= 3,
    {
        chain_length(self.0)
    }

    /// A walk along a word is a walk along the indices it holds.
    pub proof fn lemma_from(value: u32)
        ensures
            <RefUnknown as vstd::std_specs::convert::FromSpec<u32>>::from_spec(value).word()
                == value,
    {
    }
}

impl From<u32> for RefUnknown {
    fn from(value: u32) -> (reference: RefUnknown) {
        RefUnknown(value)
    }
}

impl vstd::std_specs::convert::FromSpecImpl<u32> for RefUnknown {
    open spec fn obeys_from_spec() -> bool {
        true
    }

    closed spec fn from_spec(value: u32) -> RefUnknown {
        RefUnknown(value)
    }
}

} // verus!
