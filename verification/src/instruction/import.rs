use crate::decoder::import::{chain, chain_length, split_first};
use vstd::prelude::*;

verus! {

/// A walk along the indices of the packed reference word of an import.
#[derive(Clone)]
pub struct Import(u32);

impl View for Import {
    type V = Seq<usize>;

    /// The indices that are still to come.
    open spec fn view(&self) -> Seq<usize> {
        chain(self.word())
    }
}

impl Import {
    /// The word that holds what is still to come.
    pub closed spec fn word(&self) -> u32 {
        self.0
    }

    pub fn new(id: u32) -> (import: Import)
        ensures
            import.word() == id,
    {
        Import(id)
    }

    /// The next index, if the chain has one left.
    pub fn next(&mut self) -> (item: Option<usize>)
        ensures
            match item {
                Some(index) => old(self)@.len() > 0 && index == old(self)@[0] && final(self)@
                    == old(self)@.drop_first(),
                None => old(self)@.len() == 0 && final(self)@ == old(self)@,
            },
    {
        match split_first(self.0) {
            Some((index, rest)) => {
                self.0 = rest;
                Some(index)
            },
            None => None,
        }
    }

    /// The number of indices that are still to come.
    pub fn len(&self) -> (len: usize)
        ensures
            len == self@.len(),
            len <= 3,
    {
        chain_length(self.0)
    }
}

} // verus!
