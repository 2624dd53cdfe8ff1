use vstd::prelude::*;

verus! {

/// The number of indices that a packed reference word holds: its top two
/// bits.
pub open spec fn chain_len(word: u32) -> nat {
    (word >> 30) as nat
}

/// The 10-bit field with the given place in a packed reference word, the
/// lowest field first.
pub open spec fn chain_field(word: u32, place: nat) -> usize {
    ((word >> ((10 * place) as u32)) & 0x3ff) as usize
}

/// The indices that a packed reference word holds, in order: as many of
/// its fields as its top two bits say, the lowest first.
pub open spec fn chain(word: u32) -> Seq<usize> {
    Seq::new(chain_len(word), |place: int| chain_field(word, place as nat))
}

/// The packed reference word that holds the given indices. It is defined
/// for up to three indices of ten bits each.
pub open spec fn packed(indices: Seq<usize>) -> u32 {
    let first = if indices.len() > 0 {
        indices[0] as u32
    } else {
        0
    };
    let second = if indices.len() > 1 {
        indices[1] as u32
    } else {
        0
    };
    let third = if indices.len() > 2 {
        indices[2] as u32
    } else {
        0
    };
    ((indices.len() as u32) << 30) | first | (second << 10) | (third << 20)
}

/// Whether the indices fit in a packed reference word.
pub open spec fn packable(indices: Seq<usize>) -> bool {
    &&& indices.len() <= 3
    &&& forall|place: int| 0 <= place < indices.len() ==> indices[place] < 0x400
}

/// Unpacking a packed chain gives the indices that went in, and no more.
pub proof fn lemma_chain_of_packed(indices: Seq<usize>)
    requires
        packable(indices),
    ensures
        chain(packed(indices)) == indices,
{
    let len = indices.len() as u32;
    let first: u32 = if indices.len() > 0 {
        indices[0] as u32
    } else {
        0
    };
    let second: u32 = if indices.len() > 1 {
        indices[1] as u32
    } else {
        0
    };
    let third: u32 = if indices.len() > 2 {
        indices[2] as u32
    } else {
        0
    };
    let word = (len << 30) | first | (second << 10) | (third << 20);
    assert(word >> 30 == len && (word >> 0u32) & 0x3ff == first && (word >> 10u32) & 0x3ff
        == second && (word >> 20u32) & 0x3ff == third) by (bit_vector)
        requires
            word == (len << 30) | first | (second << 10) | (third << 20),
            len <= 3,
            first < 0x400,
            second < 0x400,
            third < 0x400,
    ;
    assert(chain(packed(indices)) =~= indices);
}

/// The first index of a packed chain and the word that holds the rest, or
/// `None` where the chain is empty.
pub fn split_first(word: u32) -> (parts: Option<(usize, u32)>)
    ensures
        match parts {
            Some((first, rest)) => chain(word).len() > 0 && first == chain(word)[0] && chain(rest)
                == chain(word).drop_first(),
            None => chain(word).len() == 0,
        },
{
    let len = word >> 30;
    if len == 0 {
        return None;
    }
    let value = word & 0x3ff;
    let rest = word >> 10 | (len - 1) << 30;
    proof {
        assert(value == (word >> 0u32) & 0x3ff && value < 0x400) by (bit_vector)
            requires
                value == word & 0x3ff,
        ;
        assert(rest >> 30 == len - 1 && (rest >> 0u32) & 0x3ff == (word >> 10u32) & 0x3ff && (rest
            >> 10u32) & 0x3ff == (word >> 20u32) & 0x3ff && len <= 3) by (bit_vector)
            requires
                len == word >> 30,
                len != 0,
                rest == word >> 10 | ((len - 1) as u32) << 30,
        ;
        assert(chain(rest) =~= chain(word).drop_first());
    }
    Some((value as usize, rest))
}

/// The number of indices that a packed chain holds.
pub fn chain_length(word: u32) -> (len: usize)
    ensures
        len == chain(word).len(),
        len <= 3,
{
    let len = word >> 30;
    assert(len <= 3) by (bit_vector)
        requires
            len == word >> 30,
    ;
    len as usize
}

/// Packs up to three indices of ten bits each into a reference word.
pub fn pack(indices: &[usize]) -> (word: Option<u32>)
    ensures
        match word {
            Some(word) => packable(indices@) && word == packed(indices@) && chain(word)
                == indices@,
            None => !packable(indices@),
        },
{
    if indices.len() > 3 {
        return None;
    }
    let mut fields: [u32; 3] = [0, 0, 0];
    let mut place: usize = 0;
    while place < indices.len()
        invariant
            place <= indices.len() <= 3,
            forall|k: int| 0 <= k < place ==> indices@[k] < 0x400 && fields@[k] == indices@[k],
            forall|k: int| place <= k < 3 ==> fields@[k] == 0,
        decreases indices.len() - place,
    {
        if indices[place] >= 0x400 {
            return None;
        }
        fields[place] = indices[place] as u32;
        place = place + 1;
    }
    proof {
        lemma_chain_of_packed(indices@);
    }
    Some(((indices.len() as u32) << 30) | fields[0] | (fields[1] << 10) | (fields[2] << 20))
}

/// A walk along the indices of a packed reference word.
#[derive(Clone)]
pub struct Import {
    data: u32,
}

impl View for Import {
    type V = Seq<usize>;

    /// The indices that are still to come.
    open spec fn view(&self) -> Seq<usize> {
        chain(self.word())
    }
}

impl Import {
    /// The word that holds what is still to come.
    pub closed spec fn word(&self) -> u32 {
        self.data
    }

    /// The next index, if the chain has one left.
    pub fn next(&mut self) -> (item: Option<usize>)
        ensures
            match item {
                Some(index) => old(self)@.len() > 0 && index == old(self)@[0] && final(self)@
                    == old(self)@.drop_first(),
                None => old(self)@.len() == 0 && final(self)@ == old(self)@,
            },
    {
        match split_first(self.data) {
            Some((index, rest)) => {
                self.data = rest;
                Some(index)
            },
            None => None,
        }
    }

    /// The number of indices that are still to come.
    pub fn len(&self) -> (len: usize)
        ensures
            len == self@.len(),
            len <= 3,
    {
        chain_length(self.data)
    }

    /// A walk along a word is a walk along the indices it holds.
    pub proof fn lemma_from(data: u32)
        ensures
            <Import as vstd::std_specs::convert::FromSpec<u32>>::from_spec(data).word() == data,
    {
    }
}

impl From<u32> for Import {
    fn from(data: u32) -> (import: Import) {
        Import { data }
    }
}

impl vstd::std_specs::convert::FromSpecImpl<u32> for Import {
    open spec fn obeys_from_spec() -> bool {
        true
    }

    closed spec fn from_spec(data: u32) -> Import {
        Import { data }
    }
}

} // verus!
