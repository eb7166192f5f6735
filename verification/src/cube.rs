use vstd::prelude::*;

verus! {

/// Number of 64-bit words in the raw encoding of a cube's edges.
pub const EDGE_WORDS: usize = 2;

/// One cube's edge configuration.
///
/// The words are kept exactly as they were given at construction. Nothing in
/// this type can change them afterwards.
pub struct Cube {
    raw: [u64; EDGE_WORDS],
}

impl View for Cube {
    type V = Seq<u64>;

    /// The raw edge words, in order.
    closed spec fn view(&self) -> Seq<u64> {
        self.raw@
    }
}

impl Cube {
    /// Takes ownership of a raw edge encoding.
    pub fn new(raw: [u64; EDGE_WORDS]) -> (cube: Cube)
        ensures
            cube@ == raw@,
    {
        Cube { raw }
    }

    /// A fresh copy of the raw edge words, in order.
    pub fn edges(&self) -> (words: Vec<u64>)
        ensures
            words@ == self@,
            words@.len() == EDGE_WORDS,
    {
        let mut words: Vec<u64> = Vec::new();
        let mut i: usize = 0;
        while i < EDGE_WORDS
            invariant
                i <= EDGE_WORDS,
                words@ == self.raw@.subrange(0, i as int),
            decreases EDGE_WORDS - i,
        {
            words.push(self.raw[i]);
            i = i + 1;
        }
        words
    }

    /// Every cube holds exactly `EDGE_WORDS` words.
    pub proof fn lemma_word_count(self)
        ensures
            self@.len() == EDGE_WORDS,
    {
    }
}

} // verus!
