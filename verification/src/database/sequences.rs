//! The phrases of an index by their sequence numbers.

use std::collections::HashMap;

use vstd::prelude::*;

use super::index::{Id, PhraseIndex, Source};

verus! {

broadcast use vstd::std_specs::hash::group_hash_axioms;

/// The offset of each phrase by its sequence number.
pub struct SequenceTable {
    by_sequence: HashMap<u32, u32>,
}

impl View for SequenceTable {
    type V = Map<u32, u32>;

    closed spec fn view(&self) -> Map<u32, u32> {
        self.by_sequence@
    }
}

/// The key under which a sequence number is stored: its low 32 bits.
pub open spec fn sequence_key(sequence: u64) -> u32 {
    (sequence % 0x1_0000_0000) as u32
}

impl SequenceTable {
    /// An empty table.
    pub fn new() -> (r: Self)
        ensures
            r@ == Map::<u32, u32>::empty(),
    {
        SequenceTable { by_sequence: HashMap::new() }
    }

    /// Store the phrase at `offset` under its sequence number, in place of
    /// any phrase stored under the same key.
    pub fn insert(&mut self, sequence: u64, offset: u32)
        ensures
            final(self)@ == old(self)@.insert(sequence_key(sequence), offset),
    {
        let key = (sequence & 0xffff_ffff) as u32;
        assert(sequence & 0xffff_ffff == sequence % 0x1_0000_0000) by (bit_vector);
        self.by_sequence.insert(key, offset);
    }

    /// The identifier of the phrase stored under a sequence number, as an
    /// entry.
    pub fn sequence_to_id(&self, sequence: u32) -> (r: Option<Id>)
        ensures
            match self@.get(sequence) {
                Some(offset) => r == Some(
                    Id::spec_make(0, offset, Source::Phrase { index: PhraseIndex::Entry }),
                ),
                None => r is None,
            },
    {
        match self.by_sequence.get(&sequence) {
            Some(offset) => Some(Id::new(0, *offset, Source::Phrase { index: PhraseIndex::Entry })),
            None => None,
        }
    }
}

/// A phrase stored under a sequence number is found by it.
pub proof fn lemma_sequence_found(before: Map<u32, u32>, sequence: u64, offset: u32)
    ensures
        before.insert(sequence_key(sequence), offset).get(sequence_key(sequence)) == Some(offset),
{
}

} // verus!
