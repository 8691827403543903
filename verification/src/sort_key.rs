//! Keys used to order search results.

use vstd::prelude::*;

verus! {

/// The entry a search result refers to.
#[derive(Clone, Copy, Debug, PartialEq, Eq, Structural)]
pub enum Key {
    Phrase(u64),
    Name(u64),
    Kanji(u32),
}

} // verus!
