//! Furigana analysis: aligning a kanji spelling with its kana reading.

mod groups;
mod align;
mod emit;
mod laws;
mod types;

pub use self::types::{Furigana, OwnedFurigana, Pair};

pub use self::laws::{
    aligned, kanji_side, kanji_text, lemma_furigana_reconstructs, prev_k, prev_r, reading_side,
    reading_text,
};

pub use self::emit::{emit_from, furigana, furigana_groups, group_views, starts_with, FuriganaGroup, GroupView};

pub use self::align::{
    lemma_positions_well_placed, occurs_at, place_from, positions, reverse_find, rfind, rfind_chars,
    rfind_upto, search, well_placed, widen_triples,
};

pub use self::groups::{
    groups, is_kana, kana_runs, kana_runs_of, lemma_kana_runs_are_maximal, runs_from, valid_run, widen_pairs,
};
