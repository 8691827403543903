//! Alternative readings of kana text used as additional index keys.

use vstd::prelude::*;
use vstd::string::*;

use crate::romaji::{analyze, romanize_from, segments, to_hiragana_from, to_katakana_from, Transform};

verus! {

/// The conversion of a segment under a transformation.
pub open spec fn convert(t: Transform, s: Seq<char>) -> Seq<char> {
    match t {
        Transform::Hiragana => to_hiragana_from(s, 0),
        Transform::Katakana => to_katakana_from(s, 0),
        Transform::Romaji => romanize_from(s, 0),
    }
}

/// The conversion of each of the segments, concatenated.
pub open spec fn convert_all(t: Transform, segs: Seq<Seq<char>>) -> Seq<char>
    decreases segs.len(),
{
    if segs.len() == 0 {
        Seq::empty()
    } else {
        convert_all(t, segs.drop_last()) + convert(t, segs.last())
    }
}

/// The conversion of a whole text under a transformation.
pub open spec fn convert_text(t: Transform, text: Seq<char>) -> Seq<char> {
    convert_all(t, segments(text))
}

/// Convert a text segment by segment.
pub fn convert_string(text: &str, t: &Transform) -> (r: String)
    ensures
        r@ == convert_text(*t, text@),
{
    let segs = analyze(text).collect_all();
    let ghost all = segments(text@);
    let mut out = String::new();
    let mut i: usize = 0;
    while i < segs.len()
        invariant
            segs@.len() == all.len(),
            all == segments(text@),
            forall|k: int| 0 <= k < segs@.len() ==> #[trigger] segs@[k].text() == all[k],
            i <= segs@.len(),
            out@ == convert_all(*t, all.take(i as int)),
        decreases segs@.len() - i,
    {
        assert(all.take(i + 1).drop_last() =~= all.take(i as int));
        assert(all.take(i + 1).last() == all[i as int]);
        let part = match t {
            Transform::Hiragana => segs[i].hiragana(),
            Transform::Katakana => segs[i].katakana(),
            Transform::Romaji => segs[i].romanize(),
        };
        out.append(part);
        i = i + 1;
    }
    assert(all.take(all.len() as int) =~= all);
    out
}

/// Add the romanized reading of `text` under `a` and its conversion to the
/// other kana script (`other`, hiragana or katakana) under `b`.
pub fn other_readings<T: Copy>(output: &mut Vec<(String, T)>, text: &str, a: T, b: T, other: Transform)
    ensures
        final(output)@.len() == old(output)@.len() + 2,
        forall|i: int| 0 <= i < old(output)@.len() ==> #[trigger] final(output)@[i] == old(output)@[i],
        final(output)@[old(output)@.len() as int].0@ == convert_text(Transform::Romaji, text@),
        final(output)@[old(output)@.len() as int].1 == a,
        final(output)@[old(output)@.len() as int + 1].0@ == convert_text(other, text@),
        final(output)@[old(output)@.len() as int + 1].1 == b,
{
    let romanized = convert_string(text, &Transform::Romaji);
    let converted = convert_string(text, &other);
    output.push((romanized, a));
    output.push((converted, b));
}

} // verus!
