//! Conjugation of verbs and adjectives, based on a word's part of speech.

use vstd::prelude::*;
use vstd::string::*;

use super::form::Form;
use super::inflections::{FragmentsView, Inflections};
use super::permutations::{
    lemma_permutations_spellings, pos_sequence, reading_permutations, reading_permutations_of,
    spelling_of, PermutationView,
};
use super::set::{inflection_of, Inflection};
use super::tables::{
    adjective_i, adjective_ii, adjective_na, godan, godan_base, godan_table, ichidan, ichidan_te,
    kuru, kuru_base, spec_adjective_i, spec_adjective_ii, spec_adjective_na, spec_godan,
    spec_godan_base, spec_ichidan, spec_ichidan_te, spec_kuru, spec_kuru_base, spec_suru,
    spec_suru_base, suru, suru_base, GodanClass, Row,
};
use crate::concat::{
    lemma_nonempty_part_views, lemma_nonempty_parts_len, nonempty_parts, nonempty_views,
    part_views,
};
use crate::entities::PartOfSpeech;
use crate::jmdict::elements::{contains_str, Entry};
use crate::entities::{KanjiInfo, ReadingInfo};
use crate::kana::{Fragments, Full};

verus! {

/// The kind of word.
#[derive(Debug, Clone, Copy, PartialEq, Eq, Structural)]
pub enum Kind {
    Verb,
    Adjective,
}

/// The reading which a set of inflections belongs to.
#[derive(Debug, Clone, Copy, PartialEq, Eq, Structural, Hash, PartialOrd, Ord)]
pub struct Reading {
    /// Index of the kanji that the reading matches, if one is present.
    pub kanji: u8,
    /// Index of the reading used.
    pub reading: u8,
}

/// The insertion of a word under an inflection.
pub type Op = (Inflection, FragmentsView);

/// The map reached by inserting each word in turn, later words replacing
/// earlier ones under the same inflection.
pub open spec fn apply_ops(m: Map<Inflection, FragmentsView>, ops: Seq<Op>) -> Map<
    Inflection,
    FragmentsView,
>
    decreases ops.len(),
{
    if ops.len() == 0 {
        m
    } else {
        apply_ops(m, ops.drop_last()).insert(ops.last().0, ops.last().1)
    }
}

/// Inserting two runs of words is inserting one after the other.
pub proof fn lemma_apply_ops_concat(
    m: Map<Inflection, FragmentsView>,
    a: Seq<Op>,
    b: Seq<Op>,
)
    ensures
        apply_ops(m, a + b) == apply_ops(apply_ops(m, a), b),
    decreases b.len(),
{
    if b.len() == 0 {
        assert(a + b =~= a);
    } else {
        assert((a + b).drop_last() =~= a + b.drop_last());
        lemma_apply_ops_concat(m, a, b.drop_last());
    }
}

/// A word of text, reading and suffix parts, empty parts left out.
pub open spec fn word(
    text: Seq<Seq<char>>,
    reading: Seq<Seq<char>>,
    suffix: Seq<Seq<char>>,
) -> FragmentsView {
    (nonempty_views(text), nonempty_views(reading), nonempty_views(suffix))
}

/// A word with more suffix parts appended, empty parts left out.
pub open spec fn extended(w: FragmentsView, strings: Seq<Seq<char>>) -> FragmentsView {
    (w.0, w.1, w.2 + nonempty_views(strings))
}

/// Whether a kanji spelling has a conjugation prefix added to it. Where it
/// is excluded, the kanji itself stands for the prefix.
#[derive(Debug, Clone, Copy, PartialEq, Eq, Structural)]
pub enum SuffixMode {
    /// Exclude the prefix.
    Excluded,
    /// Include the prefix.
    Included,
}

/// The prefix as added to a kanji spelling.
pub open spec fn apply_mode(mode: SuffixMode, prefix: Seq<char>) -> Seq<char> {
    match mode {
        SuffixMode::Excluded => Seq::empty(),
        SuffixMode::Included => prefix,
    }
}

impl SuffixMode {
    fn apply(self, prefix: &'static str) -> (r: &'static str)
        ensures
            r@ == apply_mode(self, prefix@),
    {
        match self {
            SuffixMode::Excluded => {
                proof {
                    reveal_strlit("");
                }
                ""
            },
            SuffixMode::Included => prefix,
        }
    }
}

/// How the rows of a table are laid onto a stem.
#[derive(Debug, Clone, Copy, PartialEq, Eq, Structural)]
pub enum Shape {
    /// The row's suffix follows the stem.
    Suffix,
    /// The row's prefix and suffix follow the stem.
    PrefixSuffix,
    /// The row's prefix ends the kanji and reading stems (the kanji stem as
    /// the mode says), and its suffix follows.
    Split(SuffixMode),
}

/// The word a row makes of a kanji stem and a reading stem.
pub open spec fn row_word(shape: Shape, k: Seq<char>, r: Seq<char>, row: Row) -> FragmentsView {
    match shape {
        Shape::Suffix => word(seq![k], seq![r], seq![row.suffix@]),
        Shape::PrefixSuffix => word(seq![k], seq![r], seq![row.prefix@, row.suffix@]),
        Shape::Split(mode) => word(
            seq![k, apply_mode(mode, row.prefix@)],
            seq![r, row.prefix@],
            seq![row.suffix@],
        ),
    }
}

/// The words of the rows of a table laid onto the stems.
pub open spec fn base_ops(rows: Seq<Row>, shape: Shape, k: Seq<char>, r: Seq<char>) -> Seq<Op> {
    rows.map_values(|row: Row| (row.forms, row_word(shape, k, r, row)))
}

/// The words of the rows of a table appended to a word, each under the
/// row's inflection joined with `extra`.
pub open spec fn derived_ops(
    rows: Seq<Row>,
    extra: Inflection,
    w: FragmentsView,
    lead: Seq<char>,
) -> Seq<Op> {
    rows.map_values(
        |row: Row| (row.forms.union(extra), extended(w, seq![lead, row.prefix@, row.suffix@])),
    )
}

/// For each row of a table of adjective endings, the desire, easy-to and
/// hard-to forms made from a verb stem.
pub open spec fn adjective_ops(rows: Seq<Row>, stem: FragmentsView) -> Seq<Op>
    decreases rows.len(),
{
    if rows.len() == 0 {
        Seq::empty()
    } else {
        let row = rows.last();
        adjective_ops(rows.drop_last(), stem) + seq![
            (
                row.forms.union(inflection_of(seq![Form::Tai])),
                extended(stem, seq!["た"@, row.prefix@, row.suffix@]),
            ),
            (
                row.forms.union(inflection_of(seq![Form::EasyTo])),
                extended(stem, seq!["やす"@, row.prefix@, row.suffix@]),
            ),
            (
                row.forms.union(inflection_of(seq![Form::HardTo])),
                extended(stem, seq!["にく"@, row.prefix@, row.suffix@]),
            ),
        ]
    }
}

/// The inflections made from the stem of a verb.
pub open spec fn stem_ops(stem: FragmentsView) -> Seq<Op> {
    derived_ops(
        spec_godan(godan_table(GodanClass::Ru)),
        inflection_of(seq![Form::TaGaRu]),
        stem,
        "たが"@,
    ) + adjective_ops(spec_adjective_i(), stem)
}

/// The inflections made from the te form of a verb.
pub open spec fn te_ops(te: FragmentsView) -> Seq<Op> {
    seq![
        (
            inflection_of(seq![Form::TeIru, Form::Te, Form::Short]).union(inflection_of(seq![])),
            extended(te, seq!["る"@]),
        ),
        (
            inflection_of(seq![Form::TeIru, Form::Te, Form::Short, Form::Honorific]).union(
                inflection_of(seq![]),
            ),
            extended(te, seq!["ます"@]),
        ),
        (
            inflection_of(seq![Form::TeIru, Form::Te, Form::Past, Form::Short]).union(
                inflection_of(seq![]),
            ),
            extended(te, seq!["た"@]),
        ),
    ] + derived_ops(spec_ichidan(), inflection_of(seq![Form::TeIru, Form::Te]), te, "い"@)
        + derived_ops(
        spec_godan(godan_table(GodanClass::Ru)),
        inflection_of(seq![Form::TeAru, Form::Te]),
        te,
        "あ"@,
    ) + derived_ops(
        spec_godan(godan_table(GodanClass::Iku)),
        inflection_of(seq![Form::TeIku, Form::Te]),
        te,
        "い"@,
    ) + derived_ops(
        spec_godan(godan_table(GodanClass::U)),
        inflection_of(seq![Form::TeShimau, Form::Te]),
        te,
        "しま"@,
    ) + derived_ops(
        spec_godan(godan_table(GodanClass::Ku)),
        inflection_of(seq![Form::TeOku, Form::Te]),
        te,
        "お"@,
    ) + seq![
        (
            inflection_of(seq![Form::Te, Form::TeOku, Form::Short]).union(inflection_of(seq![])),
            extended(te, seq!["く"@]),
        ),
    ] + derived_ops(spec_kuru(), inflection_of(seq![Form::TeKuru, Form::Te]), te, ""@)
}

/// The inflections made from the ちゃう stem of a verb.
pub open spec fn chau_ops(chau: FragmentsView) -> Seq<Op> {
    derived_ops(spec_godan(godan_table(GodanClass::U)), inflection_of(seq![Form::Chau]), chau, ""@)
}

/// How a spelling with a part of speech is conjugated: the table, how its
/// rows are laid onto the stems, whether the table starts with the stem
/// and te form rows, and the suffix of the ちゃう stem if there is one.
pub struct Plan {
    pub rows: Seq<Row>,
    pub shape: Shape,
    pub kanji_stem: Seq<char>,
    pub reading_stem: Seq<char>,
    pub has_stems: bool,
    pub chau: Option<Seq<char>>,
    pub kind: Kind,
}

/// A spelling without its last character, which must be `c`.
pub open spec fn strip_last(s: Seq<char>, c: char) -> Option<Seq<char>> {
    if s.len() > 0 && s.last() == c {
        Some(s.drop_last())
    } else {
        None
    }
}

/// The stems of a spelling ending in a two-character ending: the reading
/// ends in a kana of `kana` followed by `last`, and the kanji spelling in
/// a kanji of `kanji_chars` (the kanji stands for the kana) or in a kana
/// of `kana`, followed by `last`.
pub open spec fn extract(
    kanji: Seq<char>,
    reading: Seq<char>,
    kana: Seq<char>,
    last: char,
    kanji_chars: Seq<char>,
) -> Option<(SuffixMode, Seq<char>, Seq<char>)> {
    if reading.len() >= 2 && kana.contains(reading[reading.len() - 2]) && reading.last() == last
        && kanji.len() >= 2 && kanji.last() == last {
        let r = reading.subrange(0, reading.len() - 2);
        if kanji_chars.contains(kanji[kanji.len() - 2]) {
            Some((SuffixMode::Excluded, kanji.drop_last(), r))
        } else if kana.contains(kanji[kanji.len() - 2]) {
            Some((SuffixMode::Included, kanji.subrange(0, kanji.len() - 2), r))
        } else {
            None
        }
    } else {
        None
    }
}

/// The plan of a spelling ending in `c`, whose stems leave it out.
pub open spec fn ending_plan(
    kanji: Seq<char>,
    reading: Seq<char>,
    c: char,
    rows: Seq<Row>,
    shape: Shape,
    has_stems: bool,
    chau: Option<Seq<char>>,
    kind: Kind,
) -> Option<Plan> {
    match (strip_last(kanji, c), strip_last(reading, c)) {
        (Some(k), Some(r)) => Some(
            Plan { rows, shape, kanji_stem: k, reading_stem: r, has_stems, chau, kind },
        ),
        _ => None,
    }
}

/// The plan of a godan verb of the given class and ending.
pub open spec fn godan_plan(
    kanji: Seq<char>,
    reading: Seq<char>,
    class: GodanClass,
    c: char,
    chau: Seq<char>,
) -> Option<Plan> {
    ending_plan(
        kanji,
        reading,
        c,
        spec_godan_base(godan_table(class)),
        Shape::PrefixSuffix,
        true,
        Some(chau),
        Kind::Verb,
    )
}

/// The plan of a spelling with a two-character ending.
pub open spec fn split_plan(
    ending: Option<(SuffixMode, Seq<char>, Seq<char>)>,
    rows: Seq<Row>,
    has_stems: bool,
    chau: Option<Seq<char>>,
    kind: Kind,
) -> Option<Plan> {
    match ending {
        Some((mode, k, r)) => Some(
            Plan {
                rows,
                shape: Shape::Split(mode),
                kanji_stem: k,
                reading_stem: r,
                has_stems,
                chau,
                kind,
            },
        ),
        None => None,
    }
}

/// How a spelling with a part of speech is conjugated, if it is.
#[verifier::opaque]
pub open spec fn plan_of(kanji: Seq<char>, reading: Seq<char>, pos: PartOfSpeech) -> Option<Plan> {
    match pos {
        PartOfSpeech::VerbIchidan | PartOfSpeech::VerbIchidanS => ending_plan(
            kanji,
            reading,
            'る',
            spec_ichidan_te(),
            Shape::Suffix,
            true,
            Some("っちゃ"@),
            Kind::Verb,
        ),
        PartOfSpeech::VerbGodanKS => godan_plan(kanji, reading, GodanClass::Iku, 'く', "っちゃ"@),
        PartOfSpeech::VerbGodanUS => godan_plan(kanji, reading, GodanClass::Us, 'う', "うちゃ"@),
        PartOfSpeech::VerbGodanU => godan_plan(kanji, reading, GodanClass::U, 'う', "っちゃ"@),
        PartOfSpeech::VerbGodanT => godan_plan(kanji, reading, GodanClass::Tsu, 'つ', "っちゃ"@),
        PartOfSpeech::VerbGodanR
        | PartOfSpeech::VerbGodanRI
        | PartOfSpeech::VerbGodanAru
        | PartOfSpeech::VerbGodanUru => godan_plan(
            kanji,
            reading,
            GodanClass::Ru,
            'る',
            "っちゃ"@,
        ),
        PartOfSpeech::VerbGodanK => godan_plan(kanji, reading, GodanClass::Ku, 'く', "いちゃ"@),
        PartOfSpeech::VerbGodanG => godan_plan(kanji, reading, GodanClass::Gu, 'ぐ', "いじゃ"@),
        PartOfSpeech::VerbGodanM => godan_plan(kanji, reading, GodanClass::Mu, 'む', "んじゃ"@),
        PartOfSpeech::VerbGodanB => godan_plan(kanji, reading, GodanClass::Bu, 'ぶ', "んじゃ"@),
        PartOfSpeech::VerbGodanN => godan_plan(kanji, reading, GodanClass::Nu, 'ぬ', "んじゃ"@),
        PartOfSpeech::VerbGodanS => godan_plan(kanji, reading, GodanClass::Su, 'す', "しちゃ"@),
        PartOfSpeech::VerbSuruSpecial | PartOfSpeech::VerbSuruIncluded => split_plan(
            extract(kanji, reading, seq!['す'], 'る', seq!['為']),
            spec_suru_base(),
            true,
            Some("しちゃ"@),
            Kind::Verb,
        ),
        PartOfSpeech::VerbKuru => split_plan(
            extract(kanji, reading, seq!['く'], 'る', seq!['来', '來']),
            spec_kuru_base(),
            true,
            None,
            Kind::Verb,
        ),
        PartOfSpeech::AdjectiveI => ending_plan(
            kanji,
            reading,
            'い',
            spec_adjective_i(),
            Shape::Suffix,
            false,
            None,
            Kind::Adjective,
        ),
        PartOfSpeech::AdjectiveIx => split_plan(
            extract(kanji, reading, seq!['い', 'よ'], 'い', seq!['好', '良']),
            spec_adjective_ii(),
            false,
            None,
            Kind::Adjective,
        ),
        PartOfSpeech::AdjectiveNa => Some(
            Plan {
                rows: spec_adjective_na(),
                shape: Shape::Suffix,
                kanji_stem: kanji,
                reading_stem: reading,
                has_stems: false,
                chau: None,
                kind: Kind::Adjective,
            },
        ),
        _ => None,
    }
}

/// The inflections which a plan makes: the rows laid onto the stems, then
/// where the table starts with the stem and te form, the inflections made
/// from them, then those made from the ちゃう stem.
pub open spec fn plan_conjugation(p: Plan) -> Map<Inflection, FragmentsView> {
    let k = p.kanji_stem;
    let r = p.reading_stem;
    let base = apply_ops(Map::empty(), base_ops(p.rows, p.shape, k, r));
    let with_stems = if p.has_stems {
        apply_ops(
            apply_ops(base, stem_ops(row_word(p.shape, k, r, p.rows[0]))),
            te_ops(row_word(p.shape, k, r, p.rows[1])),
        )
    } else {
        base
    };
    match p.chau {
        Some(c) => apply_ops(with_stems, chau_ops(word(seq![k], seq![r], seq![c]))),
        None => with_stems,
    }
}

/// The inflections of a spelling with a part of speech, and the kind of
/// word it is, if it conjugates.
pub open spec fn conjugation_of(kanji: Seq<char>, reading: Seq<char>, pos: PartOfSpeech) -> Option<
    (Map<Inflection, FragmentsView>, Kind),
> {
    match plan_of(kanji, reading, pos) {
        None => None,
        Some(p) => Some((plan_conjugation(p), p.kind)),
    }
}

/// A table with stems starts with the stem and te form rows, which add
/// no more than one suffix part.
pub open spec fn stems_fit(p: Plan) -> bool {
    p.has_stems ==> p.rows.len() >= 2 && (p.shape == Shape::PrefixSuffix ==> p.rows[0].prefix@.len()
        == 0 && p.rows[1].prefix@.len() == 0)
}

/// What a conjugated spelling is: its reading, its dictionary form (text,
/// reading and suffix), its inflections and its kind.
pub type ConjugationView = (
    Reading,
    (Seq<char>, Seq<char>, Seq<char>),
    Map<Inflection, FragmentsView>,
    Kind,
);

/// The conjugation of an element of the output of [`conjugate`].
pub open spec fn conjugation_view(e: (Reading, Inflections, Kind)) -> ConjugationView {
    (
        e.0,
        (e.1.dictionary.text@, e.1.dictionary.reading@, e.1.dictionary.suffix@),
        e.1.map(),
        e.2,
    )
}

/// The kanji text of a spelling: its kanji spelling, else its reading.
pub open spec fn permutation_text(perm: PermutationView) -> Seq<char> {
    match perm.0 {
        Some((_, k)) => k,
        None => perm.1.1,
    }
}

/// The reading of a spelling: the positions of its kanji spelling and of
/// its reading, each kept to its low eight bits, with 255 for no kanji
/// spelling.
pub open spec fn reading_of(perm: PermutationView) -> Reading {
    Reading {
        kanji: match perm.0 {
            Some((i, _)) => (i % 256) as u8,
            None => 255,
        },
        reading: (perm.1.0 % 256) as u8,
    }
}

/// The conjugations of a spelling for the given parts of speech.
pub open spec fn permutation_conjugations(perm: PermutationView, poses: Seq<PartOfSpeech>) -> Seq<
    ConjugationView,
>
    decreases poses.len(),
{
    if poses.len() == 0 {
        Seq::empty()
    } else {
        let prev = permutation_conjugations(perm, poses.drop_last());
        let text = permutation_text(perm);
        match conjugation_of(text, perm.1.1, poses.last()) {
            Some((m, kind)) => prev.push((reading_of(perm), (text, perm.1.1, ""@), m, kind)),
            None => prev,
        }
    }
}

/// The conjugations of spellings, each for its parts of speech in
/// declaration order.
pub open spec fn conjugations_of(perms: Seq<PermutationView>) -> Seq<ConjugationView>
    decreases perms.len(),
{
    if perms.len() == 0 {
        Seq::empty()
    } else {
        conjugations_of(perms.drop_last()) + permutation_conjugations(
            perms.last(),
            pos_sequence(perms.last().2),
        )
    }
}

/// A conjugation comes from the spelling `perm`: its reading is that of
/// the spelling, and its dictionary form is the spelling's text over its
/// reading, with no suffix.
pub open spec fn conjugation_from(c: ConjugationView, perm: PermutationView) -> bool {
    c.0 == reading_of(perm) && c.1 == (permutation_text(perm), perm.1.1, Seq::<char>::empty())
}

proof fn lemma_permutation_conjugations_from(perm: PermutationView, poses: Seq<PartOfSpeech>)
    ensures
        forall|i: int|
            0 <= i < permutation_conjugations(perm, poses).len() ==> conjugation_from(
                #[trigger] permutation_conjugations(perm, poses)[i],
                perm,
            ),
    decreases poses.len(),
{
    if poses.len() > 0 {
        lemma_permutation_conjugations_from(perm, poses.drop_last());
        let prev = permutation_conjugations(perm, poses.drop_last());
        let all = permutation_conjugations(perm, poses);
        assert forall|i: int| 0 <= i < all.len() implies conjugation_from(#[trigger] all[i], perm) by {
            if i < prev.len() {
                assert(all[i] == prev[i]);
            } else {
                assert(""@ =~= Seq::<char>::empty()) by {
                    reveal_strlit("");
                }
            }
        }
    }
}

/// Each conjugation of spellings comes from one of them.
pub proof fn lemma_conjugations_from(perms: Seq<PermutationView>)
    ensures
        forall|i: int|
            0 <= i < conjugations_of(perms).len() ==> exists|j: int|
                0 <= j < perms.len() && conjugation_from(
                    #[trigger] conjugations_of(perms)[i],
                    perms[j],
                ),
    decreases perms.len(),
{
    if perms.len() > 0 {
        lemma_conjugations_from(perms.drop_last());
        let prev = conjugations_of(perms.drop_last());
        let more = permutation_conjugations(perms.last(), pos_sequence(perms.last().2));
        lemma_permutation_conjugations_from(perms.last(), pos_sequence(perms.last().2));
        assert forall|i: int| 0 <= i < (prev + more).len() implies exists|j: int|
            0 <= j < perms.len() && conjugation_from(#[trigger] (prev + more)[i], perms[j]) by {
            if i < prev.len() {
                assert((prev + more)[i] == prev[i]);
                let j = choose|j: int| 0 <= j < perms.drop_last().len() && conjugation_from(prev[i], perms.drop_last()[j]);
                assert(perms[j] == perms.drop_last()[j]);
            } else {
                assert((prev + more)[i] == more[i - prev.len()]);
                assert(conjugation_from(more[i - prev.len()], perms[perms.len() - 1]));
            }
        }
    }
}

/// Each conjugation of an entry comes from one of its spellings: a reading
/// which is not search only, by its position and text, with a kanji
/// spelling which is not search only and which the reading applies to, or
/// none; its dictionary form is that spelling over that reading.
pub proof fn lemma_conjugations_of_entry(entry: Entry)
    ensures
        forall|i: int|
            0 <= i < conjugations_of(reading_permutations_of(entry, entry.reading_elements@.len() as int)).len()
                ==> exists|perm: PermutationView|
                spelling_of(entry, perm) && conjugation_from(
                    #[trigger] conjugations_of(
                        reading_permutations_of(entry, entry.reading_elements@.len() as int),
                    )[i],
                    perm,
                ),
{
    let perms = reading_permutations_of(entry, entry.reading_elements@.len() as int);
    lemma_conjugations_from(perms);
    lemma_permutations_spellings(entry, entry.reading_elements@.len() as int);
    assert forall|i: int| 0 <= i < conjugations_of(perms).len() implies exists|perm: PermutationView|
        spelling_of(entry, perm) && conjugation_from(#[trigger] conjugations_of(perms)[i], perm) by {
        let j = choose|j: int| 0 <= j < perms.len() && conjugation_from(conjugations_of(perms)[i], perms[j]);
        assert(spelling_of(entry, perms[j]));
    }
}

/// The dictionary form of each conjugation of an entry: its reading is the
/// text of a reading of the entry which is not only for searching, its
/// suffix is empty, and its text is the text of the kanji spelling it names,
/// which is not only for searching and which the reading applies to, or the
/// reading itself where it names none (kanji position 255). The positions
/// are kept to eight bits, so this holds of entries with at most 256
/// readings and 255 kanji spellings.
pub proof fn lemma_conjugate_dictionary(entry: Entry)
    requires
        entry.reading_elements@.len() <= 256,
        entry.kanji_elements@.len() < 256,
    ensures
        forall|i: int|
            0 <= i < conjugations_of(reading_permutations_of(entry, entry.reading_elements@.len() as int)).len()
                ==> {
                let c = #[trigger] conjugations_of(
                    reading_permutations_of(entry, entry.reading_elements@.len() as int),
                )[i];
                let r = entry.reading_elements@[c.0.reading as int];
                &&& (c.0.reading as int) < entry.reading_elements@.len()
                &&& !r.info@.contains(ReadingInfo::SearchOnlyKana)
                &&& c.1.1 == r.text@
                &&& c.1.2 == Seq::<char>::empty()
                &&& if c.0.kanji == 255 {
                    c.1.0 == r.text@
                } else {
                    let k = entry.kanji_elements@[c.0.kanji as int];
                    &&& (c.0.kanji as int) < entry.kanji_elements@.len()
                    &&& !k.info@.contains(KanjiInfo::SearchOnlyKanji)
                    &&& !r.no_kanji
                    &&& (r.reading_string@.len() == 0 || contains_str(r.reading_string@, k.text@))
                    &&& c.1.0 == k.text@
                }
            },
{
    let perms = reading_permutations_of(entry, entry.reading_elements@.len() as int);
    lemma_conjugations_of_entry(entry);
    assert forall|i: int| 0 <= i < conjugations_of(perms).len() implies {
        let c = #[trigger] conjugations_of(perms)[i];
        let r = entry.reading_elements@[c.0.reading as int];
        &&& (c.0.reading as int) < entry.reading_elements@.len()
        &&& !r.info@.contains(ReadingInfo::SearchOnlyKana)
        &&& c.1.1 == r.text@
        &&& c.1.2 == Seq::<char>::empty()
        &&& if c.0.kanji == 255 {
            c.1.0 == r.text@
        } else {
            let k = entry.kanji_elements@[c.0.kanji as int];
            &&& (c.0.kanji as int) < entry.kanji_elements@.len()
            &&& !k.info@.contains(KanjiInfo::SearchOnlyKanji)
            &&& !r.no_kanji
            &&& (r.reading_string@.len() == 0 || contains_str(r.reading_string@, k.text@))
            &&& c.1.0 == k.text@
        }
    } by {
        let c = conjugations_of(perms)[i];
        let perm = choose|perm: PermutationView| spelling_of(entry, perm) && conjugation_from(c, perm);
        assert(spelling_of(entry, perm) && conjugation_from(c, perm));
        assert(perm.1.0 % 256 == perm.1.0);
        match perm.0 {
            Some((ki, k)) => {
                assert(ki % 256 == ki);
            },
            None => {},
        }
    }
}

/// The stems of a spelling, and how rows are laid onto them.
struct ExecPlan<'a> {
    rows: Vec<Row>,
    shape: Shape,
    kanji_stem: &'a str,
    reading_stem: &'a str,
    has_stems: bool,
    chau: Option<&'static str>,
    kind: Kind,
}

/// The plan which an executable plan stands for.
spec fn exec_plan_view(p: ExecPlan) -> Plan {
    Plan {
        rows: p.rows@,
        shape: p.shape,
        kanji_stem: p.kanji_stem@,
        reading_stem: p.reading_stem@,
        has_stems: p.has_stems,
        chau: match p.chau {
            Some(c) => Some(c@),
            None => None,
        },
        kind: p.kind,
    }
}

/// A spelling without its last character, which must be `c`.
fn strip_last_exec(s: &str, c: char) -> (r: Option<&str>)
    ensures
        match r {
            Some(t) => strip_last(s@, c) == Some(t@),
            None => strip_last(s@, c) is None,
        },
{
    let n = s.unicode_len();
    if n > 0 && s.get_char(n - 1) == c {
        Some(s.substring_char(0, n - 1))
    } else {
        None
    }
}

/// Test if a character is one of the given ones.
fn one_of(c: char, chars: &[char]) -> (r: bool)
    ensures
        r == chars@.contains(c),
{
    let mut i: usize = 0;
    while i < chars.len()
        invariant
            i <= chars@.len(),
            forall|j: int| 0 <= j < i ==> chars@[j] != c,
        decreases chars@.len() - i,
    {
        if chars[i] == c {
            assert(chars@[i as int] == c);
            return true;
        }
        i = i + 1;
    }
    false
}

/// The stems of a spelling with a two-character ending.
fn extract_exec<'a>(
    kanji: &'a str,
    reading: &'a str,
    kana: &[char],
    last: char,
    kanji_chars: &[char],
) -> (r: Option<(SuffixMode, &'a str, &'a str)>)
    ensures
        match r {
            Some((mode, k, rs)) => extract(kanji@, reading@, kana@, last, kanji_chars@) == Some(
                (mode, k@, rs@),
            ),
            None => extract(kanji@, reading@, kana@, last, kanji_chars@) is None,
        },
{
    let rn = reading.unicode_len();
    let kn = kanji.unicode_len();
    if rn < 2 || kn < 2 {
        return None;
    }
    if !one_of(reading.get_char(rn - 2), kana) || reading.get_char(rn - 1) != last
        || kanji.get_char(kn - 1) != last {
        return None;
    }
    let r = reading.substring_char(0, rn - 2);
    let c = kanji.get_char(kn - 2);
    if one_of(c, kanji_chars) {
        Some((SuffixMode::Excluded, kanji.substring_char(0, kn - 1), r))
    } else if one_of(c, kana) {
        Some((SuffixMode::Included, kanji.substring_char(0, kn - 2), r))
    } else {
        None
    }
}

/// The plan of a spelling ending in `c`.
fn ending_plan_exec<'a>(
    kanji: &'a str,
    reading: &'a str,
    c: char,
    rows: Vec<Row>,
    shape: Shape,
    has_stems: bool,
    chau: Option<&'static str>,
    kind: Kind,
) -> (r: Option<ExecPlan<'a>>)
    ensures
        match r {
            Some(p) => ending_plan(
                kanji@,
                reading@,
                c,
                rows@,
                shape,
                has_stems,
                match chau {
                    Some(c) => Some(c@),
                    None => None,
                },
                kind,
            ) == Some(exec_plan_view(p)),
            None => ending_plan(
                kanji@,
                reading@,
                c,
                rows@,
                shape,
                has_stems,
                match chau {
                    Some(c) => Some(c@),
                    None => None,
                },
                kind,
            ) is None,
        },
{
    match (strip_last_exec(kanji, c), strip_last_exec(reading, c)) {
        (Some(k), Some(r)) => Some(
            ExecPlan { rows, shape, kanji_stem: k, reading_stem: r, has_stems, chau, kind },
        ),
        _ => None,
    }
}

/// The plan of a godan verb.
fn godan_plan_exec<'a>(
    kanji: &'a str,
    reading: &'a str,
    class: GodanClass,
    c: char,
    chau: &'static str,
) -> (r: Option<ExecPlan<'a>>)
    ensures
        match r {
            Some(p) => godan_plan(kanji@, reading@, class, c, chau@) == Some(exec_plan_view(p))
                && stems_fit(exec_plan_view(p)),
            None => godan_plan(kanji@, reading@, class, c, chau@) is None,
        },
{
    proof {
        reveal_strlit("");
    }
    let g = class.table();
    ending_plan_exec(
        kanji,
        reading,
        c,
        godan_base(&g),
        Shape::PrefixSuffix,
        true,
        Some(chau),
        Kind::Verb,
    )
}

/// The plan of a spelling with a two-character ending.
fn split_plan_exec<'a>(
    ending: Option<(SuffixMode, &'a str, &'a str)>,
    rows: Vec<Row>,
    has_stems: bool,
    chau: Option<&'static str>,
    kind: Kind,
) -> (r: Option<ExecPlan<'a>>)
    ensures
        match r {
            Some(p) => split_plan(
                match ending {
                    Some((m, k, rs)) => Some((m, k@, rs@)),
                    None => None,
                },
                rows@,
                has_stems,
                match chau {
                    Some(c) => Some(c@),
                    None => None,
                },
                kind,
            ) == Some(exec_plan_view(p)),
            None => ending is None,
        },
{
    match ending {
        Some((mode, k, r)) => Some(
            ExecPlan {
                rows,
                shape: Shape::Split(mode),
                kanji_stem: k,
                reading_stem: r,
                has_stems,
                chau,
                kind,
            },
        ),
        None => None,
    }
}

/// How a spelling with a part of speech is conjugated, if it is.
fn plan<'a>(kanji: &'a str, reading: &'a str, pos: PartOfSpeech) -> (r: Option<ExecPlan<'a>>)
    ensures
        match r {
            Some(p) => plan_of(kanji@, reading@, pos) == Some(exec_plan_view(p)) && stems_fit(
                exec_plan_view(p),
            ),
            None => plan_of(kanji@, reading@, pos) is None,
        },
{
    reveal(plan_of);
    proof {
        reveal_strlit("");
    }
    match pos {
        PartOfSpeech::VerbIchidan | PartOfSpeech::VerbIchidanS => ending_plan_exec(
            kanji,
            reading,
            'る',
            ichidan_te(),
            Shape::Suffix,
            true,
            Some("っちゃ"),
            Kind::Verb,
        ),
        PartOfSpeech::VerbGodanKS => godan_plan_exec(kanji, reading, GodanClass::Iku, 'く', "っちゃ"),
        PartOfSpeech::VerbGodanUS => godan_plan_exec(kanji, reading, GodanClass::Us, 'う', "うちゃ"),
        PartOfSpeech::VerbGodanU => godan_plan_exec(kanji, reading, GodanClass::U, 'う', "っちゃ"),
        PartOfSpeech::VerbGodanT => godan_plan_exec(kanji, reading, GodanClass::Tsu, 'つ', "っちゃ"),
        PartOfSpeech::VerbGodanR
        | PartOfSpeech::VerbGodanRI
        | PartOfSpeech::VerbGodanAru
        | PartOfSpeech::VerbGodanUru => godan_plan_exec(
            kanji,
            reading,
            GodanClass::Ru,
            'る',
            "っちゃ",
        ),
        PartOfSpeech::VerbGodanK => godan_plan_exec(kanji, reading, GodanClass::Ku, 'く', "いちゃ"),
        PartOfSpeech::VerbGodanG => godan_plan_exec(kanji, reading, GodanClass::Gu, 'ぐ', "いじゃ"),
        PartOfSpeech::VerbGodanM => godan_plan_exec(kanji, reading, GodanClass::Mu, 'む', "んじゃ"),
        PartOfSpeech::VerbGodanB => godan_plan_exec(kanji, reading, GodanClass::Bu, 'ぶ', "んじゃ"),
        PartOfSpeech::VerbGodanN => godan_plan_exec(kanji, reading, GodanClass::Nu, 'ぬ', "んじゃ"),
        PartOfSpeech::VerbGodanS => godan_plan_exec(kanji, reading, GodanClass::Su, 'す', "しちゃ"),
        PartOfSpeech::VerbSuruSpecial | PartOfSpeech::VerbSuruIncluded => {
            let kana = ['す'];
            let kanji_chars = ['為'];
            assert(kana@ =~= seq!['す']);
            assert(kanji_chars@ =~= seq!['為']);
            let ending = extract_exec(kanji, reading, &kana, 'る', &kanji_chars);
            split_plan_exec(ending, suru_base(), true, Some("しちゃ"), Kind::Verb)
        },
        PartOfSpeech::VerbKuru => {
            let kana = ['く'];
            let kanji_chars = ['来', '來'];
            assert(kana@ =~= seq!['く']);
            assert(kanji_chars@ =~= seq!['来', '來']);
            let ending = extract_exec(kanji, reading, &kana, 'る', &kanji_chars);
            split_plan_exec(ending, kuru_base(), true, None, Kind::Verb)
        },
        PartOfSpeech::AdjectiveI => ending_plan_exec(
            kanji,
            reading,
            'い',
            adjective_i(),
            Shape::Suffix,
            false,
            None,
            Kind::Adjective,
        ),
        PartOfSpeech::AdjectiveIx => {
            let kana = ['い', 'よ'];
            let kanji_chars = ['好', '良'];
            assert(kana@ =~= seq!['い', 'よ']);
            assert(kanji_chars@ =~= seq!['好', '良']);
            let ending = extract_exec(kanji, reading, &kana, 'い', &kanji_chars);
            split_plan_exec(ending, adjective_ii(), false, None, Kind::Adjective)
        },
        PartOfSpeech::AdjectiveNa => Some(
            ExecPlan {
                rows: adjective_na(),
                shape: Shape::Suffix,
                kanji_stem: kanji,
                reading_stem: reading,
                has_stems: false,
                chau: None,
                kind: Kind::Adjective,
            },
        ),
        _ => None,
    }
}

/// The characters of two strings.
proof fn lemma_views2(a: &str, b: &str)
    ensures
        part_views(seq![a, b]) == seq![a@, b@],
{
    assert(part_views(seq![a, b]) =~= seq![a@, b@]);
}

/// The characters of one string.
proof fn lemma_views1(a: &str)
    ensures
        part_views(seq![a]) == seq![a@],
{
    assert(part_views(seq![a]) =~= seq![a@]);
}

/// The word a row makes of the stems.
fn row_word_exec<'a>(shape: Shape, k: &'a str, r: &'a str, row: &Row) -> (w: Fragments<'a>)
    ensures
        w.wf(),
        w@ == row_word(shape, k@, r@, *row),
        w.suffix_concat().parts().len() <= 1 || (shape == Shape::PrefixSuffix
            && row.prefix@.len() > 0),
{
    match shape {
        Shape::Suffix => {
            let t = [k];
            let rd = [r];
            let s = [row.suffix];
            proof {
                lemma_nonempty_parts_len(t@);
                lemma_nonempty_parts_len(rd@);
                lemma_nonempty_parts_len(s@);
                lemma_nonempty_part_views(t@);
                lemma_nonempty_part_views(rd@);
                lemma_nonempty_part_views(s@);
                assert(t@ =~= seq![k]);
                assert(rd@ =~= seq![r]);
                assert(s@ =~= seq![row.suffix]);
                lemma_views1(k);
                lemma_views1(r);
                lemma_views1(row.suffix);
            }
            Fragments::new(&t, &rd, &s)
        },
        Shape::PrefixSuffix => {
            let t = [k];
            let rd = [r];
            let s = [row.prefix, row.suffix];
            proof {
                lemma_nonempty_parts_len(t@);
                lemma_nonempty_parts_len(rd@);
                lemma_nonempty_parts_len(s@);
                lemma_nonempty_part_views(t@);
                lemma_nonempty_part_views(rd@);
                lemma_nonempty_part_views(s@);
                assert(t@ =~= seq![k]);
                assert(rd@ =~= seq![r]);
                assert(s@ =~= seq![row.prefix, row.suffix]);
                lemma_views1(k);
                lemma_views1(r);
                lemma_views2(row.prefix, row.suffix);
            }
            Fragments::new(&t, &rd, &s)
        },
        Shape::Split(mode) => {
            let t = [k, mode.apply(row.prefix)];
            let rd = [r, row.prefix];
            let s = [row.suffix];
            proof {
                lemma_nonempty_parts_len(t@);
                lemma_nonempty_parts_len(rd@);
                lemma_nonempty_parts_len(s@);
                lemma_nonempty_part_views(t@);
                lemma_nonempty_part_views(rd@);
                lemma_nonempty_part_views(s@);
                assert(t@ =~= seq![k, t@[1]]);
                assert(rd@ =~= seq![r, row.prefix]);
                assert(s@ =~= seq![row.suffix]);
                lemma_views2(k, t@[1]);
                lemma_views2(r, row.prefix);
                lemma_views1(row.suffix);
            }
            Fragments::new(&t, &rd, &s)
        },
    }
}

/// A word with up to three suffix parts appended.
fn extend3<'a>(w: &Fragments<'a>, a: &'a str, b: &'a str, c: &'a str) -> (r: Fragments<'a>)
    requires
        w.wf(),
        w.suffix_concat().parts().len() <= 1,
    ensures
        r.wf(),
        r@ == extended(w@, seq![a@, b@, c@]),
{
    let strings = [a, b, c];
    proof {
        assert(strings@ =~= seq![a, b, c]);
        lemma_nonempty_parts_len(strings@);
        lemma_nonempty_part_views(strings@);
        assert(part_views(seq![a, b, c]) =~= seq![a@, b@, c@]);
    }
    let r = w.concat(&strings);
    assert(r@ =~= extended(w@, seq![a@, b@, c@]));
    r
}

/// A word with one suffix part appended.
fn extend1<'a>(w: &Fragments<'a>, a: &'a str) -> (r: Fragments<'a>)
    requires
        w.wf(),
        w.suffix_concat().parts().len() <= 1,
    ensures
        r.wf(),
        r@ == extended(w@, seq![a@]),
{
    let strings = [a];
    proof {
        assert(strings@ =~= seq![a]);
        lemma_nonempty_parts_len(strings@);
        lemma_nonempty_part_views(strings@);
        lemma_views1(a);
    }
    let r = w.concat(&strings);
    assert(r@ =~= extended(w@, seq![a@]));
    r
}

/// Insert the words of the rows of a table laid onto the stems.
fn insert_base<'a>(
    inflections: &mut Inflections<'a>,
    rows: &Vec<Row>,
    shape: Shape,
    k: &'a str,
    r: &'a str,
)
    requires
        old(inflections).wf(),
    ensures
        final(inflections).wf(),
        final(inflections).dictionary == old(inflections).dictionary,
        final(inflections).map() == apply_ops(old(inflections).map(), base_ops(rows@, shape, k@, r@)),
{
    let ghost ops = base_ops(rows@, shape, k@, r@);
    let mut i: usize = 0;
    while i < rows.len()
        invariant
            i <= rows@.len(),
            ops == base_ops(rows@, shape, k@, r@),
            inflections.wf(),
            inflections.dictionary == old(inflections).dictionary,
            inflections.map() == apply_ops(old(inflections).map(), ops.take(i as int)),
        decreases rows@.len() - i,
    {
        let row = &rows[i];
        let w = row_word_exec(shape, k, r, row);
        inflections.insert_key(row.forms, w);
        assert(ops.take(i + 1).drop_last() =~= ops.take(i as int));
        i = i + 1;
    }
    assert(ops.take(rows@.len() as int) =~= ops);
}

/// Insert the words of the rows of a table appended to a word.
fn insert_derived<'a>(
    inflections: &mut Inflections<'a>,
    rows: &Vec<Row>,
    extra: Inflection,
    w: &Fragments<'a>,
    lead: &'static str,
)
    requires
        old(inflections).wf(),
        w.wf(),
        w.suffix_concat().parts().len() <= 1,
    ensures
        final(inflections).wf(),
        final(inflections).dictionary == old(inflections).dictionary,
        final(inflections).map() == apply_ops(
            old(inflections).map(),
            derived_ops(rows@, extra, w@, lead@),
        ),
{
    let ghost ops = derived_ops(rows@, extra, w@, lead@);
    let mut i: usize = 0;
    while i < rows.len()
        invariant
            i <= rows@.len(),
            ops == derived_ops(rows@, extra, w@, lead@),
            w.wf(),
            w.suffix_concat().parts().len() <= 1,
            inflections.wf(),
            inflections.dictionary == old(inflections).dictionary,
            inflections.map() == apply_ops(old(inflections).map(), ops.take(i as int)),
        decreases rows@.len() - i,
    {
        let row = &rows[i];
        let word = extend3(w, lead, row.prefix, row.suffix);
        inflections.insert_key(row.forms.bitor(extra), word);
        assert(ops.take(i + 1).drop_last() =~= ops.take(i as int));
        i = i + 1;
    }
    assert(ops.take(rows@.len() as int) =~= ops);
}

/// Insert the desire, easy-to and hard-to forms made from a verb stem.
fn insert_adjective<'a>(inflections: &mut Inflections<'a>, rows: &Vec<Row>, stem: &Fragments<'a>)
    requires
        old(inflections).wf(),
        stem.wf(),
        stem.suffix_concat().parts().len() <= 1,
    ensures
        final(inflections).wf(),
        final(inflections).dictionary == old(inflections).dictionary,
        final(inflections).map() == apply_ops(old(inflections).map(), adjective_ops(rows@, stem@)),
{
    let tai = Inflection::new(&[Form::Tai]);
    let easy = Inflection::new(&[Form::EasyTo]);
    let hard = Inflection::new(&[Form::HardTo]);
    proof {
        assert([Form::Tai]@ =~= seq![Form::Tai]);
        assert([Form::EasyTo]@ =~= seq![Form::EasyTo]);
        assert([Form::HardTo]@ =~= seq![Form::HardTo]);
        reveal_strlit("");
    }
    let mut i: usize = 0;
    while i < rows.len()
        invariant
            i <= rows@.len(),
            tai == inflection_of(seq![Form::Tai]),
            easy == inflection_of(seq![Form::EasyTo]),
            hard == inflection_of(seq![Form::HardTo]),
            stem.wf(),
            stem.suffix_concat().parts().len() <= 1,
            inflections.wf(),
            inflections.dictionary == old(inflections).dictionary,
            inflections.map() == apply_ops(
                old(inflections).map(),
                adjective_ops(rows@.take(i as int), stem@),
            ),
        decreases rows@.len() - i,
    {
        let row = &rows[i];
        let ghost before = inflections.map();
        inflections.insert_key(row.forms.bitor(tai), extend3(stem, "た", row.prefix, row.suffix));
        inflections.insert_key(
            row.forms.bitor(easy),
            extend3(stem, "やす", row.prefix, row.suffix),
        );
        inflections.insert_key(
            row.forms.bitor(hard),
            extend3(stem, "にく", row.prefix, row.suffix),
        );
        proof {
            let prefix = rows@.take(i as int);
            let next = rows@.take(i + 1);
            assert(next.drop_last() =~= prefix);
            let three = seq![
                (
                    row.forms.union(inflection_of(seq![Form::Tai])),
                    extended(stem@, seq!["た"@, row.prefix@, row.suffix@]),
                ),
                (
                    row.forms.union(inflection_of(seq![Form::EasyTo])),
                    extended(stem@, seq!["やす"@, row.prefix@, row.suffix@]),
                ),
                (
                    row.forms.union(inflection_of(seq![Form::HardTo])),
                    extended(stem@, seq!["にく"@, row.prefix@, row.suffix@]),
                ),
            ];
            lemma_apply_ops_concat(old(inflections).map(), adjective_ops(prefix, stem@), three);
            reveal_with_fuel(apply_ops, 4);
            assert(three.drop_last().drop_last().drop_last() =~= Seq::<(Inflection, FragmentsView)>::empty());
            assert(three.drop_last().drop_last() =~= seq![three[0]]);
            assert(three.drop_last() =~= seq![three[0], three[1]]);
        }
        i = i + 1;
    }
    assert(rows@.take(rows@.len() as int) =~= rows@);
}

/// Insert the inflections made from the te form of a verb.
fn insert_te<'a>(inflections: &mut Inflections<'a>, te: &Fragments<'a>)
    requires
        old(inflections).wf(),
        te.wf(),
        te.suffix_concat().parts().len() <= 1,
    ensures
        final(inflections).wf(),
        final(inflections).dictionary == old(inflections).dictionary,
        final(inflections).map() == apply_ops(old(inflections).map(), te_ops(te@)),
{
    let ghost m0 = inflections.map();
    inflections.insert(&[Form::TeIru, Form::Te, Form::Short], &[], extend1(te, "る"));
    inflections.insert(
        &[Form::TeIru, Form::Te, Form::Short, Form::Honorific],
        &[],
        extend1(te, "ます"),
    );
    inflections.insert(&[Form::TeIru, Form::Te, Form::Past, Form::Short], &[], extend1(te, "た"));
    let ghost m1 = inflections.map();
    let ghost first = seq![
        (
            inflection_of(seq![Form::TeIru, Form::Te, Form::Short]).union(inflection_of(seq![])),
            extended(te@, seq!["る"@]),
        ),
        (
            inflection_of(seq![Form::TeIru, Form::Te, Form::Short, Form::Honorific]).union(
                inflection_of(seq![]),
            ),
            extended(te@, seq!["ます"@]),
        ),
        (
            inflection_of(seq![Form::TeIru, Form::Te, Form::Past, Form::Short]).union(
                inflection_of(seq![]),
            ),
            extended(te@, seq!["た"@]),
        ),
    ];
    proof {
        assert([Form::TeIru, Form::Te, Form::Short]@ =~= seq![Form::TeIru, Form::Te, Form::Short]);
        assert([Form::TeIru, Form::Te, Form::Short, Form::Honorific]@ =~= seq![
            Form::TeIru,
            Form::Te,
            Form::Short,
            Form::Honorific,
        ]);
        assert([Form::TeIru, Form::Te, Form::Past, Form::Short]@ =~= seq![
            Form::TeIru,
            Form::Te,
            Form::Past,
            Form::Short,
        ]);
        let empty: [Form; 0] = [];
        assert(empty@ =~= Seq::<Form>::empty());
        assert(first.drop_last().drop_last().drop_last() =~= Seq::<(Inflection, FragmentsView)>::empty());
        assert(first.drop_last().drop_last() =~= seq![first[0]]);
        assert(first.drop_last() =~= seq![first[0], first[1]]);
        reveal_with_fuel(apply_ops, 4);
        assert(m1 == apply_ops(m0, first));
    }
    let iru = Inflection::new(&[Form::TeIru, Form::Te]);
    insert_derived(inflections, &ichidan(), iru, te, "い");
    let ghost m2 = inflections.map();
    let ru = GodanClass::Ru.table();
    let aru = Inflection::new(&[Form::TeAru, Form::Te]);
    insert_derived(inflections, &godan(&ru), aru, te, "あ");
    let ghost m3 = inflections.map();
    let iku_table = GodanClass::Iku.table();
    let iku = Inflection::new(&[Form::TeIku, Form::Te]);
    insert_derived(inflections, &godan(&iku_table), iku, te, "い");
    let ghost m4 = inflections.map();
    let u = GodanClass::U.table();
    let shimau = Inflection::new(&[Form::TeShimau, Form::Te]);
    insert_derived(inflections, &godan(&u), shimau, te, "しま");
    let ghost m5 = inflections.map();
    let ku = GodanClass::Ku.table();
    let oku = Inflection::new(&[Form::TeOku, Form::Te]);
    insert_derived(inflections, &godan(&ku), oku, te, "お");
    let ghost m6 = inflections.map();
    inflections.insert(&[Form::Te, Form::TeOku, Form::Short], &[], extend1(te, "く"));
    let ghost m7 = inflections.map();
    let kuru_rows = kuru();
    let kuru_inflection = Inflection::new(&[Form::TeKuru, Form::Te]);
    insert_derived(inflections, &kuru_rows, kuru_inflection, te, "");
    proof {
        assert([Form::TeIru, Form::Te]@ =~= seq![Form::TeIru, Form::Te]);
        assert([Form::TeAru, Form::Te]@ =~= seq![Form::TeAru, Form::Te]);
        assert([Form::TeIku, Form::Te]@ =~= seq![Form::TeIku, Form::Te]);
        assert([Form::TeShimau, Form::Te]@ =~= seq![Form::TeShimau, Form::Te]);
        assert([Form::TeOku, Form::Te]@ =~= seq![Form::TeOku, Form::Te]);
        assert([Form::Te, Form::TeOku, Form::Short]@ =~= seq![Form::Te, Form::TeOku, Form::Short]);
        assert([Form::TeKuru, Form::Te]@ =~= seq![Form::TeKuru, Form::Te]);
        let empty: [Form; 0] = [];
        assert(empty@ =~= Seq::<Form>::empty());
        let a = derived_ops(spec_ichidan(), inflection_of(seq![Form::TeIru, Form::Te]), te@, "い"@);
        let b = derived_ops(
            spec_godan(godan_table(GodanClass::Ru)),
            inflection_of(seq![Form::TeAru, Form::Te]),
            te@,
            "あ"@,
        );
        let c = derived_ops(
            spec_godan(godan_table(GodanClass::Iku)),
            inflection_of(seq![Form::TeIku, Form::Te]),
            te@,
            "い"@,
        );
        let d = derived_ops(
            spec_godan(godan_table(GodanClass::U)),
            inflection_of(seq![Form::TeShimau, Form::Te]),
            te@,
            "しま"@,
        );
        let e = derived_ops(
            spec_godan(godan_table(GodanClass::Ku)),
            inflection_of(seq![Form::TeOku, Form::Te]),
            te@,
            "お"@,
        );
        let f = seq![
            (
                inflection_of(seq![Form::Te, Form::TeOku, Form::Short]).union(
                    inflection_of(seq![]),
                ),
                extended(te@, seq!["く"@]),
            ),
        ];
        let g = derived_ops(spec_kuru(), inflection_of(seq![Form::TeKuru, Form::Te]), te@, ""@);
        assert(f.drop_last() =~= Seq::<(Inflection, FragmentsView)>::empty());
        reveal_with_fuel(apply_ops, 2);
        assert(m7 == apply_ops(m6, f));
        lemma_apply_ops_concat(m0, first, a);
        lemma_apply_ops_concat(m0, first + a, b);
        lemma_apply_ops_concat(m0, first + a + b, c);
        lemma_apply_ops_concat(m0, first + a + b + c, d);
        lemma_apply_ops_concat(m0, first + a + b + c + d, e);
        lemma_apply_ops_concat(m0, first + a + b + c + d + e, f);
        lemma_apply_ops_concat(m0, first + a + b + c + d + e + f, g);
    }
}

/// The inflections which a plan makes of a spelling.
fn conjugate_plan<'a>(kanji_text: &'a str, reading_text: &'a str, p: &ExecPlan<'a>) -> (r:
    Inflections<'a>)
    requires
        stems_fit(exec_plan_view(*p)),
    ensures
        r.map() == plan_conjugation(exec_plan_view(*p)),
        r.wf(),
        r.dictionary.text == kanji_text,
        r.dictionary.reading == reading_text,
        r.dictionary.suffix@ == ""@,
{
    let ghost pv = exec_plan_view(*p);
    let k = p.kanji_stem;
    let r = p.reading_stem;
    let mut inflections = Inflections::new(Full::new(kanji_text, reading_text, ""));
    insert_base(&mut inflections, &p.rows, p.shape, k, r);
    let ghost base = inflections.map();
    if p.has_stems {
        let stem = row_word_exec(p.shape, k, r, &p.rows[0]);
        let ru = GodanClass::Ru.table();
        let tagaru = Inflection::new(&[Form::TaGaRu]);
        assert([Form::TaGaRu]@ =~= seq![Form::TaGaRu]);
        insert_derived(&mut inflections, &godan(&ru), tagaru, &stem, "たが");
        insert_adjective(&mut inflections, &adjective_i(), &stem);
        proof {
            lemma_apply_ops_concat(
                base,
                derived_ops(
                    spec_godan(godan_table(GodanClass::Ru)),
                    inflection_of(seq![Form::TaGaRu]),
                    stem@,
                    "たが"@,
                ),
                adjective_ops(spec_adjective_i(), stem@),
            );
        }
        let te = row_word_exec(p.shape, k, r, &p.rows[1]);
        insert_te(&mut inflections, &te);
    }
    if let Some(c) = p.chau {
        let chau = chau_word(k, r, c);
        let u = GodanClass::U.table();
        let chau_inflection = Inflection::new(&[Form::Chau]);
        assert([Form::Chau]@ =~= seq![Form::Chau]);
        insert_derived(&mut inflections, &godan(&u), chau_inflection, &chau, "");
    }
    inflections
}

/// The ちゃう stem of a verb.
fn chau_word<'a>(k: &'a str, r: &'a str, c: &'static str) -> (w: Fragments<'a>)
    ensures
        w.wf(),
        w.suffix_concat().parts().len() <= 1,
        w@ == word(seq![k@], seq![r@], seq![c@]),
{
    let t = [k];
    let rd = [r];
    let s = [c];
    proof {
        lemma_nonempty_parts_len(t@);
        lemma_nonempty_parts_len(rd@);
        lemma_nonempty_parts_len(s@);
        lemma_nonempty_part_views(t@);
        lemma_nonempty_part_views(rd@);
        lemma_nonempty_part_views(s@);
        assert(t@ =~= seq![k]);
        assert(rd@ =~= seq![r]);
        assert(s@ =~= seq![c]);
        lemma_views1(k);
        lemma_views1(r);
        lemma_views1(c);
    }
    Fragments::new(&t, &rd, &s)
}

/// Conjugate a spelling with a part of speech, if it conjugates.
pub fn conjugate_pos<'a>(kanji_text: &'a str, reading_text: &'a str, pos: PartOfSpeech) -> (r:
    Option<(Inflections<'a>, Kind)>)
    ensures
        match r {
            Some((inflections, kind)) => {
                &&& conjugation_of(kanji_text@, reading_text@, pos) == Some(
                    (inflections.map(), kind),
                )
                &&& inflections.wf()
                &&& inflections.dictionary.text == kanji_text
                &&& inflections.dictionary.reading == reading_text
                &&& inflections.dictionary.suffix@ == ""@
            },
            None => conjugation_of(kanji_text@, reading_text@, pos) is None,
        },
{
    match plan(kanji_text, reading_text, pos) {
        Some(p) => {
            let inflections = conjugate_plan(kanji_text, reading_text, &p);
            Some((inflections, p.kind))
        },
        None => None,
    }
}

/// Try to conjugate each spelling of the given entry, with each part of
/// speech that applies to it, as a verb or an adjective.
pub fn conjugate<'a>(entry: &Entry<'a>) -> (r: Vec<(Reading, Inflections<'a>, Kind)>)
    ensures
        r@.map_values(|e: (Reading, Inflections<'a>, Kind)| conjugation_view(e)) == conjugations_of(
            reading_permutations_of(*entry, entry.reading_elements@.len() as int),
        ),
        forall|i: int| 0 <= i < r@.len() ==> (#[trigger] r@[i]).1.wf(),
{
    let readings = reading_permutations(entry);
    let ghost perms = reading_permutations_of(*entry, entry.reading_elements@.len() as int);
    let mut output: Vec<(Reading, Inflections<'a>, Kind)> = Vec::new();
    let mut i: usize = 0;
    while i < readings.len()
        invariant
            i <= readings@.len(),
            perms == readings@.map_values(
                |e: (Option<(usize, &'a str)>, (usize, &'a str), super::permutations::PosSet)|
                    super::permutations::permutation_view(e),
            ),
            output@.map_values(|e: (Reading, Inflections<'a>, Kind)| conjugation_view(e))
                == conjugations_of(perms.take(i as int)),
            forall|j: int| 0 <= j < output@.len() ==> (#[trigger] output@[j]).1.wf(),
        decreases readings@.len() - i,
    {
        let (kanji, reading, pos_set) = &readings[i];
        let ghost perm = perms[i as int];
        let kanji_text = match kanji {
            Some((_, k)) => *k,
            None => reading.1,
        };
        let poses = pos_set.iter();
        let ghost start = output@.map_values(
            |e: (Reading, Inflections<'a>, Kind)| conjugation_view(e),
        );
        let mut j: usize = 0;
        while j < poses.len()
            invariant
                i < readings@.len(),
                j <= poses@.len(),
                perm == perms[i as int],
                poses@ == pos_sequence(perm.2),
                kanji_text@ == permutation_text(perm),
                reading.1@ == perm.1.1,
                perm.0 == match kanji {
                    Some((ki, k)) => Some((*ki as int, k@)),
                    None => None,
                },
                perm.1.0 == reading.0 as int,
                output@.map_values(|e: (Reading, Inflections<'a>, Kind)| conjugation_view(e))
                    == start + permutation_conjugations(perm, poses@.take(j as int)),
                forall|k: int| 0 <= k < output@.len() ==> (#[trigger] output@[k]).1.wf(),
            decreases poses@.len() - j,
        {
            let pos = poses[j];
            let ghost before = output@;
            assert(poses@.take(j + 1).drop_last() =~= poses@.take(j as int));
            match conjugate_pos(kanji_text, reading.1, pos) {
                Some((inflections, kind)) => {
                    let entry_reading = Reading {
                        kanji: match kanji {
                            Some((ki, _)) => (*ki % 256) as u8,
                            None => 255,
                        },
                        reading: (reading.0 % 256) as u8,
                    };
                    output.push((entry_reading, inflections, kind));
                    proof {
                        assert(output@.map_values(
                            |e: (Reading, Inflections<'a>, Kind)| conjugation_view(e),
                        ) =~= before.map_values(
                            |e: (Reading, Inflections<'a>, Kind)| conjugation_view(e),
                        ).push(conjugation_view(output@.last())));
                    }
                },
                None => {},
            }
            j = j + 1;
        }
        proof {
            assert(poses@.take(poses@.len() as int) =~= poses@);
            assert(perms.take(i + 1).drop_last() =~= perms.take(i as int));
        }
        i = i + 1;
    }
    proof {
        assert(perms.take(readings@.len() as int) =~= perms);
    }
    output
}

} // verus!
