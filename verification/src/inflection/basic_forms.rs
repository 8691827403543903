//! What the conjugation of an ichidan verb gives for its basic forms: the
//! stem of the verb, the dictionary form without its final る, followed by
//! the ending of each form.

use vstd::prelude::*;

use super::conjugate::{
    adjective_ops, apply_ops, chau_ops, conjugation_of, derived_ops, plan_of, stem_ops, te_ops, word,
    Kind, Op, base_ops, row_word, Shape,
};
use super::form::Form;
use super::inflections::FragmentsView;
use super::set::{
    inflection_of, lemma_forms_differ, lemma_inflection_of_contains, lemma_union_forms, Inflection,
};
use super::tables::{
    godan_table, spec_adjective_i, spec_godan, spec_ichidan, spec_ichidan_te, spec_kuru, GodanClass, Row,
};
use crate::entities::PartOfSpeech;

verus! {

/// A form which only the inflections made from the stem, the te form or
/// the ちゃう stem of a verb carry.
pub open spec fn derived_form(f: Form) -> bool {
    f == Form::Te || f == Form::TaGaRu || f == Form::Tai || f == Form::EasyTo || f == Form::HardTo
        || f == Form::Chau
}

/// An inflection carrying a derived form.
pub open spec fn marked(i: Inflection) -> bool {
    exists|f: Form| derived_form(f) && #[trigger] i.forms().contains(f)
}

/// Every inflection of a run of words carries a derived form.
pub open spec fn all_marked(ops: Seq<Op>) -> bool {
    forall|i: int| 0 <= i < ops.len() ==> marked(#[trigger] ops[i].0)
}

/// The word which a run of words leaves under `key` is that of the last
/// word under it.
proof fn lemma_last_op(m: Map<Inflection, FragmentsView>, ops: Seq<Op>, j: int, key: Inflection)
    requires
        0 <= j < ops.len(),
        ops[j].0 == key,
        forall|i: int| j < i < ops.len() ==> (#[trigger] ops[i]).0 != key,
    ensures
        apply_ops(m, ops).contains_key(key),
        apply_ops(m, ops)[key] == ops[j].1,
    decreases ops.len(),
{
    if j < ops.len() - 1 {
        assert forall|i: int| j < i < ops.drop_last().len() implies (#[trigger] ops.drop_last()[i]).0
            != key by {
            assert(ops.drop_last()[i] == ops[i]);
        }
        lemma_last_op(m, ops.drop_last(), j, key);
    }
}

/// Words under other inflections leave the word under `key` as it is.
proof fn lemma_ops_absent(m: Map<Inflection, FragmentsView>, ops: Seq<Op>, key: Inflection)
    requires
        forall|i: int| 0 <= i < ops.len() ==> (#[trigger] ops[i]).0 != key,
    ensures
        apply_ops(m, ops).contains_key(key) == m.contains_key(key),
        m.contains_key(key) ==> apply_ops(m, ops)[key] == m[key],
    decreases ops.len(),
{
    if ops.len() > 0 {
        assert forall|i: int| 0 <= i < ops.drop_last().len() implies (#[trigger] ops.drop_last()[i]).0
            != key by {
            assert(ops.drop_last()[i] == ops[i]);
        }
        lemma_ops_absent(m, ops.drop_last(), key);
    }
}

proof fn lemma_marked_concat(a: Seq<Op>, b: Seq<Op>)
    requires
        all_marked(a),
        all_marked(b),
    ensures
        all_marked(a + b),
{
    assert forall|i: int| 0 <= i < (a + b).len() implies marked(#[trigger] (a + b)[i].0) by {
        if i < a.len() {
            assert((a + b)[i] == a[i]);
        } else {
            assert((a + b)[i] == b[i - a.len()]);
        }
    }
}

proof fn lemma_derived_marked(rows: Seq<Row>, extra: Inflection, w: FragmentsView, lead: Seq<char>, f: Form)
    requires
        derived_form(f),
        extra.forms().contains(f),
    ensures
        all_marked(derived_ops(rows, extra, w, lead)),
{
    let ops = derived_ops(rows, extra, w, lead);
    assert forall|i: int| 0 <= i < ops.len() implies marked(#[trigger] ops[i].0) by {
        lemma_union_forms(rows[i].forms, extra, f);
        assert(ops[i].0.forms().contains(f));
    }
}

proof fn lemma_single_marked(forms: Seq<Form>, f: Form, other: Inflection)
    requires
        derived_form(f),
        forms.contains(f),
    ensures
        marked(inflection_of(forms).union(other)),
{
    lemma_inflection_of_contains(forms, f);
    lemma_union_forms(inflection_of(forms), other, f);
    assert(inflection_of(forms).union(other).forms().contains(f));
}

proof fn lemma_adjective_marked(rows: Seq<Row>, stem: FragmentsView)
    ensures
        all_marked(adjective_ops(rows, stem)),
    decreases rows.len(),
{
    if rows.len() > 0 {
        lemma_adjective_marked(rows.drop_last(), stem);
        let row = rows.last();
        let more: Seq<Op> = seq![
            (
                row.forms.union(inflection_of(seq![Form::Tai])),
                super::conjugate::extended(stem, seq!["た"@, row.prefix@, row.suffix@]),
            ),
            (
                row.forms.union(inflection_of(seq![Form::EasyTo])),
                super::conjugate::extended(stem, seq!["やす"@, row.prefix@, row.suffix@]),
            ),
            (
                row.forms.union(inflection_of(seq![Form::HardTo])),
                super::conjugate::extended(stem, seq!["にく"@, row.prefix@, row.suffix@]),
            ),
        ];
        assert(seq![Form::Tai][0] == Form::Tai);
        assert(seq![Form::EasyTo][0] == Form::EasyTo);
        assert(seq![Form::HardTo][0] == Form::HardTo);
        lemma_inflection_of_contains(seq![Form::Tai], Form::Tai);
        assert(seq![Form::Tai][0] == Form::Tai);
        lemma_inflection_of_contains(seq![Form::EasyTo], Form::EasyTo);
        assert(seq![Form::EasyTo][0] == Form::EasyTo);
        lemma_inflection_of_contains(seq![Form::HardTo], Form::HardTo);
        assert(seq![Form::HardTo][0] == Form::HardTo);
        lemma_union_forms(row.forms, inflection_of(seq![Form::Tai]), Form::Tai);
        lemma_union_forms(row.forms, inflection_of(seq![Form::EasyTo]), Form::EasyTo);
        lemma_union_forms(row.forms, inflection_of(seq![Form::HardTo]), Form::HardTo);
        assert(marked(more[0].0));
        assert(marked(more[1].0));
        assert(marked(more[2].0));
        assert(all_marked(more));
        lemma_marked_concat(adjective_ops(rows.drop_last(), stem), more);
    }
}

proof fn lemma_contains1(f: Form)
    ensures
        inflection_of(seq![f]).forms().contains(f),
{
    assert(seq![f][0] == f);
    lemma_inflection_of_contains(seq![f], f);
}

/// The inflections made from the stem, the te form and the ちゃう stem all
/// carry a derived form.
proof fn lemma_verb_ops_marked(s: FragmentsView, t: FragmentsView, c: FragmentsView)
    ensures
        all_marked(stem_ops(s)),
        all_marked(te_ops(t)),
        all_marked(chau_ops(c)),
{
    lemma_contains1(Form::TaGaRu);
    lemma_derived_marked(spec_godan(godan_table(GodanClass::Ru)), inflection_of(seq![Form::TaGaRu]), s, "たが"@, Form::TaGaRu);
    lemma_adjective_marked(spec_adjective_i(), s);
    lemma_marked_concat(
        derived_ops(spec_godan(godan_table(GodanClass::Ru)), inflection_of(seq![Form::TaGaRu]), s, "たが"@),
        adjective_ops(spec_adjective_i(), s),
    );
    lemma_contains1(Form::Chau);
    lemma_derived_marked(spec_godan(godan_table(GodanClass::U)), inflection_of(seq![Form::Chau]), c, ""@, Form::Chau);

    let e0: Seq<Op> = seq![
        (
            inflection_of(seq![Form::TeIru, Form::Te, Form::Short]).union(inflection_of(seq![])),
            super::conjugate::extended(t, seq!["る"@]),
        ),
        (
            inflection_of(seq![Form::TeIru, Form::Te, Form::Short, Form::Honorific]).union(
                inflection_of(seq![]),
            ),
            super::conjugate::extended(t, seq!["ます"@]),
        ),
        (
            inflection_of(seq![Form::TeIru, Form::Te, Form::Past, Form::Short]).union(
                inflection_of(seq![]),
            ),
            super::conjugate::extended(t, seq!["た"@]),
        ),
    ];
    assert(seq![Form::TeIru, Form::Te, Form::Short].contains(Form::Te)) by {
        assert(seq![Form::TeIru, Form::Te, Form::Short][1] == Form::Te);
    }
    assert(seq![Form::TeIru, Form::Te, Form::Short, Form::Honorific].contains(Form::Te)) by {
        assert(seq![Form::TeIru, Form::Te, Form::Short, Form::Honorific][1] == Form::Te);
    }
    assert(seq![Form::TeIru, Form::Te, Form::Past, Form::Short].contains(Form::Te)) by {
        assert(seq![Form::TeIru, Form::Te, Form::Past, Form::Short][1] == Form::Te);
    }
    lemma_single_marked(seq![Form::TeIru, Form::Te, Form::Short], Form::Te, inflection_of(seq![]));
    lemma_single_marked(seq![Form::TeIru, Form::Te, Form::Short, Form::Honorific], Form::Te, inflection_of(seq![]));
    lemma_single_marked(seq![Form::TeIru, Form::Te, Form::Past, Form::Short], Form::Te, inflection_of(seq![]));
    assert(all_marked(e0)) by {
        assert forall|i: int| 0 <= i < e0.len() implies marked(#[trigger] e0[i].0) by {}
    }
    let d1 = derived_ops(spec_ichidan(), inflection_of(seq![Form::TeIru, Form::Te]), t, "い"@);
    let d2 = derived_ops(spec_godan(godan_table(GodanClass::Ru)), inflection_of(seq![Form::TeAru, Form::Te]), t, "あ"@);
    let d3 = derived_ops(spec_godan(godan_table(GodanClass::Iku)), inflection_of(seq![Form::TeIku, Form::Te]), t, "い"@);
    let d4 = derived_ops(spec_godan(godan_table(GodanClass::U)), inflection_of(seq![Form::TeShimau, Form::Te]), t, "しま"@);
    let d5 = derived_ops(spec_godan(godan_table(GodanClass::Ku)), inflection_of(seq![Form::TeOku, Form::Te]), t, "お"@);
    let d6 = derived_ops(spec_kuru(), inflection_of(seq![Form::TeKuru, Form::Te]), t, ""@);
    let e1: Seq<Op> = seq![
        (
            inflection_of(seq![Form::Te, Form::TeOku, Form::Short]).union(inflection_of(seq![])),
            super::conjugate::extended(t, seq!["く"@]),
        ),
    ];

    assert(seq![Form::TeIru, Form::Te][1] == Form::Te);
    lemma_inflection_of_contains(seq![Form::TeIru, Form::Te], Form::Te);
    assert(seq![Form::TeIru, Form::Te][1] == Form::Te);
    assert(seq![Form::TeAru, Form::Te][1] == Form::Te);
    lemma_inflection_of_contains(seq![Form::TeAru, Form::Te], Form::Te);
    assert(seq![Form::TeAru, Form::Te][1] == Form::Te);
    assert(seq![Form::TeIku, Form::Te][1] == Form::Te);
    lemma_inflection_of_contains(seq![Form::TeIku, Form::Te], Form::Te);
    assert(seq![Form::TeIku, Form::Te][1] == Form::Te);
    assert(seq![Form::TeShimau, Form::Te][1] == Form::Te);
    lemma_inflection_of_contains(seq![Form::TeShimau, Form::Te], Form::Te);
    assert(seq![Form::TeShimau, Form::Te][1] == Form::Te);
    assert(seq![Form::TeOku, Form::Te][1] == Form::Te);
    lemma_inflection_of_contains(seq![Form::TeOku, Form::Te], Form::Te);
    assert(seq![Form::TeOku, Form::Te][1] == Form::Te);
    assert(seq![Form::TeKuru, Form::Te][1] == Form::Te);
    lemma_inflection_of_contains(seq![Form::TeKuru, Form::Te], Form::Te);
    assert(seq![Form::TeKuru, Form::Te][1] == Form::Te);
    lemma_derived_marked(spec_ichidan(), inflection_of(seq![Form::TeIru, Form::Te]), t, "い"@, Form::Te);
    lemma_derived_marked(spec_godan(godan_table(GodanClass::Ru)), inflection_of(seq![Form::TeAru, Form::Te]), t, "あ"@, Form::Te);
    lemma_derived_marked(spec_godan(godan_table(GodanClass::Iku)), inflection_of(seq![Form::TeIku, Form::Te]), t, "い"@, Form::Te);
    lemma_derived_marked(spec_godan(godan_table(GodanClass::U)), inflection_of(seq![Form::TeShimau, Form::Te]), t, "しま"@, Form::Te);
    lemma_derived_marked(spec_godan(godan_table(GodanClass::Ku)), inflection_of(seq![Form::TeOku, Form::Te]), t, "お"@, Form::Te);
    lemma_derived_marked(spec_kuru(), inflection_of(seq![Form::TeKuru, Form::Te]), t, ""@, Form::Te);
    assert(seq![Form::Te, Form::TeOku, Form::Short][0] == Form::Te);
    lemma_single_marked(seq![Form::Te, Form::TeOku, Form::Short], Form::Te, inflection_of(seq![]));
    assert(all_marked(e1)) by {
        assert forall|i: int| 0 <= i < e1.len() implies marked(#[trigger] e1[i].0) by {}
    }
    lemma_marked_concat(e0, d1);
    lemma_marked_concat(e0 + d1, d2);
    lemma_marked_concat(e0 + d1 + d2, d3);
    lemma_marked_concat(e0 + d1 + d2 + d3, d4);
    lemma_marked_concat(e0 + d1 + d2 + d3 + d4, d5);
    lemma_marked_concat(e0 + d1 + d2 + d3 + d4 + d5, e1);
    lemma_marked_concat(e0 + d1 + d2 + d3 + d4 + d5 + e1, d6);
    assert(te_ops(t) == e0 + d1 + d2 + d3 + d4 + d5 + e1 + d6);
}

/// The word of an ichidan verb, spelled `kanji` and read `reading`, made
/// of its stems followed by `ending`.
pub open spec fn ichidan_word(kanji: Seq<char>, reading: Seq<char>, ending: Seq<char>) -> FragmentsView {
    word(seq![kanji.drop_last()], seq![reading.drop_last()], seq![ending])
}

/// The basic forms of an ichidan verb: for a spelling and a reading which
/// end in る, the stem is the spelling without it, and the dictionary form
/// ends in る, the polite form in ます, the negative in ない, the past in
/// た, the command in ろ, the passive and the potential in られる, the
/// volitional in よう (食べる gives 食べよう) and the causative in させる.
#[verifier::rlimit(100)]
#[verifier::spinoff_prover]
pub proof fn lemma_ichidan_basic_forms(kanji: Seq<char>, reading: Seq<char>)
    requires
        kanji.len() > 0,
        kanji.last() == 'る',
        reading.len() > 0,
        reading.last() == 'る',
    ensures
        conjugation_of(kanji, reading, PartOfSpeech::VerbIchidan) matches Some((m, kind)) && kind
            == Kind::Verb && {
            &&& m.contains_key(inflection_of(seq![Form::Stem]))
            &&& m[inflection_of(seq![Form::Stem])] == ichidan_word(kanji, reading, ""@)
            &&& m.contains_key(inflection_of(seq![]))
            &&& m[inflection_of(seq![])] == ichidan_word(kanji, reading, "る"@)
            &&& m.contains_key(inflection_of(seq![Form::Honorific]))
            &&& m[inflection_of(seq![Form::Honorific])] == ichidan_word(kanji, reading, "ます"@)
            &&& m.contains_key(inflection_of(seq![Form::Negative]))
            &&& m[inflection_of(seq![Form::Negative])] == ichidan_word(kanji, reading, "ない"@)
            &&& m.contains_key(inflection_of(seq![Form::Past]))
            &&& m[inflection_of(seq![Form::Past])] == ichidan_word(kanji, reading, "た"@)
            &&& m.contains_key(inflection_of(seq![Form::Command]))
            &&& m[inflection_of(seq![Form::Command])] == ichidan_word(kanji, reading, "ろ"@)
            &&& m.contains_key(inflection_of(seq![Form::Passive]))
            &&& m[inflection_of(seq![Form::Passive])] == ichidan_word(kanji, reading, "られる"@)
            &&& m.contains_key(inflection_of(seq![Form::Potential]))
            &&& m[inflection_of(seq![Form::Potential])] == ichidan_word(kanji, reading, "られる"@)
            &&& m.contains_key(inflection_of(seq![Form::Volitional]))
            &&& m[inflection_of(seq![Form::Volitional])] == ichidan_word(kanji, reading, "よう"@)
            &&& m.contains_key(inflection_of(seq![Form::Causative]))
            &&& m[inflection_of(seq![Form::Causative])] == ichidan_word(kanji, reading, "させる"@)
        },
{
    reveal(plan_of);
    let rows = spec_ichidan_te();
    let k = kanji.drop_last();
    let r = reading.drop_last();
    let base = base_ops(rows, Shape::Suffix, k, r);
    let s = row_word(Shape::Suffix, k, r, rows[0]);
    let t = row_word(Shape::Suffix, k, r, rows[1]);
    let c = word(seq![k], seq![r], seq!["っちゃ"@]);
    assert(kanji.drop_last() == k && reading.drop_last() == r);
    lemma_verb_ops_marked(s, t, c);
    let m0 = apply_ops(Map::empty(), base);
    let m1 = apply_ops(m0, stem_ops(s));
    let m2 = apply_ops(m1, te_ops(t));
    let m3 = apply_ops(m2, chau_ops(c));
    assert(conjugation_of(kanji, reading, PartOfSpeech::VerbIchidan) == Some((m3, Kind::Verb)));

    // Stem
    assert forall|i: int| 0 < i < base.len() implies (#[trigger] base[i]).0 != inflection_of(seq![Form::Stem]) by {
        if i == 1 {
            lemma_inflection_of_contains(seq![Form::Te], Form::Te);
            assert(seq![Form::Te][0] == Form::Te);
            lemma_inflection_of_contains(seq![Form::Stem], Form::Te);
            assert forall|q: int| 0 <= q < 1 implies seq![Form::Stem][q] != Form::Te by { if q == 0 {} }
            lemma_forms_differ(inflection_of(seq![Form::Te]), inflection_of(seq![Form::Stem]), Form::Te);
        } else if i == 2 {
            lemma_inflection_of_contains(seq![], Form::Stem);
            lemma_inflection_of_contains(seq![Form::Stem], Form::Stem);
            assert(seq![Form::Stem][0] == Form::Stem);
            lemma_forms_differ(inflection_of(seq![]), inflection_of(seq![Form::Stem]), Form::Stem);
        } else if i == 3 {
            lemma_inflection_of_contains(seq![Form::Honorific], Form::Honorific);
            assert(seq![Form::Honorific][0] == Form::Honorific);
            lemma_inflection_of_contains(seq![Form::Stem], Form::Honorific);
            assert forall|q: int| 0 <= q < 1 implies seq![Form::Stem][q] != Form::Honorific by { if q == 0 {} }
            lemma_forms_differ(inflection_of(seq![Form::Honorific]), inflection_of(seq![Form::Stem]), Form::Honorific);
        } else if i == 4 {
            lemma_inflection_of_contains(seq![Form::Negative], Form::Negative);
            assert(seq![Form::Negative][0] == Form::Negative);
            lemma_inflection_of_contains(seq![Form::Stem], Form::Negative);
            assert forall|q: int| 0 <= q < 1 implies seq![Form::Stem][q] != Form::Negative by { if q == 0 {} }
            lemma_forms_differ(inflection_of(seq![Form::Negative]), inflection_of(seq![Form::Stem]), Form::Negative);
        } else if i == 5 {
            lemma_inflection_of_contains(seq![Form::Negative, Form::Honorific], Form::Honorific);
            assert(seq![Form::Negative, Form::Honorific][1] == Form::Honorific);
            lemma_inflection_of_contains(seq![Form::Stem], Form::Honorific);
            assert forall|q: int| 0 <= q < 1 implies seq![Form::Stem][q] != Form::Honorific by { if q == 0 {} }
            lemma_forms_differ(inflection_of(seq![Form::Negative, Form::Honorific]), inflection_of(seq![Form::Stem]), Form::Honorific);
        } else if i == 6 {
            lemma_inflection_of_contains(seq![Form::Past], Form::Past);
            assert(seq![Form::Past][0] == Form::Past);
            lemma_inflection_of_contains(seq![Form::Stem], Form::Past);
            assert forall|q: int| 0 <= q < 1 implies seq![Form::Stem][q] != Form::Past by { if q == 0 {} }
            lemma_forms_differ(inflection_of(seq![Form::Past]), inflection_of(seq![Form::Stem]), Form::Past);
        } else if i == 7 {
            lemma_inflection_of_contains(seq![Form::Past, Form::Honorific], Form::Honorific);
            assert(seq![Form::Past, Form::Honorific][1] == Form::Honorific);
            lemma_inflection_of_contains(seq![Form::Stem], Form::Honorific);
            assert forall|q: int| 0 <= q < 1 implies seq![Form::Stem][q] != Form::Honorific by { if q == 0 {} }
            lemma_forms_differ(inflection_of(seq![Form::Past, Form::Honorific]), inflection_of(seq![Form::Stem]), Form::Honorific);
        } else if i == 8 {
            lemma_inflection_of_contains(seq![Form::Past, Form::Negative], Form::Negative);
            assert(seq![Form::Past, Form::Negative][1] == Form::Negative);
            lemma_inflection_of_contains(seq![Form::Stem], Form::Negative);
            assert forall|q: int| 0 <= q < 1 implies seq![Form::Stem][q] != Form::Negative by { if q == 0 {} }
            lemma_forms_differ(inflection_of(seq![Form::Past, Form::Negative]), inflection_of(seq![Form::Stem]), Form::Negative);
        } else if i == 9 {
            lemma_inflection_of_contains(seq![Form::Past, Form::Negative, Form::Honorific], Form::Honorific);
            assert(seq![Form::Past, Form::Negative, Form::Honorific][2] == Form::Honorific);
            lemma_inflection_of_contains(seq![Form::Stem], Form::Honorific);
            assert forall|q: int| 0 <= q < 1 implies seq![Form::Stem][q] != Form::Honorific by { if q == 0 {} }
            lemma_forms_differ(inflection_of(seq![Form::Past, Form::Negative, Form::Honorific]), inflection_of(seq![Form::Stem]), Form::Honorific);
        } else if i == 10 {
            lemma_inflection_of_contains(seq![Form::Command], Form::Command);
            assert(seq![Form::Command][0] == Form::Command);
            lemma_inflection_of_contains(seq![Form::Stem], Form::Command);
            assert forall|q: int| 0 <= q < 1 implies seq![Form::Stem][q] != Form::Command by { if q == 0 {} }
            lemma_forms_differ(inflection_of(seq![Form::Command]), inflection_of(seq![Form::Stem]), Form::Command);
        } else if i == 11 {
            lemma_inflection_of_contains(seq![Form::Command, Form::Honorific], Form::Command);
            assert(seq![Form::Command, Form::Honorific][0] == Form::Command);
            lemma_inflection_of_contains(seq![Form::Stem], Form::Command);
            assert forall|q: int| 0 <= q < 1 implies seq![Form::Stem][q] != Form::Command by { if q == 0 {} }
            lemma_forms_differ(inflection_of(seq![Form::Command, Form::Honorific]), inflection_of(seq![Form::Stem]), Form::Command);
        } else if i == 12 {
            lemma_inflection_of_contains(seq![Form::Command, Form::Honorific, Form::CommandTeKudasai], Form::Command);
            assert(seq![Form::Command, Form::Honorific, Form::CommandTeKudasai][0] == Form::Command);
            lemma_inflection_of_contains(seq![Form::Stem], Form::Command);
            assert forall|q: int| 0 <= q < 1 implies seq![Form::Stem][q] != Form::Command by { if q == 0 {} }
            lemma_forms_differ(inflection_of(seq![Form::Command, Form::Honorific, Form::CommandTeKudasai]), inflection_of(seq![Form::Stem]), Form::Command);
        } else if i == 13 {
            lemma_inflection_of_contains(seq![Form::Command, Form::CommandYo], Form::Command);
            assert(seq![Form::Command, Form::CommandYo][0] == Form::Command);
            lemma_inflection_of_contains(seq![Form::Stem], Form::Command);
            assert forall|q: int| 0 <= q < 1 implies seq![Form::Stem][q] != Form::Command by { if q == 0 {} }
            lemma_forms_differ(inflection_of(seq![Form::Command, Form::CommandYo]), inflection_of(seq![Form::Stem]), Form::Command);
        } else if i == 14 {
            lemma_inflection_of_contains(seq![Form::Command, Form::Negative], Form::Command);
            assert(seq![Form::Command, Form::Negative][0] == Form::Command);
            lemma_inflection_of_contains(seq![Form::Stem], Form::Command);
            assert forall|q: int| 0 <= q < 1 implies seq![Form::Stem][q] != Form::Command by { if q == 0 {} }
            lemma_forms_differ(inflection_of(seq![Form::Command, Form::Negative]), inflection_of(seq![Form::Stem]), Form::Command);
        } else if i == 15 {
            lemma_inflection_of_contains(seq![Form::Command, Form::Negative, Form::Honorific], Form::Command);
            assert(seq![Form::Command, Form::Negative, Form::Honorific][0] == Form::Command);
            lemma_inflection_of_contains(seq![Form::Stem], Form::Command);
            assert forall|q: int| 0 <= q < 1 implies seq![Form::Stem][q] != Form::Command by { if q == 0 {} }
            lemma_forms_differ(inflection_of(seq![Form::Command, Form::Negative, Form::Honorific]), inflection_of(seq![Form::Stem]), Form::Command);
        } else if i == 16 {
            lemma_inflection_of_contains(seq![Form::Hypothetical, Form::Conversation], Form::Conversation);
            assert(seq![Form::Hypothetical, Form::Conversation][1] == Form::Conversation);
            lemma_inflection_of_contains(seq![Form::Stem], Form::Conversation);
            assert forall|q: int| 0 <= q < 1 implies seq![Form::Stem][q] != Form::Conversation by { if q == 0 {} }
            lemma_forms_differ(inflection_of(seq![Form::Hypothetical, Form::Conversation]), inflection_of(seq![Form::Stem]), Form::Conversation);
        } else if i == 17 {
            lemma_inflection_of_contains(seq![Form::Hypothetical, Form::Conversation, Form::Negative], Form::Conversation);
            assert(seq![Form::Hypothetical, Form::Conversation, Form::Negative][1] == Form::Conversation);
            lemma_inflection_of_contains(seq![Form::Stem], Form::Conversation);
            assert forall|q: int| 0 <= q < 1 implies seq![Form::Stem][q] != Form::Conversation by { if q == 0 {} }
            lemma_forms_differ(inflection_of(seq![Form::Hypothetical, Form::Conversation, Form::Negative]), inflection_of(seq![Form::Stem]), Form::Conversation);
        } else if i == 18 {
            lemma_inflection_of_contains(seq![Form::Hypothetical], Form::Hypothetical);
            assert(seq![Form::Hypothetical][0] == Form::Hypothetical);
            lemma_inflection_of_contains(seq![Form::Stem], Form::Hypothetical);
            assert forall|q: int| 0 <= q < 1 implies seq![Form::Stem][q] != Form::Hypothetical by { if q == 0 {} }
            lemma_forms_differ(inflection_of(seq![Form::Hypothetical]), inflection_of(seq![Form::Stem]), Form::Hypothetical);
        } else if i == 19 {
            lemma_inflection_of_contains(seq![Form::Hypothetical, Form::Negative], Form::Hypothetical);
            assert(seq![Form::Hypothetical, Form::Negative][0] == Form::Hypothetical);
            lemma_inflection_of_contains(seq![Form::Stem], Form::Hypothetical);
            assert forall|q: int| 0 <= q < 1 implies seq![Form::Stem][q] != Form::Hypothetical by { if q == 0 {} }
            lemma_forms_differ(inflection_of(seq![Form::Hypothetical, Form::Negative]), inflection_of(seq![Form::Stem]), Form::Hypothetical);
        } else if i == 20 {
            lemma_inflection_of_contains(seq![Form::Hypothetical, Form::Negative, Form::Kya], Form::Hypothetical);
            assert(seq![Form::Hypothetical, Form::Negative, Form::Kya][0] == Form::Hypothetical);
            lemma_inflection_of_contains(seq![Form::Stem], Form::Hypothetical);
            assert forall|q: int| 0 <= q < 1 implies seq![Form::Stem][q] != Form::Hypothetical by { if q == 0 {} }
            lemma_forms_differ(inflection_of(seq![Form::Hypothetical, Form::Negative, Form::Kya]), inflection_of(seq![Form::Stem]), Form::Hypothetical);
        } else if i == 21 {
            lemma_inflection_of_contains(seq![Form::Conditional], Form::Conditional);
            assert(seq![Form::Conditional][0] == Form::Conditional);
            lemma_inflection_of_contains(seq![Form::Stem], Form::Conditional);
            assert forall|q: int| 0 <= q < 1 implies seq![Form::Stem][q] != Form::Conditional by { if q == 0 {} }
            lemma_forms_differ(inflection_of(seq![Form::Conditional]), inflection_of(seq![Form::Stem]), Form::Conditional);
        } else if i == 22 {
            lemma_inflection_of_contains(seq![Form::Conditional, Form::Honorific], Form::Conditional);
            assert(seq![Form::Conditional, Form::Honorific][0] == Form::Conditional);
            lemma_inflection_of_contains(seq![Form::Stem], Form::Conditional);
            assert forall|q: int| 0 <= q < 1 implies seq![Form::Stem][q] != Form::Conditional by { if q == 0 {} }
            lemma_forms_differ(inflection_of(seq![Form::Conditional, Form::Honorific]), inflection_of(seq![Form::Stem]), Form::Conditional);
        } else if i == 23 {
            lemma_inflection_of_contains(seq![Form::Conditional, Form::Negative], Form::Conditional);
            assert(seq![Form::Conditional, Form::Negative][0] == Form::Conditional);
            lemma_inflection_of_contains(seq![Form::Stem], Form::Conditional);
            assert forall|q: int| 0 <= q < 1 implies seq![Form::Stem][q] != Form::Conditional by { if q == 0 {} }
            lemma_forms_differ(inflection_of(seq![Form::Conditional, Form::Negative]), inflection_of(seq![Form::Stem]), Form::Conditional);
        } else if i == 24 {
            lemma_inflection_of_contains(seq![Form::Conditional, Form::Negative, Form::Honorific], Form::Conditional);
            assert(seq![Form::Conditional, Form::Negative, Form::Honorific][0] == Form::Conditional);
            lemma_inflection_of_contains(seq![Form::Stem], Form::Conditional);
            assert forall|q: int| 0 <= q < 1 implies seq![Form::Stem][q] != Form::Conditional by { if q == 0 {} }
            lemma_forms_differ(inflection_of(seq![Form::Conditional, Form::Negative, Form::Honorific]), inflection_of(seq![Form::Stem]), Form::Conditional);
        } else if i == 25 {
            lemma_inflection_of_contains(seq![Form::Passive, Form::Conversation], Form::Conversation);
            assert(seq![Form::Passive, Form::Conversation][1] == Form::Conversation);
            lemma_inflection_of_contains(seq![Form::Stem], Form::Conversation);
            assert forall|q: int| 0 <= q < 1 implies seq![Form::Stem][q] != Form::Conversation by { if q == 0 {} }
            lemma_forms_differ(inflection_of(seq![Form::Passive, Form::Conversation]), inflection_of(seq![Form::Stem]), Form::Conversation);
        } else if i == 26 {
            lemma_inflection_of_contains(seq![Form::Passive], Form::Passive);
            assert(seq![Form::Passive][0] == Form::Passive);
            lemma_inflection_of_contains(seq![Form::Stem], Form::Passive);
            assert forall|q: int| 0 <= q < 1 implies seq![Form::Stem][q] != Form::Passive by { if q == 0 {} }
            lemma_forms_differ(inflection_of(seq![Form::Passive]), inflection_of(seq![Form::Stem]), Form::Passive);
        } else if i == 27 {
            lemma_inflection_of_contains(seq![Form::Passive, Form::Honorific], Form::Honorific);
            assert(seq![Form::Passive, Form::Honorific][1] == Form::Honorific);
            lemma_inflection_of_contains(seq![Form::Stem], Form::Honorific);
            assert forall|q: int| 0 <= q < 1 implies seq![Form::Stem][q] != Form::Honorific by { if q == 0 {} }
            lemma_forms_differ(inflection_of(seq![Form::Passive, Form::Honorific]), inflection_of(seq![Form::Stem]), Form::Honorific);
        } else if i == 28 {
            lemma_inflection_of_contains(seq![Form::Passive, Form::Negative], Form::Negative);
            assert(seq![Form::Passive, Form::Negative][1] == Form::Negative);
            lemma_inflection_of_contains(seq![Form::Stem], Form::Negative);
            assert forall|q: int| 0 <= q < 1 implies seq![Form::Stem][q] != Form::Negative by { if q == 0 {} }
            lemma_forms_differ(inflection_of(seq![Form::Passive, Form::Negative]), inflection_of(seq![Form::Stem]), Form::Negative);
        } else if i == 29 {
            lemma_inflection_of_contains(seq![Form::Passive, Form::Negative, Form::Honorific], Form::Honorific);
            assert(seq![Form::Passive, Form::Negative, Form::Honorific][2] == Form::Honorific);
            lemma_inflection_of_contains(seq![Form::Stem], Form::Honorific);
            assert forall|q: int| 0 <= q < 1 implies seq![Form::Stem][q] != Form::Honorific by { if q == 0 {} }
            lemma_forms_differ(inflection_of(seq![Form::Passive, Form::Negative, Form::Honorific]), inflection_of(seq![Form::Stem]), Form::Honorific);
        } else if i == 30 {
            lemma_inflection_of_contains(seq![Form::Passive, Form::Past], Form::Passive);
            assert(seq![Form::Passive, Form::Past][0] == Form::Passive);
            lemma_inflection_of_contains(seq![Form::Stem], Form::Passive);
            assert forall|q: int| 0 <= q < 1 implies seq![Form::Stem][q] != Form::Passive by { if q == 0 {} }
            lemma_forms_differ(inflection_of(seq![Form::Passive, Form::Past]), inflection_of(seq![Form::Stem]), Form::Passive);
        } else if i == 31 {
            lemma_inflection_of_contains(seq![Form::Passive, Form::Past, Form::Honorific], Form::Honorific);
            assert(seq![Form::Passive, Form::Past, Form::Honorific][2] == Form::Honorific);
            lemma_inflection_of_contains(seq![Form::Stem], Form::Honorific);
            assert forall|q: int| 0 <= q < 1 implies seq![Form::Stem][q] != Form::Honorific by { if q == 0 {} }
            lemma_forms_differ(inflection_of(seq![Form::Passive, Form::Past, Form::Honorific]), inflection_of(seq![Form::Stem]), Form::Honorific);
        } else if i == 32 {
            lemma_inflection_of_contains(seq![Form::Potential], Form::Potential);
            assert(seq![Form::Potential][0] == Form::Potential);
            lemma_inflection_of_contains(seq![Form::Stem], Form::Potential);
            assert forall|q: int| 0 <= q < 1 implies seq![Form::Stem][q] != Form::Potential by { if q == 0 {} }
            lemma_forms_differ(inflection_of(seq![Form::Potential]), inflection_of(seq![Form::Stem]), Form::Potential);
        } else if i == 33 {
            lemma_inflection_of_contains(seq![Form::Potential, Form::Honorific], Form::Honorific);
            assert(seq![Form::Potential, Form::Honorific][1] == Form::Honorific);
            lemma_inflection_of_contains(seq![Form::Stem], Form::Honorific);
            assert forall|q: int| 0 <= q < 1 implies seq![Form::Stem][q] != Form::Honorific by { if q == 0 {} }
            lemma_forms_differ(inflection_of(seq![Form::Potential, Form::Honorific]), inflection_of(seq![Form::Stem]), Form::Honorific);
        } else if i == 34 {
            lemma_inflection_of_contains(seq![Form::Potential, Form::Negative], Form::Negative);
            assert(seq![Form::Potential, Form::Negative][1] == Form::Negative);
            lemma_inflection_of_contains(seq![Form::Stem], Form::Negative);
            assert forall|q: int| 0 <= q < 1 implies seq![Form::Stem][q] != Form::Negative by { if q == 0 {} }
            lemma_forms_differ(inflection_of(seq![Form::Potential, Form::Negative]), inflection_of(seq![Form::Stem]), Form::Negative);
        } else if i == 35 {
            lemma_inflection_of_contains(seq![Form::Potential, Form::Negative, Form::Honorific], Form::Honorific);
            assert(seq![Form::Potential, Form::Negative, Form::Honorific][2] == Form::Honorific);
            lemma_inflection_of_contains(seq![Form::Stem], Form::Honorific);
            assert forall|q: int| 0 <= q < 1 implies seq![Form::Stem][q] != Form::Honorific by { if q == 0 {} }
            lemma_forms_differ(inflection_of(seq![Form::Potential, Form::Negative, Form::Honorific]), inflection_of(seq![Form::Stem]), Form::Honorific);
        } else if i == 36 {
            lemma_inflection_of_contains(seq![Form::Potential, Form::Past], Form::Past);
            assert(seq![Form::Potential, Form::Past][1] == Form::Past);
            lemma_inflection_of_contains(seq![Form::Stem], Form::Past);
            assert forall|q: int| 0 <= q < 1 implies seq![Form::Stem][q] != Form::Past by { if q == 0 {} }
            lemma_forms_differ(inflection_of(seq![Form::Potential, Form::Past]), inflection_of(seq![Form::Stem]), Form::Past);
        } else if i == 37 {
            lemma_inflection_of_contains(seq![Form::Potential, Form::Past, Form::Honorific], Form::Honorific);
            assert(seq![Form::Potential, Form::Past, Form::Honorific][2] == Form::Honorific);
            lemma_inflection_of_contains(seq![Form::Stem], Form::Honorific);
            assert forall|q: int| 0 <= q < 1 implies seq![Form::Stem][q] != Form::Honorific by { if q == 0 {} }
            lemma_forms_differ(inflection_of(seq![Form::Potential, Form::Past, Form::Honorific]), inflection_of(seq![Form::Stem]), Form::Honorific);
        } else if i == 38 {
            lemma_inflection_of_contains(seq![Form::Potential, Form::Past, Form::Negative], Form::Negative);
            assert(seq![Form::Potential, Form::Past, Form::Negative][2] == Form::Negative);
            lemma_inflection_of_contains(seq![Form::Stem], Form::Negative);
            assert forall|q: int| 0 <= q < 1 implies seq![Form::Stem][q] != Form::Negative by { if q == 0 {} }
            lemma_forms_differ(inflection_of(seq![Form::Potential, Form::Past, Form::Negative]), inflection_of(seq![Form::Stem]), Form::Negative);
        } else if i == 39 {
            lemma_inflection_of_contains(seq![Form::Potential, Form::Past, Form::Negative, Form::Honorific], Form::Honorific);
            assert(seq![Form::Potential, Form::Past, Form::Negative, Form::Honorific][3] == Form::Honorific);
            lemma_inflection_of_contains(seq![Form::Stem], Form::Honorific);
            assert forall|q: int| 0 <= q < 1 implies seq![Form::Stem][q] != Form::Honorific by { if q == 0 {} }
            lemma_forms_differ(inflection_of(seq![Form::Potential, Form::Past, Form::Negative, Form::Honorific]), inflection_of(seq![Form::Stem]), Form::Honorific);
        } else if i == 40 {
            lemma_inflection_of_contains(seq![Form::Volitional], Form::Volitional);
            assert(seq![Form::Volitional][0] == Form::Volitional);
            lemma_inflection_of_contains(seq![Form::Stem], Form::Volitional);
            assert forall|q: int| 0 <= q < 1 implies seq![Form::Stem][q] != Form::Volitional by { if q == 0 {} }
            lemma_forms_differ(inflection_of(seq![Form::Volitional]), inflection_of(seq![Form::Stem]), Form::Volitional);
        } else if i == 41 {
            lemma_inflection_of_contains(seq![Form::Volitional, Form::Honorific], Form::Honorific);
            assert(seq![Form::Volitional, Form::Honorific][1] == Form::Honorific);
            lemma_inflection_of_contains(seq![Form::Stem], Form::Honorific);
            assert forall|q: int| 0 <= q < 1 implies seq![Form::Stem][q] != Form::Honorific by { if q == 0 {} }
            lemma_forms_differ(inflection_of(seq![Form::Volitional, Form::Honorific]), inflection_of(seq![Form::Stem]), Form::Honorific);
        } else if i == 42 {
            lemma_inflection_of_contains(seq![Form::Volitional, Form::Darou], Form::Darou);
            assert(seq![Form::Volitional, Form::Darou][1] == Form::Darou);
            lemma_inflection_of_contains(seq![Form::Stem], Form::Darou);
            assert forall|q: int| 0 <= q < 1 implies seq![Form::Stem][q] != Form::Darou by { if q == 0 {} }
            lemma_forms_differ(inflection_of(seq![Form::Volitional, Form::Darou]), inflection_of(seq![Form::Stem]), Form::Darou);
        } else if i == 43 {
            lemma_inflection_of_contains(seq![Form::Volitional, Form::Darou, Form::Honorific], Form::Darou);
            assert(seq![Form::Volitional, Form::Darou, Form::Honorific][1] == Form::Darou);
            lemma_inflection_of_contains(seq![Form::Stem], Form::Darou);
            assert forall|q: int| 0 <= q < 1 implies seq![Form::Stem][q] != Form::Darou by { if q == 0 {} }
            lemma_forms_differ(inflection_of(seq![Form::Volitional, Form::Darou, Form::Honorific]), inflection_of(seq![Form::Stem]), Form::Darou);
        } else if i == 44 {
            lemma_inflection_of_contains(seq![Form::Volitional, Form::Negative], Form::Negative);
            assert(seq![Form::Volitional, Form::Negative][1] == Form::Negative);
            lemma_inflection_of_contains(seq![Form::Stem], Form::Negative);
            assert forall|q: int| 0 <= q < 1 implies seq![Form::Stem][q] != Form::Negative by { if q == 0 {} }
            lemma_forms_differ(inflection_of(seq![Form::Volitional, Form::Negative]), inflection_of(seq![Form::Stem]), Form::Negative);
        } else if i == 45 {
            lemma_inflection_of_contains(seq![Form::Volitional, Form::Negative, Form::Honorific], Form::Honorific);
            assert(seq![Form::Volitional, Form::Negative, Form::Honorific][2] == Form::Honorific);
            lemma_inflection_of_contains(seq![Form::Stem], Form::Honorific);
            assert forall|q: int| 0 <= q < 1 implies seq![Form::Stem][q] != Form::Honorific by { if q == 0 {} }
            lemma_forms_differ(inflection_of(seq![Form::Volitional, Form::Negative, Form::Honorific]), inflection_of(seq![Form::Stem]), Form::Honorific);
        } else if i == 46 {
            lemma_inflection_of_contains(seq![Form::Causative], Form::Causative);
            assert(seq![Form::Causative][0] == Form::Causative);
            lemma_inflection_of_contains(seq![Form::Stem], Form::Causative);
            assert forall|q: int| 0 <= q < 1 implies seq![Form::Stem][q] != Form::Causative by { if q == 0 {} }
            lemma_forms_differ(inflection_of(seq![Form::Causative]), inflection_of(seq![Form::Stem]), Form::Causative);
        } else if i == 47 {
            lemma_inflection_of_contains(seq![Form::Simultaneous], Form::Simultaneous);
            assert(seq![Form::Simultaneous][0] == Form::Simultaneous);
            lemma_inflection_of_contains(seq![Form::Stem], Form::Simultaneous);
            assert forall|q: int| 0 <= q < 1 implies seq![Form::Stem][q] != Form::Simultaneous by { if q == 0 {} }
            lemma_forms_differ(inflection_of(seq![Form::Simultaneous]), inflection_of(seq![Form::Stem]), Form::Simultaneous);
        } else if i == 48 {
            lemma_inflection_of_contains(seq![Form::LooksLike], Form::LooksLike);
            assert(seq![Form::LooksLike][0] == Form::LooksLike);
            lemma_inflection_of_contains(seq![Form::Stem], Form::LooksLike);
            assert forall|q: int| 0 <= q < 1 implies seq![Form::Stem][q] != Form::LooksLike by { if q == 0 {} }
            lemma_forms_differ(inflection_of(seq![Form::LooksLike]), inflection_of(seq![Form::Stem]), Form::LooksLike);
        }
    }
    lemma_last_op(Map::empty(), base, 0, inflection_of(seq![Form::Stem]));
    assert forall|f: Form| derived_form(f) implies !inflection_of(seq![Form::Stem]).forms().contains(f) by {
        lemma_inflection_of_contains(seq![Form::Stem], f);
        if seq![Form::Stem].contains(f) {
            let q = choose|q: int| 0 <= q < seq![Form::Stem].len() && seq![Form::Stem][q] == f;
        }
    }
    assert forall|i: int| 0 <= i < stem_ops(s).len() implies (#[trigger] stem_ops(s)[i]).0 != inflection_of(seq![Form::Stem]) by {
        assert(marked(stem_ops(s)[i].0));
    }
    lemma_ops_absent(m0, stem_ops(s), inflection_of(seq![Form::Stem]));
    assert forall|i: int| 0 <= i < te_ops(t).len() implies (#[trigger] te_ops(t)[i]).0 != inflection_of(seq![Form::Stem]) by {
        assert(marked(te_ops(t)[i].0));
    }
    lemma_ops_absent(m1, te_ops(t), inflection_of(seq![Form::Stem]));
    assert forall|i: int| 0 <= i < chau_ops(c).len() implies (#[trigger] chau_ops(c)[i]).0 != inflection_of(seq![Form::Stem]) by {
        assert(marked(chau_ops(c)[i].0));
    }
    lemma_ops_absent(m2, chau_ops(c), inflection_of(seq![Form::Stem]));
    // dictionary form
    assert forall|i: int| 2 < i < base.len() implies (#[trigger] base[i]).0 != inflection_of(seq![]) by {
        if i == 3 {
            lemma_inflection_of_contains(seq![Form::Honorific], Form::Honorific);
            assert(seq![Form::Honorific][0] == Form::Honorific);
            lemma_inflection_of_contains(seq![], Form::Honorific);
            lemma_forms_differ(inflection_of(seq![Form::Honorific]), inflection_of(seq![]), Form::Honorific);
        } else if i == 4 {
            lemma_inflection_of_contains(seq![Form::Negative], Form::Negative);
            assert(seq![Form::Negative][0] == Form::Negative);
            lemma_inflection_of_contains(seq![], Form::Negative);
            lemma_forms_differ(inflection_of(seq![Form::Negative]), inflection_of(seq![]), Form::Negative);
        } else if i == 5 {
            lemma_inflection_of_contains(seq![Form::Negative, Form::Honorific], Form::Honorific);
            assert(seq![Form::Negative, Form::Honorific][1] == Form::Honorific);
            lemma_inflection_of_contains(seq![], Form::Honorific);
            lemma_forms_differ(inflection_of(seq![Form::Negative, Form::Honorific]), inflection_of(seq![]), Form::Honorific);
        } else if i == 6 {
            lemma_inflection_of_contains(seq![Form::Past], Form::Past);
            assert(seq![Form::Past][0] == Form::Past);
            lemma_inflection_of_contains(seq![], Form::Past);
            lemma_forms_differ(inflection_of(seq![Form::Past]), inflection_of(seq![]), Form::Past);
        } else if i == 7 {
            lemma_inflection_of_contains(seq![Form::Past, Form::Honorific], Form::Honorific);
            assert(seq![Form::Past, Form::Honorific][1] == Form::Honorific);
            lemma_inflection_of_contains(seq![], Form::Honorific);
            lemma_forms_differ(inflection_of(seq![Form::Past, Form::Honorific]), inflection_of(seq![]), Form::Honorific);
        } else if i == 8 {
            lemma_inflection_of_contains(seq![Form::Past, Form::Negative], Form::Negative);
            assert(seq![Form::Past, Form::Negative][1] == Form::Negative);
            lemma_inflection_of_contains(seq![], Form::Negative);
            lemma_forms_differ(inflection_of(seq![Form::Past, Form::Negative]), inflection_of(seq![]), Form::Negative);
        } else if i == 9 {
            lemma_inflection_of_contains(seq![Form::Past, Form::Negative, Form::Honorific], Form::Honorific);
            assert(seq![Form::Past, Form::Negative, Form::Honorific][2] == Form::Honorific);
            lemma_inflection_of_contains(seq![], Form::Honorific);
            lemma_forms_differ(inflection_of(seq![Form::Past, Form::Negative, Form::Honorific]), inflection_of(seq![]), Form::Honorific);
        } else if i == 10 {
            lemma_inflection_of_contains(seq![Form::Command], Form::Command);
            assert(seq![Form::Command][0] == Form::Command);
            lemma_inflection_of_contains(seq![], Form::Command);
            lemma_forms_differ(inflection_of(seq![Form::Command]), inflection_of(seq![]), Form::Command);
        } else if i == 11 {
            lemma_inflection_of_contains(seq![Form::Command, Form::Honorific], Form::Command);
            assert(seq![Form::Command, Form::Honorific][0] == Form::Command);
            lemma_inflection_of_contains(seq![], Form::Command);
            lemma_forms_differ(inflection_of(seq![Form::Command, Form::Honorific]), inflection_of(seq![]), Form::Command);
        } else if i == 12 {
            lemma_inflection_of_contains(seq![Form::Command, Form::Honorific, Form::CommandTeKudasai], Form::Command);
            assert(seq![Form::Command, Form::Honorific, Form::CommandTeKudasai][0] == Form::Command);
            lemma_inflection_of_contains(seq![], Form::Command);
            lemma_forms_differ(inflection_of(seq![Form::Command, Form::Honorific, Form::CommandTeKudasai]), inflection_of(seq![]), Form::Command);
        } else if i == 13 {
            lemma_inflection_of_contains(seq![Form::Command, Form::CommandYo], Form::Command);
            assert(seq![Form::Command, Form::CommandYo][0] == Form::Command);
            lemma_inflection_of_contains(seq![], Form::Command);
            lemma_forms_differ(inflection_of(seq![Form::Command, Form::CommandYo]), inflection_of(seq![]), Form::Command);
        } else if i == 14 {
            lemma_inflection_of_contains(seq![Form::Command, Form::Negative], Form::Command);
            assert(seq![Form::Command, Form::Negative][0] == Form::Command);
            lemma_inflection_of_contains(seq![], Form::Command);
            lemma_forms_differ(inflection_of(seq![Form::Command, Form::Negative]), inflection_of(seq![]), Form::Command);
        } else if i == 15 {
            lemma_inflection_of_contains(seq![Form::Command, Form::Negative, Form::Honorific], Form::Command);
            assert(seq![Form::Command, Form::Negative, Form::Honorific][0] == Form::Command);
            lemma_inflection_of_contains(seq![], Form::Command);
            lemma_forms_differ(inflection_of(seq![Form::Command, Form::Negative, Form::Honorific]), inflection_of(seq![]), Form::Command);
        } else if i == 16 {
            lemma_inflection_of_contains(seq![Form::Hypothetical, Form::Conversation], Form::Conversation);
            assert(seq![Form::Hypothetical, Form::Conversation][1] == Form::Conversation);
            lemma_inflection_of_contains(seq![], Form::Conversation);
            lemma_forms_differ(inflection_of(seq![Form::Hypothetical, Form::Conversation]), inflection_of(seq![]), Form::Conversation);
        } else if i == 17 {
            lemma_inflection_of_contains(seq![Form::Hypothetical, Form::Conversation, Form::Negative], Form::Conversation);
            assert(seq![Form::Hypothetical, Form::Conversation, Form::Negative][1] == Form::Conversation);
            lemma_inflection_of_contains(seq![], Form::Conversation);
            lemma_forms_differ(inflection_of(seq![Form::Hypothetical, Form::Conversation, Form::Negative]), inflection_of(seq![]), Form::Conversation);
        } else if i == 18 {
            lemma_inflection_of_contains(seq![Form::Hypothetical], Form::Hypothetical);
            assert(seq![Form::Hypothetical][0] == Form::Hypothetical);
            lemma_inflection_of_contains(seq![], Form::Hypothetical);
            lemma_forms_differ(inflection_of(seq![Form::Hypothetical]), inflection_of(seq![]), Form::Hypothetical);
        } else if i == 19 {
            lemma_inflection_of_contains(seq![Form::Hypothetical, Form::Negative], Form::Hypothetical);
            assert(seq![Form::Hypothetical, Form::Negative][0] == Form::Hypothetical);
            lemma_inflection_of_contains(seq![], Form::Hypothetical);
            lemma_forms_differ(inflection_of(seq![Form::Hypothetical, Form::Negative]), inflection_of(seq![]), Form::Hypothetical);
        } else if i == 20 {
            lemma_inflection_of_contains(seq![Form::Hypothetical, Form::Negative, Form::Kya], Form::Hypothetical);
            assert(seq![Form::Hypothetical, Form::Negative, Form::Kya][0] == Form::Hypothetical);
            lemma_inflection_of_contains(seq![], Form::Hypothetical);
            lemma_forms_differ(inflection_of(seq![Form::Hypothetical, Form::Negative, Form::Kya]), inflection_of(seq![]), Form::Hypothetical);
        } else if i == 21 {
            lemma_inflection_of_contains(seq![Form::Conditional], Form::Conditional);
            assert(seq![Form::Conditional][0] == Form::Conditional);
            lemma_inflection_of_contains(seq![], Form::Conditional);
            lemma_forms_differ(inflection_of(seq![Form::Conditional]), inflection_of(seq![]), Form::Conditional);
        } else if i == 22 {
            lemma_inflection_of_contains(seq![Form::Conditional, Form::Honorific], Form::Conditional);
            assert(seq![Form::Conditional, Form::Honorific][0] == Form::Conditional);
            lemma_inflection_of_contains(seq![], Form::Conditional);
            lemma_forms_differ(inflection_of(seq![Form::Conditional, Form::Honorific]), inflection_of(seq![]), Form::Conditional);
        } else if i == 23 {
            lemma_inflection_of_contains(seq![Form::Conditional, Form::Negative], Form::Conditional);
            assert(seq![Form::Conditional, Form::Negative][0] == Form::Conditional);
            lemma_inflection_of_contains(seq![], Form::Conditional);
            lemma_forms_differ(inflection_of(seq![Form::Conditional, Form::Negative]), inflection_of(seq![]), Form::Conditional);
        } else if i == 24 {
            lemma_inflection_of_contains(seq![Form::Conditional, Form::Negative, Form::Honorific], Form::Conditional);
            assert(seq![Form::Conditional, Form::Negative, Form::Honorific][0] == Form::Conditional);
            lemma_inflection_of_contains(seq![], Form::Conditional);
            lemma_forms_differ(inflection_of(seq![Form::Conditional, Form::Negative, Form::Honorific]), inflection_of(seq![]), Form::Conditional);
        } else if i == 25 {
            lemma_inflection_of_contains(seq![Form::Passive, Form::Conversation], Form::Conversation);
            assert(seq![Form::Passive, Form::Conversation][1] == Form::Conversation);
            lemma_inflection_of_contains(seq![], Form::Conversation);
            lemma_forms_differ(inflection_of(seq![Form::Passive, Form::Conversation]), inflection_of(seq![]), Form::Conversation);
        } else if i == 26 {
            lemma_inflection_of_contains(seq![Form::Passive], Form::Passive);
            assert(seq![Form::Passive][0] == Form::Passive);
            lemma_inflection_of_contains(seq![], Form::Passive);
            lemma_forms_differ(inflection_of(seq![Form::Passive]), inflection_of(seq![]), Form::Passive);
        } else if i == 27 {
            lemma_inflection_of_contains(seq![Form::Passive, Form::Honorific], Form::Honorific);
            assert(seq![Form::Passive, Form::Honorific][1] == Form::Honorific);
            lemma_inflection_of_contains(seq![], Form::Honorific);
            lemma_forms_differ(inflection_of(seq![Form::Passive, Form::Honorific]), inflection_of(seq![]), Form::Honorific);
        } else if i == 28 {
            lemma_inflection_of_contains(seq![Form::Passive, Form::Negative], Form::Negative);
            assert(seq![Form::Passive, Form::Negative][1] == Form::Negative);
            lemma_inflection_of_contains(seq![], Form::Negative);
            lemma_forms_differ(inflection_of(seq![Form::Passive, Form::Negative]), inflection_of(seq![]), Form::Negative);
        } else if i == 29 {
            lemma_inflection_of_contains(seq![Form::Passive, Form::Negative, Form::Honorific], Form::Honorific);
            assert(seq![Form::Passive, Form::Negative, Form::Honorific][2] == Form::Honorific);
            lemma_inflection_of_contains(seq![], Form::Honorific);
            lemma_forms_differ(inflection_of(seq![Form::Passive, Form::Negative, Form::Honorific]), inflection_of(seq![]), Form::Honorific);
        } else if i == 30 {
            lemma_inflection_of_contains(seq![Form::Passive, Form::Past], Form::Passive);
            assert(seq![Form::Passive, Form::Past][0] == Form::Passive);
            lemma_inflection_of_contains(seq![], Form::Passive);
            lemma_forms_differ(inflection_of(seq![Form::Passive, Form::Past]), inflection_of(seq![]), Form::Passive);
        } else if i == 31 {
            lemma_inflection_of_contains(seq![Form::Passive, Form::Past, Form::Honorific], Form::Honorific);
            assert(seq![Form::Passive, Form::Past, Form::Honorific][2] == Form::Honorific);
            lemma_inflection_of_contains(seq![], Form::Honorific);
            lemma_forms_differ(inflection_of(seq![Form::Passive, Form::Past, Form::Honorific]), inflection_of(seq![]), Form::Honorific);
        } else if i == 32 {
            lemma_inflection_of_contains(seq![Form::Potential], Form::Potential);
            assert(seq![Form::Potential][0] == Form::Potential);
            lemma_inflection_of_contains(seq![], Form::Potential);
            lemma_forms_differ(inflection_of(seq![Form::Potential]), inflection_of(seq![]), Form::Potential);
        } else if i == 33 {
            lemma_inflection_of_contains(seq![Form::Potential, Form::Honorific], Form::Honorific);
            assert(seq![Form::Potential, Form::Honorific][1] == Form::Honorific);
            lemma_inflection_of_contains(seq![], Form::Honorific);
            lemma_forms_differ(inflection_of(seq![Form::Potential, Form::Honorific]), inflection_of(seq![]), Form::Honorific);
        } else if i == 34 {
            lemma_inflection_of_contains(seq![Form::Potential, Form::Negative], Form::Negative);
            assert(seq![Form::Potential, Form::Negative][1] == Form::Negative);
            lemma_inflection_of_contains(seq![], Form::Negative);
            lemma_forms_differ(inflection_of(seq![Form::Potential, Form::Negative]), inflection_of(seq![]), Form::Negative);
        } else if i == 35 {
            lemma_inflection_of_contains(seq![Form::Potential, Form::Negative, Form::Honorific], Form::Honorific);
            assert(seq![Form::Potential, Form::Negative, Form::Honorific][2] == Form::Honorific);
            lemma_inflection_of_contains(seq![], Form::Honorific);
            lemma_forms_differ(inflection_of(seq![Form::Potential, Form::Negative, Form::Honorific]), inflection_of(seq![]), Form::Honorific);
        } else if i == 36 {
            lemma_inflection_of_contains(seq![Form::Potential, Form::Past], Form::Past);
            assert(seq![Form::Potential, Form::Past][1] == Form::Past);
            lemma_inflection_of_contains(seq![], Form::Past);
            lemma_forms_differ(inflection_of(seq![Form::Potential, Form::Past]), inflection_of(seq![]), Form::Past);
        } else if i == 37 {
            lemma_inflection_of_contains(seq![Form::Potential, Form::Past, Form::Honorific], Form::Honorific);
            assert(seq![Form::Potential, Form::Past, Form::Honorific][2] == Form::Honorific);
            lemma_inflection_of_contains(seq![], Form::Honorific);
            lemma_forms_differ(inflection_of(seq![Form::Potential, Form::Past, Form::Honorific]), inflection_of(seq![]), Form::Honorific);
        } else if i == 38 {
            lemma_inflection_of_contains(seq![Form::Potential, Form::Past, Form::Negative], Form::Negative);
            assert(seq![Form::Potential, Form::Past, Form::Negative][2] == Form::Negative);
            lemma_inflection_of_contains(seq![], Form::Negative);
            lemma_forms_differ(inflection_of(seq![Form::Potential, Form::Past, Form::Negative]), inflection_of(seq![]), Form::Negative);
        } else if i == 39 {
            lemma_inflection_of_contains(seq![Form::Potential, Form::Past, Form::Negative, Form::Honorific], Form::Honorific);
            assert(seq![Form::Potential, Form::Past, Form::Negative, Form::Honorific][3] == Form::Honorific);
            lemma_inflection_of_contains(seq![], Form::Honorific);
            lemma_forms_differ(inflection_of(seq![Form::Potential, Form::Past, Form::Negative, Form::Honorific]), inflection_of(seq![]), Form::Honorific);
        } else if i == 40 {
            lemma_inflection_of_contains(seq![Form::Volitional], Form::Volitional);
            assert(seq![Form::Volitional][0] == Form::Volitional);
            lemma_inflection_of_contains(seq![], Form::Volitional);
            lemma_forms_differ(inflection_of(seq![Form::Volitional]), inflection_of(seq![]), Form::Volitional);
        } else if i == 41 {
            lemma_inflection_of_contains(seq![Form::Volitional, Form::Honorific], Form::Honorific);
            assert(seq![Form::Volitional, Form::Honorific][1] == Form::Honorific);
            lemma_inflection_of_contains(seq![], Form::Honorific);
            lemma_forms_differ(inflection_of(seq![Form::Volitional, Form::Honorific]), inflection_of(seq![]), Form::Honorific);
        } else if i == 42 {
            lemma_inflection_of_contains(seq![Form::Volitional, Form::Darou], Form::Darou);
            assert(seq![Form::Volitional, Form::Darou][1] == Form::Darou);
            lemma_inflection_of_contains(seq![], Form::Darou);
            lemma_forms_differ(inflection_of(seq![Form::Volitional, Form::Darou]), inflection_of(seq![]), Form::Darou);
        } else if i == 43 {
            lemma_inflection_of_contains(seq![Form::Volitional, Form::Darou, Form::Honorific], Form::Darou);
            assert(seq![Form::Volitional, Form::Darou, Form::Honorific][1] == Form::Darou);
            lemma_inflection_of_contains(seq![], Form::Darou);
            lemma_forms_differ(inflection_of(seq![Form::Volitional, Form::Darou, Form::Honorific]), inflection_of(seq![]), Form::Darou);
        } else if i == 44 {
            lemma_inflection_of_contains(seq![Form::Volitional, Form::Negative], Form::Negative);
            assert(seq![Form::Volitional, Form::Negative][1] == Form::Negative);
            lemma_inflection_of_contains(seq![], Form::Negative);
            lemma_forms_differ(inflection_of(seq![Form::Volitional, Form::Negative]), inflection_of(seq![]), Form::Negative);
        } else if i == 45 {
            lemma_inflection_of_contains(seq![Form::Volitional, Form::Negative, Form::Honorific], Form::Honorific);
            assert(seq![Form::Volitional, Form::Negative, Form::Honorific][2] == Form::Honorific);
            lemma_inflection_of_contains(seq![], Form::Honorific);
            lemma_forms_differ(inflection_of(seq![Form::Volitional, Form::Negative, Form::Honorific]), inflection_of(seq![]), Form::Honorific);
        } else if i == 46 {
            lemma_inflection_of_contains(seq![Form::Causative], Form::Causative);
            assert(seq![Form::Causative][0] == Form::Causative);
            lemma_inflection_of_contains(seq![], Form::Causative);
            lemma_forms_differ(inflection_of(seq![Form::Causative]), inflection_of(seq![]), Form::Causative);
        } else if i == 47 {
            lemma_inflection_of_contains(seq![Form::Simultaneous], Form::Simultaneous);
            assert(seq![Form::Simultaneous][0] == Form::Simultaneous);
            lemma_inflection_of_contains(seq![], Form::Simultaneous);
            lemma_forms_differ(inflection_of(seq![Form::Simultaneous]), inflection_of(seq![]), Form::Simultaneous);
        } else if i == 48 {
            lemma_inflection_of_contains(seq![Form::LooksLike], Form::LooksLike);
            assert(seq![Form::LooksLike][0] == Form::LooksLike);
            lemma_inflection_of_contains(seq![], Form::LooksLike);
            lemma_forms_differ(inflection_of(seq![Form::LooksLike]), inflection_of(seq![]), Form::LooksLike);
        }
    }
    lemma_last_op(Map::empty(), base, 2, inflection_of(seq![]));
    assert forall|f: Form| derived_form(f) implies !inflection_of(seq![]).forms().contains(f) by {
        lemma_inflection_of_contains(Seq::<Form>::empty(), f);
        if Seq::<Form>::empty().contains(f) {
            let q = choose|q: int| 0 <= q < Seq::<Form>::empty().len() && Seq::<Form>::empty()[q] == f;
        }
    }
    assert forall|i: int| 0 <= i < stem_ops(s).len() implies (#[trigger] stem_ops(s)[i]).0 != inflection_of(seq![]) by {
        assert(marked(stem_ops(s)[i].0));
    }
    lemma_ops_absent(m0, stem_ops(s), inflection_of(seq![]));
    assert forall|i: int| 0 <= i < te_ops(t).len() implies (#[trigger] te_ops(t)[i]).0 != inflection_of(seq![]) by {
        assert(marked(te_ops(t)[i].0));
    }
    lemma_ops_absent(m1, te_ops(t), inflection_of(seq![]));
    assert forall|i: int| 0 <= i < chau_ops(c).len() implies (#[trigger] chau_ops(c)[i]).0 != inflection_of(seq![]) by {
        assert(marked(chau_ops(c)[i].0));
    }
    lemma_ops_absent(m2, chau_ops(c), inflection_of(seq![]));
    // Honorific
    assert forall|i: int| 3 < i < base.len() implies (#[trigger] base[i]).0 != inflection_of(seq![Form::Honorific]) by {
        if i == 4 {
            lemma_inflection_of_contains(seq![Form::Negative], Form::Negative);
            assert(seq![Form::Negative][0] == Form::Negative);
            lemma_inflection_of_contains(seq![Form::Honorific], Form::Negative);
            assert forall|q: int| 0 <= q < 1 implies seq![Form::Honorific][q] != Form::Negative by { if q == 0 {} }
            lemma_forms_differ(inflection_of(seq![Form::Negative]), inflection_of(seq![Form::Honorific]), Form::Negative);
        } else if i == 5 {
            lemma_inflection_of_contains(seq![Form::Negative, Form::Honorific], Form::Negative);
            assert(seq![Form::Negative, Form::Honorific][0] == Form::Negative);
            lemma_inflection_of_contains(seq![Form::Honorific], Form::Negative);
            assert forall|q: int| 0 <= q < 1 implies seq![Form::Honorific][q] != Form::Negative by { if q == 0 {} }
            lemma_forms_differ(inflection_of(seq![Form::Negative, Form::Honorific]), inflection_of(seq![Form::Honorific]), Form::Negative);
        } else if i == 6 {
            lemma_inflection_of_contains(seq![Form::Past], Form::Past);
            assert(seq![Form::Past][0] == Form::Past);
            lemma_inflection_of_contains(seq![Form::Honorific], Form::Past);
            assert forall|q: int| 0 <= q < 1 implies seq![Form::Honorific][q] != Form::Past by { if q == 0 {} }
            lemma_forms_differ(inflection_of(seq![Form::Past]), inflection_of(seq![Form::Honorific]), Form::Past);
        } else if i == 7 {
            lemma_inflection_of_contains(seq![Form::Past, Form::Honorific], Form::Past);
            assert(seq![Form::Past, Form::Honorific][0] == Form::Past);
            lemma_inflection_of_contains(seq![Form::Honorific], Form::Past);
            assert forall|q: int| 0 <= q < 1 implies seq![Form::Honorific][q] != Form::Past by { if q == 0 {} }
            lemma_forms_differ(inflection_of(seq![Form::Past, Form::Honorific]), inflection_of(seq![Form::Honorific]), Form::Past);
        } else if i == 8 {
            lemma_inflection_of_contains(seq![Form::Past, Form::Negative], Form::Negative);
            assert(seq![Form::Past, Form::Negative][1] == Form::Negative);
            lemma_inflection_of_contains(seq![Form::Honorific], Form::Negative);
            assert forall|q: int| 0 <= q < 1 implies seq![Form::Honorific][q] != Form::Negative by { if q == 0 {} }
            lemma_forms_differ(inflection_of(seq![Form::Past, Form::Negative]), inflection_of(seq![Form::Honorific]), Form::Negative);
        } else if i == 9 {
            lemma_inflection_of_contains(seq![Form::Past, Form::Negative, Form::Honorific], Form::Negative);
            assert(seq![Form::Past, Form::Negative, Form::Honorific][1] == Form::Negative);
            lemma_inflection_of_contains(seq![Form::Honorific], Form::Negative);
            assert forall|q: int| 0 <= q < 1 implies seq![Form::Honorific][q] != Form::Negative by { if q == 0 {} }
            lemma_forms_differ(inflection_of(seq![Form::Past, Form::Negative, Form::Honorific]), inflection_of(seq![Form::Honorific]), Form::Negative);
        } else if i == 10 {
            lemma_inflection_of_contains(seq![Form::Command], Form::Command);
            assert(seq![Form::Command][0] == Form::Command);
            lemma_inflection_of_contains(seq![Form::Honorific], Form::Command);
            assert forall|q: int| 0 <= q < 1 implies seq![Form::Honorific][q] != Form::Command by { if q == 0 {} }
            lemma_forms_differ(inflection_of(seq![Form::Command]), inflection_of(seq![Form::Honorific]), Form::Command);
        } else if i == 11 {
            lemma_inflection_of_contains(seq![Form::Command, Form::Honorific], Form::Command);
            assert(seq![Form::Command, Form::Honorific][0] == Form::Command);
            lemma_inflection_of_contains(seq![Form::Honorific], Form::Command);
            assert forall|q: int| 0 <= q < 1 implies seq![Form::Honorific][q] != Form::Command by { if q == 0 {} }
            lemma_forms_differ(inflection_of(seq![Form::Command, Form::Honorific]), inflection_of(seq![Form::Honorific]), Form::Command);
        } else if i == 12 {
            lemma_inflection_of_contains(seq![Form::Command, Form::Honorific, Form::CommandTeKudasai], Form::Command);
            assert(seq![Form::Command, Form::Honorific, Form::CommandTeKudasai][0] == Form::Command);
            lemma_inflection_of_contains(seq![Form::Honorific], Form::Command);
            assert forall|q: int| 0 <= q < 1 implies seq![Form::Honorific][q] != Form::Command by { if q == 0 {} }
            lemma_forms_differ(inflection_of(seq![Form::Command, Form::Honorific, Form::CommandTeKudasai]), inflection_of(seq![Form::Honorific]), Form::Command);
        } else if i == 13 {
            lemma_inflection_of_contains(seq![Form::Command, Form::CommandYo], Form::Command);
            assert(seq![Form::Command, Form::CommandYo][0] == Form::Command);
            lemma_inflection_of_contains(seq![Form::Honorific], Form::Command);
            assert forall|q: int| 0 <= q < 1 implies seq![Form::Honorific][q] != Form::Command by { if q == 0 {} }
            lemma_forms_differ(inflection_of(seq![Form::Command, Form::CommandYo]), inflection_of(seq![Form::Honorific]), Form::Command);
        } else if i == 14 {
            lemma_inflection_of_contains(seq![Form::Command, Form::Negative], Form::Command);
            assert(seq![Form::Command, Form::Negative][0] == Form::Command);
            lemma_inflection_of_contains(seq![Form::Honorific], Form::Command);
            assert forall|q: int| 0 <= q < 1 implies seq![Form::Honorific][q] != Form::Command by { if q == 0 {} }
            lemma_forms_differ(inflection_of(seq![Form::Command, Form::Negative]), inflection_of(seq![Form::Honorific]), Form::Command);
        } else if i == 15 {
            lemma_inflection_of_contains(seq![Form::Command, Form::Negative, Form::Honorific], Form::Command);
            assert(seq![Form::Command, Form::Negative, Form::Honorific][0] == Form::Command);
            lemma_inflection_of_contains(seq![Form::Honorific], Form::Command);
            assert forall|q: int| 0 <= q < 1 implies seq![Form::Honorific][q] != Form::Command by { if q == 0 {} }
            lemma_forms_differ(inflection_of(seq![Form::Command, Form::Negative, Form::Honorific]), inflection_of(seq![Form::Honorific]), Form::Command);
        } else if i == 16 {
            lemma_inflection_of_contains(seq![Form::Hypothetical, Form::Conversation], Form::Conversation);
            assert(seq![Form::Hypothetical, Form::Conversation][1] == Form::Conversation);
            lemma_inflection_of_contains(seq![Form::Honorific], Form::Conversation);
            assert forall|q: int| 0 <= q < 1 implies seq![Form::Honorific][q] != Form::Conversation by { if q == 0 {} }
            lemma_forms_differ(inflection_of(seq![Form::Hypothetical, Form::Conversation]), inflection_of(seq![Form::Honorific]), Form::Conversation);
        } else if i == 17 {
            lemma_inflection_of_contains(seq![Form::Hypothetical, Form::Conversation, Form::Negative], Form::Conversation);
            assert(seq![Form::Hypothetical, Form::Conversation, Form::Negative][1] == Form::Conversation);
            lemma_inflection_of_contains(seq![Form::Honorific], Form::Conversation);
            assert forall|q: int| 0 <= q < 1 implies seq![Form::Honorific][q] != Form::Conversation by { if q == 0 {} }
            lemma_forms_differ(inflection_of(seq![Form::Hypothetical, Form::Conversation, Form::Negative]), inflection_of(seq![Form::Honorific]), Form::Conversation);
        } else if i == 18 {
            lemma_inflection_of_contains(seq![Form::Hypothetical], Form::Hypothetical);
            assert(seq![Form::Hypothetical][0] == Form::Hypothetical);
            lemma_inflection_of_contains(seq![Form::Honorific], Form::Hypothetical);
            assert forall|q: int| 0 <= q < 1 implies seq![Form::Honorific][q] != Form::Hypothetical by { if q == 0 {} }
            lemma_forms_differ(inflection_of(seq![Form::Hypothetical]), inflection_of(seq![Form::Honorific]), Form::Hypothetical);
        } else if i == 19 {
            lemma_inflection_of_contains(seq![Form::Hypothetical, Form::Negative], Form::Hypothetical);
            assert(seq![Form::Hypothetical, Form::Negative][0] == Form::Hypothetical);
            lemma_inflection_of_contains(seq![Form::Honorific], Form::Hypothetical);
            assert forall|q: int| 0 <= q < 1 implies seq![Form::Honorific][q] != Form::Hypothetical by { if q == 0 {} }
            lemma_forms_differ(inflection_of(seq![Form::Hypothetical, Form::Negative]), inflection_of(seq![Form::Honorific]), Form::Hypothetical);
        } else if i == 20 {
            lemma_inflection_of_contains(seq![Form::Hypothetical, Form::Negative, Form::Kya], Form::Hypothetical);
            assert(seq![Form::Hypothetical, Form::Negative, Form::Kya][0] == Form::Hypothetical);
            lemma_inflection_of_contains(seq![Form::Honorific], Form::Hypothetical);
            assert forall|q: int| 0 <= q < 1 implies seq![Form::Honorific][q] != Form::Hypothetical by { if q == 0 {} }
            lemma_forms_differ(inflection_of(seq![Form::Hypothetical, Form::Negative, Form::Kya]), inflection_of(seq![Form::Honorific]), Form::Hypothetical);
        } else if i == 21 {
            lemma_inflection_of_contains(seq![Form::Conditional], Form::Conditional);
            assert(seq![Form::Conditional][0] == Form::Conditional);
            lemma_inflection_of_contains(seq![Form::Honorific], Form::Conditional);
            assert forall|q: int| 0 <= q < 1 implies seq![Form::Honorific][q] != Form::Conditional by { if q == 0 {} }
            lemma_forms_differ(inflection_of(seq![Form::Conditional]), inflection_of(seq![Form::Honorific]), Form::Conditional);
        } else if i == 22 {
            lemma_inflection_of_contains(seq![Form::Conditional, Form::Honorific], Form::Conditional);
            assert(seq![Form::Conditional, Form::Honorific][0] == Form::Conditional);
            lemma_inflection_of_contains(seq![Form::Honorific], Form::Conditional);
            assert forall|q: int| 0 <= q < 1 implies seq![Form::Honorific][q] != Form::Conditional by { if q == 0 {} }
            lemma_forms_differ(inflection_of(seq![Form::Conditional, Form::Honorific]), inflection_of(seq![Form::Honorific]), Form::Conditional);
        } else if i == 23 {
            lemma_inflection_of_contains(seq![Form::Conditional, Form::Negative], Form::Conditional);
            assert(seq![Form::Conditional, Form::Negative][0] == Form::Conditional);
            lemma_inflection_of_contains(seq![Form::Honorific], Form::Conditional);
            assert forall|q: int| 0 <= q < 1 implies seq![Form::Honorific][q] != Form::Conditional by { if q == 0 {} }
            lemma_forms_differ(inflection_of(seq![Form::Conditional, Form::Negative]), inflection_of(seq![Form::Honorific]), Form::Conditional);
        } else if i == 24 {
            lemma_inflection_of_contains(seq![Form::Conditional, Form::Negative, Form::Honorific], Form::Conditional);
            assert(seq![Form::Conditional, Form::Negative, Form::Honorific][0] == Form::Conditional);
            lemma_inflection_of_contains(seq![Form::Honorific], Form::Conditional);
            assert forall|q: int| 0 <= q < 1 implies seq![Form::Honorific][q] != Form::Conditional by { if q == 0 {} }
            lemma_forms_differ(inflection_of(seq![Form::Conditional, Form::Negative, Form::Honorific]), inflection_of(seq![Form::Honorific]), Form::Conditional);
        } else if i == 25 {
            lemma_inflection_of_contains(seq![Form::Passive, Form::Conversation], Form::Conversation);
            assert(seq![Form::Passive, Form::Conversation][1] == Form::Conversation);
            lemma_inflection_of_contains(seq![Form::Honorific], Form::Conversation);
            assert forall|q: int| 0 <= q < 1 implies seq![Form::Honorific][q] != Form::Conversation by { if q == 0 {} }
            lemma_forms_differ(inflection_of(seq![Form::Passive, Form::Conversation]), inflection_of(seq![Form::Honorific]), Form::Conversation);
        } else if i == 26 {
            lemma_inflection_of_contains(seq![Form::Passive], Form::Passive);
            assert(seq![Form::Passive][0] == Form::Passive);
            lemma_inflection_of_contains(seq![Form::Honorific], Form::Passive);
            assert forall|q: int| 0 <= q < 1 implies seq![Form::Honorific][q] != Form::Passive by { if q == 0 {} }
            lemma_forms_differ(inflection_of(seq![Form::Passive]), inflection_of(seq![Form::Honorific]), Form::Passive);
        } else if i == 27 {
            lemma_inflection_of_contains(seq![Form::Passive, Form::Honorific], Form::Passive);
            assert(seq![Form::Passive, Form::Honorific][0] == Form::Passive);
            lemma_inflection_of_contains(seq![Form::Honorific], Form::Passive);
            assert forall|q: int| 0 <= q < 1 implies seq![Form::Honorific][q] != Form::Passive by { if q == 0 {} }
            lemma_forms_differ(inflection_of(seq![Form::Passive, Form::Honorific]), inflection_of(seq![Form::Honorific]), Form::Passive);
        } else if i == 28 {
            lemma_inflection_of_contains(seq![Form::Passive, Form::Negative], Form::Negative);
            assert(seq![Form::Passive, Form::Negative][1] == Form::Negative);
            lemma_inflection_of_contains(seq![Form::Honorific], Form::Negative);
            assert forall|q: int| 0 <= q < 1 implies seq![Form::Honorific][q] != Form::Negative by { if q == 0 {} }
            lemma_forms_differ(inflection_of(seq![Form::Passive, Form::Negative]), inflection_of(seq![Form::Honorific]), Form::Negative);
        } else if i == 29 {
            lemma_inflection_of_contains(seq![Form::Passive, Form::Negative, Form::Honorific], Form::Negative);
            assert(seq![Form::Passive, Form::Negative, Form::Honorific][1] == Form::Negative);
            lemma_inflection_of_contains(seq![Form::Honorific], Form::Negative);
            assert forall|q: int| 0 <= q < 1 implies seq![Form::Honorific][q] != Form::Negative by { if q == 0 {} }
            lemma_forms_differ(inflection_of(seq![Form::Passive, Form::Negative, Form::Honorific]), inflection_of(seq![Form::Honorific]), Form::Negative);
        } else if i == 30 {
            lemma_inflection_of_contains(seq![Form::Passive, Form::Past], Form::Passive);
            assert(seq![Form::Passive, Form::Past][0] == Form::Passive);
            lemma_inflection_of_contains(seq![Form::Honorific], Form::Passive);
            assert forall|q: int| 0 <= q < 1 implies seq![Form::Honorific][q] != Form::Passive by { if q == 0 {} }
            lemma_forms_differ(inflection_of(seq![Form::Passive, Form::Past]), inflection_of(seq![Form::Honorific]), Form::Passive);
        } else if i == 31 {
            lemma_inflection_of_contains(seq![Form::Passive, Form::Past, Form::Honorific], Form::Passive);
            assert(seq![Form::Passive, Form::Past, Form::Honorific][0] == Form::Passive);
            lemma_inflection_of_contains(seq![Form::Honorific], Form::Passive);
            assert forall|q: int| 0 <= q < 1 implies seq![Form::Honorific][q] != Form::Passive by { if q == 0 {} }
            lemma_forms_differ(inflection_of(seq![Form::Passive, Form::Past, Form::Honorific]), inflection_of(seq![Form::Honorific]), Form::Passive);
        } else if i == 32 {
            lemma_inflection_of_contains(seq![Form::Potential], Form::Potential);
            assert(seq![Form::Potential][0] == Form::Potential);
            lemma_inflection_of_contains(seq![Form::Honorific], Form::Potential);
            assert forall|q: int| 0 <= q < 1 implies seq![Form::Honorific][q] != Form::Potential by { if q == 0 {} }
            lemma_forms_differ(inflection_of(seq![Form::Potential]), inflection_of(seq![Form::Honorific]), Form::Potential);
        } else if i == 33 {
            lemma_inflection_of_contains(seq![Form::Potential, Form::Honorific], Form::Potential);
            assert(seq![Form::Potential, Form::Honorific][0] == Form::Potential);
            lemma_inflection_of_contains(seq![Form::Honorific], Form::Potential);
            assert forall|q: int| 0 <= q < 1 implies seq![Form::Honorific][q] != Form::Potential by { if q == 0 {} }
            lemma_forms_differ(inflection_of(seq![Form::Potential, Form::Honorific]), inflection_of(seq![Form::Honorific]), Form::Potential);
        } else if i == 34 {
            lemma_inflection_of_contains(seq![Form::Potential, Form::Negative], Form::Negative);
            assert(seq![Form::Potential, Form::Negative][1] == Form::Negative);
            lemma_inflection_of_contains(seq![Form::Honorific], Form::Negative);
            assert forall|q: int| 0 <= q < 1 implies seq![Form::Honorific][q] != Form::Negative by { if q == 0 {} }
            lemma_forms_differ(inflection_of(seq![Form::Potential, Form::Negative]), inflection_of(seq![Form::Honorific]), Form::Negative);
        } else if i == 35 {
            lemma_inflection_of_contains(seq![Form::Potential, Form::Negative, Form::Honorific], Form::Negative);
            assert(seq![Form::Potential, Form::Negative, Form::Honorific][1] == Form::Negative);
            lemma_inflection_of_contains(seq![Form::Honorific], Form::Negative);
            assert forall|q: int| 0 <= q < 1 implies seq![Form::Honorific][q] != Form::Negative by { if q == 0 {} }
            lemma_forms_differ(inflection_of(seq![Form::Potential, Form::Negative, Form::Honorific]), inflection_of(seq![Form::Honorific]), Form::Negative);
        } else if i == 36 {
            lemma_inflection_of_contains(seq![Form::Potential, Form::Past], Form::Past);
            assert(seq![Form::Potential, Form::Past][1] == Form::Past);
            lemma_inflection_of_contains(seq![Form::Honorific], Form::Past);
            assert forall|q: int| 0 <= q < 1 implies seq![Form::Honorific][q] != Form::Past by { if q == 0 {} }
            lemma_forms_differ(inflection_of(seq![Form::Potential, Form::Past]), inflection_of(seq![Form::Honorific]), Form::Past);
        } else if i == 37 {
            lemma_inflection_of_contains(seq![Form::Potential, Form::Past, Form::Honorific], Form::Past);
            assert(seq![Form::Potential, Form::Past, Form::Honorific][1] == Form::Past);
            lemma_inflection_of_contains(seq![Form::Honorific], Form::Past);
            assert forall|q: int| 0 <= q < 1 implies seq![Form::Honorific][q] != Form::Past by { if q == 0 {} }
            lemma_forms_differ(inflection_of(seq![Form::Potential, Form::Past, Form::Honorific]), inflection_of(seq![Form::Honorific]), Form::Past);
        } else if i == 38 {
            lemma_inflection_of_contains(seq![Form::Potential, Form::Past, Form::Negative], Form::Negative);
            assert(seq![Form::Potential, Form::Past, Form::Negative][2] == Form::Negative);
            lemma_inflection_of_contains(seq![Form::Honorific], Form::Negative);
            assert forall|q: int| 0 <= q < 1 implies seq![Form::Honorific][q] != Form::Negative by { if q == 0 {} }
            lemma_forms_differ(inflection_of(seq![Form::Potential, Form::Past, Form::Negative]), inflection_of(seq![Form::Honorific]), Form::Negative);
        } else if i == 39 {
            lemma_inflection_of_contains(seq![Form::Potential, Form::Past, Form::Negative, Form::Honorific], Form::Negative);
            assert(seq![Form::Potential, Form::Past, Form::Negative, Form::Honorific][2] == Form::Negative);
            lemma_inflection_of_contains(seq![Form::Honorific], Form::Negative);
            assert forall|q: int| 0 <= q < 1 implies seq![Form::Honorific][q] != Form::Negative by { if q == 0 {} }
            lemma_forms_differ(inflection_of(seq![Form::Potential, Form::Past, Form::Negative, Form::Honorific]), inflection_of(seq![Form::Honorific]), Form::Negative);
        } else if i == 40 {
            lemma_inflection_of_contains(seq![Form::Volitional], Form::Volitional);
            assert(seq![Form::Volitional][0] == Form::Volitional);
            lemma_inflection_of_contains(seq![Form::Honorific], Form::Volitional);
            assert forall|q: int| 0 <= q < 1 implies seq![Form::Honorific][q] != Form::Volitional by { if q == 0 {} }
            lemma_forms_differ(inflection_of(seq![Form::Volitional]), inflection_of(seq![Form::Honorific]), Form::Volitional);
        } else if i == 41 {
            lemma_inflection_of_contains(seq![Form::Volitional, Form::Honorific], Form::Volitional);
            assert(seq![Form::Volitional, Form::Honorific][0] == Form::Volitional);
            lemma_inflection_of_contains(seq![Form::Honorific], Form::Volitional);
            assert forall|q: int| 0 <= q < 1 implies seq![Form::Honorific][q] != Form::Volitional by { if q == 0 {} }
            lemma_forms_differ(inflection_of(seq![Form::Volitional, Form::Honorific]), inflection_of(seq![Form::Honorific]), Form::Volitional);
        } else if i == 42 {
            lemma_inflection_of_contains(seq![Form::Volitional, Form::Darou], Form::Darou);
            assert(seq![Form::Volitional, Form::Darou][1] == Form::Darou);
            lemma_inflection_of_contains(seq![Form::Honorific], Form::Darou);
            assert forall|q: int| 0 <= q < 1 implies seq![Form::Honorific][q] != Form::Darou by { if q == 0 {} }
            lemma_forms_differ(inflection_of(seq![Form::Volitional, Form::Darou]), inflection_of(seq![Form::Honorific]), Form::Darou);
        } else if i == 43 {
            lemma_inflection_of_contains(seq![Form::Volitional, Form::Darou, Form::Honorific], Form::Darou);
            assert(seq![Form::Volitional, Form::Darou, Form::Honorific][1] == Form::Darou);
            lemma_inflection_of_contains(seq![Form::Honorific], Form::Darou);
            assert forall|q: int| 0 <= q < 1 implies seq![Form::Honorific][q] != Form::Darou by { if q == 0 {} }
            lemma_forms_differ(inflection_of(seq![Form::Volitional, Form::Darou, Form::Honorific]), inflection_of(seq![Form::Honorific]), Form::Darou);
        } else if i == 44 {
            lemma_inflection_of_contains(seq![Form::Volitional, Form::Negative], Form::Negative);
            assert(seq![Form::Volitional, Form::Negative][1] == Form::Negative);
            lemma_inflection_of_contains(seq![Form::Honorific], Form::Negative);
            assert forall|q: int| 0 <= q < 1 implies seq![Form::Honorific][q] != Form::Negative by { if q == 0 {} }
            lemma_forms_differ(inflection_of(seq![Form::Volitional, Form::Negative]), inflection_of(seq![Form::Honorific]), Form::Negative);
        } else if i == 45 {
            lemma_inflection_of_contains(seq![Form::Volitional, Form::Negative, Form::Honorific], Form::Negative);
            assert(seq![Form::Volitional, Form::Negative, Form::Honorific][1] == Form::Negative);
            lemma_inflection_of_contains(seq![Form::Honorific], Form::Negative);
            assert forall|q: int| 0 <= q < 1 implies seq![Form::Honorific][q] != Form::Negative by { if q == 0 {} }
            lemma_forms_differ(inflection_of(seq![Form::Volitional, Form::Negative, Form::Honorific]), inflection_of(seq![Form::Honorific]), Form::Negative);
        } else if i == 46 {
            lemma_inflection_of_contains(seq![Form::Causative], Form::Causative);
            assert(seq![Form::Causative][0] == Form::Causative);
            lemma_inflection_of_contains(seq![Form::Honorific], Form::Causative);
            assert forall|q: int| 0 <= q < 1 implies seq![Form::Honorific][q] != Form::Causative by { if q == 0 {} }
            lemma_forms_differ(inflection_of(seq![Form::Causative]), inflection_of(seq![Form::Honorific]), Form::Causative);
        } else if i == 47 {
            lemma_inflection_of_contains(seq![Form::Simultaneous], Form::Simultaneous);
            assert(seq![Form::Simultaneous][0] == Form::Simultaneous);
            lemma_inflection_of_contains(seq![Form::Honorific], Form::Simultaneous);
            assert forall|q: int| 0 <= q < 1 implies seq![Form::Honorific][q] != Form::Simultaneous by { if q == 0 {} }
            lemma_forms_differ(inflection_of(seq![Form::Simultaneous]), inflection_of(seq![Form::Honorific]), Form::Simultaneous);
        } else if i == 48 {
            lemma_inflection_of_contains(seq![Form::LooksLike], Form::LooksLike);
            assert(seq![Form::LooksLike][0] == Form::LooksLike);
            lemma_inflection_of_contains(seq![Form::Honorific], Form::LooksLike);
            assert forall|q: int| 0 <= q < 1 implies seq![Form::Honorific][q] != Form::LooksLike by { if q == 0 {} }
            lemma_forms_differ(inflection_of(seq![Form::LooksLike]), inflection_of(seq![Form::Honorific]), Form::LooksLike);
        }
    }
    lemma_last_op(Map::empty(), base, 3, inflection_of(seq![Form::Honorific]));
    assert forall|f: Form| derived_form(f) implies !inflection_of(seq![Form::Honorific]).forms().contains(f) by {
        lemma_inflection_of_contains(seq![Form::Honorific], f);
        if seq![Form::Honorific].contains(f) {
            let q = choose|q: int| 0 <= q < seq![Form::Honorific].len() && seq![Form::Honorific][q] == f;
        }
    }
    assert forall|i: int| 0 <= i < stem_ops(s).len() implies (#[trigger] stem_ops(s)[i]).0 != inflection_of(seq![Form::Honorific]) by {
        assert(marked(stem_ops(s)[i].0));
    }
    lemma_ops_absent(m0, stem_ops(s), inflection_of(seq![Form::Honorific]));
    assert forall|i: int| 0 <= i < te_ops(t).len() implies (#[trigger] te_ops(t)[i]).0 != inflection_of(seq![Form::Honorific]) by {
        assert(marked(te_ops(t)[i].0));
    }
    lemma_ops_absent(m1, te_ops(t), inflection_of(seq![Form::Honorific]));
    assert forall|i: int| 0 <= i < chau_ops(c).len() implies (#[trigger] chau_ops(c)[i]).0 != inflection_of(seq![Form::Honorific]) by {
        assert(marked(chau_ops(c)[i].0));
    }
    lemma_ops_absent(m2, chau_ops(c), inflection_of(seq![Form::Honorific]));
    // Negative
    assert forall|i: int| 4 < i < base.len() implies (#[trigger] base[i]).0 != inflection_of(seq![Form::Negative]) by {
        if i == 5 {
            lemma_inflection_of_contains(seq![Form::Negative, Form::Honorific], Form::Honorific);
            assert(seq![Form::Negative, Form::Honorific][1] == Form::Honorific);
            lemma_inflection_of_contains(seq![Form::Negative], Form::Honorific);
            assert forall|q: int| 0 <= q < 1 implies seq![Form::Negative][q] != Form::Honorific by { if q == 0 {} }
            lemma_forms_differ(inflection_of(seq![Form::Negative, Form::Honorific]), inflection_of(seq![Form::Negative]), Form::Honorific);
        } else if i == 6 {
            lemma_inflection_of_contains(seq![Form::Past], Form::Past);
            assert(seq![Form::Past][0] == Form::Past);
            lemma_inflection_of_contains(seq![Form::Negative], Form::Past);
            assert forall|q: int| 0 <= q < 1 implies seq![Form::Negative][q] != Form::Past by { if q == 0 {} }
            lemma_forms_differ(inflection_of(seq![Form::Past]), inflection_of(seq![Form::Negative]), Form::Past);
        } else if i == 7 {
            lemma_inflection_of_contains(seq![Form::Past, Form::Honorific], Form::Honorific);
            assert(seq![Form::Past, Form::Honorific][1] == Form::Honorific);
            lemma_inflection_of_contains(seq![Form::Negative], Form::Honorific);
            assert forall|q: int| 0 <= q < 1 implies seq![Form::Negative][q] != Form::Honorific by { if q == 0 {} }
            lemma_forms_differ(inflection_of(seq![Form::Past, Form::Honorific]), inflection_of(seq![Form::Negative]), Form::Honorific);
        } else if i == 8 {
            lemma_inflection_of_contains(seq![Form::Past, Form::Negative], Form::Past);
            assert(seq![Form::Past, Form::Negative][0] == Form::Past);
            lemma_inflection_of_contains(seq![Form::Negative], Form::Past);
            assert forall|q: int| 0 <= q < 1 implies seq![Form::Negative][q] != Form::Past by { if q == 0 {} }
            lemma_forms_differ(inflection_of(seq![Form::Past, Form::Negative]), inflection_of(seq![Form::Negative]), Form::Past);
        } else if i == 9 {
            lemma_inflection_of_contains(seq![Form::Past, Form::Negative, Form::Honorific], Form::Honorific);
            assert(seq![Form::Past, Form::Negative, Form::Honorific][2] == Form::Honorific);
            lemma_inflection_of_contains(seq![Form::Negative], Form::Honorific);
            assert forall|q: int| 0 <= q < 1 implies seq![Form::Negative][q] != Form::Honorific by { if q == 0 {} }
            lemma_forms_differ(inflection_of(seq![Form::Past, Form::Negative, Form::Honorific]), inflection_of(seq![Form::Negative]), Form::Honorific);
        } else if i == 10 {
            lemma_inflection_of_contains(seq![Form::Command], Form::Command);
            assert(seq![Form::Command][0] == Form::Command);
            lemma_inflection_of_contains(seq![Form::Negative], Form::Command);
            assert forall|q: int| 0 <= q < 1 implies seq![Form::Negative][q] != Form::Command by { if q == 0 {} }
            lemma_forms_differ(inflection_of(seq![Form::Command]), inflection_of(seq![Form::Negative]), Form::Command);
        } else if i == 11 {
            lemma_inflection_of_contains(seq![Form::Command, Form::Honorific], Form::Command);
            assert(seq![Form::Command, Form::Honorific][0] == Form::Command);
            lemma_inflection_of_contains(seq![Form::Negative], Form::Command);
            assert forall|q: int| 0 <= q < 1 implies seq![Form::Negative][q] != Form::Command by { if q == 0 {} }
            lemma_forms_differ(inflection_of(seq![Form::Command, Form::Honorific]), inflection_of(seq![Form::Negative]), Form::Command);
        } else if i == 12 {
            lemma_inflection_of_contains(seq![Form::Command, Form::Honorific, Form::CommandTeKudasai], Form::Command);
            assert(seq![Form::Command, Form::Honorific, Form::CommandTeKudasai][0] == Form::Command);
            lemma_inflection_of_contains(seq![Form::Negative], Form::Command);
            assert forall|q: int| 0 <= q < 1 implies seq![Form::Negative][q] != Form::Command by { if q == 0 {} }
            lemma_forms_differ(inflection_of(seq![Form::Command, Form::Honorific, Form::CommandTeKudasai]), inflection_of(seq![Form::Negative]), Form::Command);
        } else if i == 13 {
            lemma_inflection_of_contains(seq![Form::Command, Form::CommandYo], Form::Command);
            assert(seq![Form::Command, Form::CommandYo][0] == Form::Command);
            lemma_inflection_of_contains(seq![Form::Negative], Form::Command);
            assert forall|q: int| 0 <= q < 1 implies seq![Form::Negative][q] != Form::Command by { if q == 0 {} }
            lemma_forms_differ(inflection_of(seq![Form::Command, Form::CommandYo]), inflection_of(seq![Form::Negative]), Form::Command);
        } else if i == 14 {
            lemma_inflection_of_contains(seq![Form::Command, Form::Negative], Form::Command);
            assert(seq![Form::Command, Form::Negative][0] == Form::Command);
            lemma_inflection_of_contains(seq![Form::Negative], Form::Command);
            assert forall|q: int| 0 <= q < 1 implies seq![Form::Negative][q] != Form::Command by { if q == 0 {} }
            lemma_forms_differ(inflection_of(seq![Form::Command, Form::Negative]), inflection_of(seq![Form::Negative]), Form::Command);
        } else if i == 15 {
            lemma_inflection_of_contains(seq![Form::Command, Form::Negative, Form::Honorific], Form::Command);
            assert(seq![Form::Command, Form::Negative, Form::Honorific][0] == Form::Command);
            lemma_inflection_of_contains(seq![Form::Negative], Form::Command);
            assert forall|q: int| 0 <= q < 1 implies seq![Form::Negative][q] != Form::Command by { if q == 0 {} }
            lemma_forms_differ(inflection_of(seq![Form::Command, Form::Negative, Form::Honorific]), inflection_of(seq![Form::Negative]), Form::Command);
        } else if i == 16 {
            lemma_inflection_of_contains(seq![Form::Hypothetical, Form::Conversation], Form::Conversation);
            assert(seq![Form::Hypothetical, Form::Conversation][1] == Form::Conversation);
            lemma_inflection_of_contains(seq![Form::Negative], Form::Conversation);
            assert forall|q: int| 0 <= q < 1 implies seq![Form::Negative][q] != Form::Conversation by { if q == 0 {} }
            lemma_forms_differ(inflection_of(seq![Form::Hypothetical, Form::Conversation]), inflection_of(seq![Form::Negative]), Form::Conversation);
        } else if i == 17 {
            lemma_inflection_of_contains(seq![Form::Hypothetical, Form::Conversation, Form::Negative], Form::Conversation);
            assert(seq![Form::Hypothetical, Form::Conversation, Form::Negative][1] == Form::Conversation);
            lemma_inflection_of_contains(seq![Form::Negative], Form::Conversation);
            assert forall|q: int| 0 <= q < 1 implies seq![Form::Negative][q] != Form::Conversation by { if q == 0 {} }
            lemma_forms_differ(inflection_of(seq![Form::Hypothetical, Form::Conversation, Form::Negative]), inflection_of(seq![Form::Negative]), Form::Conversation);
        } else if i == 18 {
            lemma_inflection_of_contains(seq![Form::Hypothetical], Form::Hypothetical);
            assert(seq![Form::Hypothetical][0] == Form::Hypothetical);
            lemma_inflection_of_contains(seq![Form::Negative], Form::Hypothetical);
            assert forall|q: int| 0 <= q < 1 implies seq![Form::Negative][q] != Form::Hypothetical by { if q == 0 {} }
            lemma_forms_differ(inflection_of(seq![Form::Hypothetical]), inflection_of(seq![Form::Negative]), Form::Hypothetical);
        } else if i == 19 {
            lemma_inflection_of_contains(seq![Form::Hypothetical, Form::Negative], Form::Hypothetical);
            assert(seq![Form::Hypothetical, Form::Negative][0] == Form::Hypothetical);
            lemma_inflection_of_contains(seq![Form::Negative], Form::Hypothetical);
            assert forall|q: int| 0 <= q < 1 implies seq![Form::Negative][q] != Form::Hypothetical by { if q == 0 {} }
            lemma_forms_differ(inflection_of(seq![Form::Hypothetical, Form::Negative]), inflection_of(seq![Form::Negative]), Form::Hypothetical);
        } else if i == 20 {
            lemma_inflection_of_contains(seq![Form::Hypothetical, Form::Negative, Form::Kya], Form::Hypothetical);
            assert(seq![Form::Hypothetical, Form::Negative, Form::Kya][0] == Form::Hypothetical);
            lemma_inflection_of_contains(seq![Form::Negative], Form::Hypothetical);
            assert forall|q: int| 0 <= q < 1 implies seq![Form::Negative][q] != Form::Hypothetical by { if q == 0 {} }
            lemma_forms_differ(inflection_of(seq![Form::Hypothetical, Form::Negative, Form::Kya]), inflection_of(seq![Form::Negative]), Form::Hypothetical);
        } else if i == 21 {
            lemma_inflection_of_contains(seq![Form::Conditional], Form::Conditional);
            assert(seq![Form::Conditional][0] == Form::Conditional);
            lemma_inflection_of_contains(seq![Form::Negative], Form::Conditional);
            assert forall|q: int| 0 <= q < 1 implies seq![Form::Negative][q] != Form::Conditional by { if q == 0 {} }
            lemma_forms_differ(inflection_of(seq![Form::Conditional]), inflection_of(seq![Form::Negative]), Form::Conditional);
        } else if i == 22 {
            lemma_inflection_of_contains(seq![Form::Conditional, Form::Honorific], Form::Conditional);
            assert(seq![Form::Conditional, Form::Honorific][0] == Form::Conditional);
            lemma_inflection_of_contains(seq![Form::Negative], Form::Conditional);
            assert forall|q: int| 0 <= q < 1 implies seq![Form::Negative][q] != Form::Conditional by { if q == 0 {} }
            lemma_forms_differ(inflection_of(seq![Form::Conditional, Form::Honorific]), inflection_of(seq![Form::Negative]), Form::Conditional);
        } else if i == 23 {
            lemma_inflection_of_contains(seq![Form::Conditional, Form::Negative], Form::Conditional);
            assert(seq![Form::Conditional, Form::Negative][0] == Form::Conditional);
            lemma_inflection_of_contains(seq![Form::Negative], Form::Conditional);
            assert forall|q: int| 0 <= q < 1 implies seq![Form::Negative][q] != Form::Conditional by { if q == 0 {} }
            lemma_forms_differ(inflection_of(seq![Form::Conditional, Form::Negative]), inflection_of(seq![Form::Negative]), Form::Conditional);
        } else if i == 24 {
            lemma_inflection_of_contains(seq![Form::Conditional, Form::Negative, Form::Honorific], Form::Conditional);
            assert(seq![Form::Conditional, Form::Negative, Form::Honorific][0] == Form::Conditional);
            lemma_inflection_of_contains(seq![Form::Negative], Form::Conditional);
            assert forall|q: int| 0 <= q < 1 implies seq![Form::Negative][q] != Form::Conditional by { if q == 0 {} }
            lemma_forms_differ(inflection_of(seq![Form::Conditional, Form::Negative, Form::Honorific]), inflection_of(seq![Form::Negative]), Form::Conditional);
        } else if i == 25 {
            lemma_inflection_of_contains(seq![Form::Passive, Form::Conversation], Form::Conversation);
            assert(seq![Form::Passive, Form::Conversation][1] == Form::Conversation);
            lemma_inflection_of_contains(seq![Form::Negative], Form::Conversation);
            assert forall|q: int| 0 <= q < 1 implies seq![Form::Negative][q] != Form::Conversation by { if q == 0 {} }
            lemma_forms_differ(inflection_of(seq![Form::Passive, Form::Conversation]), inflection_of(seq![Form::Negative]), Form::Conversation);
        } else if i == 26 {
            lemma_inflection_of_contains(seq![Form::Passive], Form::Passive);
            assert(seq![Form::Passive][0] == Form::Passive);
            lemma_inflection_of_contains(seq![Form::Negative], Form::Passive);
            assert forall|q: int| 0 <= q < 1 implies seq![Form::Negative][q] != Form::Passive by { if q == 0 {} }
            lemma_forms_differ(inflection_of(seq![Form::Passive]), inflection_of(seq![Form::Negative]), Form::Passive);
        } else if i == 27 {
            lemma_inflection_of_contains(seq![Form::Passive, Form::Honorific], Form::Honorific);
            assert(seq![Form::Passive, Form::Honorific][1] == Form::Honorific);
            lemma_inflection_of_contains(seq![Form::Negative], Form::Honorific);
            assert forall|q: int| 0 <= q < 1 implies seq![Form::Negative][q] != Form::Honorific by { if q == 0 {} }
            lemma_forms_differ(inflection_of(seq![Form::Passive, Form::Honorific]), inflection_of(seq![Form::Negative]), Form::Honorific);
        } else if i == 28 {
            lemma_inflection_of_contains(seq![Form::Passive, Form::Negative], Form::Passive);
            assert(seq![Form::Passive, Form::Negative][0] == Form::Passive);
            lemma_inflection_of_contains(seq![Form::Negative], Form::Passive);
            assert forall|q: int| 0 <= q < 1 implies seq![Form::Negative][q] != Form::Passive by { if q == 0 {} }
            lemma_forms_differ(inflection_of(seq![Form::Passive, Form::Negative]), inflection_of(seq![Form::Negative]), Form::Passive);
        } else if i == 29 {
            lemma_inflection_of_contains(seq![Form::Passive, Form::Negative, Form::Honorific], Form::Honorific);
            assert(seq![Form::Passive, Form::Negative, Form::Honorific][2] == Form::Honorific);
            lemma_inflection_of_contains(seq![Form::Negative], Form::Honorific);
            assert forall|q: int| 0 <= q < 1 implies seq![Form::Negative][q] != Form::Honorific by { if q == 0 {} }
            lemma_forms_differ(inflection_of(seq![Form::Passive, Form::Negative, Form::Honorific]), inflection_of(seq![Form::Negative]), Form::Honorific);
        } else if i == 30 {
            lemma_inflection_of_contains(seq![Form::Passive, Form::Past], Form::Passive);
            assert(seq![Form::Passive, Form::Past][0] == Form::Passive);
            lemma_inflection_of_contains(seq![Form::Negative], Form::Passive);
            assert forall|q: int| 0 <= q < 1 implies seq![Form::Negative][q] != Form::Passive by { if q == 0 {} }
            lemma_forms_differ(inflection_of(seq![Form::Passive, Form::Past]), inflection_of(seq![Form::Negative]), Form::Passive);
        } else if i == 31 {
            lemma_inflection_of_contains(seq![Form::Passive, Form::Past, Form::Honorific], Form::Honorific);
            assert(seq![Form::Passive, Form::Past, Form::Honorific][2] == Form::Honorific);
            lemma_inflection_of_contains(seq![Form::Negative], Form::Honorific);
            assert forall|q: int| 0 <= q < 1 implies seq![Form::Negative][q] != Form::Honorific by { if q == 0 {} }
            lemma_forms_differ(inflection_of(seq![Form::Passive, Form::Past, Form::Honorific]), inflection_of(seq![Form::Negative]), Form::Honorific);
        } else if i == 32 {
            lemma_inflection_of_contains(seq![Form::Potential], Form::Potential);
            assert(seq![Form::Potential][0] == Form::Potential);
            lemma_inflection_of_contains(seq![Form::Negative], Form::Potential);
            assert forall|q: int| 0 <= q < 1 implies seq![Form::Negative][q] != Form::Potential by { if q == 0 {} }
            lemma_forms_differ(inflection_of(seq![Form::Potential]), inflection_of(seq![Form::Negative]), Form::Potential);
        } else if i == 33 {
            lemma_inflection_of_contains(seq![Form::Potential, Form::Honorific], Form::Honorific);
            assert(seq![Form::Potential, Form::Honorific][1] == Form::Honorific);
            lemma_inflection_of_contains(seq![Form::Negative], Form::Honorific);
            assert forall|q: int| 0 <= q < 1 implies seq![Form::Negative][q] != Form::Honorific by { if q == 0 {} }
            lemma_forms_differ(inflection_of(seq![Form::Potential, Form::Honorific]), inflection_of(seq![Form::Negative]), Form::Honorific);
        } else if i == 34 {
            lemma_inflection_of_contains(seq![Form::Potential, Form::Negative], Form::Potential);
            assert(seq![Form::Potential, Form::Negative][0] == Form::Potential);
            lemma_inflection_of_contains(seq![Form::Negative], Form::Potential);
            assert forall|q: int| 0 <= q < 1 implies seq![Form::Negative][q] != Form::Potential by { if q == 0 {} }
            lemma_forms_differ(inflection_of(seq![Form::Potential, Form::Negative]), inflection_of(seq![Form::Negative]), Form::Potential);
        } else if i == 35 {
            lemma_inflection_of_contains(seq![Form::Potential, Form::Negative, Form::Honorific], Form::Honorific);
            assert(seq![Form::Potential, Form::Negative, Form::Honorific][2] == Form::Honorific);
            lemma_inflection_of_contains(seq![Form::Negative], Form::Honorific);
            assert forall|q: int| 0 <= q < 1 implies seq![Form::Negative][q] != Form::Honorific by { if q == 0 {} }
            lemma_forms_differ(inflection_of(seq![Form::Potential, Form::Negative, Form::Honorific]), inflection_of(seq![Form::Negative]), Form::Honorific);
        } else if i == 36 {
            lemma_inflection_of_contains(seq![Form::Potential, Form::Past], Form::Past);
            assert(seq![Form::Potential, Form::Past][1] == Form::Past);
            lemma_inflection_of_contains(seq![Form::Negative], Form::Past);
            assert forall|q: int| 0 <= q < 1 implies seq![Form::Negative][q] != Form::Past by { if q == 0 {} }
            lemma_forms_differ(inflection_of(seq![Form::Potential, Form::Past]), inflection_of(seq![Form::Negative]), Form::Past);
        } else if i == 37 {
            lemma_inflection_of_contains(seq![Form::Potential, Form::Past, Form::Honorific], Form::Honorific);
            assert(seq![Form::Potential, Form::Past, Form::Honorific][2] == Form::Honorific);
            lemma_inflection_of_contains(seq![Form::Negative], Form::Honorific);
            assert forall|q: int| 0 <= q < 1 implies seq![Form::Negative][q] != Form::Honorific by { if q == 0 {} }
            lemma_forms_differ(inflection_of(seq![Form::Potential, Form::Past, Form::Honorific]), inflection_of(seq![Form::Negative]), Form::Honorific);
        } else if i == 38 {
            lemma_inflection_of_contains(seq![Form::Potential, Form::Past, Form::Negative], Form::Past);
            assert(seq![Form::Potential, Form::Past, Form::Negative][1] == Form::Past);
            lemma_inflection_of_contains(seq![Form::Negative], Form::Past);
            assert forall|q: int| 0 <= q < 1 implies seq![Form::Negative][q] != Form::Past by { if q == 0 {} }
            lemma_forms_differ(inflection_of(seq![Form::Potential, Form::Past, Form::Negative]), inflection_of(seq![Form::Negative]), Form::Past);
        } else if i == 39 {
            lemma_inflection_of_contains(seq![Form::Potential, Form::Past, Form::Negative, Form::Honorific], Form::Honorific);
            assert(seq![Form::Potential, Form::Past, Form::Negative, Form::Honorific][3] == Form::Honorific);
            lemma_inflection_of_contains(seq![Form::Negative], Form::Honorific);
            assert forall|q: int| 0 <= q < 1 implies seq![Form::Negative][q] != Form::Honorific by { if q == 0 {} }
            lemma_forms_differ(inflection_of(seq![Form::Potential, Form::Past, Form::Negative, Form::Honorific]), inflection_of(seq![Form::Negative]), Form::Honorific);
        } else if i == 40 {
            lemma_inflection_of_contains(seq![Form::Volitional], Form::Volitional);
            assert(seq![Form::Volitional][0] == Form::Volitional);
            lemma_inflection_of_contains(seq![Form::Negative], Form::Volitional);
            assert forall|q: int| 0 <= q < 1 implies seq![Form::Negative][q] != Form::Volitional by { if q == 0 {} }
            lemma_forms_differ(inflection_of(seq![Form::Volitional]), inflection_of(seq![Form::Negative]), Form::Volitional);
        } else if i == 41 {
            lemma_inflection_of_contains(seq![Form::Volitional, Form::Honorific], Form::Honorific);
            assert(seq![Form::Volitional, Form::Honorific][1] == Form::Honorific);
            lemma_inflection_of_contains(seq![Form::Negative], Form::Honorific);
            assert forall|q: int| 0 <= q < 1 implies seq![Form::Negative][q] != Form::Honorific by { if q == 0 {} }
            lemma_forms_differ(inflection_of(seq![Form::Volitional, Form::Honorific]), inflection_of(seq![Form::Negative]), Form::Honorific);
        } else if i == 42 {
            lemma_inflection_of_contains(seq![Form::Volitional, Form::Darou], Form::Darou);
            assert(seq![Form::Volitional, Form::Darou][1] == Form::Darou);
            lemma_inflection_of_contains(seq![Form::Negative], Form::Darou);
            assert forall|q: int| 0 <= q < 1 implies seq![Form::Negative][q] != Form::Darou by { if q == 0 {} }
            lemma_forms_differ(inflection_of(seq![Form::Volitional, Form::Darou]), inflection_of(seq![Form::Negative]), Form::Darou);
        } else if i == 43 {
            lemma_inflection_of_contains(seq![Form::Volitional, Form::Darou, Form::Honorific], Form::Darou);
            assert(seq![Form::Volitional, Form::Darou, Form::Honorific][1] == Form::Darou);
            lemma_inflection_of_contains(seq![Form::Negative], Form::Darou);
            assert forall|q: int| 0 <= q < 1 implies seq![Form::Negative][q] != Form::Darou by { if q == 0 {} }
            lemma_forms_differ(inflection_of(seq![Form::Volitional, Form::Darou, Form::Honorific]), inflection_of(seq![Form::Negative]), Form::Darou);
        } else if i == 44 {
            lemma_inflection_of_contains(seq![Form::Volitional, Form::Negative], Form::Volitional);
            assert(seq![Form::Volitional, Form::Negative][0] == Form::Volitional);
            lemma_inflection_of_contains(seq![Form::Negative], Form::Volitional);
            assert forall|q: int| 0 <= q < 1 implies seq![Form::Negative][q] != Form::Volitional by { if q == 0 {} }
            lemma_forms_differ(inflection_of(seq![Form::Volitional, Form::Negative]), inflection_of(seq![Form::Negative]), Form::Volitional);
        } else if i == 45 {
            lemma_inflection_of_contains(seq![Form::Volitional, Form::Negative, Form::Honorific], Form::Honorific);
            assert(seq![Form::Volitional, Form::Negative, Form::Honorific][2] == Form::Honorific);
            lemma_inflection_of_contains(seq![Form::Negative], Form::Honorific);
            assert forall|q: int| 0 <= q < 1 implies seq![Form::Negative][q] != Form::Honorific by { if q == 0 {} }
            lemma_forms_differ(inflection_of(seq![Form::Volitional, Form::Negative, Form::Honorific]), inflection_of(seq![Form::Negative]), Form::Honorific);
        } else if i == 46 {
            lemma_inflection_of_contains(seq![Form::Causative], Form::Causative);
            assert(seq![Form::Causative][0] == Form::Causative);
            lemma_inflection_of_contains(seq![Form::Negative], Form::Causative);
            assert forall|q: int| 0 <= q < 1 implies seq![Form::Negative][q] != Form::Causative by { if q == 0 {} }
            lemma_forms_differ(inflection_of(seq![Form::Causative]), inflection_of(seq![Form::Negative]), Form::Causative);
        } else if i == 47 {
            lemma_inflection_of_contains(seq![Form::Simultaneous], Form::Simultaneous);
            assert(seq![Form::Simultaneous][0] == Form::Simultaneous);
            lemma_inflection_of_contains(seq![Form::Negative], Form::Simultaneous);
            assert forall|q: int| 0 <= q < 1 implies seq![Form::Negative][q] != Form::Simultaneous by { if q == 0 {} }
            lemma_forms_differ(inflection_of(seq![Form::Simultaneous]), inflection_of(seq![Form::Negative]), Form::Simultaneous);
        } else if i == 48 {
            lemma_inflection_of_contains(seq![Form::LooksLike], Form::LooksLike);
            assert(seq![Form::LooksLike][0] == Form::LooksLike);
            lemma_inflection_of_contains(seq![Form::Negative], Form::LooksLike);
            assert forall|q: int| 0 <= q < 1 implies seq![Form::Negative][q] != Form::LooksLike by { if q == 0 {} }
            lemma_forms_differ(inflection_of(seq![Form::LooksLike]), inflection_of(seq![Form::Negative]), Form::LooksLike);
        }
    }
    lemma_last_op(Map::empty(), base, 4, inflection_of(seq![Form::Negative]));
    assert forall|f: Form| derived_form(f) implies !inflection_of(seq![Form::Negative]).forms().contains(f) by {
        lemma_inflection_of_contains(seq![Form::Negative], f);
        if seq![Form::Negative].contains(f) {
            let q = choose|q: int| 0 <= q < seq![Form::Negative].len() && seq![Form::Negative][q] == f;
        }
    }
    assert forall|i: int| 0 <= i < stem_ops(s).len() implies (#[trigger] stem_ops(s)[i]).0 != inflection_of(seq![Form::Negative]) by {
        assert(marked(stem_ops(s)[i].0));
    }
    lemma_ops_absent(m0, stem_ops(s), inflection_of(seq![Form::Negative]));
    assert forall|i: int| 0 <= i < te_ops(t).len() implies (#[trigger] te_ops(t)[i]).0 != inflection_of(seq![Form::Negative]) by {
        assert(marked(te_ops(t)[i].0));
    }
    lemma_ops_absent(m1, te_ops(t), inflection_of(seq![Form::Negative]));
    assert forall|i: int| 0 <= i < chau_ops(c).len() implies (#[trigger] chau_ops(c)[i]).0 != inflection_of(seq![Form::Negative]) by {
        assert(marked(chau_ops(c)[i].0));
    }
    lemma_ops_absent(m2, chau_ops(c), inflection_of(seq![Form::Negative]));
    // Past
    assert forall|i: int| 6 < i < base.len() implies (#[trigger] base[i]).0 != inflection_of(seq![Form::Past]) by {
        if i == 7 {
            lemma_inflection_of_contains(seq![Form::Past, Form::Honorific], Form::Honorific);
            assert(seq![Form::Past, Form::Honorific][1] == Form::Honorific);
            lemma_inflection_of_contains(seq![Form::Past], Form::Honorific);
            assert forall|q: int| 0 <= q < 1 implies seq![Form::Past][q] != Form::Honorific by { if q == 0 {} }
            lemma_forms_differ(inflection_of(seq![Form::Past, Form::Honorific]), inflection_of(seq![Form::Past]), Form::Honorific);
        } else if i == 8 {
            lemma_inflection_of_contains(seq![Form::Past, Form::Negative], Form::Negative);
            assert(seq![Form::Past, Form::Negative][1] == Form::Negative);
            lemma_inflection_of_contains(seq![Form::Past], Form::Negative);
            assert forall|q: int| 0 <= q < 1 implies seq![Form::Past][q] != Form::Negative by { if q == 0 {} }
            lemma_forms_differ(inflection_of(seq![Form::Past, Form::Negative]), inflection_of(seq![Form::Past]), Form::Negative);
        } else if i == 9 {
            lemma_inflection_of_contains(seq![Form::Past, Form::Negative, Form::Honorific], Form::Honorific);
            assert(seq![Form::Past, Form::Negative, Form::Honorific][2] == Form::Honorific);
            lemma_inflection_of_contains(seq![Form::Past], Form::Honorific);
            assert forall|q: int| 0 <= q < 1 implies seq![Form::Past][q] != Form::Honorific by { if q == 0 {} }
            lemma_forms_differ(inflection_of(seq![Form::Past, Form::Negative, Form::Honorific]), inflection_of(seq![Form::Past]), Form::Honorific);
        } else if i == 10 {
            lemma_inflection_of_contains(seq![Form::Command], Form::Command);
            assert(seq![Form::Command][0] == Form::Command);
            lemma_inflection_of_contains(seq![Form::Past], Form::Command);
            assert forall|q: int| 0 <= q < 1 implies seq![Form::Past][q] != Form::Command by { if q == 0 {} }
            lemma_forms_differ(inflection_of(seq![Form::Command]), inflection_of(seq![Form::Past]), Form::Command);
        } else if i == 11 {
            lemma_inflection_of_contains(seq![Form::Command, Form::Honorific], Form::Command);
            assert(seq![Form::Command, Form::Honorific][0] == Form::Command);
            lemma_inflection_of_contains(seq![Form::Past], Form::Command);
            assert forall|q: int| 0 <= q < 1 implies seq![Form::Past][q] != Form::Command by { if q == 0 {} }
            lemma_forms_differ(inflection_of(seq![Form::Command, Form::Honorific]), inflection_of(seq![Form::Past]), Form::Command);
        } else if i == 12 {
            lemma_inflection_of_contains(seq![Form::Command, Form::Honorific, Form::CommandTeKudasai], Form::Command);
            assert(seq![Form::Command, Form::Honorific, Form::CommandTeKudasai][0] == Form::Command);
            lemma_inflection_of_contains(seq![Form::Past], Form::Command);
            assert forall|q: int| 0 <= q < 1 implies seq![Form::Past][q] != Form::Command by { if q == 0 {} }
            lemma_forms_differ(inflection_of(seq![Form::Command, Form::Honorific, Form::CommandTeKudasai]), inflection_of(seq![Form::Past]), Form::Command);
        } else if i == 13 {
            lemma_inflection_of_contains(seq![Form::Command, Form::CommandYo], Form::Command);
            assert(seq![Form::Command, Form::CommandYo][0] == Form::Command);
            lemma_inflection_of_contains(seq![Form::Past], Form::Command);
            assert forall|q: int| 0 <= q < 1 implies seq![Form::Past][q] != Form::Command by { if q == 0 {} }
            lemma_forms_differ(inflection_of(seq![Form::Command, Form::CommandYo]), inflection_of(seq![Form::Past]), Form::Command);
        } else if i == 14 {
            lemma_inflection_of_contains(seq![Form::Command, Form::Negative], Form::Command);
            assert(seq![Form::Command, Form::Negative][0] == Form::Command);
            lemma_inflection_of_contains(seq![Form::Past], Form::Command);
            assert forall|q: int| 0 <= q < 1 implies seq![Form::Past][q] != Form::Command by { if q == 0 {} }
            lemma_forms_differ(inflection_of(seq![Form::Command, Form::Negative]), inflection_of(seq![Form::Past]), Form::Command);
        } else if i == 15 {
            lemma_inflection_of_contains(seq![Form::Command, Form::Negative, Form::Honorific], Form::Command);
            assert(seq![Form::Command, Form::Negative, Form::Honorific][0] == Form::Command);
            lemma_inflection_of_contains(seq![Form::Past], Form::Command);
            assert forall|q: int| 0 <= q < 1 implies seq![Form::Past][q] != Form::Command by { if q == 0 {} }
            lemma_forms_differ(inflection_of(seq![Form::Command, Form::Negative, Form::Honorific]), inflection_of(seq![Form::Past]), Form::Command);
        } else if i == 16 {
            lemma_inflection_of_contains(seq![Form::Hypothetical, Form::Conversation], Form::Conversation);
            assert(seq![Form::Hypothetical, Form::Conversation][1] == Form::Conversation);
            lemma_inflection_of_contains(seq![Form::Past], Form::Conversation);
            assert forall|q: int| 0 <= q < 1 implies seq![Form::Past][q] != Form::Conversation by { if q == 0 {} }
            lemma_forms_differ(inflection_of(seq![Form::Hypothetical, Form::Conversation]), inflection_of(seq![Form::Past]), Form::Conversation);
        } else if i == 17 {
            lemma_inflection_of_contains(seq![Form::Hypothetical, Form::Conversation, Form::Negative], Form::Conversation);
            assert(seq![Form::Hypothetical, Form::Conversation, Form::Negative][1] == Form::Conversation);
            lemma_inflection_of_contains(seq![Form::Past], Form::Conversation);
            assert forall|q: int| 0 <= q < 1 implies seq![Form::Past][q] != Form::Conversation by { if q == 0 {} }
            lemma_forms_differ(inflection_of(seq![Form::Hypothetical, Form::Conversation, Form::Negative]), inflection_of(seq![Form::Past]), Form::Conversation);
        } else if i == 18 {
            lemma_inflection_of_contains(seq![Form::Hypothetical], Form::Hypothetical);
            assert(seq![Form::Hypothetical][0] == Form::Hypothetical);
            lemma_inflection_of_contains(seq![Form::Past], Form::Hypothetical);
            assert forall|q: int| 0 <= q < 1 implies seq![Form::Past][q] != Form::Hypothetical by { if q == 0 {} }
            lemma_forms_differ(inflection_of(seq![Form::Hypothetical]), inflection_of(seq![Form::Past]), Form::Hypothetical);
        } else if i == 19 {
            lemma_inflection_of_contains(seq![Form::Hypothetical, Form::Negative], Form::Hypothetical);
            assert(seq![Form::Hypothetical, Form::Negative][0] == Form::Hypothetical);
            lemma_inflection_of_contains(seq![Form::Past], Form::Hypothetical);
            assert forall|q: int| 0 <= q < 1 implies seq![Form::Past][q] != Form::Hypothetical by { if q == 0 {} }
            lemma_forms_differ(inflection_of(seq![Form::Hypothetical, Form::Negative]), inflection_of(seq![Form::Past]), Form::Hypothetical);
        } else if i == 20 {
            lemma_inflection_of_contains(seq![Form::Hypothetical, Form::Negative, Form::Kya], Form::Hypothetical);
            assert(seq![Form::Hypothetical, Form::Negative, Form::Kya][0] == Form::Hypothetical);
            lemma_inflection_of_contains(seq![Form::Past], Form::Hypothetical);
            assert forall|q: int| 0 <= q < 1 implies seq![Form::Past][q] != Form::Hypothetical by { if q == 0 {} }
            lemma_forms_differ(inflection_of(seq![Form::Hypothetical, Form::Negative, Form::Kya]), inflection_of(seq![Form::Past]), Form::Hypothetical);
        } else if i == 21 {
            lemma_inflection_of_contains(seq![Form::Conditional], Form::Conditional);
            assert(seq![Form::Conditional][0] == Form::Conditional);
            lemma_inflection_of_contains(seq![Form::Past], Form::Conditional);
            assert forall|q: int| 0 <= q < 1 implies seq![Form::Past][q] != Form::Conditional by { if q == 0 {} }
            lemma_forms_differ(inflection_of(seq![Form::Conditional]), inflection_of(seq![Form::Past]), Form::Conditional);
        } else if i == 22 {
            lemma_inflection_of_contains(seq![Form::Conditional, Form::Honorific], Form::Conditional);
            assert(seq![Form::Conditional, Form::Honorific][0] == Form::Conditional);
            lemma_inflection_of_contains(seq![Form::Past], Form::Conditional);
            assert forall|q: int| 0 <= q < 1 implies seq![Form::Past][q] != Form::Conditional by { if q == 0 {} }
            lemma_forms_differ(inflection_of(seq![Form::Conditional, Form::Honorific]), inflection_of(seq![Form::Past]), Form::Conditional);
        } else if i == 23 {
            lemma_inflection_of_contains(seq![Form::Conditional, Form::Negative], Form::Conditional);
            assert(seq![Form::Conditional, Form::Negative][0] == Form::Conditional);
            lemma_inflection_of_contains(seq![Form::Past], Form::Conditional);
            assert forall|q: int| 0 <= q < 1 implies seq![Form::Past][q] != Form::Conditional by { if q == 0 {} }
            lemma_forms_differ(inflection_of(seq![Form::Conditional, Form::Negative]), inflection_of(seq![Form::Past]), Form::Conditional);
        } else if i == 24 {
            lemma_inflection_of_contains(seq![Form::Conditional, Form::Negative, Form::Honorific], Form::Conditional);
            assert(seq![Form::Conditional, Form::Negative, Form::Honorific][0] == Form::Conditional);
            lemma_inflection_of_contains(seq![Form::Past], Form::Conditional);
            assert forall|q: int| 0 <= q < 1 implies seq![Form::Past][q] != Form::Conditional by { if q == 0 {} }
            lemma_forms_differ(inflection_of(seq![Form::Conditional, Form::Negative, Form::Honorific]), inflection_of(seq![Form::Past]), Form::Conditional);
        } else if i == 25 {
            lemma_inflection_of_contains(seq![Form::Passive, Form::Conversation], Form::Conversation);
            assert(seq![Form::Passive, Form::Conversation][1] == Form::Conversation);
            lemma_inflection_of_contains(seq![Form::Past], Form::Conversation);
            assert forall|q: int| 0 <= q < 1 implies seq![Form::Past][q] != Form::Conversation by { if q == 0 {} }
            lemma_forms_differ(inflection_of(seq![Form::Passive, Form::Conversation]), inflection_of(seq![Form::Past]), Form::Conversation);
        } else if i == 26 {
            lemma_inflection_of_contains(seq![Form::Passive], Form::Passive);
            assert(seq![Form::Passive][0] == Form::Passive);
            lemma_inflection_of_contains(seq![Form::Past], Form::Passive);
            assert forall|q: int| 0 <= q < 1 implies seq![Form::Past][q] != Form::Passive by { if q == 0 {} }
            lemma_forms_differ(inflection_of(seq![Form::Passive]), inflection_of(seq![Form::Past]), Form::Passive);
        } else if i == 27 {
            lemma_inflection_of_contains(seq![Form::Passive, Form::Honorific], Form::Honorific);
            assert(seq![Form::Passive, Form::Honorific][1] == Form::Honorific);
            lemma_inflection_of_contains(seq![Form::Past], Form::Honorific);
            assert forall|q: int| 0 <= q < 1 implies seq![Form::Past][q] != Form::Honorific by { if q == 0 {} }
            lemma_forms_differ(inflection_of(seq![Form::Passive, Form::Honorific]), inflection_of(seq![Form::Past]), Form::Honorific);
        } else if i == 28 {
            lemma_inflection_of_contains(seq![Form::Passive, Form::Negative], Form::Negative);
            assert(seq![Form::Passive, Form::Negative][1] == Form::Negative);
            lemma_inflection_of_contains(seq![Form::Past], Form::Negative);
            assert forall|q: int| 0 <= q < 1 implies seq![Form::Past][q] != Form::Negative by { if q == 0 {} }
            lemma_forms_differ(inflection_of(seq![Form::Passive, Form::Negative]), inflection_of(seq![Form::Past]), Form::Negative);
        } else if i == 29 {
            lemma_inflection_of_contains(seq![Form::Passive, Form::Negative, Form::Honorific], Form::Honorific);
            assert(seq![Form::Passive, Form::Negative, Form::Honorific][2] == Form::Honorific);
            lemma_inflection_of_contains(seq![Form::Past], Form::Honorific);
            assert forall|q: int| 0 <= q < 1 implies seq![Form::Past][q] != Form::Honorific by { if q == 0 {} }
            lemma_forms_differ(inflection_of(seq![Form::Passive, Form::Negative, Form::Honorific]), inflection_of(seq![Form::Past]), Form::Honorific);
        } else if i == 30 {
            lemma_inflection_of_contains(seq![Form::Passive, Form::Past], Form::Passive);
            assert(seq![Form::Passive, Form::Past][0] == Form::Passive);
            lemma_inflection_of_contains(seq![Form::Past], Form::Passive);
            assert forall|q: int| 0 <= q < 1 implies seq![Form::Past][q] != Form::Passive by { if q == 0 {} }
            lemma_forms_differ(inflection_of(seq![Form::Passive, Form::Past]), inflection_of(seq![Form::Past]), Form::Passive);
        } else if i == 31 {
            lemma_inflection_of_contains(seq![Form::Passive, Form::Past, Form::Honorific], Form::Honorific);
            assert(seq![Form::Passive, Form::Past, Form::Honorific][2] == Form::Honorific);
            lemma_inflection_of_contains(seq![Form::Past], Form::Honorific);
            assert forall|q: int| 0 <= q < 1 implies seq![Form::Past][q] != Form::Honorific by { if q == 0 {} }
            lemma_forms_differ(inflection_of(seq![Form::Passive, Form::Past, Form::Honorific]), inflection_of(seq![Form::Past]), Form::Honorific);
        } else if i == 32 {
            lemma_inflection_of_contains(seq![Form::Potential], Form::Potential);
            assert(seq![Form::Potential][0] == Form::Potential);
            lemma_inflection_of_contains(seq![Form::Past], Form::Potential);
            assert forall|q: int| 0 <= q < 1 implies seq![Form::Past][q] != Form::Potential by { if q == 0 {} }
            lemma_forms_differ(inflection_of(seq![Form::Potential]), inflection_of(seq![Form::Past]), Form::Potential);
        } else if i == 33 {
            lemma_inflection_of_contains(seq![Form::Potential, Form::Honorific], Form::Honorific);
            assert(seq![Form::Potential, Form::Honorific][1] == Form::Honorific);
            lemma_inflection_of_contains(seq![Form::Past], Form::Honorific);
            assert forall|q: int| 0 <= q < 1 implies seq![Form::Past][q] != Form::Honorific by { if q == 0 {} }
            lemma_forms_differ(inflection_of(seq![Form::Potential, Form::Honorific]), inflection_of(seq![Form::Past]), Form::Honorific);
        } else if i == 34 {
            lemma_inflection_of_contains(seq![Form::Potential, Form::Negative], Form::Negative);
            assert(seq![Form::Potential, Form::Negative][1] == Form::Negative);
            lemma_inflection_of_contains(seq![Form::Past], Form::Negative);
            assert forall|q: int| 0 <= q < 1 implies seq![Form::Past][q] != Form::Negative by { if q == 0 {} }
            lemma_forms_differ(inflection_of(seq![Form::Potential, Form::Negative]), inflection_of(seq![Form::Past]), Form::Negative);
        } else if i == 35 {
            lemma_inflection_of_contains(seq![Form::Potential, Form::Negative, Form::Honorific], Form::Honorific);
            assert(seq![Form::Potential, Form::Negative, Form::Honorific][2] == Form::Honorific);
            lemma_inflection_of_contains(seq![Form::Past], Form::Honorific);
            assert forall|q: int| 0 <= q < 1 implies seq![Form::Past][q] != Form::Honorific by { if q == 0 {} }
            lemma_forms_differ(inflection_of(seq![Form::Potential, Form::Negative, Form::Honorific]), inflection_of(seq![Form::Past]), Form::Honorific);
        } else if i == 36 {
            lemma_inflection_of_contains(seq![Form::Potential, Form::Past], Form::Potential);
            assert(seq![Form::Potential, Form::Past][0] == Form::Potential);
            lemma_inflection_of_contains(seq![Form::Past], Form::Potential);
            assert forall|q: int| 0 <= q < 1 implies seq![Form::Past][q] != Form::Potential by { if q == 0 {} }
            lemma_forms_differ(inflection_of(seq![Form::Potential, Form::Past]), inflection_of(seq![Form::Past]), Form::Potential);
        } else if i == 37 {
            lemma_inflection_of_contains(seq![Form::Potential, Form::Past, Form::Honorific], Form::Honorific);
            assert(seq![Form::Potential, Form::Past, Form::Honorific][2] == Form::Honorific);
            lemma_inflection_of_contains(seq![Form::Past], Form::Honorific);
            assert forall|q: int| 0 <= q < 1 implies seq![Form::Past][q] != Form::Honorific by { if q == 0 {} }
            lemma_forms_differ(inflection_of(seq![Form::Potential, Form::Past, Form::Honorific]), inflection_of(seq![Form::Past]), Form::Honorific);
        } else if i == 38 {
            lemma_inflection_of_contains(seq![Form::Potential, Form::Past, Form::Negative], Form::Negative);
            assert(seq![Form::Potential, Form::Past, Form::Negative][2] == Form::Negative);
            lemma_inflection_of_contains(seq![Form::Past], Form::Negative);
            assert forall|q: int| 0 <= q < 1 implies seq![Form::Past][q] != Form::Negative by { if q == 0 {} }
            lemma_forms_differ(inflection_of(seq![Form::Potential, Form::Past, Form::Negative]), inflection_of(seq![Form::Past]), Form::Negative);
        } else if i == 39 {
            lemma_inflection_of_contains(seq![Form::Potential, Form::Past, Form::Negative, Form::Honorific], Form::Honorific);
            assert(seq![Form::Potential, Form::Past, Form::Negative, Form::Honorific][3] == Form::Honorific);
            lemma_inflection_of_contains(seq![Form::Past], Form::Honorific);
            assert forall|q: int| 0 <= q < 1 implies seq![Form::Past][q] != Form::Honorific by { if q == 0 {} }
            lemma_forms_differ(inflection_of(seq![Form::Potential, Form::Past, Form::Negative, Form::Honorific]), inflection_of(seq![Form::Past]), Form::Honorific);
        } else if i == 40 {
            lemma_inflection_of_contains(seq![Form::Volitional], Form::Volitional);
            assert(seq![Form::Volitional][0] == Form::Volitional);
            lemma_inflection_of_contains(seq![Form::Past], Form::Volitional);
            assert forall|q: int| 0 <= q < 1 implies seq![Form::Past][q] != Form::Volitional by { if q == 0 {} }
            lemma_forms_differ(inflection_of(seq![Form::Volitional]), inflection_of(seq![Form::Past]), Form::Volitional);
        } else if i == 41 {
            lemma_inflection_of_contains(seq![Form::Volitional, Form::Honorific], Form::Honorific);
            assert(seq![Form::Volitional, Form::Honorific][1] == Form::Honorific);
            lemma_inflection_of_contains(seq![Form::Past], Form::Honorific);
            assert forall|q: int| 0 <= q < 1 implies seq![Form::Past][q] != Form::Honorific by { if q == 0 {} }
            lemma_forms_differ(inflection_of(seq![Form::Volitional, Form::Honorific]), inflection_of(seq![Form::Past]), Form::Honorific);
        } else if i == 42 {
            lemma_inflection_of_contains(seq![Form::Volitional, Form::Darou], Form::Darou);
            assert(seq![Form::Volitional, Form::Darou][1] == Form::Darou);
            lemma_inflection_of_contains(seq![Form::Past], Form::Darou);
            assert forall|q: int| 0 <= q < 1 implies seq![Form::Past][q] != Form::Darou by { if q == 0 {} }
            lemma_forms_differ(inflection_of(seq![Form::Volitional, Form::Darou]), inflection_of(seq![Form::Past]), Form::Darou);
        } else if i == 43 {
            lemma_inflection_of_contains(seq![Form::Volitional, Form::Darou, Form::Honorific], Form::Darou);
            assert(seq![Form::Volitional, Form::Darou, Form::Honorific][1] == Form::Darou);
            lemma_inflection_of_contains(seq![Form::Past], Form::Darou);
            assert forall|q: int| 0 <= q < 1 implies seq![Form::Past][q] != Form::Darou by { if q == 0 {} }
            lemma_forms_differ(inflection_of(seq![Form::Volitional, Form::Darou, Form::Honorific]), inflection_of(seq![Form::Past]), Form::Darou);
        } else if i == 44 {
            lemma_inflection_of_contains(seq![Form::Volitional, Form::Negative], Form::Negative);
            assert(seq![Form::Volitional, Form::Negative][1] == Form::Negative);
            lemma_inflection_of_contains(seq![Form::Past], Form::Negative);
            assert forall|q: int| 0 <= q < 1 implies seq![Form::Past][q] != Form::Negative by { if q == 0 {} }
            lemma_forms_differ(inflection_of(seq![Form::Volitional, Form::Negative]), inflection_of(seq![Form::Past]), Form::Negative);
        } else if i == 45 {
            lemma_inflection_of_contains(seq![Form::Volitional, Form::Negative, Form::Honorific], Form::Honorific);
            assert(seq![Form::Volitional, Form::Negative, Form::Honorific][2] == Form::Honorific);
            lemma_inflection_of_contains(seq![Form::Past], Form::Honorific);
            assert forall|q: int| 0 <= q < 1 implies seq![Form::Past][q] != Form::Honorific by { if q == 0 {} }
            lemma_forms_differ(inflection_of(seq![Form::Volitional, Form::Negative, Form::Honorific]), inflection_of(seq![Form::Past]), Form::Honorific);
        } else if i == 46 {
            lemma_inflection_of_contains(seq![Form::Causative], Form::Causative);
            assert(seq![Form::Causative][0] == Form::Causative);
            lemma_inflection_of_contains(seq![Form::Past], Form::Causative);
            assert forall|q: int| 0 <= q < 1 implies seq![Form::Past][q] != Form::Causative by { if q == 0 {} }
            lemma_forms_differ(inflection_of(seq![Form::Causative]), inflection_of(seq![Form::Past]), Form::Causative);
        } else if i == 47 {
            lemma_inflection_of_contains(seq![Form::Simultaneous], Form::Simultaneous);
            assert(seq![Form::Simultaneous][0] == Form::Simultaneous);
            lemma_inflection_of_contains(seq![Form::Past], Form::Simultaneous);
            assert forall|q: int| 0 <= q < 1 implies seq![Form::Past][q] != Form::Simultaneous by { if q == 0 {} }
            lemma_forms_differ(inflection_of(seq![Form::Simultaneous]), inflection_of(seq![Form::Past]), Form::Simultaneous);
        } else if i == 48 {
            lemma_inflection_of_contains(seq![Form::LooksLike], Form::LooksLike);
            assert(seq![Form::LooksLike][0] == Form::LooksLike);
            lemma_inflection_of_contains(seq![Form::Past], Form::LooksLike);
            assert forall|q: int| 0 <= q < 1 implies seq![Form::Past][q] != Form::LooksLike by { if q == 0 {} }
            lemma_forms_differ(inflection_of(seq![Form::LooksLike]), inflection_of(seq![Form::Past]), Form::LooksLike);
        }
    }
    lemma_last_op(Map::empty(), base, 6, inflection_of(seq![Form::Past]));
    assert forall|f: Form| derived_form(f) implies !inflection_of(seq![Form::Past]).forms().contains(f) by {
        lemma_inflection_of_contains(seq![Form::Past], f);
        if seq![Form::Past].contains(f) {
            let q = choose|q: int| 0 <= q < seq![Form::Past].len() && seq![Form::Past][q] == f;
        }
    }
    assert forall|i: int| 0 <= i < stem_ops(s).len() implies (#[trigger] stem_ops(s)[i]).0 != inflection_of(seq![Form::Past]) by {
        assert(marked(stem_ops(s)[i].0));
    }
    lemma_ops_absent(m0, stem_ops(s), inflection_of(seq![Form::Past]));
    assert forall|i: int| 0 <= i < te_ops(t).len() implies (#[trigger] te_ops(t)[i]).0 != inflection_of(seq![Form::Past]) by {
        assert(marked(te_ops(t)[i].0));
    }
    lemma_ops_absent(m1, te_ops(t), inflection_of(seq![Form::Past]));
    assert forall|i: int| 0 <= i < chau_ops(c).len() implies (#[trigger] chau_ops(c)[i]).0 != inflection_of(seq![Form::Past]) by {
        assert(marked(chau_ops(c)[i].0));
    }
    lemma_ops_absent(m2, chau_ops(c), inflection_of(seq![Form::Past]));
    // Command
    assert forall|i: int| 10 < i < base.len() implies (#[trigger] base[i]).0 != inflection_of(seq![Form::Command]) by {
        if i == 11 {
            lemma_inflection_of_contains(seq![Form::Command, Form::Honorific], Form::Honorific);
            assert(seq![Form::Command, Form::Honorific][1] == Form::Honorific);
            lemma_inflection_of_contains(seq![Form::Command], Form::Honorific);
            assert forall|q: int| 0 <= q < 1 implies seq![Form::Command][q] != Form::Honorific by { if q == 0 {} }
            lemma_forms_differ(inflection_of(seq![Form::Command, Form::Honorific]), inflection_of(seq![Form::Command]), Form::Honorific);
        } else if i == 12 {
            lemma_inflection_of_contains(seq![Form::Command, Form::Honorific, Form::CommandTeKudasai], Form::CommandTeKudasai);
            assert(seq![Form::Command, Form::Honorific, Form::CommandTeKudasai][2] == Form::CommandTeKudasai);
            lemma_inflection_of_contains(seq![Form::Command], Form::CommandTeKudasai);
            assert forall|q: int| 0 <= q < 1 implies seq![Form::Command][q] != Form::CommandTeKudasai by { if q == 0 {} }
            lemma_forms_differ(inflection_of(seq![Form::Command, Form::Honorific, Form::CommandTeKudasai]), inflection_of(seq![Form::Command]), Form::CommandTeKudasai);
        } else if i == 13 {
            lemma_inflection_of_contains(seq![Form::Command, Form::CommandYo], Form::CommandYo);
            assert(seq![Form::Command, Form::CommandYo][1] == Form::CommandYo);
            lemma_inflection_of_contains(seq![Form::Command], Form::CommandYo);
            assert forall|q: int| 0 <= q < 1 implies seq![Form::Command][q] != Form::CommandYo by { if q == 0 {} }
            lemma_forms_differ(inflection_of(seq![Form::Command, Form::CommandYo]), inflection_of(seq![Form::Command]), Form::CommandYo);
        } else if i == 14 {
            lemma_inflection_of_contains(seq![Form::Command, Form::Negative], Form::Negative);
            assert(seq![Form::Command, Form::Negative][1] == Form::Negative);
            lemma_inflection_of_contains(seq![Form::Command], Form::Negative);
            assert forall|q: int| 0 <= q < 1 implies seq![Form::Command][q] != Form::Negative by { if q == 0 {} }
            lemma_forms_differ(inflection_of(seq![Form::Command, Form::Negative]), inflection_of(seq![Form::Command]), Form::Negative);
        } else if i == 15 {
            lemma_inflection_of_contains(seq![Form::Command, Form::Negative, Form::Honorific], Form::Honorific);
            assert(seq![Form::Command, Form::Negative, Form::Honorific][2] == Form::Honorific);
            lemma_inflection_of_contains(seq![Form::Command], Form::Honorific);
            assert forall|q: int| 0 <= q < 1 implies seq![Form::Command][q] != Form::Honorific by { if q == 0 {} }
            lemma_forms_differ(inflection_of(seq![Form::Command, Form::Negative, Form::Honorific]), inflection_of(seq![Form::Command]), Form::Honorific);
        } else if i == 16 {
            lemma_inflection_of_contains(seq![Form::Hypothetical, Form::Conversation], Form::Conversation);
            assert(seq![Form::Hypothetical, Form::Conversation][1] == Form::Conversation);
            lemma_inflection_of_contains(seq![Form::Command], Form::Conversation);
            assert forall|q: int| 0 <= q < 1 implies seq![Form::Command][q] != Form::Conversation by { if q == 0 {} }
            lemma_forms_differ(inflection_of(seq![Form::Hypothetical, Form::Conversation]), inflection_of(seq![Form::Command]), Form::Conversation);
        } else if i == 17 {
            lemma_inflection_of_contains(seq![Form::Hypothetical, Form::Conversation, Form::Negative], Form::Conversation);
            assert(seq![Form::Hypothetical, Form::Conversation, Form::Negative][1] == Form::Conversation);
            lemma_inflection_of_contains(seq![Form::Command], Form::Conversation);
            assert forall|q: int| 0 <= q < 1 implies seq![Form::Command][q] != Form::Conversation by { if q == 0 {} }
            lemma_forms_differ(inflection_of(seq![Form::Hypothetical, Form::Conversation, Form::Negative]), inflection_of(seq![Form::Command]), Form::Conversation);
        } else if i == 18 {
            lemma_inflection_of_contains(seq![Form::Hypothetical], Form::Hypothetical);
            assert(seq![Form::Hypothetical][0] == Form::Hypothetical);
            lemma_inflection_of_contains(seq![Form::Command], Form::Hypothetical);
            assert forall|q: int| 0 <= q < 1 implies seq![Form::Command][q] != Form::Hypothetical by { if q == 0 {} }
            lemma_forms_differ(inflection_of(seq![Form::Hypothetical]), inflection_of(seq![Form::Command]), Form::Hypothetical);
        } else if i == 19 {
            lemma_inflection_of_contains(seq![Form::Hypothetical, Form::Negative], Form::Hypothetical);
            assert(seq![Form::Hypothetical, Form::Negative][0] == Form::Hypothetical);
            lemma_inflection_of_contains(seq![Form::Command], Form::Hypothetical);
            assert forall|q: int| 0 <= q < 1 implies seq![Form::Command][q] != Form::Hypothetical by { if q == 0 {} }
            lemma_forms_differ(inflection_of(seq![Form::Hypothetical, Form::Negative]), inflection_of(seq![Form::Command]), Form::Hypothetical);
        } else if i == 20 {
            lemma_inflection_of_contains(seq![Form::Hypothetical, Form::Negative, Form::Kya], Form::Hypothetical);
            assert(seq![Form::Hypothetical, Form::Negative, Form::Kya][0] == Form::Hypothetical);
            lemma_inflection_of_contains(seq![Form::Command], Form::Hypothetical);
            assert forall|q: int| 0 <= q < 1 implies seq![Form::Command][q] != Form::Hypothetical by { if q == 0 {} }
            lemma_forms_differ(inflection_of(seq![Form::Hypothetical, Form::Negative, Form::Kya]), inflection_of(seq![Form::Command]), Form::Hypothetical);
        } else if i == 21 {
            lemma_inflection_of_contains(seq![Form::Conditional], Form::Conditional);
            assert(seq![Form::Conditional][0] == Form::Conditional);
            lemma_inflection_of_contains(seq![Form::Command], Form::Conditional);
            assert forall|q: int| 0 <= q < 1 implies seq![Form::Command][q] != Form::Conditional by { if q == 0 {} }
            lemma_forms_differ(inflection_of(seq![Form::Conditional]), inflection_of(seq![Form::Command]), Form::Conditional);
        } else if i == 22 {
            lemma_inflection_of_contains(seq![Form::Conditional, Form::Honorific], Form::Conditional);
            assert(seq![Form::Conditional, Form::Honorific][0] == Form::Conditional);
            lemma_inflection_of_contains(seq![Form::Command], Form::Conditional);
            assert forall|q: int| 0 <= q < 1 implies seq![Form::Command][q] != Form::Conditional by { if q == 0 {} }
            lemma_forms_differ(inflection_of(seq![Form::Conditional, Form::Honorific]), inflection_of(seq![Form::Command]), Form::Conditional);
        } else if i == 23 {
            lemma_inflection_of_contains(seq![Form::Conditional, Form::Negative], Form::Conditional);
            assert(seq![Form::Conditional, Form::Negative][0] == Form::Conditional);
            lemma_inflection_of_contains(seq![Form::Command], Form::Conditional);
            assert forall|q: int| 0 <= q < 1 implies seq![Form::Command][q] != Form::Conditional by { if q == 0 {} }
            lemma_forms_differ(inflection_of(seq![Form::Conditional, Form::Negative]), inflection_of(seq![Form::Command]), Form::Conditional);
        } else if i == 24 {
            lemma_inflection_of_contains(seq![Form::Conditional, Form::Negative, Form::Honorific], Form::Conditional);
            assert(seq![Form::Conditional, Form::Negative, Form::Honorific][0] == Form::Conditional);
            lemma_inflection_of_contains(seq![Form::Command], Form::Conditional);
            assert forall|q: int| 0 <= q < 1 implies seq![Form::Command][q] != Form::Conditional by { if q == 0 {} }
            lemma_forms_differ(inflection_of(seq![Form::Conditional, Form::Negative, Form::Honorific]), inflection_of(seq![Form::Command]), Form::Conditional);
        } else if i == 25 {
            lemma_inflection_of_contains(seq![Form::Passive, Form::Conversation], Form::Conversation);
            assert(seq![Form::Passive, Form::Conversation][1] == Form::Conversation);
            lemma_inflection_of_contains(seq![Form::Command], Form::Conversation);
            assert forall|q: int| 0 <= q < 1 implies seq![Form::Command][q] != Form::Conversation by { if q == 0 {} }
            lemma_forms_differ(inflection_of(seq![Form::Passive, Form::Conversation]), inflection_of(seq![Form::Command]), Form::Conversation);
        } else if i == 26 {
            lemma_inflection_of_contains(seq![Form::Passive], Form::Passive);
            assert(seq![Form::Passive][0] == Form::Passive);
            lemma_inflection_of_contains(seq![Form::Command], Form::Passive);
            assert forall|q: int| 0 <= q < 1 implies seq![Form::Command][q] != Form::Passive by { if q == 0 {} }
            lemma_forms_differ(inflection_of(seq![Form::Passive]), inflection_of(seq![Form::Command]), Form::Passive);
        } else if i == 27 {
            lemma_inflection_of_contains(seq![Form::Passive, Form::Honorific], Form::Honorific);
            assert(seq![Form::Passive, Form::Honorific][1] == Form::Honorific);
            lemma_inflection_of_contains(seq![Form::Command], Form::Honorific);
            assert forall|q: int| 0 <= q < 1 implies seq![Form::Command][q] != Form::Honorific by { if q == 0 {} }
            lemma_forms_differ(inflection_of(seq![Form::Passive, Form::Honorific]), inflection_of(seq![Form::Command]), Form::Honorific);
        } else if i == 28 {
            lemma_inflection_of_contains(seq![Form::Passive, Form::Negative], Form::Negative);
            assert(seq![Form::Passive, Form::Negative][1] == Form::Negative);
            lemma_inflection_of_contains(seq![Form::Command], Form::Negative);
            assert forall|q: int| 0 <= q < 1 implies seq![Form::Command][q] != Form::Negative by { if q == 0 {} }
            lemma_forms_differ(inflection_of(seq![Form::Passive, Form::Negative]), inflection_of(seq![Form::Command]), Form::Negative);
        } else if i == 29 {
            lemma_inflection_of_contains(seq![Form::Passive, Form::Negative, Form::Honorific], Form::Honorific);
            assert(seq![Form::Passive, Form::Negative, Form::Honorific][2] == Form::Honorific);
            lemma_inflection_of_contains(seq![Form::Command], Form::Honorific);
            assert forall|q: int| 0 <= q < 1 implies seq![Form::Command][q] != Form::Honorific by { if q == 0 {} }
            lemma_forms_differ(inflection_of(seq![Form::Passive, Form::Negative, Form::Honorific]), inflection_of(seq![Form::Command]), Form::Honorific);
        } else if i == 30 {
            lemma_inflection_of_contains(seq![Form::Passive, Form::Past], Form::Passive);
            assert(seq![Form::Passive, Form::Past][0] == Form::Passive);
            lemma_inflection_of_contains(seq![Form::Command], Form::Passive);
            assert forall|q: int| 0 <= q < 1 implies seq![Form::Command][q] != Form::Passive by { if q == 0 {} }
            lemma_forms_differ(inflection_of(seq![Form::Passive, Form::Past]), inflection_of(seq![Form::Command]), Form::Passive);
        } else if i == 31 {
            lemma_inflection_of_contains(seq![Form::Passive, Form::Past, Form::Honorific], Form::Honorific);
            assert(seq![Form::Passive, Form::Past, Form::Honorific][2] == Form::Honorific);
            lemma_inflection_of_contains(seq![Form::Command], Form::Honorific);
            assert forall|q: int| 0 <= q < 1 implies seq![Form::Command][q] != Form::Honorific by { if q == 0 {} }
            lemma_forms_differ(inflection_of(seq![Form::Passive, Form::Past, Form::Honorific]), inflection_of(seq![Form::Command]), Form::Honorific);
        } else if i == 32 {
            lemma_inflection_of_contains(seq![Form::Potential], Form::Potential);
            assert(seq![Form::Potential][0] == Form::Potential);
            lemma_inflection_of_contains(seq![Form::Command], Form::Potential);
            assert forall|q: int| 0 <= q < 1 implies seq![Form::Command][q] != Form::Potential by { if q == 0 {} }
            lemma_forms_differ(inflection_of(seq![Form::Potential]), inflection_of(seq![Form::Command]), Form::Potential);
        } else if i == 33 {
            lemma_inflection_of_contains(seq![Form::Potential, Form::Honorific], Form::Honorific);
            assert(seq![Form::Potential, Form::Honorific][1] == Form::Honorific);
            lemma_inflection_of_contains(seq![Form::Command], Form::Honorific);
            assert forall|q: int| 0 <= q < 1 implies seq![Form::Command][q] != Form::Honorific by { if q == 0 {} }
            lemma_forms_differ(inflection_of(seq![Form::Potential, Form::Honorific]), inflection_of(seq![Form::Command]), Form::Honorific);
        } else if i == 34 {
            lemma_inflection_of_contains(seq![Form::Potential, Form::Negative], Form::Negative);
            assert(seq![Form::Potential, Form::Negative][1] == Form::Negative);
            lemma_inflection_of_contains(seq![Form::Command], Form::Negative);
            assert forall|q: int| 0 <= q < 1 implies seq![Form::Command][q] != Form::Negative by { if q == 0 {} }
            lemma_forms_differ(inflection_of(seq![Form::Potential, Form::Negative]), inflection_of(seq![Form::Command]), Form::Negative);
        } else if i == 35 {
            lemma_inflection_of_contains(seq![Form::Potential, Form::Negative, Form::Honorific], Form::Honorific);
            assert(seq![Form::Potential, Form::Negative, Form::Honorific][2] == Form::Honorific);
            lemma_inflection_of_contains(seq![Form::Command], Form::Honorific);
            assert forall|q: int| 0 <= q < 1 implies seq![Form::Command][q] != Form::Honorific by { if q == 0 {} }
            lemma_forms_differ(inflection_of(seq![Form::Potential, Form::Negative, Form::Honorific]), inflection_of(seq![Form::Command]), Form::Honorific);
        } else if i == 36 {
            lemma_inflection_of_contains(seq![Form::Potential, Form::Past], Form::Past);
            assert(seq![Form::Potential, Form::Past][1] == Form::Past);
            lemma_inflection_of_contains(seq![Form::Command], Form::Past);
            assert forall|q: int| 0 <= q < 1 implies seq![Form::Command][q] != Form::Past by { if q == 0 {} }
            lemma_forms_differ(inflection_of(seq![Form::Potential, Form::Past]), inflection_of(seq![Form::Command]), Form::Past);
        } else if i == 37 {
            lemma_inflection_of_contains(seq![Form::Potential, Form::Past, Form::Honorific], Form::Honorific);
            assert(seq![Form::Potential, Form::Past, Form::Honorific][2] == Form::Honorific);
            lemma_inflection_of_contains(seq![Form::Command], Form::Honorific);
            assert forall|q: int| 0 <= q < 1 implies seq![Form::Command][q] != Form::Honorific by { if q == 0 {} }
            lemma_forms_differ(inflection_of(seq![Form::Potential, Form::Past, Form::Honorific]), inflection_of(seq![Form::Command]), Form::Honorific);
        } else if i == 38 {
            lemma_inflection_of_contains(seq![Form::Potential, Form::Past, Form::Negative], Form::Negative);
            assert(seq![Form::Potential, Form::Past, Form::Negative][2] == Form::Negative);
            lemma_inflection_of_contains(seq![Form::Command], Form::Negative);
            assert forall|q: int| 0 <= q < 1 implies seq![Form::Command][q] != Form::Negative by { if q == 0 {} }
            lemma_forms_differ(inflection_of(seq![Form::Potential, Form::Past, Form::Negative]), inflection_of(seq![Form::Command]), Form::Negative);
        } else if i == 39 {
            lemma_inflection_of_contains(seq![Form::Potential, Form::Past, Form::Negative, Form::Honorific], Form::Honorific);
            assert(seq![Form::Potential, Form::Past, Form::Negative, Form::Honorific][3] == Form::Honorific);
            lemma_inflection_of_contains(seq![Form::Command], Form::Honorific);
            assert forall|q: int| 0 <= q < 1 implies seq![Form::Command][q] != Form::Honorific by { if q == 0 {} }
            lemma_forms_differ(inflection_of(seq![Form::Potential, Form::Past, Form::Negative, Form::Honorific]), inflection_of(seq![Form::Command]), Form::Honorific);
        } else if i == 40 {
            lemma_inflection_of_contains(seq![Form::Volitional], Form::Volitional);
            assert(seq![Form::Volitional][0] == Form::Volitional);
            lemma_inflection_of_contains(seq![Form::Command], Form::Volitional);
            assert forall|q: int| 0 <= q < 1 implies seq![Form::Command][q] != Form::Volitional by { if q == 0 {} }
            lemma_forms_differ(inflection_of(seq![Form::Volitional]), inflection_of(seq![Form::Command]), Form::Volitional);
        } else if i == 41 {
            lemma_inflection_of_contains(seq![Form::Volitional, Form::Honorific], Form::Honorific);
            assert(seq![Form::Volitional, Form::Honorific][1] == Form::Honorific);
            lemma_inflection_of_contains(seq![Form::Command], Form::Honorific);
            assert forall|q: int| 0 <= q < 1 implies seq![Form::Command][q] != Form::Honorific by { if q == 0 {} }
            lemma_forms_differ(inflection_of(seq![Form::Volitional, Form::Honorific]), inflection_of(seq![Form::Command]), Form::Honorific);
        } else if i == 42 {
            lemma_inflection_of_contains(seq![Form::Volitional, Form::Darou], Form::Darou);
            assert(seq![Form::Volitional, Form::Darou][1] == Form::Darou);
            lemma_inflection_of_contains(seq![Form::Command], Form::Darou);
            assert forall|q: int| 0 <= q < 1 implies seq![Form::Command][q] != Form::Darou by { if q == 0 {} }
            lemma_forms_differ(inflection_of(seq![Form::Volitional, Form::Darou]), inflection_of(seq![Form::Command]), Form::Darou);
        } else if i == 43 {
            lemma_inflection_of_contains(seq![Form::Volitional, Form::Darou, Form::Honorific], Form::Darou);
            assert(seq![Form::Volitional, Form::Darou, Form::Honorific][1] == Form::Darou);
            lemma_inflection_of_contains(seq![Form::Command], Form::Darou);
            assert forall|q: int| 0 <= q < 1 implies seq![Form::Command][q] != Form::Darou by { if q == 0 {} }
            lemma_forms_differ(inflection_of(seq![Form::Volitional, Form::Darou, Form::Honorific]), inflection_of(seq![Form::Command]), Form::Darou);
        } else if i == 44 {
            lemma_inflection_of_contains(seq![Form::Volitional, Form::Negative], Form::Negative);
            assert(seq![Form::Volitional, Form::Negative][1] == Form::Negative);
            lemma_inflection_of_contains(seq![Form::Command], Form::Negative);
            assert forall|q: int| 0 <= q < 1 implies seq![Form::Command][q] != Form::Negative by { if q == 0 {} }
            lemma_forms_differ(inflection_of(seq![Form::Volitional, Form::Negative]), inflection_of(seq![Form::Command]), Form::Negative);
        } else if i == 45 {
            lemma_inflection_of_contains(seq![Form::Volitional, Form::Negative, Form::Honorific], Form::Honorific);
            assert(seq![Form::Volitional, Form::Negative, Form::Honorific][2] == Form::Honorific);
            lemma_inflection_of_contains(seq![Form::Command], Form::Honorific);
            assert forall|q: int| 0 <= q < 1 implies seq![Form::Command][q] != Form::Honorific by { if q == 0 {} }
            lemma_forms_differ(inflection_of(seq![Form::Volitional, Form::Negative, Form::Honorific]), inflection_of(seq![Form::Command]), Form::Honorific);
        } else if i == 46 {
            lemma_inflection_of_contains(seq![Form::Causative], Form::Causative);
            assert(seq![Form::Causative][0] == Form::Causative);
            lemma_inflection_of_contains(seq![Form::Command], Form::Causative);
            assert forall|q: int| 0 <= q < 1 implies seq![Form::Command][q] != Form::Causative by { if q == 0 {} }
            lemma_forms_differ(inflection_of(seq![Form::Causative]), inflection_of(seq![Form::Command]), Form::Causative);
        } else if i == 47 {
            lemma_inflection_of_contains(seq![Form::Simultaneous], Form::Simultaneous);
            assert(seq![Form::Simultaneous][0] == Form::Simultaneous);
            lemma_inflection_of_contains(seq![Form::Command], Form::Simultaneous);
            assert forall|q: int| 0 <= q < 1 implies seq![Form::Command][q] != Form::Simultaneous by { if q == 0 {} }
            lemma_forms_differ(inflection_of(seq![Form::Simultaneous]), inflection_of(seq![Form::Command]), Form::Simultaneous);
        } else if i == 48 {
            lemma_inflection_of_contains(seq![Form::LooksLike], Form::LooksLike);
            assert(seq![Form::LooksLike][0] == Form::LooksLike);
            lemma_inflection_of_contains(seq![Form::Command], Form::LooksLike);
            assert forall|q: int| 0 <= q < 1 implies seq![Form::Command][q] != Form::LooksLike by { if q == 0 {} }
            lemma_forms_differ(inflection_of(seq![Form::LooksLike]), inflection_of(seq![Form::Command]), Form::LooksLike);
        }
    }
    lemma_last_op(Map::empty(), base, 10, inflection_of(seq![Form::Command]));
    assert forall|f: Form| derived_form(f) implies !inflection_of(seq![Form::Command]).forms().contains(f) by {
        lemma_inflection_of_contains(seq![Form::Command], f);
        if seq![Form::Command].contains(f) {
            let q = choose|q: int| 0 <= q < seq![Form::Command].len() && seq![Form::Command][q] == f;
        }
    }
    assert forall|i: int| 0 <= i < stem_ops(s).len() implies (#[trigger] stem_ops(s)[i]).0 != inflection_of(seq![Form::Command]) by {
        assert(marked(stem_ops(s)[i].0));
    }
    lemma_ops_absent(m0, stem_ops(s), inflection_of(seq![Form::Command]));
    assert forall|i: int| 0 <= i < te_ops(t).len() implies (#[trigger] te_ops(t)[i]).0 != inflection_of(seq![Form::Command]) by {
        assert(marked(te_ops(t)[i].0));
    }
    lemma_ops_absent(m1, te_ops(t), inflection_of(seq![Form::Command]));
    assert forall|i: int| 0 <= i < chau_ops(c).len() implies (#[trigger] chau_ops(c)[i]).0 != inflection_of(seq![Form::Command]) by {
        assert(marked(chau_ops(c)[i].0));
    }
    lemma_ops_absent(m2, chau_ops(c), inflection_of(seq![Form::Command]));
    // Passive
    assert forall|i: int| 26 < i < base.len() implies (#[trigger] base[i]).0 != inflection_of(seq![Form::Passive]) by {
        if i == 27 {
            lemma_inflection_of_contains(seq![Form::Passive, Form::Honorific], Form::Honorific);
            assert(seq![Form::Passive, Form::Honorific][1] == Form::Honorific);
            lemma_inflection_of_contains(seq![Form::Passive], Form::Honorific);
            assert forall|q: int| 0 <= q < 1 implies seq![Form::Passive][q] != Form::Honorific by { if q == 0 {} }
            lemma_forms_differ(inflection_of(seq![Form::Passive, Form::Honorific]), inflection_of(seq![Form::Passive]), Form::Honorific);
        } else if i == 28 {
            lemma_inflection_of_contains(seq![Form::Passive, Form::Negative], Form::Negative);
            assert(seq![Form::Passive, Form::Negative][1] == Form::Negative);
            lemma_inflection_of_contains(seq![Form::Passive], Form::Negative);
            assert forall|q: int| 0 <= q < 1 implies seq![Form::Passive][q] != Form::Negative by { if q == 0 {} }
            lemma_forms_differ(inflection_of(seq![Form::Passive, Form::Negative]), inflection_of(seq![Form::Passive]), Form::Negative);
        } else if i == 29 {
            lemma_inflection_of_contains(seq![Form::Passive, Form::Negative, Form::Honorific], Form::Honorific);
            assert(seq![Form::Passive, Form::Negative, Form::Honorific][2] == Form::Honorific);
            lemma_inflection_of_contains(seq![Form::Passive], Form::Honorific);
            assert forall|q: int| 0 <= q < 1 implies seq![Form::Passive][q] != Form::Honorific by { if q == 0 {} }
            lemma_forms_differ(inflection_of(seq![Form::Passive, Form::Negative, Form::Honorific]), inflection_of(seq![Form::Passive]), Form::Honorific);
        } else if i == 30 {
            lemma_inflection_of_contains(seq![Form::Passive, Form::Past], Form::Past);
            assert(seq![Form::Passive, Form::Past][1] == Form::Past);
            lemma_inflection_of_contains(seq![Form::Passive], Form::Past);
            assert forall|q: int| 0 <= q < 1 implies seq![Form::Passive][q] != Form::Past by { if q == 0 {} }
            lemma_forms_differ(inflection_of(seq![Form::Passive, Form::Past]), inflection_of(seq![Form::Passive]), Form::Past);
        } else if i == 31 {
            lemma_inflection_of_contains(seq![Form::Passive, Form::Past, Form::Honorific], Form::Honorific);
            assert(seq![Form::Passive, Form::Past, Form::Honorific][2] == Form::Honorific);
            lemma_inflection_of_contains(seq![Form::Passive], Form::Honorific);
            assert forall|q: int| 0 <= q < 1 implies seq![Form::Passive][q] != Form::Honorific by { if q == 0 {} }
            lemma_forms_differ(inflection_of(seq![Form::Passive, Form::Past, Form::Honorific]), inflection_of(seq![Form::Passive]), Form::Honorific);
        } else if i == 32 {
            lemma_inflection_of_contains(seq![Form::Potential], Form::Potential);
            assert(seq![Form::Potential][0] == Form::Potential);
            lemma_inflection_of_contains(seq![Form::Passive], Form::Potential);
            assert forall|q: int| 0 <= q < 1 implies seq![Form::Passive][q] != Form::Potential by { if q == 0 {} }
            lemma_forms_differ(inflection_of(seq![Form::Potential]), inflection_of(seq![Form::Passive]), Form::Potential);
        } else if i == 33 {
            lemma_inflection_of_contains(seq![Form::Potential, Form::Honorific], Form::Honorific);
            assert(seq![Form::Potential, Form::Honorific][1] == Form::Honorific);
            lemma_inflection_of_contains(seq![Form::Passive], Form::Honorific);
            assert forall|q: int| 0 <= q < 1 implies seq![Form::Passive][q] != Form::Honorific by { if q == 0 {} }
            lemma_forms_differ(inflection_of(seq![Form::Potential, Form::Honorific]), inflection_of(seq![Form::Passive]), Form::Honorific);
        } else if i == 34 {
            lemma_inflection_of_contains(seq![Form::Potential, Form::Negative], Form::Negative);
            assert(seq![Form::Potential, Form::Negative][1] == Form::Negative);
            lemma_inflection_of_contains(seq![Form::Passive], Form::Negative);
            assert forall|q: int| 0 <= q < 1 implies seq![Form::Passive][q] != Form::Negative by { if q == 0 {} }
            lemma_forms_differ(inflection_of(seq![Form::Potential, Form::Negative]), inflection_of(seq![Form::Passive]), Form::Negative);
        } else if i == 35 {
            lemma_inflection_of_contains(seq![Form::Potential, Form::Negative, Form::Honorific], Form::Honorific);
            assert(seq![Form::Potential, Form::Negative, Form::Honorific][2] == Form::Honorific);
            lemma_inflection_of_contains(seq![Form::Passive], Form::Honorific);
            assert forall|q: int| 0 <= q < 1 implies seq![Form::Passive][q] != Form::Honorific by { if q == 0 {} }
            lemma_forms_differ(inflection_of(seq![Form::Potential, Form::Negative, Form::Honorific]), inflection_of(seq![Form::Passive]), Form::Honorific);
        } else if i == 36 {
            lemma_inflection_of_contains(seq![Form::Potential, Form::Past], Form::Past);
            assert(seq![Form::Potential, Form::Past][1] == Form::Past);
            lemma_inflection_of_contains(seq![Form::Passive], Form::Past);
            assert forall|q: int| 0 <= q < 1 implies seq![Form::Passive][q] != Form::Past by { if q == 0 {} }
            lemma_forms_differ(inflection_of(seq![Form::Potential, Form::Past]), inflection_of(seq![Form::Passive]), Form::Past);
        } else if i == 37 {
            lemma_inflection_of_contains(seq![Form::Potential, Form::Past, Form::Honorific], Form::Honorific);
            assert(seq![Form::Potential, Form::Past, Form::Honorific][2] == Form::Honorific);
            lemma_inflection_of_contains(seq![Form::Passive], Form::Honorific);
            assert forall|q: int| 0 <= q < 1 implies seq![Form::Passive][q] != Form::Honorific by { if q == 0 {} }
            lemma_forms_differ(inflection_of(seq![Form::Potential, Form::Past, Form::Honorific]), inflection_of(seq![Form::Passive]), Form::Honorific);
        } else if i == 38 {
            lemma_inflection_of_contains(seq![Form::Potential, Form::Past, Form::Negative], Form::Negative);
            assert(seq![Form::Potential, Form::Past, Form::Negative][2] == Form::Negative);
            lemma_inflection_of_contains(seq![Form::Passive], Form::Negative);
            assert forall|q: int| 0 <= q < 1 implies seq![Form::Passive][q] != Form::Negative by { if q == 0 {} }
            lemma_forms_differ(inflection_of(seq![Form::Potential, Form::Past, Form::Negative]), inflection_of(seq![Form::Passive]), Form::Negative);
        } else if i == 39 {
            lemma_inflection_of_contains(seq![Form::Potential, Form::Past, Form::Negative, Form::Honorific], Form::Honorific);
            assert(seq![Form::Potential, Form::Past, Form::Negative, Form::Honorific][3] == Form::Honorific);
            lemma_inflection_of_contains(seq![Form::Passive], Form::Honorific);
            assert forall|q: int| 0 <= q < 1 implies seq![Form::Passive][q] != Form::Honorific by { if q == 0 {} }
            lemma_forms_differ(inflection_of(seq![Form::Potential, Form::Past, Form::Negative, Form::Honorific]), inflection_of(seq![Form::Passive]), Form::Honorific);
        } else if i == 40 {
            lemma_inflection_of_contains(seq![Form::Volitional], Form::Volitional);
            assert(seq![Form::Volitional][0] == Form::Volitional);
            lemma_inflection_of_contains(seq![Form::Passive], Form::Volitional);
            assert forall|q: int| 0 <= q < 1 implies seq![Form::Passive][q] != Form::Volitional by { if q == 0 {} }
            lemma_forms_differ(inflection_of(seq![Form::Volitional]), inflection_of(seq![Form::Passive]), Form::Volitional);
        } else if i == 41 {
            lemma_inflection_of_contains(seq![Form::Volitional, Form::Honorific], Form::Honorific);
            assert(seq![Form::Volitional, Form::Honorific][1] == Form::Honorific);
            lemma_inflection_of_contains(seq![Form::Passive], Form::Honorific);
            assert forall|q: int| 0 <= q < 1 implies seq![Form::Passive][q] != Form::Honorific by { if q == 0 {} }
            lemma_forms_differ(inflection_of(seq![Form::Volitional, Form::Honorific]), inflection_of(seq![Form::Passive]), Form::Honorific);
        } else if i == 42 {
            lemma_inflection_of_contains(seq![Form::Volitional, Form::Darou], Form::Darou);
            assert(seq![Form::Volitional, Form::Darou][1] == Form::Darou);
            lemma_inflection_of_contains(seq![Form::Passive], Form::Darou);
            assert forall|q: int| 0 <= q < 1 implies seq![Form::Passive][q] != Form::Darou by { if q == 0 {} }
            lemma_forms_differ(inflection_of(seq![Form::Volitional, Form::Darou]), inflection_of(seq![Form::Passive]), Form::Darou);
        } else if i == 43 {
            lemma_inflection_of_contains(seq![Form::Volitional, Form::Darou, Form::Honorific], Form::Darou);
            assert(seq![Form::Volitional, Form::Darou, Form::Honorific][1] == Form::Darou);
            lemma_inflection_of_contains(seq![Form::Passive], Form::Darou);
            assert forall|q: int| 0 <= q < 1 implies seq![Form::Passive][q] != Form::Darou by { if q == 0 {} }
            lemma_forms_differ(inflection_of(seq![Form::Volitional, Form::Darou, Form::Honorific]), inflection_of(seq![Form::Passive]), Form::Darou);
        } else if i == 44 {
            lemma_inflection_of_contains(seq![Form::Volitional, Form::Negative], Form::Negative);
            assert(seq![Form::Volitional, Form::Negative][1] == Form::Negative);
            lemma_inflection_of_contains(seq![Form::Passive], Form::Negative);
            assert forall|q: int| 0 <= q < 1 implies seq![Form::Passive][q] != Form::Negative by { if q == 0 {} }
            lemma_forms_differ(inflection_of(seq![Form::Volitional, Form::Negative]), inflection_of(seq![Form::Passive]), Form::Negative);
        } else if i == 45 {
            lemma_inflection_of_contains(seq![Form::Volitional, Form::Negative, Form::Honorific], Form::Honorific);
            assert(seq![Form::Volitional, Form::Negative, Form::Honorific][2] == Form::Honorific);
            lemma_inflection_of_contains(seq![Form::Passive], Form::Honorific);
            assert forall|q: int| 0 <= q < 1 implies seq![Form::Passive][q] != Form::Honorific by { if q == 0 {} }
            lemma_forms_differ(inflection_of(seq![Form::Volitional, Form::Negative, Form::Honorific]), inflection_of(seq![Form::Passive]), Form::Honorific);
        } else if i == 46 {
            lemma_inflection_of_contains(seq![Form::Causative], Form::Causative);
            assert(seq![Form::Causative][0] == Form::Causative);
            lemma_inflection_of_contains(seq![Form::Passive], Form::Causative);
            assert forall|q: int| 0 <= q < 1 implies seq![Form::Passive][q] != Form::Causative by { if q == 0 {} }
            lemma_forms_differ(inflection_of(seq![Form::Causative]), inflection_of(seq![Form::Passive]), Form::Causative);
        } else if i == 47 {
            lemma_inflection_of_contains(seq![Form::Simultaneous], Form::Simultaneous);
            assert(seq![Form::Simultaneous][0] == Form::Simultaneous);
            lemma_inflection_of_contains(seq![Form::Passive], Form::Simultaneous);
            assert forall|q: int| 0 <= q < 1 implies seq![Form::Passive][q] != Form::Simultaneous by { if q == 0 {} }
            lemma_forms_differ(inflection_of(seq![Form::Simultaneous]), inflection_of(seq![Form::Passive]), Form::Simultaneous);
        } else if i == 48 {
            lemma_inflection_of_contains(seq![Form::LooksLike], Form::LooksLike);
            assert(seq![Form::LooksLike][0] == Form::LooksLike);
            lemma_inflection_of_contains(seq![Form::Passive], Form::LooksLike);
            assert forall|q: int| 0 <= q < 1 implies seq![Form::Passive][q] != Form::LooksLike by { if q == 0 {} }
            lemma_forms_differ(inflection_of(seq![Form::LooksLike]), inflection_of(seq![Form::Passive]), Form::LooksLike);
        }
    }
    lemma_last_op(Map::empty(), base, 26, inflection_of(seq![Form::Passive]));
    assert forall|f: Form| derived_form(f) implies !inflection_of(seq![Form::Passive]).forms().contains(f) by {
        lemma_inflection_of_contains(seq![Form::Passive], f);
        if seq![Form::Passive].contains(f) {
            let q = choose|q: int| 0 <= q < seq![Form::Passive].len() && seq![Form::Passive][q] == f;
        }
    }
    assert forall|i: int| 0 <= i < stem_ops(s).len() implies (#[trigger] stem_ops(s)[i]).0 != inflection_of(seq![Form::Passive]) by {
        assert(marked(stem_ops(s)[i].0));
    }
    lemma_ops_absent(m0, stem_ops(s), inflection_of(seq![Form::Passive]));
    assert forall|i: int| 0 <= i < te_ops(t).len() implies (#[trigger] te_ops(t)[i]).0 != inflection_of(seq![Form::Passive]) by {
        assert(marked(te_ops(t)[i].0));
    }
    lemma_ops_absent(m1, te_ops(t), inflection_of(seq![Form::Passive]));
    assert forall|i: int| 0 <= i < chau_ops(c).len() implies (#[trigger] chau_ops(c)[i]).0 != inflection_of(seq![Form::Passive]) by {
        assert(marked(chau_ops(c)[i].0));
    }
    lemma_ops_absent(m2, chau_ops(c), inflection_of(seq![Form::Passive]));
    // Potential
    assert forall|i: int| 32 < i < base.len() implies (#[trigger] base[i]).0 != inflection_of(seq![Form::Potential]) by {
        if i == 33 {
            lemma_inflection_of_contains(seq![Form::Potential, Form::Honorific], Form::Honorific);
            assert(seq![Form::Potential, Form::Honorific][1] == Form::Honorific);
            lemma_inflection_of_contains(seq![Form::Potential], Form::Honorific);
            assert forall|q: int| 0 <= q < 1 implies seq![Form::Potential][q] != Form::Honorific by { if q == 0 {} }
            lemma_forms_differ(inflection_of(seq![Form::Potential, Form::Honorific]), inflection_of(seq![Form::Potential]), Form::Honorific);
        } else if i == 34 {
            lemma_inflection_of_contains(seq![Form::Potential, Form::Negative], Form::Negative);
            assert(seq![Form::Potential, Form::Negative][1] == Form::Negative);
            lemma_inflection_of_contains(seq![Form::Potential], Form::Negative);
            assert forall|q: int| 0 <= q < 1 implies seq![Form::Potential][q] != Form::Negative by { if q == 0 {} }
            lemma_forms_differ(inflection_of(seq![Form::Potential, Form::Negative]), inflection_of(seq![Form::Potential]), Form::Negative);
        } else if i == 35 {
            lemma_inflection_of_contains(seq![Form::Potential, Form::Negative, Form::Honorific], Form::Honorific);
            assert(seq![Form::Potential, Form::Negative, Form::Honorific][2] == Form::Honorific);
            lemma_inflection_of_contains(seq![Form::Potential], Form::Honorific);
            assert forall|q: int| 0 <= q < 1 implies seq![Form::Potential][q] != Form::Honorific by { if q == 0 {} }
            lemma_forms_differ(inflection_of(seq![Form::Potential, Form::Negative, Form::Honorific]), inflection_of(seq![Form::Potential]), Form::Honorific);
        } else if i == 36 {
            lemma_inflection_of_contains(seq![Form::Potential, Form::Past], Form::Past);
            assert(seq![Form::Potential, Form::Past][1] == Form::Past);
            lemma_inflection_of_contains(seq![Form::Potential], Form::Past);
            assert forall|q: int| 0 <= q < 1 implies seq![Form::Potential][q] != Form::Past by { if q == 0 {} }
            lemma_forms_differ(inflection_of(seq![Form::Potential, Form::Past]), inflection_of(seq![Form::Potential]), Form::Past);
        } else if i == 37 {
            lemma_inflection_of_contains(seq![Form::Potential, Form::Past, Form::Honorific], Form::Honorific);
            assert(seq![Form::Potential, Form::Past, Form::Honorific][2] == Form::Honorific);
            lemma_inflection_of_contains(seq![Form::Potential], Form::Honorific);
            assert forall|q: int| 0 <= q < 1 implies seq![Form::Potential][q] != Form::Honorific by { if q == 0 {} }
            lemma_forms_differ(inflection_of(seq![Form::Potential, Form::Past, Form::Honorific]), inflection_of(seq![Form::Potential]), Form::Honorific);
        } else if i == 38 {
            lemma_inflection_of_contains(seq![Form::Potential, Form::Past, Form::Negative], Form::Negative);
            assert(seq![Form::Potential, Form::Past, Form::Negative][2] == Form::Negative);
            lemma_inflection_of_contains(seq![Form::Potential], Form::Negative);
            assert forall|q: int| 0 <= q < 1 implies seq![Form::Potential][q] != Form::Negative by { if q == 0 {} }
            lemma_forms_differ(inflection_of(seq![Form::Potential, Form::Past, Form::Negative]), inflection_of(seq![Form::Potential]), Form::Negative);
        } else if i == 39 {
            lemma_inflection_of_contains(seq![Form::Potential, Form::Past, Form::Negative, Form::Honorific], Form::Honorific);
            assert(seq![Form::Potential, Form::Past, Form::Negative, Form::Honorific][3] == Form::Honorific);
            lemma_inflection_of_contains(seq![Form::Potential], Form::Honorific);
            assert forall|q: int| 0 <= q < 1 implies seq![Form::Potential][q] != Form::Honorific by { if q == 0 {} }
            lemma_forms_differ(inflection_of(seq![Form::Potential, Form::Past, Form::Negative, Form::Honorific]), inflection_of(seq![Form::Potential]), Form::Honorific);
        } else if i == 40 {
            lemma_inflection_of_contains(seq![Form::Volitional], Form::Volitional);
            assert(seq![Form::Volitional][0] == Form::Volitional);
            lemma_inflection_of_contains(seq![Form::Potential], Form::Volitional);
            assert forall|q: int| 0 <= q < 1 implies seq![Form::Potential][q] != Form::Volitional by { if q == 0 {} }
            lemma_forms_differ(inflection_of(seq![Form::Volitional]), inflection_of(seq![Form::Potential]), Form::Volitional);
        } else if i == 41 {
            lemma_inflection_of_contains(seq![Form::Volitional, Form::Honorific], Form::Honorific);
            assert(seq![Form::Volitional, Form::Honorific][1] == Form::Honorific);
            lemma_inflection_of_contains(seq![Form::Potential], Form::Honorific);
            assert forall|q: int| 0 <= q < 1 implies seq![Form::Potential][q] != Form::Honorific by { if q == 0 {} }
            lemma_forms_differ(inflection_of(seq![Form::Volitional, Form::Honorific]), inflection_of(seq![Form::Potential]), Form::Honorific);
        } else if i == 42 {
            lemma_inflection_of_contains(seq![Form::Volitional, Form::Darou], Form::Darou);
            assert(seq![Form::Volitional, Form::Darou][1] == Form::Darou);
            lemma_inflection_of_contains(seq![Form::Potential], Form::Darou);
            assert forall|q: int| 0 <= q < 1 implies seq![Form::Potential][q] != Form::Darou by { if q == 0 {} }
            lemma_forms_differ(inflection_of(seq![Form::Volitional, Form::Darou]), inflection_of(seq![Form::Potential]), Form::Darou);
        } else if i == 43 {
            lemma_inflection_of_contains(seq![Form::Volitional, Form::Darou, Form::Honorific], Form::Darou);
            assert(seq![Form::Volitional, Form::Darou, Form::Honorific][1] == Form::Darou);
            lemma_inflection_of_contains(seq![Form::Potential], Form::Darou);
            assert forall|q: int| 0 <= q < 1 implies seq![Form::Potential][q] != Form::Darou by { if q == 0 {} }
            lemma_forms_differ(inflection_of(seq![Form::Volitional, Form::Darou, Form::Honorific]), inflection_of(seq![Form::Potential]), Form::Darou);
        } else if i == 44 {
            lemma_inflection_of_contains(seq![Form::Volitional, Form::Negative], Form::Negative);
            assert(seq![Form::Volitional, Form::Negative][1] == Form::Negative);
            lemma_inflection_of_contains(seq![Form::Potential], Form::Negative);
            assert forall|q: int| 0 <= q < 1 implies seq![Form::Potential][q] != Form::Negative by { if q == 0 {} }
            lemma_forms_differ(inflection_of(seq![Form::Volitional, Form::Negative]), inflection_of(seq![Form::Potential]), Form::Negative);
        } else if i == 45 {
            lemma_inflection_of_contains(seq![Form::Volitional, Form::Negative, Form::Honorific], Form::Honorific);
            assert(seq![Form::Volitional, Form::Negative, Form::Honorific][2] == Form::Honorific);
            lemma_inflection_of_contains(seq![Form::Potential], Form::Honorific);
            assert forall|q: int| 0 <= q < 1 implies seq![Form::Potential][q] != Form::Honorific by { if q == 0 {} }
            lemma_forms_differ(inflection_of(seq![Form::Volitional, Form::Negative, Form::Honorific]), inflection_of(seq![Form::Potential]), Form::Honorific);
        } else if i == 46 {
            lemma_inflection_of_contains(seq![Form::Causative], Form::Causative);
            assert(seq![Form::Causative][0] == Form::Causative);
            lemma_inflection_of_contains(seq![Form::Potential], Form::Causative);
            assert forall|q: int| 0 <= q < 1 implies seq![Form::Potential][q] != Form::Causative by { if q == 0 {} }
            lemma_forms_differ(inflection_of(seq![Form::Causative]), inflection_of(seq![Form::Potential]), Form::Causative);
        } else if i == 47 {
            lemma_inflection_of_contains(seq![Form::Simultaneous], Form::Simultaneous);
            assert(seq![Form::Simultaneous][0] == Form::Simultaneous);
            lemma_inflection_of_contains(seq![Form::Potential], Form::Simultaneous);
            assert forall|q: int| 0 <= q < 1 implies seq![Form::Potential][q] != Form::Simultaneous by { if q == 0 {} }
            lemma_forms_differ(inflection_of(seq![Form::Simultaneous]), inflection_of(seq![Form::Potential]), Form::Simultaneous);
        } else if i == 48 {
            lemma_inflection_of_contains(seq![Form::LooksLike], Form::LooksLike);
            assert(seq![Form::LooksLike][0] == Form::LooksLike);
            lemma_inflection_of_contains(seq![Form::Potential], Form::LooksLike);
            assert forall|q: int| 0 <= q < 1 implies seq![Form::Potential][q] != Form::LooksLike by { if q == 0 {} }
            lemma_forms_differ(inflection_of(seq![Form::LooksLike]), inflection_of(seq![Form::Potential]), Form::LooksLike);
        }
    }
    lemma_last_op(Map::empty(), base, 32, inflection_of(seq![Form::Potential]));
    assert forall|f: Form| derived_form(f) implies !inflection_of(seq![Form::Potential]).forms().contains(f) by {
        lemma_inflection_of_contains(seq![Form::Potential], f);
        if seq![Form::Potential].contains(f) {
            let q = choose|q: int| 0 <= q < seq![Form::Potential].len() && seq![Form::Potential][q] == f;
        }
    }
    assert forall|i: int| 0 <= i < stem_ops(s).len() implies (#[trigger] stem_ops(s)[i]).0 != inflection_of(seq![Form::Potential]) by {
        assert(marked(stem_ops(s)[i].0));
    }
    lemma_ops_absent(m0, stem_ops(s), inflection_of(seq![Form::Potential]));
    assert forall|i: int| 0 <= i < te_ops(t).len() implies (#[trigger] te_ops(t)[i]).0 != inflection_of(seq![Form::Potential]) by {
        assert(marked(te_ops(t)[i].0));
    }
    lemma_ops_absent(m1, te_ops(t), inflection_of(seq![Form::Potential]));
    assert forall|i: int| 0 <= i < chau_ops(c).len() implies (#[trigger] chau_ops(c)[i]).0 != inflection_of(seq![Form::Potential]) by {
        assert(marked(chau_ops(c)[i].0));
    }
    lemma_ops_absent(m2, chau_ops(c), inflection_of(seq![Form::Potential]));
    // Volitional
    assert forall|i: int| 40 < i < base.len() implies (#[trigger] base[i]).0 != inflection_of(seq![Form::Volitional]) by {
        if i == 41 {
            lemma_inflection_of_contains(seq![Form::Volitional, Form::Honorific], Form::Honorific);
            assert(seq![Form::Volitional, Form::Honorific][1] == Form::Honorific);
            lemma_inflection_of_contains(seq![Form::Volitional], Form::Honorific);
            assert forall|q: int| 0 <= q < 1 implies seq![Form::Volitional][q] != Form::Honorific by { if q == 0 {} }
            lemma_forms_differ(inflection_of(seq![Form::Volitional, Form::Honorific]), inflection_of(seq![Form::Volitional]), Form::Honorific);
        } else if i == 42 {
            lemma_inflection_of_contains(seq![Form::Volitional, Form::Darou], Form::Darou);
            assert(seq![Form::Volitional, Form::Darou][1] == Form::Darou);
            lemma_inflection_of_contains(seq![Form::Volitional], Form::Darou);
            assert forall|q: int| 0 <= q < 1 implies seq![Form::Volitional][q] != Form::Darou by { if q == 0 {} }
            lemma_forms_differ(inflection_of(seq![Form::Volitional, Form::Darou]), inflection_of(seq![Form::Volitional]), Form::Darou);
        } else if i == 43 {
            lemma_inflection_of_contains(seq![Form::Volitional, Form::Darou, Form::Honorific], Form::Darou);
            assert(seq![Form::Volitional, Form::Darou, Form::Honorific][1] == Form::Darou);
            lemma_inflection_of_contains(seq![Form::Volitional], Form::Darou);
            assert forall|q: int| 0 <= q < 1 implies seq![Form::Volitional][q] != Form::Darou by { if q == 0 {} }
            lemma_forms_differ(inflection_of(seq![Form::Volitional, Form::Darou, Form::Honorific]), inflection_of(seq![Form::Volitional]), Form::Darou);
        } else if i == 44 {
            lemma_inflection_of_contains(seq![Form::Volitional, Form::Negative], Form::Negative);
            assert(seq![Form::Volitional, Form::Negative][1] == Form::Negative);
            lemma_inflection_of_contains(seq![Form::Volitional], Form::Negative);
            assert forall|q: int| 0 <= q < 1 implies seq![Form::Volitional][q] != Form::Negative by { if q == 0 {} }
            lemma_forms_differ(inflection_of(seq![Form::Volitional, Form::Negative]), inflection_of(seq![Form::Volitional]), Form::Negative);
        } else if i == 45 {
            lemma_inflection_of_contains(seq![Form::Volitional, Form::Negative, Form::Honorific], Form::Honorific);
            assert(seq![Form::Volitional, Form::Negative, Form::Honorific][2] == Form::Honorific);
            lemma_inflection_of_contains(seq![Form::Volitional], Form::Honorific);
            assert forall|q: int| 0 <= q < 1 implies seq![Form::Volitional][q] != Form::Honorific by { if q == 0 {} }
            lemma_forms_differ(inflection_of(seq![Form::Volitional, Form::Negative, Form::Honorific]), inflection_of(seq![Form::Volitional]), Form::Honorific);
        } else if i == 46 {
            lemma_inflection_of_contains(seq![Form::Causative], Form::Causative);
            assert(seq![Form::Causative][0] == Form::Causative);
            lemma_inflection_of_contains(seq![Form::Volitional], Form::Causative);
            assert forall|q: int| 0 <= q < 1 implies seq![Form::Volitional][q] != Form::Causative by { if q == 0 {} }
            lemma_forms_differ(inflection_of(seq![Form::Causative]), inflection_of(seq![Form::Volitional]), Form::Causative);
        } else if i == 47 {
            lemma_inflection_of_contains(seq![Form::Simultaneous], Form::Simultaneous);
            assert(seq![Form::Simultaneous][0] == Form::Simultaneous);
            lemma_inflection_of_contains(seq![Form::Volitional], Form::Simultaneous);
            assert forall|q: int| 0 <= q < 1 implies seq![Form::Volitional][q] != Form::Simultaneous by { if q == 0 {} }
            lemma_forms_differ(inflection_of(seq![Form::Simultaneous]), inflection_of(seq![Form::Volitional]), Form::Simultaneous);
        } else if i == 48 {
            lemma_inflection_of_contains(seq![Form::LooksLike], Form::LooksLike);
            assert(seq![Form::LooksLike][0] == Form::LooksLike);
            lemma_inflection_of_contains(seq![Form::Volitional], Form::LooksLike);
            assert forall|q: int| 0 <= q < 1 implies seq![Form::Volitional][q] != Form::LooksLike by { if q == 0 {} }
            lemma_forms_differ(inflection_of(seq![Form::LooksLike]), inflection_of(seq![Form::Volitional]), Form::LooksLike);
        }
    }
    lemma_last_op(Map::empty(), base, 40, inflection_of(seq![Form::Volitional]));
    assert forall|f: Form| derived_form(f) implies !inflection_of(seq![Form::Volitional]).forms().contains(f) by {
        lemma_inflection_of_contains(seq![Form::Volitional], f);
        if seq![Form::Volitional].contains(f) {
            let q = choose|q: int| 0 <= q < seq![Form::Volitional].len() && seq![Form::Volitional][q] == f;
        }
    }
    assert forall|i: int| 0 <= i < stem_ops(s).len() implies (#[trigger] stem_ops(s)[i]).0 != inflection_of(seq![Form::Volitional]) by {
        assert(marked(stem_ops(s)[i].0));
    }
    lemma_ops_absent(m0, stem_ops(s), inflection_of(seq![Form::Volitional]));
    assert forall|i: int| 0 <= i < te_ops(t).len() implies (#[trigger] te_ops(t)[i]).0 != inflection_of(seq![Form::Volitional]) by {
        assert(marked(te_ops(t)[i].0));
    }
    lemma_ops_absent(m1, te_ops(t), inflection_of(seq![Form::Volitional]));
    assert forall|i: int| 0 <= i < chau_ops(c).len() implies (#[trigger] chau_ops(c)[i]).0 != inflection_of(seq![Form::Volitional]) by {
        assert(marked(chau_ops(c)[i].0));
    }
    lemma_ops_absent(m2, chau_ops(c), inflection_of(seq![Form::Volitional]));
    // Causative
    assert forall|i: int| 46 < i < base.len() implies (#[trigger] base[i]).0 != inflection_of(seq![Form::Causative]) by {
        if i == 47 {
            lemma_inflection_of_contains(seq![Form::Simultaneous], Form::Simultaneous);
            assert(seq![Form::Simultaneous][0] == Form::Simultaneous);
            lemma_inflection_of_contains(seq![Form::Causative], Form::Simultaneous);
            assert forall|q: int| 0 <= q < 1 implies seq![Form::Causative][q] != Form::Simultaneous by { if q == 0 {} }
            lemma_forms_differ(inflection_of(seq![Form::Simultaneous]), inflection_of(seq![Form::Causative]), Form::Simultaneous);
        } else if i == 48 {
            lemma_inflection_of_contains(seq![Form::LooksLike], Form::LooksLike);
            assert(seq![Form::LooksLike][0] == Form::LooksLike);
            lemma_inflection_of_contains(seq![Form::Causative], Form::LooksLike);
            assert forall|q: int| 0 <= q < 1 implies seq![Form::Causative][q] != Form::LooksLike by { if q == 0 {} }
            lemma_forms_differ(inflection_of(seq![Form::LooksLike]), inflection_of(seq![Form::Causative]), Form::LooksLike);
        }
    }
    lemma_last_op(Map::empty(), base, 46, inflection_of(seq![Form::Causative]));
    assert forall|f: Form| derived_form(f) implies !inflection_of(seq![Form::Causative]).forms().contains(f) by {
        lemma_inflection_of_contains(seq![Form::Causative], f);
        if seq![Form::Causative].contains(f) {
            let q = choose|q: int| 0 <= q < seq![Form::Causative].len() && seq![Form::Causative][q] == f;
        }
    }
    assert forall|i: int| 0 <= i < stem_ops(s).len() implies (#[trigger] stem_ops(s)[i]).0 != inflection_of(seq![Form::Causative]) by {
        assert(marked(stem_ops(s)[i].0));
    }
    lemma_ops_absent(m0, stem_ops(s), inflection_of(seq![Form::Causative]));
    assert forall|i: int| 0 <= i < te_ops(t).len() implies (#[trigger] te_ops(t)[i]).0 != inflection_of(seq![Form::Causative]) by {
        assert(marked(te_ops(t)[i].0));
    }
    lemma_ops_absent(m1, te_ops(t), inflection_of(seq![Form::Causative]));
    assert forall|i: int| 0 <= i < chau_ops(c).len() implies (#[trigger] chau_ops(c)[i]).0 != inflection_of(seq![Form::Causative]) by {
        assert(marked(chau_ops(c)[i].0));
    }
    lemma_ops_absent(m2, chau_ops(c), inflection_of(seq![Form::Causative]));
}

} // verus!
