//! The conjugation tables: each row appends a prefix and a suffix to a
//! stem to make the inflection of its forms.

use vstd::prelude::*;

use super::form::Form;
use super::set::{inflection_of, Inflection};

verus! {

/// A row of a conjugation table: what is appended to the stem, and the
/// forms of the inflection it makes. Tables of suffixes alone have empty
/// prefixes.
#[derive(Clone, Copy, Debug)]
pub struct Row {
    pub prefix: &'static str,
    pub suffix: &'static str,
    pub forms: Inflection,
}

/// The row appending `prefix` and `suffix` for the given forms.
pub open spec fn row(prefix: &'static str, suffix: &'static str, forms: Seq<Form>) -> Row {
    Row { prefix, suffix, forms: inflection_of(forms) }
}

fn mk0(prefix: &'static str, suffix: &'static str) -> (r: Row)
    ensures
        r == row(prefix, suffix, seq![]),
{
    let forms: [Form; 0] = [];
    assert(forms@ =~= seq![]);
    Row { prefix, suffix, forms: Inflection::new(&forms) }
}

fn mk1(prefix: &'static str, suffix: &'static str, a: Form) -> (r: Row)
    ensures
        r == row(prefix, suffix, seq![a]),
{
    let forms = [a];
    assert(forms@ =~= seq![a]);
    Row { prefix, suffix, forms: Inflection::new(&forms) }
}

fn mk2(prefix: &'static str, suffix: &'static str, a: Form, b: Form) -> (r: Row)
    ensures
        r == row(prefix, suffix, seq![a, b]),
{
    let forms = [a, b];
    assert(forms@ =~= seq![a, b]);
    Row { prefix, suffix, forms: Inflection::new(&forms) }
}

fn mk3(prefix: &'static str, suffix: &'static str, a: Form, b: Form, c: Form) -> (r: Row)
    ensures
        r == row(prefix, suffix, seq![a, b, c]),
{
    let forms = [a, b, c];
    assert(forms@ =~= seq![a, b, c]);
    Row { prefix, suffix, forms: Inflection::new(&forms) }
}

fn mk4(prefix: &'static str, suffix: &'static str, a: Form, b: Form, c: Form, d: Form) -> (r: Row)
    ensures
        r == row(prefix, suffix, seq![a, b, c, d]),
{
    let forms = [a, b, c, d];
    assert(forms@ =~= seq![a, b, c, d]);
    Row { prefix, suffix, forms: Inflection::new(&forms) }
}

/// The endings of a class of godan verbs.
#[derive(Clone, Copy, Debug)]
pub struct Godan {
    pub a: &'static str,
    pub i: &'static str,
    pub u: &'static str,
    pub e: &'static str,
    pub o: &'static str,
    pub te: &'static str,
    pub te_stem: &'static str,
    pub past: &'static str,
    pub tara: &'static str,
    pub kya: Option<&'static str>,
    pub nake_kya: Option<&'static str>,
}

/// The classes of godan verbs.
#[derive(Clone, Copy, Debug, PartialEq, Eq, Structural)]
pub enum GodanClass {
    /// The U godan table.
    U,
    /// The U godan table of the special class (問う).
    Us,
    /// The TSU godan table.
    Tsu,
    /// The RU godan table.
    Ru,
    /// The KU godan table.
    Ku,
    /// The GU godan table.
    Gu,
    /// The MU godan table.
    Mu,
    /// The BU godan table.
    Bu,
    /// The NU godan table.
    Nu,
    /// The SU godan table.
    Su,
    /// The IKU/YUKU godan table.
    Iku,
}

/// The endings of a class of godan verbs.
pub open spec fn godan_table(class: GodanClass) -> Godan {
    match class {
        GodanClass::U => Godan { a: "わ", i: "い", u: "う", e: "え", o: "お", te: "って", te_stem: "っ", past: "った", tara: "ったら", kya: Some("やぁ"), nake_kya: Some("なけやぁ") },
        GodanClass::Us => Godan { a: "わ", i: "い", u: "う", e: "え", o: "お", te: "うて", te_stem: "う", past: "うた", tara: "うたら", kya: Some("やぁ"), nake_kya: Some("なけやぁ") },
        GodanClass::Tsu => Godan { a: "た", i: "ち", u: "つ", e: "て", o: "と", te: "って", te_stem: "っ", past: "った", tara: "ったら", kya: None, nake_kya: None },
        GodanClass::Ru => Godan { a: "ら", i: "り", u: "る", e: "れ", o: "ろ", te: "って", te_stem: "っ", past: "った", tara: "ったら", kya: Some("りゃ"), nake_kya: Some("なけりゃ") },
        GodanClass::Ku => Godan { a: "か", i: "き", u: "く", e: "け", o: "こ", te: "いて", te_stem: "い", past: "いた", tara: "いたら", kya: Some("きゃ"), nake_kya: Some("なけきゃ") },
        GodanClass::Gu => Godan { a: "が", i: "ぎ", u: "ぐ", e: "げ", o: "ご", te: "いで", te_stem: "い", past: "いだ", tara: "いだら", kya: None, nake_kya: None },
        GodanClass::Mu => Godan { a: "ま", i: "み", u: "む", e: "め", o: "も", te: "んで", te_stem: "ん", past: "んだ", tara: "んだら", kya: None, nake_kya: None },
        GodanClass::Bu => Godan { a: "ば", i: "び", u: "ぶ", e: "べ", o: "ぼ", te: "んで", te_stem: "ん", past: "んだ", tara: "んだら", kya: None, nake_kya: None },
        GodanClass::Nu => Godan { a: "な", i: "に", u: "ぬ", e: "ね", o: "の", te: "んで", te_stem: "ん", past: "んだ", tara: "んだら", kya: None, nake_kya: None },
        GodanClass::Su => Godan { a: "さ", i: "し", u: "す", e: "せ", o: "そ", te: "して", te_stem: "し", past: "した", tara: "したら", kya: None, nake_kya: None },
        GodanClass::Iku => Godan { a: "か", i: "き", u: "く", e: "け", o: "こ", te: "って", te_stem: "っ", past: "った", tara: "ったら", kya: Some("きゃ"), nake_kya: Some("なけきゃ") },
    }
}

/// The te form, past and conditional endings of each class of godan verbs
/// agree: the te form is a sound (い, っ, ん, し or う) followed by て, or
/// by で after ん and the い of ぐ, the past ends the same sound with た or
/// だ alike, and the conditional adds ら to the past (書いて, 書いた,
/// 書いたら; 読んで, 読んだ, 読んだら).
pub proof fn lemma_godan_te_past(class: GodanClass)
    ensures
        ({
            let g = godan_table(class);
            &&& g.te_stem@.len() == 1
            &&& g.te@ == g.te_stem@.push(g.te@.last())
            &&& g.te@.last() == 'て' || g.te@.last() == 'で'
            &&& g.past@ == g.te_stem@.push(if g.te@.last() == 'て' { 'た' } else { 'だ' })
            &&& g.tara@ == g.past@.push('ら')
        }),
{
    match class {
        GodanClass::U => {
            reveal_strlit("っ");
            reveal_strlit("った");
            reveal_strlit("ったら");
            reveal_strlit("って");
            assert("って"@ =~= "っ"@.push('て'));
            assert("った"@ =~= "っ"@.push('た'));
            assert("ったら"@ =~= "った"@.push('ら'));
        },
        GodanClass::Us => {
            reveal_strlit("う");
            reveal_strlit("うた");
            reveal_strlit("うたら");
            reveal_strlit("うて");
            assert("うて"@ =~= "う"@.push('て'));
            assert("うた"@ =~= "う"@.push('た'));
            assert("うたら"@ =~= "うた"@.push('ら'));
        },
        GodanClass::Tsu => {
            reveal_strlit("っ");
            reveal_strlit("った");
            reveal_strlit("ったら");
            reveal_strlit("って");
            assert("って"@ =~= "っ"@.push('て'));
            assert("った"@ =~= "っ"@.push('た'));
            assert("ったら"@ =~= "った"@.push('ら'));
        },
        GodanClass::Ru => {
            reveal_strlit("っ");
            reveal_strlit("った");
            reveal_strlit("ったら");
            reveal_strlit("って");
            assert("って"@ =~= "っ"@.push('て'));
            assert("った"@ =~= "っ"@.push('た'));
            assert("ったら"@ =~= "った"@.push('ら'));
        },
        GodanClass::Ku => {
            reveal_strlit("い");
            reveal_strlit("いた");
            reveal_strlit("いたら");
            reveal_strlit("いて");
            assert("いて"@ =~= "い"@.push('て'));
            assert("いた"@ =~= "い"@.push('た'));
            assert("いたら"@ =~= "いた"@.push('ら'));
        },
        GodanClass::Gu => {
            reveal_strlit("い");
            reveal_strlit("いだ");
            reveal_strlit("いだら");
            reveal_strlit("いで");
            assert("いで"@ =~= "い"@.push('で'));
            assert("いだ"@ =~= "い"@.push('だ'));
            assert("いだら"@ =~= "いだ"@.push('ら'));
        },
        GodanClass::Mu => {
            reveal_strlit("ん");
            reveal_strlit("んだ");
            reveal_strlit("んだら");
            reveal_strlit("んで");
            assert("んで"@ =~= "ん"@.push('で'));
            assert("んだ"@ =~= "ん"@.push('だ'));
            assert("んだら"@ =~= "んだ"@.push('ら'));
        },
        GodanClass::Bu => {
            reveal_strlit("ん");
            reveal_strlit("んだ");
            reveal_strlit("んだら");
            reveal_strlit("んで");
            assert("んで"@ =~= "ん"@.push('で'));
            assert("んだ"@ =~= "ん"@.push('だ'));
            assert("んだら"@ =~= "んだ"@.push('ら'));
        },
        GodanClass::Nu => {
            reveal_strlit("ん");
            reveal_strlit("んだ");
            reveal_strlit("んだら");
            reveal_strlit("んで");
            assert("んで"@ =~= "ん"@.push('で'));
            assert("んだ"@ =~= "ん"@.push('だ'));
            assert("んだら"@ =~= "んだ"@.push('ら'));
        },
        GodanClass::Su => {
            reveal_strlit("し");
            reveal_strlit("した");
            reveal_strlit("したら");
            reveal_strlit("して");
            assert("して"@ =~= "し"@.push('て'));
            assert("した"@ =~= "し"@.push('た'));
            assert("したら"@ =~= "した"@.push('ら'));
        },
        GodanClass::Iku => {
            reveal_strlit("っ");
            reveal_strlit("った");
            reveal_strlit("ったら");
            reveal_strlit("って");
            assert("って"@ =~= "っ"@.push('て'));
            assert("った"@ =~= "っ"@.push('た'));
            assert("ったら"@ =~= "った"@.push('ら'));
        },
    }
}

impl GodanClass {
    /// The endings of the class.
    pub fn table(self) -> (r: Godan)
        ensures
            r == godan_table(self),
    {
        match self {
            GodanClass::U => Godan { a: "わ", i: "い", u: "う", e: "え", o: "お", te: "って", te_stem: "っ", past: "った", tara: "ったら", kya: Some("やぁ"), nake_kya: Some("なけやぁ") },
            GodanClass::Us => Godan { a: "わ", i: "い", u: "う", e: "え", o: "お", te: "うて", te_stem: "う", past: "うた", tara: "うたら", kya: Some("やぁ"), nake_kya: Some("なけやぁ") },
            GodanClass::Tsu => Godan { a: "た", i: "ち", u: "つ", e: "て", o: "と", te: "って", te_stem: "っ", past: "った", tara: "ったら", kya: None, nake_kya: None },
            GodanClass::Ru => Godan { a: "ら", i: "り", u: "る", e: "れ", o: "ろ", te: "って", te_stem: "っ", past: "った", tara: "ったら", kya: Some("りゃ"), nake_kya: Some("なけりゃ") },
            GodanClass::Ku => Godan { a: "か", i: "き", u: "く", e: "け", o: "こ", te: "いて", te_stem: "い", past: "いた", tara: "いたら", kya: Some("きゃ"), nake_kya: Some("なけきゃ") },
            GodanClass::Gu => Godan { a: "が", i: "ぎ", u: "ぐ", e: "げ", o: "ご", te: "いで", te_stem: "い", past: "いだ", tara: "いだら", kya: None, nake_kya: None },
            GodanClass::Mu => Godan { a: "ま", i: "み", u: "む", e: "め", o: "も", te: "んで", te_stem: "ん", past: "んだ", tara: "んだら", kya: None, nake_kya: None },
            GodanClass::Bu => Godan { a: "ば", i: "び", u: "ぶ", e: "べ", o: "ぼ", te: "んで", te_stem: "ん", past: "んだ", tara: "んだら", kya: None, nake_kya: None },
            GodanClass::Nu => Godan { a: "な", i: "に", u: "ぬ", e: "ね", o: "の", te: "んで", te_stem: "ん", past: "んだ", tara: "んだら", kya: None, nake_kya: None },
            GodanClass::Su => Godan { a: "さ", i: "し", u: "す", e: "せ", o: "そ", te: "して", te_stem: "し", past: "した", tara: "したら", kya: None, nake_kya: None },
            GodanClass::Iku => Godan { a: "か", i: "き", u: "く", e: "け", o: "こ", te: "って", te_stem: "っ", past: "った", tara: "ったら", kya: Some("きゃ"), nake_kya: Some("なけきゃ") },
        }
    }
}

/// Ichidan conjugations.
pub open spec fn spec_ichidan() -> Seq<Row> {
    seq![
        row("", "る", seq![]),
        row("", "ます", seq![Form::Honorific]),
        row("", "ない", seq![Form::Negative]),
        row("", "ません", seq![Form::Negative, Form::Honorific]),
        row("", "た", seq![Form::Past]),
        row("", "ました", seq![Form::Past, Form::Honorific]),
        row("", "なかった", seq![Form::Past, Form::Negative]),
        row("", "ませんでした", seq![Form::Past, Form::Negative, Form::Honorific]),
        row("", "ろ", seq![Form::Command]),
        row("", "なさい", seq![Form::Command, Form::Honorific]),
        row("", "てください", seq![Form::Command, Form::Honorific, Form::CommandTeKudasai]),
        row("", "よ", seq![Form::Command, Form::CommandYo]),
        row("", "るな", seq![Form::Command, Form::Negative]),
        row("", "ないでください", seq![Form::Command, Form::Negative, Form::Honorific]),
        row("", "りゃ", seq![Form::Hypothetical, Form::Conversation]),
        row("", "なけりゃ", seq![Form::Hypothetical, Form::Conversation, Form::Negative]),
        row("", "ば", seq![Form::Hypothetical]),
        row("", "なければ", seq![Form::Hypothetical, Form::Negative]),
        row("", "なきゃ", seq![Form::Hypothetical, Form::Negative, Form::Kya]),
        row("", "たら", seq![Form::Conditional]),
        row("", "ましたら", seq![Form::Conditional, Form::Honorific]),
        row("", "なかったら", seq![Form::Conditional, Form::Negative]),
        row("", "ませんでしたら", seq![Form::Conditional, Form::Negative, Form::Honorific]),
        row("", "れる", seq![Form::Passive, Form::Conversation]),
        row("", "られる", seq![Form::Passive]),
        row("", "られます", seq![Form::Passive, Form::Honorific]),
        row("", "られない", seq![Form::Passive, Form::Negative]),
        row("", "られません", seq![Form::Passive, Form::Negative, Form::Honorific]),
        row("", "られた", seq![Form::Passive, Form::Past]),
        row("", "られました", seq![Form::Passive, Form::Past, Form::Honorific]),
        row("", "られる", seq![Form::Potential]),
        row("", "られます", seq![Form::Potential, Form::Honorific]),
        row("", "られない", seq![Form::Potential, Form::Negative]),
        row("", "られません", seq![Form::Potential, Form::Negative, Form::Honorific]),
        row("", "られた", seq![Form::Potential, Form::Past]),
        row("", "られました", seq![Form::Potential, Form::Past, Form::Honorific]),
        row("", "られなかった", seq![Form::Potential, Form::Past, Form::Negative]),
        row("", "られませんでした", seq![Form::Potential, Form::Past, Form::Negative, Form::Honorific]),
        row("", "よう", seq![Form::Volitional]),
        row("", "ましょう", seq![Form::Volitional, Form::Honorific]),
        row("", "るだろう", seq![Form::Volitional, Form::Darou]),
        row("", "るでしょう", seq![Form::Volitional, Form::Darou, Form::Honorific]),
        row("", "ないだろう", seq![Form::Volitional, Form::Negative]),
        row("", "ないでしょう", seq![Form::Volitional, Form::Negative, Form::Honorific]),
        row("", "させる", seq![Form::Causative]),
        row("", "ながら", seq![Form::Simultaneous]),
        row("", "そう", seq![Form::LooksLike]),
    ]
}

/// Ichidan conjugations.
#[verifier::rlimit(100)]
#[verifier::spinoff_prover]
pub fn ichidan() -> (v: Vec<Row>)
    ensures
        v@ == spec_ichidan(),
{
    let mut v: Vec<Row> = Vec::new();
    v.push(mk0("", "る"));
    v.push(mk1("", "ます", Form::Honorific));
    v.push(mk1("", "ない", Form::Negative));
    v.push(mk2("", "ません", Form::Negative, Form::Honorific));
    v.push(mk1("", "た", Form::Past));
    v.push(mk2("", "ました", Form::Past, Form::Honorific));
    v.push(mk2("", "なかった", Form::Past, Form::Negative));
    v.push(mk3("", "ませんでした", Form::Past, Form::Negative, Form::Honorific));
    v.push(mk1("", "ろ", Form::Command));
    v.push(mk2("", "なさい", Form::Command, Form::Honorific));
    v.push(mk3("", "てください", Form::Command, Form::Honorific, Form::CommandTeKudasai));
    v.push(mk2("", "よ", Form::Command, Form::CommandYo));
    v.push(mk2("", "るな", Form::Command, Form::Negative));
    v.push(mk3("", "ないでください", Form::Command, Form::Negative, Form::Honorific));
    v.push(mk2("", "りゃ", Form::Hypothetical, Form::Conversation));
    v.push(mk3("", "なけりゃ", Form::Hypothetical, Form::Conversation, Form::Negative));
    v.push(mk1("", "ば", Form::Hypothetical));
    v.push(mk2("", "なければ", Form::Hypothetical, Form::Negative));
    v.push(mk3("", "なきゃ", Form::Hypothetical, Form::Negative, Form::Kya));
    v.push(mk1("", "たら", Form::Conditional));
    v.push(mk2("", "ましたら", Form::Conditional, Form::Honorific));
    v.push(mk2("", "なかったら", Form::Conditional, Form::Negative));
    v.push(mk3("", "ませんでしたら", Form::Conditional, Form::Negative, Form::Honorific));
    v.push(mk2("", "れる", Form::Passive, Form::Conversation));
    v.push(mk1("", "られる", Form::Passive));
    v.push(mk2("", "られます", Form::Passive, Form::Honorific));
    v.push(mk2("", "られない", Form::Passive, Form::Negative));
    v.push(mk3("", "られません", Form::Passive, Form::Negative, Form::Honorific));
    v.push(mk2("", "られた", Form::Passive, Form::Past));
    v.push(mk3("", "られました", Form::Passive, Form::Past, Form::Honorific));
    v.push(mk1("", "られる", Form::Potential));
    v.push(mk2("", "られます", Form::Potential, Form::Honorific));
    v.push(mk2("", "られない", Form::Potential, Form::Negative));
    v.push(mk3("", "られません", Form::Potential, Form::Negative, Form::Honorific));
    v.push(mk2("", "られた", Form::Potential, Form::Past));
    v.push(mk3("", "られました", Form::Potential, Form::Past, Form::Honorific));
    v.push(mk3("", "られなかった", Form::Potential, Form::Past, Form::Negative));
    v.push(mk4("", "られませんでした", Form::Potential, Form::Past, Form::Negative, Form::Honorific));
    v.push(mk1("", "よう", Form::Volitional));
    v.push(mk2("", "ましょう", Form::Volitional, Form::Honorific));
    v.push(mk2("", "るだろう", Form::Volitional, Form::Darou));
    v.push(mk3("", "るでしょう", Form::Volitional, Form::Darou, Form::Honorific));
    v.push(mk2("", "ないだろう", Form::Volitional, Form::Negative));
    v.push(mk3("", "ないでしょう", Form::Volitional, Form::Negative, Form::Honorific));
    v.push(mk1("", "させる", Form::Causative));
    v.push(mk1("", "ながら", Form::Simultaneous));
    v.push(mk1("", "そう", Form::LooksLike));
    assert(v@ =~= spec_ichidan());
    v
}

/// Ichidan conjugations with the stem and the te form.
pub open spec fn spec_ichidan_te() -> Seq<Row> {
    seq![
        row("", "", seq![Form::Stem]),
        row("", "て", seq![Form::Te]),
    ] + spec_ichidan()
}

/// Ichidan conjugations with the stem and the te form.
pub fn ichidan_te() -> (v: Vec<Row>)
    ensures
        v@ == spec_ichidan_te(),
{
    let mut v: Vec<Row> = Vec::new();
    v.push(mk1("", "", Form::Stem));
    v.push(mk1("", "て", Form::Te));
    let mut w = ichidan();
    v.append(&mut w);
    assert(v@ =~= spec_ichidan_te());
    v
}

/// Godan conjugations.
pub open spec fn spec_godan(g: Godan) -> Seq<Row> {
    seq![
        row("", g.u, seq![]),
        row("", g.past, seq![Form::Past]),
        row("", g.tara, seq![Form::Conditional]),
        row("", g.e, seq![Form::Command]),
        row(g.i, "ます", seq![Form::Honorific]),
        row(g.a, "ない", seq![Form::Negative]),
        row(g.i, "ません", seq![Form::Negative, Form::Honorific]),
        row(g.i, "ました", seq![Form::Past, Form::Honorific]),
        row(g.a, "なかった", seq![Form::Past, Form::Negative]),
        row(g.i, "ませんでした", seq![Form::Past, Form::Negative, Form::Honorific]),
        row(g.i, "なさい", seq![Form::Command, Form::Honorific]),
        row(g.te, "ください", seq![Form::Command, Form::Honorific, Form::CommandTeKudasai]),
        row(g.e, "よ", seq![Form::Command, Form::CommandYo]),
        row(g.u, "な", seq![Form::Command, Form::Negative]),
        row(g.a, "ないでください", seq![Form::Command, Form::Negative, Form::Honorific]),
    ]
    + match g.kya {
        Some(s) => seq![row("", s, seq![Form::Hypothetical, Form::Conversation])],
        None => Seq::empty(),
    }
    + match g.nake_kya {
        Some(s) => seq![row("", s, seq![Form::Hypothetical, Form::Negative, Form::Conversation])],
        None => Seq::empty(),
    }
    + seq![
        row(g.e, "ば", seq![Form::Hypothetical]),
        row(g.a, "なければ", seq![Form::Hypothetical, Form::Negative]),
        row(g.a, "なきゃ", seq![Form::Hypothetical, Form::Negative, Form::Kya]),
        row(g.i, "ましたら", seq![Form::Conditional, Form::Honorific]),
        row(g.a, "なかったら", seq![Form::Conditional, Form::Negative]),
        row(g.i, "ませんでしたら", seq![Form::Conditional, Form::Negative, Form::Honorific]),
        row(g.a, "れる", seq![Form::Passive]),
        row(g.a, "れます", seq![Form::Passive, Form::Honorific]),
        row(g.a, "れない", seq![Form::Passive, Form::Negative]),
        row(g.a, "れません", seq![Form::Passive, Form::Negative, Form::Honorific]),
        row(g.a, "れた", seq![Form::Passive, Form::Past]),
        row(g.a, "れました", seq![Form::Passive, Form::Past, Form::Honorific]),
        row(g.e, "る", seq![Form::Potential]),
        row(g.e, "ます", seq![Form::Potential, Form::Honorific]),
        row(g.e, "ない", seq![Form::Potential, Form::Negative]),
        row(g.e, "ません", seq![Form::Potential, Form::Negative, Form::Honorific]),
        row(g.e, "た", seq![Form::Potential, Form::Past]),
        row(g.e, "ました", seq![Form::Potential, Form::Past, Form::Honorific]),
        row(g.e, "なかった", seq![Form::Potential, Form::Past, Form::Negative]),
        row(g.e, "ませんでした", seq![Form::Potential, Form::Past, Form::Negative, Form::Honorific]),
        row(g.o, "う", seq![Form::Volitional]),
        row(g.i, "ましょう", seq![Form::Volitional, Form::Honorific]),
        row(g.u, "だろう", seq![Form::Volitional, Form::Darou]),
        row(g.u, "でしょう", seq![Form::Volitional, Form::Darou, Form::Honorific]),
        row(g.a, "ないだろう", seq![Form::Volitional, Form::Negative]),
        row(g.a, "ないでしょう", seq![Form::Volitional, Form::Negative, Form::Honorific]),
        row(g.a, "せる", seq![Form::Causative]),
        row(g.i, "ながら", seq![Form::Simultaneous]),
        row(g.i, "そう", seq![Form::LooksLike]),
    ]
}

/// Godan conjugations.
#[verifier::rlimit(100)]
#[verifier::spinoff_prover]
pub fn godan(g: &Godan) -> (v: Vec<Row>)
    ensures
        v@ == spec_godan(*g),
{
    let mut v: Vec<Row> = Vec::new();
    v.push(mk0("", g.u));
    v.push(mk1("", g.past, Form::Past));
    v.push(mk1("", g.tara, Form::Conditional));
    v.push(mk1("", g.e, Form::Command));
    v.push(mk1(g.i, "ます", Form::Honorific));
    v.push(mk1(g.a, "ない", Form::Negative));
    v.push(mk2(g.i, "ません", Form::Negative, Form::Honorific));
    v.push(mk2(g.i, "ました", Form::Past, Form::Honorific));
    v.push(mk2(g.a, "なかった", Form::Past, Form::Negative));
    v.push(mk3(g.i, "ませんでした", Form::Past, Form::Negative, Form::Honorific));
    v.push(mk2(g.i, "なさい", Form::Command, Form::Honorific));
    v.push(mk3(g.te, "ください", Form::Command, Form::Honorific, Form::CommandTeKudasai));
    v.push(mk2(g.e, "よ", Form::Command, Form::CommandYo));
    v.push(mk2(g.u, "な", Form::Command, Form::Negative));
    v.push(mk3(g.a, "ないでください", Form::Command, Form::Negative, Form::Honorific));
    if let Some(s) = g.kya {
        v.push(mk2("", s, Form::Hypothetical, Form::Conversation));
    }
    if let Some(s) = g.nake_kya {
        v.push(mk3("", s, Form::Hypothetical, Form::Negative, Form::Conversation));
    }
    v.push(mk1(g.e, "ば", Form::Hypothetical));
    v.push(mk2(g.a, "なければ", Form::Hypothetical, Form::Negative));
    v.push(mk3(g.a, "なきゃ", Form::Hypothetical, Form::Negative, Form::Kya));
    v.push(mk2(g.i, "ましたら", Form::Conditional, Form::Honorific));
    v.push(mk2(g.a, "なかったら", Form::Conditional, Form::Negative));
    v.push(mk3(g.i, "ませんでしたら", Form::Conditional, Form::Negative, Form::Honorific));
    v.push(mk1(g.a, "れる", Form::Passive));
    v.push(mk2(g.a, "れます", Form::Passive, Form::Honorific));
    v.push(mk2(g.a, "れない", Form::Passive, Form::Negative));
    v.push(mk3(g.a, "れません", Form::Passive, Form::Negative, Form::Honorific));
    v.push(mk2(g.a, "れた", Form::Passive, Form::Past));
    v.push(mk3(g.a, "れました", Form::Passive, Form::Past, Form::Honorific));
    v.push(mk1(g.e, "る", Form::Potential));
    v.push(mk2(g.e, "ます", Form::Potential, Form::Honorific));
    v.push(mk2(g.e, "ない", Form::Potential, Form::Negative));
    v.push(mk3(g.e, "ません", Form::Potential, Form::Negative, Form::Honorific));
    v.push(mk2(g.e, "た", Form::Potential, Form::Past));
    v.push(mk3(g.e, "ました", Form::Potential, Form::Past, Form::Honorific));
    v.push(mk3(g.e, "なかった", Form::Potential, Form::Past, Form::Negative));
    v.push(mk4(g.e, "ませんでした", Form::Potential, Form::Past, Form::Negative, Form::Honorific));
    v.push(mk1(g.o, "う", Form::Volitional));
    v.push(mk2(g.i, "ましょう", Form::Volitional, Form::Honorific));
    v.push(mk2(g.u, "だろう", Form::Volitional, Form::Darou));
    v.push(mk3(g.u, "でしょう", Form::Volitional, Form::Darou, Form::Honorific));
    v.push(mk2(g.a, "ないだろう", Form::Volitional, Form::Negative));
    v.push(mk3(g.a, "ないでしょう", Form::Volitional, Form::Negative, Form::Honorific));
    v.push(mk1(g.a, "せる", Form::Causative));
    v.push(mk1(g.i, "ながら", Form::Simultaneous));
    v.push(mk1(g.i, "そう", Form::LooksLike));
    assert(v@ =~= spec_godan(*g));
    v
}

/// Godan conjugations with the stem and the te form.
pub open spec fn spec_godan_base(g: Godan) -> Seq<Row> {
    seq![
        row("", g.i, seq![Form::Stem]),
        row("", g.te, seq![Form::Te]),
    ] + spec_godan(g)
}

/// Godan conjugations with the stem and the te form.
pub fn godan_base(g: &Godan) -> (v: Vec<Row>)
    ensures
        v@ == spec_godan_base(*g),
{
    let mut v: Vec<Row> = Vec::new();
    v.push(mk1("", g.i, Form::Stem));
    v.push(mk1("", g.te, Form::Te));
    let mut w = godan(g);
    v.append(&mut w);
    assert(v@ =~= spec_godan_base(*g));
    v
}

/// Kuru conjugations.
pub open spec fn spec_kuru() -> Seq<Row> {
    seq![
        row("く", "る", seq![]),
        row("き", "ます", seq![Form::Honorific]),
        row("こ", "ない", seq![Form::Negative]),
        row("き", "ません", seq![Form::Negative, Form::Honorific]),
        row("き", "た", seq![Form::Past]),
        row("き", "ました", seq![Form::Past, Form::Honorific]),
        row("こ", "なかった", seq![Form::Past, Form::Negative]),
        row("き", "ませんでした", seq![Form::Past, Form::Negative, Form::Honorific]),
        row("こ", "い", seq![Form::Command]),
        row("き", "なさい", seq![Form::Command, Form::Honorific]),
        row("き", "てください", seq![Form::Command, Form::Honorific, Form::CommandTeKudasai]),
        row("く", "るな", seq![Form::Command, Form::Negative]),
        row("こ", "ないでください", seq![Form::Command, Form::Negative, Form::Honorific]),
        row("く", "りゃ", seq![Form::Hypothetical, Form::Conversation]),
        row("こ", "なけりゃ", seq![Form::Hypothetical, Form::Conversation, Form::Negative]),
        row("く", "れば", seq![Form::Hypothetical]),
        row("こ", "なければ", seq![Form::Hypothetical, Form::Negative]),
        row("こ", "なきゃ", seq![Form::Hypothetical, Form::Negative, Form::Kya]),
        row("き", "たら", seq![Form::Conditional]),
        row("き", "ましたら", seq![Form::Conditional, Form::Honorific]),
        row("こ", "なかったら", seq![Form::Conditional, Form::Negative]),
        row("き", "ませんでしたら", seq![Form::Conditional, Form::Negative, Form::Honorific]),
        row("こ", "られる", seq![Form::Passive]),
        row("こ", "られます", seq![Form::Passive, Form::Honorific]),
        row("こ", "られない", seq![Form::Passive, Form::Negative]),
        row("こ", "られません", seq![Form::Passive, Form::Negative, Form::Honorific]),
        row("こ", "られた", seq![Form::Passive, Form::Past]),
        row("こ", "られました", seq![Form::Passive, Form::Past, Form::Honorific]),
        row("こ", "られる", seq![Form::Potential]),
        row("こ", "よう", seq![Form::Volitional]),
        row("き", "ましょう", seq![Form::Volitional, Form::Honorific]),
        row("く", "るだろう", seq![Form::Volitional, Form::Darou]),
        row("く", "るでしょう", seq![Form::Volitional, Form::Darou, Form::Honorific]),
        row("こ", "ないだろう", seq![Form::Volitional, Form::Negative]),
        row("こ", "ないでしょう", seq![Form::Volitional, Form::Negative, Form::Honorific]),
        row("こ", "させる", seq![Form::Causative]),
        row("こ", "させます", seq![Form::Causative, Form::Honorific]),
        row("こ", "させない", seq![Form::Causative, Form::Negative]),
        row("こ", "させません", seq![Form::Causative, Form::Negative, Form::Honorific]),
        row("き", "ながら", seq![Form::Simultaneous]),
        row("き", "そう", seq![Form::LooksLike]),
    ]
}

/// Kuru conjugations.
#[verifier::rlimit(100)]
#[verifier::spinoff_prover]
pub fn kuru() -> (v: Vec<Row>)
    ensures
        v@ == spec_kuru(),
{
    let mut v: Vec<Row> = Vec::new();
    v.push(mk0("く", "る"));
    v.push(mk1("き", "ます", Form::Honorific));
    v.push(mk1("こ", "ない", Form::Negative));
    v.push(mk2("き", "ません", Form::Negative, Form::Honorific));
    v.push(mk1("き", "た", Form::Past));
    v.push(mk2("き", "ました", Form::Past, Form::Honorific));
    v.push(mk2("こ", "なかった", Form::Past, Form::Negative));
    v.push(mk3("き", "ませんでした", Form::Past, Form::Negative, Form::Honorific));
    v.push(mk1("こ", "い", Form::Command));
    v.push(mk2("き", "なさい", Form::Command, Form::Honorific));
    v.push(mk3("き", "てください", Form::Command, Form::Honorific, Form::CommandTeKudasai));
    v.push(mk2("く", "るな", Form::Command, Form::Negative));
    v.push(mk3("こ", "ないでください", Form::Command, Form::Negative, Form::Honorific));
    v.push(mk2("く", "りゃ", Form::Hypothetical, Form::Conversation));
    v.push(mk3("こ", "なけりゃ", Form::Hypothetical, Form::Conversation, Form::Negative));
    v.push(mk1("く", "れば", Form::Hypothetical));
    v.push(mk2("こ", "なければ", Form::Hypothetical, Form::Negative));
    v.push(mk3("こ", "なきゃ", Form::Hypothetical, Form::Negative, Form::Kya));
    v.push(mk1("き", "たら", Form::Conditional));
    v.push(mk2("き", "ましたら", Form::Conditional, Form::Honorific));
    v.push(mk2("こ", "なかったら", Form::Conditional, Form::Negative));
    v.push(mk3("き", "ませんでしたら", Form::Conditional, Form::Negative, Form::Honorific));
    v.push(mk1("こ", "られる", Form::Passive));
    v.push(mk2("こ", "られます", Form::Passive, Form::Honorific));
    v.push(mk2("こ", "られない", Form::Passive, Form::Negative));
    v.push(mk3("こ", "られません", Form::Passive, Form::Negative, Form::Honorific));
    v.push(mk2("こ", "られた", Form::Passive, Form::Past));
    v.push(mk3("こ", "られました", Form::Passive, Form::Past, Form::Honorific));
    v.push(mk1("こ", "られる", Form::Potential));
    v.push(mk1("こ", "よう", Form::Volitional));
    v.push(mk2("き", "ましょう", Form::Volitional, Form::Honorific));
    v.push(mk2("く", "るだろう", Form::Volitional, Form::Darou));
    v.push(mk3("く", "るでしょう", Form::Volitional, Form::Darou, Form::Honorific));
    v.push(mk2("こ", "ないだろう", Form::Volitional, Form::Negative));
    v.push(mk3("こ", "ないでしょう", Form::Volitional, Form::Negative, Form::Honorific));
    v.push(mk1("こ", "させる", Form::Causative));
    v.push(mk2("こ", "させます", Form::Causative, Form::Honorific));
    v.push(mk2("こ", "させない", Form::Causative, Form::Negative));
    v.push(mk3("こ", "させません", Form::Causative, Form::Negative, Form::Honorific));
    v.push(mk1("き", "ながら", Form::Simultaneous));
    v.push(mk1("き", "そう", Form::LooksLike));
    assert(v@ =~= spec_kuru());
    v
}

/// Kuru conjugations with the stem and the te form.
pub open spec fn spec_kuru_base() -> Seq<Row> {
    seq![
        row("き", "", seq![Form::Stem]),
        row("き", "て", seq![Form::Te]),
    ] + spec_kuru()
}

/// Kuru conjugations with the stem and the te form.
pub fn kuru_base() -> (v: Vec<Row>)
    ensures
        v@ == spec_kuru_base(),
{
    let mut v: Vec<Row> = Vec::new();
    v.push(mk1("き", "", Form::Stem));
    v.push(mk1("き", "て", Form::Te));
    let mut w = kuru();
    v.append(&mut w);
    assert(v@ =~= spec_kuru_base());
    v
}

/// Suru conjugations.
pub open spec fn spec_suru() -> Seq<Row> {
    seq![
        row("す", "る", seq![]),
        row("し", "ます", seq![Form::Honorific]),
        row("し", "ない", seq![Form::Negative]),
        row("し", "ません", seq![Form::Negative, Form::Honorific]),
        row("し", "た", seq![Form::Past]),
        row("し", "ました", seq![Form::Past, Form::Honorific]),
        row("し", "なかった", seq![Form::Past, Form::Negative]),
        row("し", "ませんでした", seq![Form::Past, Form::Negative, Form::Honorific]),
        row("し", "ろ", seq![Form::Command]),
        row("し", "なさい", seq![Form::Command, Form::Honorific]),
        row("し", "てください", seq![Form::Command, Form::Honorific, Form::CommandTeKudasai]),
        row("し", "よ", seq![Form::Command, Form::CommandYo]),
        row("す", "るな", seq![Form::Command, Form::Negative]),
        row("し", "ないでください", seq![Form::Command, Form::Negative, Form::Honorific]),
        row("す", "りゃ", seq![Form::Hypothetical, Form::Conversation]),
        row("し", "なけりゃ", seq![Form::Hypothetical, Form::Conversation, Form::Negative]),
        row("す", "れば", seq![Form::Hypothetical]),
        row("し", "なければ", seq![Form::Hypothetical, Form::Negative]),
        row("し", "なきゃ", seq![Form::Hypothetical, Form::Negative, Form::Kya]),
        row("し", "たら", seq![Form::Conditional]),
        row("し", "ましたら", seq![Form::Conditional, Form::Honorific]),
        row("し", "なかったら", seq![Form::Conditional, Form::Negative]),
        row("し", "ませんでしたら", seq![Form::Conditional, Form::Negative, Form::Honorific]),
        row("さ", "れる", seq![Form::Passive]),
        row("さ", "れます", seq![Form::Passive, Form::Honorific]),
        row("さ", "れない", seq![Form::Passive, Form::Negative]),
        row("さ", "れません", seq![Form::Passive, Form::Negative, Form::Honorific]),
        row("さ", "れた", seq![Form::Passive, Form::Past]),
        row("さ", "れました", seq![Form::Passive, Form::Past, Form::Honorific]),
        row("で", "きる", seq![Form::Potential]),
        row("で", "きます", seq![Form::Potential, Form::Honorific]),
        row("で", "きない", seq![Form::Potential, Form::Negative]),
        row("で", "きません", seq![Form::Potential, Form::Negative, Form::Honorific]),
        row("で", "きた", seq![Form::Potential, Form::Past]),
        row("で", "きました", seq![Form::Potential, Form::Past, Form::Honorific]),
        row("で", "きなかった", seq![Form::Potential, Form::Past, Form::Negative]),
        row("で", "きませんでした", seq![Form::Potential, Form::Past, Form::Negative, Form::Honorific]),
        row("し", "よう", seq![Form::Volitional]),
        row("し", "ましょう", seq![Form::Volitional, Form::Honorific]),
        row("す", "るだろう", seq![Form::Volitional, Form::Darou]),
        row("す", "るでしょう", seq![Form::Volitional, Form::Darou, Form::Honorific]),
        row("し", "ないだろう", seq![Form::Volitional, Form::Negative]),
        row("し", "ないでしょう", seq![Form::Volitional, Form::Negative, Form::Honorific]),
        row("し", "たろう", seq![Form::Volitional, Form::Past]),
        row("し", "ましたろう", seq![Form::Volitional, Form::Past, Form::Honorific]),
        row("し", "ただろう", seq![Form::Volitional, Form::Past, Form::Darou]),
        row("し", "なかっただろう", seq![Form::Volitional, Form::Past, Form::Negative]),
        row("し", "なかったでしょう", seq![Form::Volitional, Form::Past, Form::Negative, Form::Honorific]),
        row("さ", "せる", seq![Form::Causative]),
        row("し", "ながら", seq![Form::Simultaneous]),
        row("し", "そう", seq![Form::LooksLike]),
    ]
}

/// Suru conjugations.
#[verifier::rlimit(100)]
#[verifier::spinoff_prover]
pub fn suru() -> (v: Vec<Row>)
    ensures
        v@ == spec_suru(),
{
    let mut v: Vec<Row> = Vec::new();
    v.push(mk0("す", "る"));
    v.push(mk1("し", "ます", Form::Honorific));
    v.push(mk1("し", "ない", Form::Negative));
    v.push(mk2("し", "ません", Form::Negative, Form::Honorific));
    v.push(mk1("し", "た", Form::Past));
    v.push(mk2("し", "ました", Form::Past, Form::Honorific));
    v.push(mk2("し", "なかった", Form::Past, Form::Negative));
    v.push(mk3("し", "ませんでした", Form::Past, Form::Negative, Form::Honorific));
    v.push(mk1("し", "ろ", Form::Command));
    v.push(mk2("し", "なさい", Form::Command, Form::Honorific));
    v.push(mk3("し", "てください", Form::Command, Form::Honorific, Form::CommandTeKudasai));
    v.push(mk2("し", "よ", Form::Command, Form::CommandYo));
    v.push(mk2("す", "るな", Form::Command, Form::Negative));
    v.push(mk3("し", "ないでください", Form::Command, Form::Negative, Form::Honorific));
    v.push(mk2("す", "りゃ", Form::Hypothetical, Form::Conversation));
    v.push(mk3("し", "なけりゃ", Form::Hypothetical, Form::Conversation, Form::Negative));
    v.push(mk1("す", "れば", Form::Hypothetical));
    v.push(mk2("し", "なければ", Form::Hypothetical, Form::Negative));
    v.push(mk3("し", "なきゃ", Form::Hypothetical, Form::Negative, Form::Kya));
    v.push(mk1("し", "たら", Form::Conditional));
    v.push(mk2("し", "ましたら", Form::Conditional, Form::Honorific));
    v.push(mk2("し", "なかったら", Form::Conditional, Form::Negative));
    v.push(mk3("し", "ませんでしたら", Form::Conditional, Form::Negative, Form::Honorific));
    v.push(mk1("さ", "れる", Form::Passive));
    v.push(mk2("さ", "れます", Form::Passive, Form::Honorific));
    v.push(mk2("さ", "れない", Form::Passive, Form::Negative));
    v.push(mk3("さ", "れません", Form::Passive, Form::Negative, Form::Honorific));
    v.push(mk2("さ", "れた", Form::Passive, Form::Past));
    v.push(mk3("さ", "れました", Form::Passive, Form::Past, Form::Honorific));
    v.push(mk1("で", "きる", Form::Potential));
    v.push(mk2("で", "きます", Form::Potential, Form::Honorific));
    v.push(mk2("で", "きない", Form::Potential, Form::Negative));
    v.push(mk3("で", "きません", Form::Potential, Form::Negative, Form::Honorific));
    v.push(mk2("で", "きた", Form::Potential, Form::Past));
    v.push(mk3("で", "きました", Form::Potential, Form::Past, Form::Honorific));
    v.push(mk3("で", "きなかった", Form::Potential, Form::Past, Form::Negative));
    v.push(mk4("で", "きませんでした", Form::Potential, Form::Past, Form::Negative, Form::Honorific));
    v.push(mk1("し", "よう", Form::Volitional));
    v.push(mk2("し", "ましょう", Form::Volitional, Form::Honorific));
    v.push(mk2("す", "るだろう", Form::Volitional, Form::Darou));
    v.push(mk3("す", "るでしょう", Form::Volitional, Form::Darou, Form::Honorific));
    v.push(mk2("し", "ないだろう", Form::Volitional, Form::Negative));
    v.push(mk3("し", "ないでしょう", Form::Volitional, Form::Negative, Form::Honorific));
    v.push(mk2("し", "たろう", Form::Volitional, Form::Past));
    v.push(mk3("し", "ましたろう", Form::Volitional, Form::Past, Form::Honorific));
    v.push(mk3("し", "ただろう", Form::Volitional, Form::Past, Form::Darou));
    v.push(mk3("し", "なかっただろう", Form::Volitional, Form::Past, Form::Negative));
    v.push(mk4("し", "なかったでしょう", Form::Volitional, Form::Past, Form::Negative, Form::Honorific));
    v.push(mk1("さ", "せる", Form::Causative));
    v.push(mk1("し", "ながら", Form::Simultaneous));
    v.push(mk1("し", "そう", Form::LooksLike));
    assert(v@ =~= spec_suru());
    v
}

/// Suru conjugations with the stem and the te form.
pub open spec fn spec_suru_base() -> Seq<Row> {
    seq![
        row("し", "", seq![Form::Stem]),
        row("し", "て", seq![Form::Te]),
    ] + spec_suru()
}

/// Suru conjugations with the stem and the te form.
pub fn suru_base() -> (v: Vec<Row>)
    ensures
        v@ == spec_suru_base(),
{
    let mut v: Vec<Row> = Vec::new();
    v.push(mk1("し", "", Form::Stem));
    v.push(mk1("し", "て", Form::Te));
    let mut w = suru();
    v.append(&mut w);
    assert(v@ =~= spec_suru_base());
    v
}

/// I-adjective conjugations.
pub open spec fn spec_adjective_i() -> Seq<Row> {
    seq![
        row("", "い", seq![]),
        row("", "いです", seq![Form::Honorific]),
        row("", "かった", seq![Form::Past]),
        row("", "かったです", seq![Form::Past, Form::Honorific]),
        row("", "くない", seq![Form::Negative]),
        row("", "くないです", seq![Form::Negative, Form::Honorific]),
        row("", "なかった", seq![Form::Past, Form::Negative]),
        row("", "なかったです", seq![Form::Past, Form::Negative, Form::Honorific]),
        row("", "いよう", seq![Form::Volitional]),
    ]
}

/// I-adjective conjugations.
pub fn adjective_i() -> (v: Vec<Row>)
    ensures
        v@ == spec_adjective_i(),
{
    let mut v: Vec<Row> = Vec::new();
    v.push(mk0("", "い"));
    v.push(mk1("", "いです", Form::Honorific));
    v.push(mk1("", "かった", Form::Past));
    v.push(mk2("", "かったです", Form::Past, Form::Honorific));
    v.push(mk1("", "くない", Form::Negative));
    v.push(mk2("", "くないです", Form::Negative, Form::Honorific));
    v.push(mk2("", "なかった", Form::Past, Form::Negative));
    v.push(mk3("", "なかったです", Form::Past, Form::Negative, Form::Honorific));
    v.push(mk1("", "いよう", Form::Volitional));
    assert(v@ =~= spec_adjective_i());
    v
}

/// Conjugations of the ii/yoi class of i-adjectives.
pub open spec fn spec_adjective_ii() -> Seq<Row> {
    seq![
        row("い", "い", seq![]),
        row("い", "いです", seq![Form::Honorific]),
        row("よ", "かった", seq![Form::Past]),
        row("よ", "かったです", seq![Form::Past, Form::Honorific]),
        row("よ", "くない", seq![Form::Negative]),
        row("よ", "くないです", seq![Form::Negative, Form::Honorific]),
        row("よ", "なかった", seq![Form::Past, Form::Negative]),
        row("よ", "なかったです", seq![Form::Past, Form::Negative, Form::Honorific]),
        row("い", "いよう", seq![Form::Volitional]),
    ]
}

/// Conjugations of the ii/yoi class of i-adjectives.
pub fn adjective_ii() -> (v: Vec<Row>)
    ensures
        v@ == spec_adjective_ii(),
{
    let mut v: Vec<Row> = Vec::new();
    v.push(mk0("い", "い"));
    v.push(mk1("い", "いです", Form::Honorific));
    v.push(mk1("よ", "かった", Form::Past));
    v.push(mk2("よ", "かったです", Form::Past, Form::Honorific));
    v.push(mk1("よ", "くない", Form::Negative));
    v.push(mk2("よ", "くないです", Form::Negative, Form::Honorific));
    v.push(mk2("よ", "なかった", Form::Past, Form::Negative));
    v.push(mk3("よ", "なかったです", Form::Past, Form::Negative, Form::Honorific));
    v.push(mk1("い", "いよう", Form::Volitional));
    assert(v@ =~= spec_adjective_ii());
    v
}

/// Na-adjective conjugations.
pub open spec fn spec_adjective_na() -> Seq<Row> {
    seq![
        row("", "だ", seq![]),
        row("", "です", seq![Form::Honorific]),
        row("", "だった", seq![Form::Past]),
        row("", "でした", seq![Form::Past, Form::Honorific]),
        row("", "ではない", seq![Form::Negative]),
        row("", "ではありません", seq![Form::Negative, Form::Honorific]),
        row("", "ではなかった", seq![Form::Past, Form::Negative]),
        row("", "ではありませんでした", seq![Form::Past, Form::Negative, Form::Honorific]),
    ]
}

/// Na-adjective conjugations.
pub fn adjective_na() -> (v: Vec<Row>)
    ensures
        v@ == spec_adjective_na(),
{
    let mut v: Vec<Row> = Vec::new();
    v.push(mk0("", "だ"));
    v.push(mk1("", "です", Form::Honorific));
    v.push(mk1("", "だった", Form::Past));
    v.push(mk2("", "でした", Form::Past, Form::Honorific));
    v.push(mk1("", "ではない", Form::Negative));
    v.push(mk2("", "ではありません", Form::Negative, Form::Honorific));
    v.push(mk2("", "ではなかった", Form::Past, Form::Negative));
    v.push(mk3("", "ではありませんでした", Form::Past, Form::Negative, Form::Honorific));
    assert(v@ =~= spec_adjective_na());
    v
}

} // verus!
