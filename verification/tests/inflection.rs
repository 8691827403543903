use jpv_lib::inflection::conjugate::conjugate_pos;
use jpv_lib::inflection::form::Form;
use jpv_lib::inflection::permutations::reading_permutations;
use jpv_lib::inflection::set::inflect;
use jpv_lib::inflection::{conjugate, Inflection, Inflections, Kind, Reading};
use jpv_lib::jmdict::elements::{Entry, KanjiElement, ReadingElement, Sense};
use jpv_lib::kana::Full;
use jpv_lib::PartOfSpeech;

fn sense<'a>(pos: Vec<PartOfSpeech>) -> Sense<'a> {
    Sense {
        xref: Vec::new(),
        gloss: Vec::new(),
        info: None,
        stagk: Vec::new(),
        stagr: Vec::new(),
        source_language: Vec::new(),
        antonym: Vec::new(),
        examples: Vec::new(),
        pos,
        misc: Vec::new(),
        dialect: Vec::new(),
        field: Vec::new(),
    }
}

fn reading(text: &str) -> ReadingElement<'_> {
    ReadingElement {
        text,
        no_kanji: false,
        reading_string: Vec::new(),
        priority: Vec::new(),
        info: Vec::new(),
    }
}

fn kanji(text: &str) -> KanjiElement<'_> {
    KanjiElement {
        text,
        priority: Vec::new(),
        info: Vec::new(),
    }
}

fn word(inflections: &Inflections<'_>, forms: &[Form]) -> String {
    inflections.get(inflect(forms)).expect("inflection").display()
}

#[test]
fn conjugate_ichidan_entry() {
    let entry = Entry {
        sequence: 1,
        reading_elements: vec![reading("たべる")],
        kanji_elements: vec![kanji("食べる")],
        senses: vec![sense(vec![PartOfSpeech::VerbIchidan])],
    };
    let out = conjugate(&entry);
    assert_eq!(out.len(), 1);
    let (r, inflections, kind) = &out[0];
    assert_eq!(*r, Reading { kanji: 0, reading: 0 });
    assert_eq!(*kind, Kind::Verb);
    assert_eq!(inflections.dictionary.text, "食べる");
    assert_eq!(inflections.dictionary.reading, "たべる");
    assert_eq!(word(inflections, &[Form::Past]), "食べた [たべた]");
    assert_eq!(word(inflections, &[Form::Negative, Form::Honorific]), "食べません [たべません]");
    assert_eq!(word(inflections, &[Form::TeIru, Form::Te]), "食べている [たべている]");
    assert_eq!(word(inflections, &[Form::Tai]), "食べたい [たべたい]");
    assert_eq!(word(inflections, &[Form::Chau]), "食べっちゃう [たべっちゃう]");
    assert!(inflections.has_polite());
}

#[test]
fn conjugate_godan_ku() {
    let (inflections, kind) = conjugate_pos("書く", "かく", PartOfSpeech::VerbGodanK).unwrap();
    assert_eq!(kind, Kind::Verb);
    assert_eq!(word(&inflections, &[Form::Past]), "書いた [かいた]");
    assert_eq!(word(&inflections, &[Form::Negative]), "書かない [かかない]");
    assert_eq!(word(&inflections, &[Form::Te]), "書いて [かいて]");
    assert_eq!(word(&inflections, &[Form::Chau]), "書いちゃう [かいちゃう]");
}

#[test]
fn conjugate_godan_u_special() {
    let (inflections, _) = conjugate_pos("問う", "とう", PartOfSpeech::VerbGodanUS).unwrap();
    assert_eq!(word(&inflections, &[Form::Past]), "問うた [とうた]");
    assert_eq!(word(&inflections, &[Form::Negative]), "問わない [とわない]");
}

#[test]
fn conjugate_suru_and_kuru() {
    let (inflections, _) =
        conjugate_pos("勉強する", "べんきょうする", PartOfSpeech::VerbSuruIncluded).unwrap();
    assert_eq!(word(&inflections, &[Form::Past]), "勉強した [べんきょうした]");
    let (inflections, _) = conjugate_pos("為る", "する", PartOfSpeech::VerbSuruIncluded).unwrap();
    assert_eq!(word(&inflections, &[Form::Past]), "為た [した]");
    let (inflections, _) = conjugate_pos("来る", "くる", PartOfSpeech::VerbKuru).unwrap();
    assert_eq!(word(&inflections, &[Form::Negative]), "来ない [こない]");
    assert_eq!(word(&inflections, &[Form::Past]), "来た [きた]");
}

#[test]
fn conjugate_adjectives() {
    let (inflections, kind) = conjugate_pos("高い", "たかい", PartOfSpeech::AdjectiveI).unwrap();
    assert_eq!(kind, Kind::Adjective);
    assert_eq!(word(&inflections, &[Form::Past]), "高かった [たかかった]");
    assert!(!inflections.contains(inflect(&[Form::Stem])));
    let (inflections, _) = conjugate_pos("良い", "よい", PartOfSpeech::AdjectiveIx).unwrap();
    assert_eq!(word(&inflections, &[Form::Past]), "良かった [よかった]");
    let (inflections, _) = conjugate_pos("静か", "しずか", PartOfSpeech::AdjectiveNa).unwrap();
    assert_eq!(word(&inflections, &[Form::Past]), "静かだった [しずかだった]");
}

#[test]
fn conjugate_rejects_wrong_endings() {
    assert!(conjugate_pos("食べ", "たべ", PartOfSpeech::VerbIchidan).is_none());
    assert!(conjugate_pos("本", "ほん", PartOfSpeech::Noun).is_none());
    assert!(conjugate_pos("する", "", PartOfSpeech::VerbSuruIncluded).is_none());
}

#[test]
fn permutations_of_entry() {
    let mut no_kanji = reading("かく");
    no_kanji.no_kanji = true;
    let entry = Entry {
        sequence: 2,
        reading_elements: vec![reading("かく"), no_kanji],
        kanji_elements: vec![kanji("書く"), kanji("描く")],
        senses: vec![sense(vec![PartOfSpeech::VerbGodanK, PartOfSpeech::VerbGodanK])],
    };
    let perms = reading_permutations(&entry);
    assert_eq!(perms.len(), 3);
    assert_eq!(perms[0].0, Some((0, "書く")));
    assert_eq!(perms[1].0, Some((1, "描く")));
    assert_eq!(perms[2].0, None);
    assert_eq!(perms[2].1, (1, "かく"));
    assert_eq!(perms[0].2.iter(), vec![PartOfSpeech::VerbGodanK]);
    assert_eq!(conjugate(&entry).len(), 3);
}

#[test]
fn inflection_sets() {
    let mut a = inflect(&[Form::Past, Form::Negative]);
    assert!(a.contains(Form::Past));
    assert!(!a.contains(Form::Honorific));
    assert_eq!(a.iter(), vec![Form::Negative, Form::Past]);
    a.toggle(Form::Honorific);
    assert!(a.contains(Form::Honorific));
    a.toggle(Form::Honorific);
    assert_eq!(a, inflect(&[Form::Negative, Form::Past]));
    let b = inflect(&[Form::Past, Form::Te]);
    assert_eq!(a.bitor(b), inflect(&[Form::Negative, Form::Past, Form::Te]));
    assert_eq!(a.bitxor(b), inflect(&[Form::Negative, Form::Te]));
    let mut c = a;
    c.bitand_assign(b);
    assert_eq!(c, inflect(&[Form::Past]));
    assert!(Inflection::default().is_empty());
    assert!(!a.is_empty());
    assert_eq!(Inflection::all().iter().len(), 31);
    assert_eq!(Form::Te.describe(), "～て");
    assert_eq!(Form::Stem.url(), None);
}

#[test]
fn inflections_insert_replaces() {
    let mut inflections = Inflections::new(Full::new("食べる", "たべる", ""));
    let w = jpv_lib::kana::Fragments::new(&["食べ"], &["たべ"], &["た"]);
    inflections.insert(&[Form::Past], &[], w);
    let w2 = jpv_lib::kana::Fragments::new(&["食べ"], &["たべ"], &["たり"]);
    inflections.insert(&[], &[Form::Past], w2);
    assert_eq!(inflections.iter().len(), 1);
    assert_eq!(word(&inflections, &[Form::Past]), "食べたり [たべたり]");
    let owned = inflections.to_owned();
    assert!(owned.contains(inflect(&[Form::Past])));
    assert_eq!(owned.get(inflect(&[Form::Past])).unwrap().suffix, "たり");
    let back = owned.borrow();
    assert_eq!(word(&back, &[Form::Past]), "食べたり [たべたり]");
}
