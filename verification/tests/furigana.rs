use jpv_lib::furigana::{furigana, groups, Furigana, FuriganaGroup, Pair};

use FuriganaGroup::Kana as Kn;
use FuriganaGroup::Kanji as K;

fn check(kanji: &str, kana: &str, expected: &[FuriganaGroup<'_>], suffix: &str) {
    assert_eq!(furigana(kanji, kana, suffix), expected.to_vec());
}

#[test]
fn furigana_many() {
    check("お金", "おかね", &[Kn("お"), K("金", "かね")], "");

    check(
        "使い放題",
        "つかいほうだい",
        &[K("使", "つか"), Kn("い"), K("放題", "ほうだい")],
        "",
    );

    check(
        "私はお金がない星",
        "わたしはおかねがないほし",
        &[
            K("私", "わたし"),
            Kn("はお"),
            K("金", "かね"),
            Kn("がない"),
            K("星", "ほし"),
        ],
        "",
    );

    check(
        "お金がない星",
        "おかねがないほし",
        &[Kn("お"), K("金", "かね"), Kn("がない"), K("星", "ほし")],
        "",
    );

    check(
        "私はお金がない",
        "わたしはおかねがない",
        &[K("私", "わたし"), Kn("はお"), K("金", "かね"), Kn("がない")],
        "",
    );

    check("十八禁", "じゅうはちきん", &[K("十八禁", "じゅうはちきん")], "");
    check("18禁", "じゅうはちきん", &[K("18禁", "じゅうはちきん")], "");
    check("見失", "みうしな", &[K("見失", "みうしな"), Kn("う")], "う");
    check("見失う", "みうしなう", &[K("見失", "みうしな"), Kn("う")], "");

    check("愛する", "あいする", &[K("愛", "あい"), Kn("する")], "");
    check("愛", "あい", &[K("愛", "あい"), Kn("する")], "する");

    check(
        "兄たり難く弟たり難し",
        "けいたりがたくていたりがたし",
        &[
            K("兄", "けい"),
            Kn("たり"),
            K("難", "がた"),
            Kn("く"),
            K("弟", "てい"),
            Kn("たり"),
            K("難", "がた"),
            Kn("し"),
        ],
        "",
    );

    check(
        "月とすっぽん",
        "つきとすっぽん",
        &[K("月", "つき"), Kn("とすっぽん")],
        "",
    );

    check(
        "月の物",
        "つきのもの",
        &[K("月", "つき"), Kn("の"), K("物", "もの")],
        "",
    );
}

#[test]
fn furigana_unmatched() {
    // Reading does not match.
    check(
        "月とすっぽん",
        "つきてすっぽん",
        &[K("月とすっぽん", "つきてすっぽん")],
        "",
    );
}

#[test]
fn furigana_isolated() {
    check(
        "月の物",
        "つきのもの",
        &[K("月", "つき"), Kn("の"), K("物", "もの")],
        "",
    );
}

#[test]
fn kana_groups() {
    assert_eq!(groups("お金がない星"), vec![6..15, 0..3]);
    assert_eq!(
        groups("兄たり難く弟たり難し"),
        vec![27..30, 18..24, 12..15, 3..9]
    );
}

#[test]
fn pair() {
    fn case(a: (&str, &str), b: (&str, &str)) {
        assert_eq!(Pair::new(a.0, a.1), Pair::new(b.0, b.1));
        assert_eq!(Pair::new(b.0, b.1), Pair::new(a.0, a.1));
    }

    case(("ab", ""), ("", "ab"));
    case(("a", "bc"), ("ab", "c"));
    case(("ab", "cd"), ("ab", "cd"));
}

#[test]
fn pair_unequal() {
    assert_ne!(Pair::new("ab", "c"), Pair::new("ab", "d"));
    assert_ne!(Pair::new("a", ""), Pair::new("a", "a"));
}

#[test]
fn furigana_reconstructs_concrete() {
    let groups = furigana("私はお金がない星", "わたしはおかねがないほし", "");
    let mut kanji = String::new();
    let mut reading = String::new();
    for g in &groups {
        match g {
            FuriganaGroup::Kanji(k, r) => {
                kanji.push_str(k);
                reading.push_str(r);
            }
            FuriganaGroup::Kana(k) => {
                kanji.push_str(k);
                reading.push_str(k);
            }
        }
    }
    assert_eq!(kanji, "私はお金がない星");
    assert_eq!(reading, "わたしはおかねがないほし");
}

#[test]
fn furigana_accessors() {
    let f = Furigana::new("見失", "みうしな", "う");
    assert_eq!(f.kanji(), Pair::new("見失う", ""));
    assert_eq!(f.reading(), Pair::new("みうしなう", ""));
    assert_eq!(f.iter(), vec![K("見失", "みうしな"), Kn("う")]);
}

#[test]
fn furigana_display_forms() {
    let f = jpv_lib::furigana::Furigana::new("食べる", "たべる", "");
    assert_eq!(f.display(), "食[た]べる");
    assert_eq!(f.display_plain(true), "食[た]べる");
    assert_eq!(f.display_plain(false), "食べる (たべる)");
    let f = jpv_lib::furigana::Furigana::new("かな", "かな", "です");
    assert_eq!(f.display_plain(false), "かなです");
    assert_eq!(f.kanji().display(), "かなです");
}
