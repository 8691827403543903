use jpv_lib::api::MissingOcr;
use jpv_lib::config::{Config, IndexFormat};
use jpv_lib::database::readings::convert_string;
use jpv_lib::database::text::{full_to_half_char, full_to_half_string, is_common, to_lowercase};
use jpv_lib::kana::{is_hiragana, is_kanji, is_katakana};
use jpv_lib::priority::PriorityKind;
use jpv_lib::romaji::{analyze, Transform};
use jpv_lib::Priority;

#[test]
fn priority_parse_and_display() {
    let p = Priority::parse("nf12").unwrap();
    assert_eq!(p.level(), 12);
    assert_eq!(p.kind(), PriorityKind::WordFrequency);
    assert_eq!(p.display(), "nf12");
    let p = Priority::parse("ichi1").unwrap();
    assert_eq!(p.kind(), PriorityKind::Ichi);
    assert_eq!(p.display(), "ichi1");
    assert!(Priority::parse("nothing").is_none());
    assert!(Priority::parse("nf999").is_none());
}

#[test]
fn romaji_segments_and_readings() {
    let segments = analyze("とうきょう").collect_all();
    let texts: Vec<&str> = segments.iter().map(|s| s.as_str()).collect();
    assert_eq!(texts, vec!["と", "う", "きょ", "う"]);
    assert_eq!(convert_string("きょう", &Transform::Romaji), "kyou");
    assert_eq!(convert_string("きょう", &Transform::Katakana), "キョウ");
    assert_eq!(convert_string("kyou", &Transform::Hiragana), "きょう");
}

#[test]
fn full_width_to_half_width() {
    assert_eq!(full_to_half_char('Ａ'), Some('A'));
    assert_eq!(full_to_half_char('a'), None);
    assert_eq!(full_to_half_string("ＡＢｃ1"), Some(String::from("ABc1")));
    assert_eq!(full_to_half_string("abc"), None);
    assert_eq!(to_lowercase("HeLLo"), "hello");
    assert!(is_common("to"));
    assert!(!is_common("dictionary"));
}

#[test]
fn kana_classes() {
    assert!(is_hiragana('あ'));
    assert!(!is_hiragana('ア'));
    assert!(is_katakana('ア'));
    assert!(is_kanji('漢'));
    assert!(!is_kanji('あ'));
    // Anything that is not kana counts as kanji.
    assert!(is_kanji('a'));
}

#[test]
fn config_defaults_and_toggle() {
    assert!(IndexFormat::parse("jmdict").is_ok());
    assert!(IndexFormat::parse("unknown").is_err());
    assert_eq!(IndexFormat::all().len(), 4);
    let mut config = Config::new_default();
    assert!(config.ocr);
    assert!(config.is_enabled("jmdict"));
    config.toggle("jmdict");
    assert!(!config.is_enabled("jmdict"));
    config.toggle("jmdict");
    assert!(config.is_enabled("jmdict"));
    assert!(!config.is_enabled("nothing"));
}

#[test]
fn missing_ocr_on_unix_has_no_install_url() {
    assert!(MissingOcr::for_platform().install_url.is_none());
    assert!(MissingOcr::for_windows().install_url.is_some());
}

#[test]
fn index_format_from_str() {
    assert_eq!("kanjidic2".parse::<IndexFormat>().ok(), Some(IndexFormat::Kanjidic2));
    assert_eq!("kradfile".parse::<IndexFormat>().ok(), Some(IndexFormat::Kradfile));
    assert!("Jmdict".parse::<IndexFormat>().is_err());
}

#[test]
fn location_descriptions() {
    let l = jpv_lib::database::index::Location::Memory(0x1f);
    assert_eq!(l.describe(), "<memory at 0000001f>");
    let l = jpv_lib::database::index::Location::Memory(0x123456789);
    assert_eq!(l.describe(), "<memory at 123456789>");
    let l = jpv_lib::database::index::Location::Path("a/b".to_string());
    assert_eq!(l.describe(), "a/b");
}

#[test]
fn romaji_segments_are_short() {
    let input = "xtsukyoushatto";
    let segments = analyze(input).collect_all();
    let texts: Vec<&str> = segments.iter().map(|s| s.as_str()).collect();
    assert_eq!(texts.concat(), input);
    assert!(texts.contains(&"xtsu"));
    for t in &texts {
        assert!(!t.is_empty());
        assert!(t.chars().count() <= 4);
    }
}
