use jpv_lib::morae::iter;

#[test]
fn count_morae() {
    let input = "ひらがな";
    let morae: Vec<_> = iter(input).collect_all();
    assert_eq!(morae, vec!["ひ", "ら", "が", "な"]);

    let input = "とうきょう";
    let morae: Vec<_> = iter(input).collect_all();
    assert_eq!(morae, vec!["と", "う", "きょ", "う"]);

    let input = "モーラ";
    let morae: Vec<_> = iter(input).collect_all();
    assert_eq!(morae, vec!["モ", "ー", "ラ"]);
}

#[test]
fn morae_next_and_count() {
    let mut m = iter("きゃ");
    assert_eq!(m.next(), Some("きゃ"));
    assert_eq!(m.next(), None);
    let chars: Vec<char> = "とうきょう".chars().collect();
    assert_eq!(jpv_lib::morae::count_morae(&chars, 0, chars.len()), 4);
}
