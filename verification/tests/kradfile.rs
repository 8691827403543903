use jpv_lib::kradfile::{parse_line, Parser};

fn euc_jp(text: &str) -> Vec<u8> {
    let (bytes, _, errors) = encoding_rs::EUC_JP.encode(text);
    assert!(!errors);
    bytes.into_owned()
}

#[test]
fn parse_lines_of_text() {
    let entry = parse_line("亜 : ｜ 一 口").unwrap();
    assert_eq!(entry.kanji, "亜");
    assert_eq!(entry.radicals, vec!["｜", "一", "口"]);
    let entry = parse_line("唖 :  口   一 ").unwrap();
    assert_eq!(entry.radicals, vec!["口", "一"]);
    assert!(parse_line("no separator here").is_none());
    assert!(parse_line("").is_none());
    let entry = parse_line("x : ").unwrap();
    assert!(entry.radicals.is_empty());
}

#[test]
fn parse_file_skips_comments_and_bad_lines() {
    let mut input = euc_jp("# comment line\n\n  亜 : ｜ 一 口\nbroken line\n唖 : 口 一\n");
    input.push(b'\n');
    let mut parser = Parser::new(&input);
    let a = parser.parse().unwrap();
    assert_eq!(a.kanji, "亜");
    assert_eq!(a.radicals, vec!["｜", "一", "口"]);
    let b = parser.parse().unwrap();
    assert_eq!(b.kanji, "唖");
    assert_eq!(b.radicals, vec!["口", "一"]);
    assert!(parser.parse().is_none());
}

#[test]
fn parse_skips_malformed_bytes() {
    let mut input = vec![0x8e, 0x0a];
    input.extend(euc_jp("亜 : 一\n"));
    let mut parser = Parser::new(&input);
    assert_eq!(parser.parse().unwrap().kanji, "亜");
    assert!(parser.parse().is_none());
}

#[test]
fn peek_and_advance() {
    let input = b"ab";
    let mut parser = Parser::new(input);
    assert_eq!(parser.peek(), b'a');
    parser.advance();
    assert_eq!(parser.peek(), b'b');
    parser.advance();
    assert_eq!(parser.peek(), 0);
    parser.advance();
    assert_eq!(parser.peek(), 0);
}
