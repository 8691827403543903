use jpv_lib::Concat;

#[test]
fn concat_iterates_its_strings() {
    let mut c: Concat<'_, 4> = Concat::empty();
    c.push("食べ");
    c.push("");
    c.push("る");
    assert_eq!(c.as_slice(), &["食べ", "る"]);
    let mut it = c.into_iter();
    assert_eq!(it.next(), Some("食べ"));
    assert_eq!(it.next(), Some("る"));
    assert_eq!(it.next(), None);
    assert_eq!(it.next(), None);
}
