use caniuse::text::same_text;

#[test]
fn equal_texts() {
    assert!(same_text("", ""));
    assert!(same_text("ie", "ie"));
    assert!(same_text("and_chr", &String::from("and_chr")));
    assert!(same_text("\u{e9}t\u{e9}", "\u{e9}t\u{e9}"));
}

#[test]
fn different_texts() {
    assert!(!same_text("ie", "ie_mob"));
    assert!(!same_text("ie", ""));
    assert!(!same_text("and_uc", "and_qq"));
    assert!(!same_text("IE", "ie"));
    assert!(!same_text("\u{e9}", "e"));
}
