use pacaptr::text::{
    chars_of, clone_words, comes_before, extend_words, join_words, owned_words, push_decimal,
    same_text, word, words1, words2,
};

fn strs(items: &[&str]) -> Vec<String> {
    items.iter().map(|s| s.to_string()).collect()
}

#[test]
fn words_are_joined_with_the_separator_between_them() {
    assert_eq!(join_words(&strs(&[]), " "), "");
    assert_eq!(join_words(&strs(&["a"]), " "), "a");
    assert_eq!(join_words(&strs(&["a", "b", "c"]), " "), "a b c");
    assert_eq!(join_words(&strs(&["a", "", "c"]), ", "), "a, , c");
    assert_eq!(join_words(&strs(&["", ""]), "-"), "-");
    assert_eq!(join_words(&strs(&["ä", "ö"]), ""), "äö");
}

#[test]
fn lists_of_words_are_copied_and_extended() {
    let list = strs(&["a", "b"]);
    assert_eq!(clone_words(&list), list);
    let mut longer = strs(&["x"]);
    extend_words(&mut longer, &list);
    extend_words(&mut longer, &strs(&[]));
    assert_eq!(longer, strs(&["x", "a", "b"]));
    assert_eq!(word("abc"), "abc");
    assert_eq!(words1("a"), strs(&["a"]));
    assert_eq!(words2("a", "b"), strs(&["a", "b"]));
    assert_eq!(owned_words(vec!["a", "b", "c"]), strs(&["a", "b", "c"]));
    assert_eq!(chars_of("aé☃"), vec!['a', 'é', '☃']);
}

#[test]
fn texts_are_compared_character_by_character() {
    assert!(same_text("", ""));
    assert!(same_text("conda", "conda"));
    assert!(!same_text("conda", "Conda"));
    assert!(!same_text("conda", "conda "));
    let ordered = ["", "A", "B", "a", "a.rs", "aa", "ab", "b", "é", "☃", "\u{10ffff}"];
    for (i, a) in ordered.iter().enumerate() {
        for (j, b) in ordered.iter().enumerate() {
            assert_eq!(comes_before(a, b), i < j, "{:?} before {:?}", a, b);
            assert_eq!(comes_before(a, b), a < b, "{:?} before {:?}", a, b);
        }
    }
}

#[test]
fn numbers_are_written_in_decimal() {
    for n in [0, 1, 9, 10, 11, 99, 100, 101, 12345, -1, -10, -999, i32::MAX, i32::MIN] {
        let mut out = String::from("n=");
        push_decimal(&mut out, n);
        assert_eq!(out, format!("n={}", n));
    }
}
