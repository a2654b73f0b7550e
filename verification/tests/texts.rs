use marketplace::text::{blank, has_char, join2, join3, number_text, owned, white_space};

#[test]
fn white_space_is_what_std_takes_for_it() {
    for code in 0..=0x10ffff_u32 {
        if let Some(c) = char::from_u32(code) {
            assert_eq!(white_space(c), c.is_whitespace(), "U+{:04X}", code);
        }
    }
}

#[test]
fn a_blank_text_trims_to_nothing() {
    for text in ["", " ", "\t\r\n", "\u{3000}\u{85}", " a ", "a", "\u{200b}", " \u{feff}", "_"] {
        assert_eq!(blank(text), text.trim().is_empty(), "{:?}", text);
    }
    assert!(blank("  \u{2028} "));
    assert!(!blank("  . "));
}

#[test]
fn numbers_are_written_in_decimal() {
    assert_eq!(number_text(0), "0");
    assert_eq!(number_text(7), "7");
    assert_eq!(number_text(10), "10");
    assert_eq!(number_text(-1), "-1");
    assert_eq!(number_text(1905), "1905");
    assert_eq!(number_text(i32::MAX), "2147483647");
    assert_eq!(number_text(i32::MIN), "-2147483648");
    let mut n: i32 = -50_000;
    while n < 50_000 {
        assert_eq!(number_text(n), n.to_string());
        n += 1;
    }
    let mut n: i32 = i32::MIN;
    for _ in 0..4_000 {
        assert_eq!(number_text(n), n.to_string());
        n = n.wrapping_add(1_073_807);
    }
}

#[test]
fn a_character_is_found_where_it_occurs() {
    assert!(has_char("a@x.com", '@'));
    assert!(has_char("@", '@'));
    assert!(has_char("end@", '@'));
    assert!(!has_char("", '@'));
    assert!(!has_char("a.x.com", '@'));
    assert!(has_char("\u{e9}t\u{e9}", '\u{e9}'));
    assert!(!has_char("\u{e9}t\u{e9}", 'e'));
}

#[test]
fn texts_are_joined_in_order() {
    assert_eq!(join2("ab", "cd"), "abcd");
    assert_eq!(join2("", ""), "");
    assert_eq!(join3("a", "", "c"), "ac");
    assert_eq!(join3("Post with id ", "3", " deleted successfully."), "Post with id 3 deleted successfully.");
    assert_eq!(owned("x"), "x");
}
