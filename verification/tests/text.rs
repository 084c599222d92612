use conduit_admin_graphql::text::{
    chars_of, contains_text, joined, joined3, number_text, same_text, strip_prefix, text_of,
    text_precedes, to_lower, to_upper, trim, white_space,
};
use conduit_admin_graphql::text_map::TextMap;

#[test]
fn white_space_is_the_unicode_property() {
    for code in 0..=0x10_FFFF_u32 {
        if let Some(c) = char::from_u32(code) {
            assert_eq!(white_space(c), c.is_whitespace(), "{code:x}");
        }
    }
}

#[test]
fn trimming_agrees_with_the_standard_library() {
    for text in ["", "  ", " a b ", "\u{3000}x\u{2028}", "x", "\t\n x \r"] {
        assert_eq!(trim(text), text.trim());
    }
}

#[test]
fn case_is_ascii_case() {
    for text in ["", "AbC-9", "\u{c4}\u{e4}Z", "GPT-4o"] {
        assert_eq!(to_lower(text), text.to_ascii_lowercase());
        assert_eq!(to_upper(text), text.to_ascii_uppercase());
    }
}

#[test]
fn order_agrees_with_the_standard_library() {
    let words = ["", "a", "aa", "ab", "b", "\u{e9}", "\u{ff5e}", "\u{1f600}", "Z"];
    for a in words {
        for b in words {
            assert_eq!(text_precedes(a, b), a < b, "{a:?} {b:?}");
            assert_eq!(same_text(a, b), a == b, "{a:?} {b:?}");
        }
    }
}

#[test]
fn texts_are_searched_and_joined() {
    assert!(contains_text(&chars_of("insufficient quota"), "quota"));
    assert!(contains_text(&chars_of("x"), ""));
    assert!(!contains_text(&chars_of("quot"), "quota"));
    assert_eq!(strip_prefix("vendor/m", "vendor/"), Some("m".to_owned()));
    assert_eq!(strip_prefix("m", "vendor/"), None);
    assert_eq!(joined("a", "b"), "ab");
    assert_eq!(joined3("a", "b", "c"), "abc");
    assert_eq!(text_of(&chars_of("abcd"), 1, 3), "bc");
}

#[test]
fn numbers_are_written_in_decimal() {
    for n in [0_usize, 7, 10, 409, usize::MAX] {
        assert_eq!(number_text(n), n.to_string());
    }
}

#[test]
fn maps_keep_their_keys_in_order() {
    let mut map: TextMap<String> = TextMap::new();
    for key in ["m", "a", "z", "a"] {
        map.insert(key.to_owned(), format!("{key}{}", map.len()));
    }
    let keys: Vec<String> = (0..map.len()).map(|i| map.key_at(i).clone()).collect();
    assert_eq!(keys, vec!["a", "m", "z"]);
    assert_eq!(map.get("a"), Some(&"a3".to_owned()));
    assert_eq!(map.get("b"), None);
}
