use support_cafe::text::{
    contains_chars, decimal_chars, eq_ignore_ascii_case_chars, replace_chars, split_chars, trim_chars,
    trim_end_char_chars,
};

fn s(v: &[char]) -> String {
    v.iter().collect()
}

fn chars_of(text: &str) -> Vec<char> {
    text.chars().collect()
}

#[test]
fn trim_removes_unicode_white_space() {
    let c = chars_of("\u{3000}\t api.support.cafe \n\u{a0}");
    assert_eq!(s(&trim_chars(&c)), "api.support.cafe");
    assert_eq!(s(&trim_chars(&chars_of("   "))), "");
    assert_eq!(s(&trim_chars(&chars_of(""))), "");
    assert_eq!(s(&trim_chars(&chars_of("a b"))), "a b");
}

#[test]
fn trim_agrees_with_std() {
    for text in ["  x ", "\u{2003}y\u{2029}", "z", " \u{85}q r\u{202f}", "\u{200b}w"] {
        assert_eq!(s(&trim_chars(&chars_of(text))), text.trim());
    }
}

#[test]
fn split_keeps_empty_pieces() {
    let pieces = split_chars(&chars_of("a,,b,"), ',');
    let texts: Vec<String> = pieces.iter().map(|p| s(p)).collect();
    assert_eq!(texts, vec!["a", "", "b", ""]);
    let one = split_chars(&chars_of(""), ',');
    assert_eq!(one.len(), 1);
    assert!(one[0].is_empty());
}

#[test]
fn split_agrees_with_std() {
    for text in ["x,y,z", ",", "", "no separator", ",,a,"] {
        let mine: Vec<String> = split_chars(&chars_of(text), ',').iter().map(|p| s(p)).collect();
        let std_pieces: Vec<String> = text.split(',').map(|p| p.to_string()).collect();
        assert_eq!(mine, std_pieces);
    }
}

#[test]
fn replace_takes_matches_from_the_left() {
    let r = replace_chars(&chars_of("a___b"), &chars_of("__"), &chars_of("."));
    assert_eq!(s(&r), "a._b");
    assert_eq!("a___b".replace("__", "."), "a._b");
    let r = replace_chars(&chars_of("CAFE__X__CAFE__"), &chars_of("CAFE__"), &chars_of(""));
    assert_eq!(s(&r), "X__");
}

#[test]
fn contains_finds_substrings() {
    let hay = chars_of("migration error: Unsupported version: 2 found");
    assert!(contains_chars(&hay, &chars_of("Unsupported version: 2")));
    assert!(!contains_chars(&hay, &chars_of("Unsupported version: 3")));
    assert!(contains_chars(&chars_of("abc"), &chars_of("")));
    assert!(!contains_chars(&chars_of(""), &chars_of("a")));
    assert!(contains_chars(&chars_of("abc"), &chars_of("abc")));
}

#[test]
fn ascii_case_insensitive_comparison() {
    assert!(eq_ignore_ascii_case_chars(&chars_of("TrUe"), &chars_of("true")));
    assert!(!eq_ignore_ascii_case_chars(&chars_of("tru"), &chars_of("true")));
    assert!(!eq_ignore_ascii_case_chars(&chars_of("trüe"), &chars_of("true")));
}

#[test]
fn lowercase_maps_letters() {
    assert_eq!(support_cafe::doppler::secret_path("CAFE__SERVICE__PLATFORM_API_KEY"), "service.platform_api_key");
    assert_eq!(support_cafe::doppler::secret_path("CAFE__ÄÖ"), "äö");
}

#[test]
fn trailing_characters_are_trimmed() {
    assert_eq!(s(&trim_end_char_chars(&chars_of("certs///"), '/')), "certs");
    assert_eq!(s(&trim_end_char_chars(&chars_of("/"), '/')), "");
    assert_eq!(s(&trim_end_char_chars(&chars_of("a/b"), '/')), "a/b");
}

#[test]
fn decimal_digits() {
    assert_eq!(s(&decimal_chars(0)), "0");
    assert_eq!(s(&decimal_chars(7)), "7");
    assert_eq!(s(&decimal_chars(10)), "10");
    assert_eq!(s(&decimal_chars(4294967295)), "4294967295");
}
