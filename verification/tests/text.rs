use wayvr::text::{chars_of, contains_chars, decode_utf8_chars, has_whitespace_word};

fn v(s: &str) -> Vec<char> {
    s.chars().collect()
}

#[test]
fn chars_of_keeps_every_character() {
    assert_eq!(chars_of("a\u{e9}\u{1F600}z"), vec!['a', '\u{e9}', '\u{1F600}', 'z']);
    assert_eq!(chars_of(""), Vec::<char>::new());
}

#[test]
fn contains_finds_substrings() {
    assert!(contains_chars(&v("abcabd"), &v("abd")));
    assert!(contains_chars(&v("abc"), &v("abc")));
    assert!(contains_chars(&v("abc"), &v("")));
    assert!(!contains_chars(&v("abc"), &v("abcd")));
    assert!(!contains_chars(&v("ab c"), &v("bc")));
    assert!(!contains_chars(&v(""), &v("a")));
}

#[test]
fn whitespace_words_are_whole_words() {
    assert!(has_whitespace_word(&v("wheel input video"), &v("input")));
    assert!(has_whitespace_word(&v("input"), &v("input")));
    assert!(has_whitespace_word(&v("  input\n"), &v("input")));
    assert!(has_whitespace_word(&v("a\tinput\u{a0}b"), &v("input")));
    assert!(!has_whitespace_word(&v("inputs wheel"), &v("input")));
    assert!(!has_whitespace_word(&v("wheel myinput"), &v("input")));
    assert!(!has_whitespace_word(&v(""), &v("input")));
    assert!(!has_whitespace_word(&v("a b"), &v("")));
}

#[test]
fn utf8_decoding_accepts_only_valid_utf8() {
    assert_eq!(decode_utf8_chars(vec![0x68, 0xc3, 0xa9]), Some(vec!['h', '\u{e9}']));
    assert_eq!(decode_utf8_chars(vec![0x68, 0xc3]), None);
    assert_eq!(decode_utf8_chars(vec![0xff]), None);
    assert_eq!(decode_utf8_chars(vec![]), Some(vec![]));
}
