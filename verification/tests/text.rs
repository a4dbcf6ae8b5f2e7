use manga_tracker::text;
use manga_tracker::text::{
    after_last_in, before_first_in, chars_of, decimal_of, join_with, matches_at, push_chars,
    push_digits, replace_all_in, replace_first_in, string_of, trim_in, white_space,
};

#[test]
fn replace_all_replaces_every_occurrence() {
    assert_eq!(replace_all_in("a-b-c", "-", "+"), "a+b+c");
    assert_eq!(replace_all_in("aaa", "aa", "b"), "ba");
    assert_eq!(replace_all_in("abc", "x", "y"), "abc");
    assert_eq!(replace_all_in("", "x", "y"), "");
    assert_eq!(replace_all_in("xx", "x", ""), "");
    assert_eq!(replace_all_in("abc", "", "y"), "abc");
    assert_eq!(replace_all_in("ab", "abc", "y"), "ab");
}

#[test]
fn replace_all_agrees_with_the_standard_library() {
    let cases = [
        ("<![CDATA[x]]><![CDATA[y]]>", "<![CDATA[", ""),
        ("../../../a/../../b", "../../", "/"),
        ("全<!-- -->25<!-- -->話", "<!-- -->", ""),
        ("abababa", "aba", "c"),
        ("\\\"a\\\"", "\\", ""),
    ];
    for (text, pattern, to) in cases {
        assert_eq!(replace_all_in(text, pattern, to), text.replace(pattern, to));
    }
}

#[test]
fn replace_first_replaces_one_occurrence() {
    assert_eq!(replace_first_in("a-b-c", "-", "+"), "a+b-c");
    assert_eq!(replace_first_in("banner(banner)", "banner", ""), "(banner)");
    assert_eq!(replace_first_in("abc", "x", "y"), "abc");
    assert_eq!(replace_first_in("abc", "", "y"), "abc");
    assert_eq!(replace_first_in("abc", "c", "xyz"), "abxyz");
    assert_eq!(replace_first_in("abab", "ab", "c"), "abab".replacen("ab", "c", 1));
}

#[test]
fn before_first_and_after_last() {
    assert_eq!(before_first_in("2024/05/13(Mon) soon", "("), "2024/05/13");
    assert_eq!(before_first_in("no bracket", "("), "no bracket");
    assert_eq!(before_first_in("(x", "("), "");
    assert_eq!(before_first_in("", "("), "");
    assert_eq!(after_last_in("a/chapter/1/chapter/2.webp", "chapter/"), "2.webp");
    assert_eq!(after_last_in("nothing", "chapter/"), "nothing");
    assert_eq!(after_last_in("chapter/", "chapter/"), "");
    assert_eq!(after_last_in("aaa", "aa"), "aaa".split("aa").last().unwrap());
    assert_eq!(after_last_in("x", ""), "x");
}

#[test]
fn trim_removes_white_space_at_both_ends() {
    assert_eq!(trim_in("  a b \n"), "a b");
    assert_eq!(trim_in("\u{3000}題\u{3000}"), "題");
    assert_eq!(trim_in("   "), "");
    assert_eq!(trim_in(""), "");
    assert_eq!(trim_in("（x）"), "（x）");
    assert_eq!(trim_in("\t\r\n\u{b}\u{c}\u{85}\u{a0}x\u{2028}\u{2029}\u{202f}\u{205f}"), "x");
}

#[test]
fn white_space_agrees_with_the_standard_library() {
    let mut code: u32 = 0;
    while code <= 0x3100 {
        if let Some(c) = char::from_u32(code) {
            assert_eq!(white_space(c), c.is_whitespace(), "at {code:x}");
        }
        code += 1;
    }
    assert!(!white_space('\u{feff}'));
    assert!(!white_space('\u{200b}'));
}

#[test]
fn join_puts_the_separator_between() {
    let parts = vec!["a".to_string(), "b".to_string(), "c".to_string()];
    assert_eq!(join_with(&parts, ","), "a,b,c");
    assert_eq!(join_with(&parts[..1].to_vec(), ","), "a");
    assert_eq!(join_with(&Vec::new(), ","), "");
    assert_eq!(join_with(&vec![String::new(), String::new()], " "), " ");
}

#[test]
fn decimal_notation() {
    assert_eq!(decimal_of(0), "0");
    assert_eq!(decimal_of(7), "7");
    assert_eq!(decimal_of(10), "10");
    assert_eq!(decimal_of(-1), "-1");
    assert_eq!(decimal_of(395), "395");
    assert_eq!(decimal_of(i64::MAX), i64::MAX.to_string());
    assert_eq!(decimal_of(i64::MIN), i64::MIN.to_string());
    let mut out = String::from("n=");
    push_digits(&mut out, 1203);
    assert_eq!(out, "n=1203");
}

#[test]
fn characters_and_strings() {
    let chars = chars_of("aé題");
    assert_eq!(chars, vec!['a', 'é', '題']);
    assert_eq!(string_of(&chars, 1, 3), "é題");
    assert_eq!(string_of(&chars, 2, 2), "");
    let mut out = String::from(">");
    push_chars(&mut out, &chars, 0, 2);
    assert_eq!(out, ">aé");
    assert!(matches_at(&chars, &chars_of("é題"), 1));
    assert!(!matches_at(&chars, &chars_of("é題"), 0));
    assert!(!matches_at(&chars, &chars_of("é題"), 2));
    assert!(matches_at(&chars, &chars_of(""), 3));
    assert!(!matches_at(&chars, &chars_of(""), 4));
}

#[test]
fn concatenation() {
    assert_eq!(text::concat("a", "b"), "ab");
    assert_eq!(text::concat3("a", "", "c"), "ac");
    assert_eq!(text::concat4("a", "b", "c", "d"), "abcd");
}
