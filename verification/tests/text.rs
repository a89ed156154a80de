use yact::text::{
    drop_trailing, from_chars, has_prefix, is_space, join_lines, skip_leading, split_lines,
    suffix, to_chars, trim, trim_start_from,
};

fn chars(s: &str) -> Vec<char> {
    s.chars().collect()
}

fn split(s: &str) -> Vec<String> {
    split_lines(&chars(s)).iter().map(|l| l.iter().collect()).collect()
}

fn std_lines(s: &str) -> Vec<String> {
    s.lines().map(|l| l.to_string()).collect()
}

const SAMPLES: [&str; 16] = [
    "",
    "a",
    "a\n",
    "a\nb",
    "a\n\nb",
    "\n",
    "\n\n",
    "a\r\nb\r\n",
    "a\r",
    "a\rb\nc",
    "a\r\r\nb",
    "\r\n",
    "\r",
    "x\n\r\ny\r",
    "one\ntwo\nthree\n\n",
    "tab\tsep \u{3000}wide\n\u{e9}t\u{e9}\n",
];

#[test]
fn to_chars_gives_the_characters_in_order() {
    assert_eq!(to_chars(""), Vec::<char>::new());
    assert_eq!(to_chars("h\u{e9}llo \u{1f600}"), vec!['h', '\u{e9}', 'l', 'l', 'o', ' ', '\u{1f600}']);
}

#[test]
fn from_chars_builds_the_string() {
    assert_eq!(from_chars(&vec![]), "");
    assert_eq!(from_chars(&vec!['a', '\u{e9}', '\n', 'z']), "a\u{e9}\nz");
}

#[test]
fn from_chars_undoes_to_chars() {
    for s in SAMPLES {
        assert_eq!(from_chars(&to_chars(s)), s);
    }
}

#[test]
fn is_space_agrees_with_std_on_every_character() {
    for code in 0u32..=0x10ffff {
        if let Some(c) = char::from_u32(code) {
            assert_eq!(is_space(c), c.is_whitespace(), "U+{:04X}", code);
        }
    }
}

#[test]
fn split_lines_agrees_with_std() {
    for s in SAMPLES {
        assert_eq!(split(s), std_lines(s), "{:?}", s);
    }
}

#[test]
fn split_lines_on_named_cases() {
    assert_eq!(split(""), Vec::<String>::new());
    assert_eq!(split("a\n"), vec!["a"]);
    assert_eq!(split("a\n\n"), vec!["a", ""]);
    assert_eq!(split("a\r\nb"), vec!["a", "b"]);
    assert_eq!(split("a\r"), vec!["a\r"]);
    assert_eq!(split("a\r\r\n"), vec!["a\r"]);
}

#[test]
fn join_lines_puts_line_feeds_between() {
    let lines = vec![chars("a"), chars(""), chars("bc")];
    assert_eq!(join_lines(&lines, 0), chars("a\n\nbc"));
    assert_eq!(join_lines(&lines, 1), chars("\nbc"));
    assert_eq!(join_lines(&lines, 2), chars("bc"));
    assert_eq!(join_lines(&lines, 3), chars(""));
    assert_eq!(join_lines(&vec![], 0), chars(""));
}

#[test]
fn joining_undoes_splitting_of_plain_text() {
    let text = chars("one\ntwo\nthree");
    assert_eq!(join_lines(&split_lines(&text), 0), text);
}

#[test]
fn has_prefix_compares_from_the_start() {
    assert!(has_prefix(&chars("data: x"), &chars("data:")));
    assert!(has_prefix(&chars("data:"), &chars("data:")));
    assert!(has_prefix(&chars("abc"), &chars("")));
    assert!(!has_prefix(&chars("dat"), &chars("data:")));
    assert!(!has_prefix(&chars(" data:"), &chars("data:")));
    assert!(!has_prefix(&chars("Data: x"), &chars("data:")));
}

#[test]
fn suffix_keeps_the_rest() {
    assert_eq!(suffix(&chars("hello"), 0), chars("hello"));
    assert_eq!(suffix(&chars("hello"), 2), chars("llo"));
    assert_eq!(suffix(&chars("hello"), 5), chars(""));
}

#[test]
fn trim_start_from_agrees_with_std() {
    for s in ["data:  x ", "data:\t\u{a0}\u{2003}y", "data:", "data:   ", "data:z"] {
        let expected: Vec<char> = s[5..].trim_start().chars().collect();
        assert_eq!(trim_start_from(&chars(s), 5), expected, "{:?}", s);
    }
}

#[test]
fn trim_agrees_with_std() {
    for s in ["", " ", "  v1.2.3\n", "\t\u{3000}x y\u{85}\r\n", "plain", " \u{200b} "] {
        assert_eq!(trim(&chars(s)), chars(s.trim()), "{:?}", s);
    }
}

#[test]
fn skip_leading_and_drop_trailing_agree_with_std() {
    for s in ["", "/", "///", "/a/b/", "a//", "//a", "a"] {
        assert_eq!(skip_leading(&chars(s), '/'), chars(s.trim_start_matches('/')), "{:?}", s);
        assert_eq!(drop_trailing(chars(s), '/'), chars(s.trim_end_matches('/')), "{:?}", s);
    }
}
