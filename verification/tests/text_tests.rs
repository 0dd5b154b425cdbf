use term_core::text::{
    chars_of, decimal_string, is_whitespace, replaced, string_of, text_contains,
    text_contains_ignoring_case, text_ends_with, text_lines, text_starts_with, trimmed, words,
};

fn std_lines(s: &str) -> Vec<String> {
    s.lines().map(|l| l.to_string()).collect()
}

fn std_words(s: &str) -> Vec<String> {
    s.split_whitespace().map(|w| w.to_string()).collect()
}

const SAMPLES: [&str; 16] = [
    "",
    " ",
    "a",
    "  a  ",
    "a b",
    " a\tb \n c ",
    "\n",
    "\n\n",
    "a\n",
    "a\r\n",
    "a\r",
    "a\r\r\nb",
    "\r\n\r\n",
    "one\ntwo\r\nthree",
    "\u{2003}wide\u{3000}space\u{a0}",
    "tab\u{b}vertical\u{c}feed\u{85}next",
];

#[test]
fn whitespace_is_what_std_calls_whitespace() {
    let mut n: u32 = 0;
    while n <= 0x10FFFF {
        if let Some(c) = char::from_u32(n) {
            assert_eq!(is_whitespace(c), c.is_whitespace(), "U+{:04X}", n);
        }
        n += 1;
    }
}

#[test]
fn chars_round_trip() {
    for s in SAMPLES {
        assert_eq!(string_of(&chars_of(s)), s);
        assert_eq!(chars_of(s), s.chars().collect::<Vec<char>>());
    }
}

#[test]
fn trimmed_is_std_trim() {
    for s in SAMPLES {
        assert_eq!(trimmed(s), s.trim());
    }
    assert_eq!(trimmed("  ls -la  "), "ls -la");
    assert_eq!(trimmed("\t\n"), "");
}

#[test]
fn words_are_std_split_whitespace() {
    for s in SAMPLES {
        assert_eq!(words(s), std_words(s));
    }
    assert_eq!(words("  ls   -la  /tmp "), vec!["ls", "-la", "/tmp"]);
    assert_eq!(words("   "), Vec::<String>::new());
}

#[test]
fn text_lines_are_std_lines() {
    for s in SAMPLES {
        assert_eq!(text_lines(s), std_lines(s), "{:?}", s);
    }
    assert_eq!(text_lines("a\r\nb\n\nc"), vec!["a", "b", "", "c"]);
    assert_eq!(text_lines("a\r"), vec!["a\r"]);
}

#[test]
fn contains_and_affixes_are_std() {
    let pats = ["", "a", "ab", " ", "\n", "one", "three", "e\nt", "wide", "zzz"];
    for s in SAMPLES {
        for p in pats {
            assert_eq!(text_contains(s, p), s.contains(p), "{:?} {:?}", s, p);
            assert_eq!(text_starts_with(s, p), s.starts_with(p), "{:?} {:?}", s, p);
            assert_eq!(text_ends_with(s, p), s.ends_with(p), "{:?} {:?}", s, p);
        }
    }
}

#[test]
fn replaced_is_std_replace_for_patterns_that_are_not_empty() {
    let cases = [
        ("", "a", "b"),
        ("aaa", "aa", "b"),
        ("aaaa", "aa", "b"),
        ("a//b///c", "//", "/"),
        ("say \"hi\"", "\"", "\\\""),
        ("{DIR}x{/DIR}", "{DIR}", ""),
        ("abc", "abcd", "x"),
        ("abcabc", "bc", "bcbc"),
        ("C:\\a\\b", "\\", "/"),
    ];
    for (s, p, t) in cases {
        assert_eq!(replaced(s, p, t), s.replace(p, t), "{:?} {:?} {:?}", s, p, t);
    }
    assert_eq!(replaced("aaaa", "aa", "b"), "bb");
    assert_eq!(replaced("aaa", "aa", "b"), "ba");
}

#[test]
fn replaced_with_an_empty_pattern_changes_nothing() {
    assert_eq!(replaced("abc", "", "x"), "abc");
    assert_eq!(replaced("", "", "x"), "");
}

#[test]
fn decimal_string_is_std_to_string() {
    for n in [0u64, 1, 9, 10, 11, 99, 100, 101, 12345, 4294967295, u64::MAX] {
        assert_eq!(decimal_string(n), n.to_string());
    }
    assert_eq!(decimal_string(0), "0");
    assert_eq!(decimal_string(1000), "1000");
}

#[test]
fn search_that_sets_case_aside() {
    let cases = [
        ("Sorry, Try Again", "sorry, try again"),
        ("abc", "B"),
        ("ABC", "bc"),
        ("", ""),
        ("a", ""),
        ("", "a"),
        ("xyz", "XYZZ"),
        ("@[`{", "@[`{"),
        ("\u{e9}", "\u{c9}"),
        ("stra\u{df}e", "STRASSE"),
    ];
    for (s, p) in cases {
        assert_eq!(
            text_contains_ignoring_case(s, p),
            s.to_ascii_lowercase().contains(&p.to_ascii_lowercase()),
            "{:?} {:?}",
            s,
            p
        );
    }
    assert!(text_contains_ignoring_case("SORRY, TRY AGAIN", "Sorry, try again"));
    assert!(!text_contains_ignoring_case("@", "`"));
    assert!(!text_contains_ignoring_case("[", "{"));
}
