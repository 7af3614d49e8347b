//! Text: the library's own functions agree with std's on the same input.

use kanatabar::paths;
use kanatabar::text::number::{parse_number, push_decimal, signed_text};
use kanatabar::text::order::{comes_before, sort};
use kanatabar::text::split::{before, join, lines, replace, split_whitespace};
use kanatabar::text::{
    chars_of, contains, ends_with, is_whitespace, pad, same, starts_with, strip_prefix,
    to_ascii_lowercase, trim, trim_end, trim_end_of, trim_start_of,
};

const SAMPLES: [&str; 12] = [
    "",
    " ",
    "a",
    "  leading and trailing \t\n",
    "one\ntwo\r\nthree\n",
    "\n\n",
    "no newline at the end\r",
    "ünïcödé — dash\u{3000}ideographic",
    "\u{a0}nbsp\u{a0}",
    "KARABINER Karabiner",
    "v1.2.3",
    "aaaa",
];

#[test]
fn whitespace_is_unicode_whitespace() {
    for c in '\0'..=char::MAX {
        assert_eq!(is_whitespace(c), c.is_whitespace(), "{c:?}");
    }
}

#[test]
fn pieces_are_cut_as_std_cuts_them() {
    for s in SAMPLES {
        assert_eq!(lines(s), s.lines().collect::<Vec<_>>(), "{s:?}");
        assert_eq!(
            split_whitespace(s),
            s.split_whitespace().collect::<Vec<_>>(),
            "{s:?}"
        );
        assert_eq!(trim(s), s.trim());
        assert_eq!(trim_end(s), s.trim_end());
        assert_eq!(trim_start_of(s, 'v'), s.trim_start_matches('v'));
        assert_eq!(trim_end_of(s, 'a'), s.trim_end_matches('a'));
        assert_eq!(to_ascii_lowercase(s), s.to_ascii_lowercase());
        assert_eq!(chars_of(s), s.chars().collect::<Vec<_>>());
    }
}

#[test]
fn patterns_are_found_as_std_finds_them() {
    for s in SAMPLES {
        for p in ["a", "aa", "e", " ", "—", "v", "\n", "Karabiner"] {
            assert_eq!(contains(s, p), s.contains(p), "{s:?} {p:?}");
            assert_eq!(starts_with(s, p), s.starts_with(p));
            assert_eq!(ends_with(s, p), s.ends_with(p));
            assert_eq!(strip_prefix(s, p).as_deref(), s.strip_prefix(p));
            assert_eq!(replace(s, p, "<>"), s.replace(p, "<>"), "{s:?} {p:?}");
            assert_eq!(before(s, p), s.split(p).next().unwrap_or(""));
        }
        for t in SAMPLES {
            assert_eq!(same(s, t), s == t);
            assert_eq!(comes_before(s, t), s < t, "{s:?} {t:?}");
        }
    }
}

#[test]
fn texts_are_sorted_and_joined() {
    let given: Vec<String> = SAMPLES.iter().map(|s| s.to_string()).collect();
    let mut expected = given.clone();
    expected.sort();
    assert_eq!(sort(&given), expected);
    assert_eq!(join(&given, ", "), given.join(", "));
    assert_eq!(join(&vec![], ", "), "");
    assert_eq!(pad("ab", 4), "ab  ");
    assert_eq!(pad("abcde", 4), "abcde");
    assert_eq!(pad("é", 2), "é ");
}

#[test]
fn numbers_print_and_read_back() {
    for n in [0, 7, 10, 99, 1000, u64::MAX] {
        let mut out = String::from("n=");
        push_decimal(&mut out, n);
        assert_eq!(out, format!("n={n}"));
        assert_eq!(parse_number(&n.to_string(), u64::MAX), Some(n));
    }
    for n in [0, -1, 42, i32::MIN, i32::MAX] {
        assert_eq!(signed_text(n), n.to_string());
    }
    for text in ["", "+", "-1", "+5", "007", "4294967295", "4294967296", "1 ", "a"] {
        assert_eq!(
            parse_number(text, u32::MAX.into()),
            text.parse::<u32>().ok().map(u64::from),
            "{text:?}"
        );
    }
}

#[test]
fn paths_join_like_std_paths() {
    for (a, b) in [("/a", "b"), ("/a/", "b"), ("", "b"), ("/a", "/b"), ("a", "")] {
        assert_eq!(
            paths::join(a, b),
            std::path::Path::new(a).join(b).to_str().expect("text"),
            "{a:?} {b:?}"
        );
    }
}
