use localsend::text::{chars_of, decimal_text, parse_u64, same_text};
use localsend::utils::{confine, options_text, read_answer, read_word, sanitize_relative_path};

#[test]
fn sanitize_keeps_a_plain_relative_path() {
    assert_eq!(sanitize_relative_path("a/b/c.txt"), "a/b/c.txt");
    assert_eq!(sanitize_relative_path("file.txt"), "file.txt");
    assert_eq!(sanitize_relative_path("my image.png"), "my image.png");
}

#[test]
fn sanitize_cannot_be_made_to_leave_the_destination() {
    let safe = sanitize_relative_path("/a/../../etc/passwd");
    assert_eq!(safe, "etc/passwd");
    assert!(!safe.starts_with('/'));
    assert!(safe.split('/').all(|part| part != ".."));
    for name in [
        "../../etc/passwd",
        "..",
        "../",
        "/..",
        "a/../../..",
        "////",
        "/",
        "",
        ".",
        "./.",
        "a/../b/../../c",
        "..\u{2f}..\u{2f}x",
    ] {
        let safe = sanitize_relative_path(name);
        assert!(!safe.is_empty(), "{:?}", name);
        assert!(!safe.starts_with('/'), "{:?}", name);
        assert!(safe == "." || safe.split('/').all(|part| !part.is_empty() && part != "." && part != ".."), "{:?}", name);
    }
}

#[test]
fn sanitize_cleans_before_it_confines() {
    assert_eq!(sanitize_relative_path("/etc/passwd"), "etc/passwd");
    assert_eq!(sanitize_relative_path("a//b///c"), "a/b/c");
    assert_eq!(sanitize_relative_path("a/./b/."), "a/b");
    assert_eq!(sanitize_relative_path("a/b/../c"), "a/c");
    assert_eq!(sanitize_relative_path("a/b/"), "a/b");
    assert_eq!(sanitize_relative_path("../../etc/passwd"), "etc/passwd");
    assert_eq!(sanitize_relative_path(".."), ".");
    assert_eq!(sanitize_relative_path("/"), ".");
    assert_eq!(sanitize_relative_path(""), ".");
    assert_eq!(sanitize_relative_path("..."), "...");
    assert_eq!(sanitize_relative_path(".hidden"), ".hidden");
    assert_eq!(sanitize_relative_path("caf\u{e9}/\u{1F4E5}.txt"), "caf\u{e9}/\u{1F4E5}.txt");
}

#[test]
fn confine_drops_what_names_nothing_below() {
    // without cleaning, `..` does not take the part before it along
    assert_eq!(confine("a/../b"), "a/b");
    assert_eq!(confine("/a//b/"), "a/b");
    assert_eq!(confine("./a/./b"), "a/b");
    assert_eq!(confine("../.."), ".");
    assert_eq!(confine(""), ".");
    assert_eq!(confine("."), ".");
    assert_eq!(confine("/"), ".");
    assert_eq!(confine("x"), "x");
    assert_eq!(confine("..x/.y./..."), "..x/.y./...");
}

#[test]
fn answers_are_read_without_regard_to_case_and_trailing_space() {
    for yes in ["y", "Y", "yes", "YES", "Yes", "y\n", "yes \t\r\n", "yEs\n"] {
        assert_eq!(read_answer(yes), Some(true), "{:?}", yes);
    }
    for no in ["n", "N", "no", "NO", "No\n", "n   "] {
        assert_eq!(read_answer(no), Some(false), "{:?}", no);
    }
    for unclear in ["", "\n", "maybe", " y", "yess", "ye", "nope", "0", "y e s"] {
        assert_eq!(read_answer(unclear), None, "{:?}", unclear);
    }
    assert_eq!(read_word("y"), Some(true));
    assert_eq!(read_word("Y"), None);
    assert_eq!(read_word("no"), Some(false));
    assert_eq!(read_word("no "), None);
}

#[test]
fn options_show_the_suggested_answer_in_capitals() {
    assert_eq!(options_text(Some(true)), "(Y/n)");
    assert_eq!(options_text(Some(false)), "(y/N)");
    assert_eq!(options_text(None), "(y/n)");
}

#[test]
fn numbers_are_written_in_decimal() {
    assert_eq!(decimal_text(0), "0");
    assert_eq!(decimal_text(9), "9");
    assert_eq!(decimal_text(10), "10");
    assert_eq!(decimal_text(53317), "53317");
    assert_eq!(decimal_text(1000000), "1000000");
    assert_eq!(decimal_text(u64::MAX), "18446744073709551615");
}

#[test]
fn numbers_are_read_from_decimal_digits_alone() {
    assert_eq!(parse_u64("0"), Some(0));
    assert_eq!(parse_u64("7"), Some(7));
    assert_eq!(parse_u64("53317"), Some(53317));
    assert_eq!(parse_u64("18446744073709551615"), Some(u64::MAX));
    assert_eq!(parse_u64("18446744073709551616"), None);
    assert_eq!(parse_u64("99999999999999999999"), None);
    assert_eq!(parse_u64("184467440737095516150"), None);
    for wrong in ["", "00", "007", "-1", "+1", "1.0", "1e3", " 1", "1 ", "0x10", "\u{661}", "12a"] {
        assert_eq!(parse_u64(wrong), None, "{:?}", wrong);
    }
    for number in [0u64, 1, 9, 10, 99, 100, 65535, 65536, 4294967296, u64::MAX - 1, u64::MAX] {
        assert_eq!(parse_u64(&decimal_text(number)), Some(number));
    }
}

#[test]
fn texts_are_compared_by_their_characters() {
    assert!(same_text("", ""));
    assert!(same_text("abc", "abc"));
    assert!(!same_text("abc", "abd"));
    assert!(!same_text("abc", "ab"));
    assert_eq!(chars_of("a\u{e9}\u{1F4E5}"), vec!['a', '\u{e9}', '\u{1F4E5}']);
    assert!(chars_of("").is_empty());
}
