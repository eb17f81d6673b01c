use devenv::text::{
    borrowed, cat, cat3, char_is_space, chars_of, ends_with_separator, eq_ignoring_case, join,
    list_has, owned, push_text, same, strip_quotes, trim,
};

#[test]
fn white_space_is_what_unicode_calls_white_space() {
    let mut n: u32 = 0;
    while n <= 0x10FFFF {
        if let Some(c) = char::from_u32(n) {
            assert_eq!(char_is_space(c), c.is_whitespace(), "code point {:#x}", n);
        }
        n += 1;
    }
    assert!(char_is_space(' '));
    assert!(char_is_space('\u{3000}'));
    assert!(!char_is_space('\u{FEFF}'));
    assert!(!char_is_space('\u{200B}'));
}

#[test]
fn chars_of_lists_every_character() {
    assert_eq!(chars_of("añ;b"), vec!['a', 'ñ', ';', 'b']);
    assert_eq!(chars_of(""), Vec::<char>::new());
}

#[test]
fn trim_removes_white_space_on_both_sides() {
    assert_eq!(trim("  C:\\pgsql \r\n"), "C:\\pgsql");
    assert_eq!(trim("C:\\Program Files\\nodejs"), "C:\\Program Files\\nodejs");
    assert_eq!(trim("\u{3000}a\u{00A0}"), "a");
    assert_eq!(trim(" \t\r\n "), "");
    assert_eq!(trim(""), "");
    assert_eq!(trim("x"), "x");
}

#[test]
fn trim_agrees_with_the_standard_library() {
    let samples = [
        "",
        " ",
        "a",
        " a",
        "a ",
        " a b ",
        "\t\tSI\n",
        "\u{2003}é \u{2028}",
        "\u{0085}x\u{0085}",
        "  \"C:\\x y\"  ",
    ];
    for s in samples {
        assert_eq!(trim(s), s.trim());
    }
}

#[test]
fn strip_quotes_removes_one_layer() {
    assert_eq!(strip_quotes("\"C:\\my tools\""), "C:\\my tools");
    assert_eq!(strip_quotes("\"\"a\"\""), "\"a\"");
    assert_eq!(strip_quotes("C:\\x"), "C:\\x");
    assert_eq!(strip_quotes("\"C:\\x"), "C:\\x");
    assert_eq!(strip_quotes("C:\\x\""), "C:\\x");
    assert_eq!(strip_quotes("\""), "");
    assert_eq!(strip_quotes("\"\""), "");
    assert_eq!(strip_quotes(""), "");
    assert_eq!(strip_quotes("a\"b"), "a\"b");
}

#[test]
fn letter_case_is_ignored_for_ascii_only() {
    assert!(eq_ignoring_case("C:\\Tools\\bin", "c:\\tools\\BIN"));
    assert!(eq_ignoring_case("", ""));
    assert!(!eq_ignoring_case("C:\\Tools\\bin", "C:\\Tools\\bin2"));
    assert!(!eq_ignoring_case("C:\\Tools", "C:/Tools"));
    assert!(!eq_ignoring_case("É", "é"));
    assert!(!eq_ignoring_case("@", "`"));
    assert!(!eq_ignoring_case("[", "{"));
    let samples = ["", "a", "A", "Z", "z", "[", "{", "@", "`", "aB", "Ab", "ñ", "Ñ", "ab"];
    for a in samples {
        for b in samples {
            assert_eq!(eq_ignoring_case(a, b), a.eq_ignore_ascii_case(b), "{:?} {:?}", a, b);
        }
    }
}

#[test]
fn same_compares_whole_texts() {
    assert!(same("--force", "--force"));
    assert!(!same("--force", "--Force"));
    assert!(!same("--force", "--forc"));
    assert!(!same("", "a"));
    assert!(same("", ""));
}

#[test]
fn list_entries_are_bounded_by_semicolons() {
    assert!(list_has("A;B;C", "b"));
    assert!(list_has("A;B;C", "A"));
    assert!(list_has("A;B;C", "c"));
    assert!(!list_has("A;B;C", "A;B"));
    assert!(!list_has("AB;C", "B"));
    assert!(!list_has("AB;C", "A"));
    assert!(list_has("A;;C", ""));
    assert!(list_has("A;", ""));
    assert!(list_has(";A", ""));
    assert!(list_has("", ""));
    assert!(!list_has("A", ""));
    assert!(!list_has("", "A"));
}

#[test]
fn list_has_agrees_with_split() {
    let lists = ["", ";", "a", "a;", ";a", "a;b", "A;b;;C", "ab;c", "a;bc", "x;y;z;"];
    let items = ["", "a", "A", "b", "c", "ab", "bc", "z", "a;b"];
    for l in lists {
        for i in items {
            let expected = l.split(';').any(|p| p.eq_ignore_ascii_case(i));
            assert_eq!(list_has(l, i), expected, "{:?} {:?}", l, i);
        }
    }
}

#[test]
fn join_puts_one_backslash_between() {
    assert_eq!(join("C:\\pgsql", "bin"), "C:\\pgsql\\bin");
    assert_eq!(join("C:\\pgsql\\", "bin"), "C:\\pgsql\\bin");
    assert_eq!(join("C:/pgsql/", "bin"), "C:/pgsql/bin");
    assert_eq!(join("", "bin"), "bin");
    assert_eq!(join("C:\\pgsql", ""), "C:\\pgsql\\");
    assert_eq!(join("C:\\pgsql", "bin\\postgres.exe"), "C:\\pgsql\\bin\\postgres.exe");
    assert_eq!(join(&join("D:\\w", "logs"), "postgres.log"), "D:\\w\\logs\\postgres.log");
}

#[test]
fn separators_are_backslash_and_slash() {
    assert!(ends_with_separator("C:\\"));
    assert!(ends_with_separator("C:/"));
    assert!(!ends_with_separator("C:"));
    assert!(!ends_with_separator(""));
}

#[test]
fn texts_are_put_together_in_order() {
    assert_eq!(owned("abc"), "abc");
    assert_eq!(cat("ab", "cd"), "abcd");
    assert_eq!(cat3("a", "", "c"), "ac");
    let mut list = vec!["a".to_string()];
    push_text(&mut list, "b".to_string());
    assert_eq!(list, vec!["a", "b"]);
    assert_eq!(borrowed(&Some("x".to_string())), Some("x"));
    assert_eq!(borrowed(&None), None);
}

#[test]
fn trimming_twice_changes_nothing() {
    for s in ["", "  a  ", "\t a b \n", "\u{2003}x", " \"q\" "] {
        let once = trim(s);
        assert_eq!(trim(&once), once);
    }
}
