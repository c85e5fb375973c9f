use registry_probe::text::{
    char_is_whitespace, find_char, has_prefix_at, same_ignoring_ascii_case, skip_whitespace,
    skip_whitespace_back, to_chars,
};

#[test]
fn whitespace_is_the_unicode_property() {
    for c in [
        '\t', '\n', '\u{b}', '\u{c}', '\r', ' ', '\u{85}', '\u{a0}', '\u{1680}', '\u{2000}',
        '\u{2005}', '\u{200a}', '\u{2028}', '\u{2029}', '\u{202f}', '\u{205f}', '\u{3000}',
    ] {
        assert!(char_is_whitespace(c), "{:?}", c);
    }
    for c in ['a', '"', '=', ',', '\u{8}', '\u{e}', '\u{1f}', '\u{200b}', '\u{180e}', '\u{feff}', '\0'] {
        assert!(!char_is_whitespace(c), "{:?}", c);
    }
}

#[test]
fn whitespace_agrees_with_std_on_every_char() {
    let mut code: u32 = 0;
    while code <= 0x10ffff {
        if let Some(c) = char::from_u32(code) {
            assert_eq!(char_is_whitespace(c), c.is_whitespace(), "{:?}", c);
        }
        code += 1;
    }
}

#[test]
fn chars_are_the_chars_of_the_str() {
    assert_eq!(to_chars(""), Vec::<char>::new());
    assert_eq!(to_chars("a=日"), vec!['a', '=', '日']);
}

#[test]
fn skipping_stops_at_the_first_other_char() {
    let chars = to_chars("  \t ab  c ");
    assert_eq!(skip_whitespace(&chars, 0, chars.len()), 4);
    assert_eq!(skip_whitespace(&chars, 4, chars.len()), 4);
    assert_eq!(skip_whitespace(&chars, 6, chars.len()), 8);
    assert_eq!(skip_whitespace(&chars, 0, 2), 2);
    assert_eq!(skip_whitespace(&chars, 9, chars.len()), 10);
    assert_eq!(skip_whitespace(&chars, 10, 10), 10);
}

#[test]
fn skipping_back_stops_after_the_last_other_char() {
    let chars = to_chars("  ab  c \u{3000}");
    assert_eq!(skip_whitespace_back(&chars, 0, chars.len()), 7);
    assert_eq!(skip_whitespace_back(&chars, 0, 6), 4);
    assert_eq!(skip_whitespace_back(&chars, 0, 2), 0);
    assert_eq!(skip_whitespace_back(&chars, 1, 2), 1);
    assert_eq!(skip_whitespace_back(&chars, 4, 6), 4);
}

#[test]
fn prefix_is_tested_inside_the_window() {
    let chars = to_chars("xxrealm=");
    let key = to_chars("realm");
    assert!(has_prefix_at(&chars, 2, chars.len(), &key));
    assert!(has_prefix_at(&chars, 2, 7, &key));
    assert!(!has_prefix_at(&chars, 2, 6, &key));
    assert!(!has_prefix_at(&chars, 1, chars.len(), &key));
    assert!(!has_prefix_at(&chars, 8, 8, &key));
    assert!(has_prefix_at(&chars, 8, 8, &[]));
}

#[test]
fn find_gives_the_first_position_or_the_length() {
    let chars = to_chars("a,b,,c");
    assert_eq!(find_char(&chars, 0, ','), 1);
    assert_eq!(find_char(&chars, 1, ','), 1);
    assert_eq!(find_char(&chars, 2, ','), 3);
    assert_eq!(find_char(&chars, 4, ','), 4);
    assert_eq!(find_char(&chars, 5, ','), 6);
    assert_eq!(find_char(&chars, 6, ','), 6);
    assert_eq!(find_char(&chars, 0, ';'), 6);
}

#[test]
fn ascii_case_is_ignored_and_nothing_else() {
    assert!(same_ignoring_ascii_case("Docker-Content-Digest", "docker-content-digest"));
    assert!(same_ignoring_ascii_case("WWW-AUTHENTICATE", "www-authenticate"));
    assert!(same_ignoring_ascii_case("", ""));
    assert!(!same_ignoring_ascii_case("docker-content-digest", "docker-content-digests"));
    assert!(!same_ignoring_ascii_case("docker_content_digest", "docker-content-digest"));
    assert!(!same_ignoring_ascii_case("É", "é"));
    assert!(!same_ignoring_ascii_case("@", "`"));
    assert!(!same_ignoring_ascii_case("[", "{"));
    assert!(same_ignoring_ascii_case("aZ", "Az"));
}
