use easy_cli::text::{
    chars_of, equals_ignore_case, is_word, line_of, skip_whitespace, skip_whitespace_end, span,
    string_of, tail, to_ascii_lower, trim, CharClass,
};

#[test]
fn chars_and_strings_convert_both_ways() {
    assert_eq!(chars_of("a\u{f6}\u{1f600}"), vec!['a', '\u{f6}', '\u{1f600}']);
    assert_eq!(chars_of(""), Vec::<char>::new());
    assert_eq!(string_of(&['x', '\u{e9}', '\n']), "x\u{e9}\n");
    assert_eq!(string_of(&[]), "");
    assert_eq!(string_of(&chars_of("round trip")), "round trip");
}

#[test]
fn classes_hold_what_they_say() {
    for c in [' ', '\t', '\r', '\n'] {
        assert!(CharClass::Whitespace.contains(c));
        assert!(!CharClass::Word.contains(c));
        assert!(!CharClass::Keyword.contains(c));
    }
    for c in ['a', '#', '@', '\u{a0}', '\u{2003}'] {
        assert!(!CharClass::Whitespace.contains(c));
        assert!(CharClass::Word.contains(c));
        assert!(CharClass::Keyword.contains(c));
    }
    assert!(CharClass::Word.contains('-'));
    assert!(!CharClass::Keyword.contains('-'));
    assert!(!CharClass::Line.contains('\r'));
    assert!(!CharClass::Line.contains('\n'));
    assert!(CharClass::Line.contains(' '));
    assert!(CharClass::Line.contains('\t'));
    assert!(!CharClass::Field.contains(' '));
    assert!(CharClass::Field.contains('\t'));
    assert!(CharClass::Field.contains('\n'));
}

#[test]
fn span_is_the_length_of_the_leading_run() {
    assert_eq!(span(&chars_of(""), CharClass::Word), 0);
    assert_eq!(span(&chars_of("abc def"), CharClass::Word), 3);
    assert_eq!(span(&chars_of("abc"), CharClass::Word), 3);
    assert_eq!(span(&chars_of(" abc"), CharClass::Word), 0);
    assert_eq!(span(&chars_of(" \t\r\n x "), CharClass::Whitespace), 5);
    assert_eq!(span(&chars_of("ab-cd"), CharClass::Keyword), 2);
    assert_eq!(span(&chars_of("one\ntwo"), CharClass::Line), 3);
    assert_eq!(span(&chars_of("one\rtwo"), CharClass::Line), 3);
    assert_eq!(span(&chars_of("a b"), CharClass::Field), 1);
}

#[test]
fn line_of_stops_at_the_first_line_end() {
    assert_eq!(string_of(line_of(&chars_of("one\ntwo\n"))), "one");
    assert_eq!(string_of(line_of(&chars_of("one\r\ntwo"))), "one");
    assert_eq!(string_of(line_of(&chars_of("one"))), "one");
    assert_eq!(string_of(line_of(&chars_of("\none"))), "");
    assert_eq!(string_of(line_of(&chars_of(""))), "");
}

#[test]
fn trimming_takes_whitespace_from_the_ends() {
    assert_eq!(string_of(skip_whitespace(&chars_of(" \t a b \t"))), "a b \t");
    assert_eq!(string_of(skip_whitespace_end(&chars_of(" \t a b \t"))), " \t a b");
    assert_eq!(string_of(trim(&chars_of(" \t a b \t"))), "a b");
    assert_eq!(string_of(trim(&chars_of(" \t "))), "");
    assert_eq!(string_of(trim(&chars_of(""))), "");
    assert_eq!(string_of(trim(&chars_of("\u{a0}x\u{a0}"))), "\u{a0}x\u{a0}");
    assert_eq!(string_of(tail(&chars_of("abc"), 1)), "bc");
    assert_eq!(string_of(tail(&chars_of("abc"), 3)), "");
}

#[test]
fn only_ascii_capitals_are_lowered() {
    assert_eq!(to_ascii_lower('A'), 'a');
    assert_eq!(to_ascii_lower('Z'), 'z');
    assert_eq!(to_ascii_lower('a'), 'a');
    assert_eq!(to_ascii_lower('@'), '@');
    assert_eq!(to_ascii_lower('['), '[');
    assert_eq!(to_ascii_lower('\u{c4}'), '\u{c4}');
    assert_eq!(to_ascii_lower('\u{212a}'), '\u{212a}');
}

#[test]
fn words_compare_with_and_without_case() {
    assert!(equals_ignore_case(&chars_of("TrUe"), "true"));
    assert!(equals_ignore_case(&chars_of("true"), "TRUE"));
    assert!(!equals_ignore_case(&chars_of("true "), "true"));
    assert!(!equals_ignore_case(&chars_of("tru"), "true"));
    assert!(!equals_ignore_case(&chars_of("trve"), "true"));
    assert!(equals_ignore_case(&chars_of(""), ""));
    assert!(!equals_ignore_case(&chars_of("\u{212a}"), "k"));

    assert!(is_word(&chars_of("name"), "name"));
    assert!(!is_word(&chars_of("Name"), "name"));
    assert!(!is_word(&chars_of("names"), "name"));
    assert!(!is_word(&chars_of("nam"), "name"));
    assert!(is_word(&chars_of(""), ""));
}
