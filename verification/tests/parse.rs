use easy_cli::parse::{doc_entries, read_doc_entry, starts_entry, to_doc_entry, DocEntry};
use easy_cli::text::chars_of;

fn lines(text: &str) -> Vec<String> {
    text.lines().map(|line| line.to_string()).collect()
}

#[test]
fn parses_description() {
    let input = lines("name: foo\n# hello \n#@description bar");
    let result = doc_entries(&input);

    assert_eq!(result.len(), 1);
    assert_eq!(result[0], DocEntry::Description("bar".to_owned()));
}

#[test]
fn parses_options() {
    let input = lines("name: foo\n# hello \n#@option stop false Stops the world.\n");
    let result = doc_entries(&input);

    assert_eq!(result.len(), 1);
    assert_eq!(
        result[0],
        DocEntry::Option("stop".to_owned(), false, "Stops the world.".to_owned())
    );
}

#[test]
fn parses_every_kind_in_order() {
    let input = lines(
        "#@name tool\n#@description Does things\n#@argument file\n#@anyarg\n#@option all true Takes all\n",
    );
    let result = doc_entries(&input);

    assert_eq!(
        result,
        vec![
            DocEntry::Name("tool".to_owned()),
            DocEntry::Description("Does things".to_owned()),
            DocEntry::Argument("file".to_owned()),
            DocEntry::AnyArg,
            DocEntry::Option("all".to_owned(), true, "Takes all".to_owned()),
        ]
    );
}

#[test]
fn option_takes_an_argument_only_for_true() {
    assert_eq!(
        to_doc_entry("#@option a True b".to_owned()),
        DocEntry::Option("a".to_owned(), false, "b".to_owned())
    );
    assert_eq!(
        to_doc_entry("#@option a yes b c".to_owned()),
        DocEntry::Option("a".to_owned(), false, "b c".to_owned())
    );
    assert_eq!(
        to_doc_entry("#@option a true ".to_owned()),
        DocEntry::Option("a".to_owned(), true, "".to_owned())
    );
}

#[test]
fn value_is_all_behind_the_first_space() {
    assert_eq!(
        to_doc_entry("#@name  two words ".to_owned()),
        DocEntry::Name(" two words ".to_owned())
    );
    assert_eq!(to_doc_entry("#@anyarg ignored".to_owned()), DocEntry::AnyArg);
}

#[test]
fn read_doc_entry_refuses_what_is_no_entry() {
    assert_eq!(read_doc_entry(&chars_of("#@name")), None);
    assert_eq!(read_doc_entry(&chars_of("#@option a")), None);
    assert_eq!(read_doc_entry(&chars_of("#@option a true")), None);
    assert_eq!(read_doc_entry(&chars_of("#@other x")), None);
    assert_eq!(read_doc_entry(&chars_of("#@name\tx")), None);
    assert_eq!(read_doc_entry(&chars_of("name x")), None);
    assert_eq!(read_doc_entry(&chars_of("")), None);
}

#[test]
fn starts_entry_looks_at_the_first_two_characters() {
    assert!(starts_entry(&chars_of("#@")));
    assert!(starts_entry(&chars_of("#@name x")));
    assert!(!starts_entry(&chars_of("#")));
    assert!(!starts_entry(&chars_of(" #@name x")));
    assert!(!starts_entry(&chars_of("# @name x")));
    assert!(!starts_entry(&chars_of("")));
}

#[test]
fn unmarked_lines_are_passed_over() {
    let input = lines("# @name x\n #@name y\nname\n\n#@anyarg");
    assert_eq!(doc_entries(&input), vec![DocEntry::AnyArg]);
    assert_eq!(doc_entries(&Vec::new()), Vec::new());
}
