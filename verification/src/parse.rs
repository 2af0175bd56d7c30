//! The line-oriented entries: a line that begins with `#@` holds one entry,
//! its fields parted by single spaces.

use crate::text::{chars_of, is_word, span, span_len, string_of, tail, CharClass};
use vstd::prelude::*;

verus! {

pub const ENTRY_MARK: &'static str = "#@";

pub const NAME_ENTRY: &'static str = "#@name";

pub const DESCRIPTION_ENTRY: &'static str = "#@description";

pub const ARGUMENT_ENTRY: &'static str = "#@argument";

pub const ANY_ARG_ENTRY: &'static str = "#@anyarg";

pub const OPTION_ENTRY: &'static str = "#@option";

pub const TRUE: &'static str = "true";

/// One entry of a script's description.
#[derive(Debug, PartialEq)]
pub enum DocEntry {
    Name(String),
    Description(String),
    Argument(String),
    Option(String, bool, String),
    AnyArg,
}

/// One entry, its texts as character sequences.
pub enum DocEntryView {
    Name(Seq<char>),
    Description(Seq<char>),
    Argument(Seq<char>),
    Option(Seq<char>, bool, Seq<char>),
    AnyArg,
}

impl View for DocEntry {
    type V = DocEntryView;

    open spec fn view(&self) -> DocEntryView {
        match *self {
            DocEntry::Name(name) => DocEntryView::Name(name@),
            DocEntry::Description(text) => DocEntryView::Description(text@),
            DocEntry::Argument(name) => DocEntryView::Argument(name@),
            DocEntry::Option(name, has_arg, text) => DocEntryView::Option(name@, has_arg, text@),
            DocEntry::AnyArg => DocEntryView::AnyArg,
        }
    }
}

/// The view of an entry that may be missing.
pub open spec fn entry_view(entry: Option<DocEntry>) -> Option<DocEntryView> {
    match entry {
        Some(entry) => Some(entry@),
        None => None,
    }
}

/// The views of a list of entries.
pub open spec fn entries_view(entries: Seq<DocEntry>) -> Seq<DocEntryView> {
    Seq::new(entries.len(), |i: int| entries[i]@)
}

/// The texts of a list of lines.
pub open spec fn lines_view(lines: Seq<String>) -> Seq<Seq<char>> {
    Seq::new(lines.len(), |i: int| lines[i]@)
}

/// The first field of `s`: what stands before its first space, or all of `s`
/// where it holds no space.
pub open spec fn first_field(s: Seq<char>) -> Seq<char> {
    s.take(span_len(s, CharClass::Field) as int)
}

/// What stands behind the first space of `s`; none where `s` holds no space.
pub open spec fn after_first_field(s: Seq<char>) -> Option<Seq<char>> {
    let n = span_len(s, CharClass::Field) as int;
    if n < s.len() {
        Some(s.skip(n + 1))
    } else {
        None
    }
}

/// The option entry that `value` describes: a name, a field that says whether
/// the option takes an argument (it does where the field is `true`, and does
/// not for any other text), and a description. None where one of the three is
/// missing.
pub open spec fn option_entry_of(value: Seq<char>) -> Option<DocEntryView> {
    match after_first_field(value) {
        Some(rest) => match after_first_field(rest) {
            Some(text) => Some(DocEntryView::Option(first_field(value), first_field(rest) == TRUE@, text)),
            None => None,
        },
        None => None,
    }
}

/// The entry that `line` holds. Its first field says which; what stands behind
/// the first space is the entry's value. None where the first field is none of
/// the five marks, or where the value that the mark asks for is missing.
pub open spec fn doc_entry_of(line: Seq<char>) -> Option<DocEntryView> {
    let mark = first_field(line);
    let value = after_first_field(line);
    if mark == NAME_ENTRY@ {
        match value {
            Some(name) => Some(DocEntryView::Name(name)),
            None => None,
        }
    } else if mark == DESCRIPTION_ENTRY@ {
        match value {
            Some(text) => Some(DocEntryView::Description(text)),
            None => None,
        }
    } else if mark == ARGUMENT_ENTRY@ {
        match value {
            Some(name) => Some(DocEntryView::Argument(name)),
            None => None,
        }
    } else if mark == ANY_ARG_ENTRY@ {
        Some(DocEntryView::AnyArg)
    } else if mark == OPTION_ENTRY@ {
        match value {
            Some(value) => option_entry_of(value),
            None => None,
        }
    } else {
        None
    }
}

/// Whether `line` begins with the two characters that mark an entry.
pub open spec fn is_entry_line(line: Seq<char>) -> bool {
    line.len() >= ENTRY_MARK@.len() && line.take(ENTRY_MARK@.len() as int) == ENTRY_MARK@
}

/// Whether every line that is marked as an entry holds one.
pub open spec fn are_entries(lines: Seq<Seq<char>>) -> bool {
    forall|i: int|
        0 <= i < lines.len() && is_entry_line(#[trigger] lines[i]) ==> doc_entry_of(lines[i]) is Some
}

/// The entries of the marked lines among `lines`, in the order of the lines.
pub open spec fn entries_of(lines: Seq<Seq<char>>) -> Seq<DocEntryView>
    recommends
        are_entries(lines),
    decreases lines.len(),
{
    if lines.len() == 0 {
        Seq::empty()
    } else {
        let before = entries_of(lines.drop_last());
        if is_entry_line(lines.last()) {
            before.push(doc_entry_of(lines.last()).unwrap())
        } else {
            before
        }
    }
}

/// The first field of `input` and, where a space follows it, what stands
/// behind that space.
fn split_field(input: &[char]) -> (r: (&[char], Option<&[char]>))
    ensures
        r.0@ == first_field(input@),
        match r.1 {
            Some(rest) => after_first_field(input@) == Some(rest@),
            None => after_first_field(input@) is None,
        },
{
    let n: usize = span(input, CharClass::Field);
    let field = &input[0..n];
    if n < input.len() {
        (field, Some(tail(input, n + 1)))
    } else {
        (field, None)
    }
}

/// Reads the value of an option entry.
fn read_option_entry(value: &[char]) -> (r: Option<DocEntry>)
    ensures
        entry_view(r) == option_entry_of(value@),
{
    let (name, rest) = split_field(value);
    match rest {
        Some(rest) => {
            let (has_arg, text) = split_field(rest);
            match text {
                Some(text) => Some(
                    DocEntry::Option(string_of(name), is_word(has_arg, TRUE), string_of(text)),
                ),
                None => None,
            }
        },
        None => None,
    }
}

/// Reads the entry that `line` holds, if it holds one.
pub fn read_doc_entry(line: &[char]) -> (r: Option<DocEntry>)
    ensures
        entry_view(r) == doc_entry_of(line@),
{
    let (mark, value) = split_field(line);
    if is_word(mark, NAME_ENTRY) {
        match value {
            Some(name) => Some(DocEntry::Name(string_of(name))),
            None => None,
        }
    } else if is_word(mark, DESCRIPTION_ENTRY) {
        match value {
            Some(text) => Some(DocEntry::Description(string_of(text))),
            None => None,
        }
    } else if is_word(mark, ARGUMENT_ENTRY) {
        match value {
            Some(name) => Some(DocEntry::Argument(string_of(name))),
            None => None,
        }
    } else if is_word(mark, ANY_ARG_ENTRY) {
        Some(DocEntry::AnyArg)
    } else if is_word(mark, OPTION_ENTRY) {
        match value {
            Some(value) => read_option_entry(value),
            None => None,
        }
    } else {
        None
    }
}

/// Whether `line` begins with the two characters that mark an entry.
pub fn starts_entry(line: &[char]) -> (r: bool)
    ensures
        r == is_entry_line(line@),
{
    let n: usize = ENTRY_MARK.unicode_len();
    line.len() >= n && is_word(&line[0..n], ENTRY_MARK)
}

/// The entry that `line` holds.
pub fn to_doc_entry(line: String) -> (r: DocEntry)
    requires
        doc_entry_of(line@) is Some,
    ensures
        Some(r@) == doc_entry_of(line@),
{
    let chars = chars_of(line.as_str());
    read_doc_entry(chars.as_slice()).unwrap()
}

/// The entries of the marked lines among `lines`, in the order of the lines.
pub fn doc_entries(lines: &Vec<String>) -> (r: Vec<DocEntry>)
    requires
        are_entries(lines_view(lines@)),
    ensures
        entries_view(r@) == entries_of(lines_view(lines@)),
{
    let ghost all = lines_view(lines@);
    let mut entries: Vec<DocEntry> = Vec::new();
    let mut i: usize = 0;
    while i < lines.len()
        invariant
            i <= lines@.len(),
            all == lines_view(lines@),
            are_entries(all),
            entries_view(entries@) == entries_of(all.take(i as int)),
        decreases lines@.len() - i,
    {
        let ghost now = all.take(i + 1);
        assert(now.drop_last() == all.take(i as int));
        let chars = chars_of(lines[i].as_str());
        if starts_entry(chars.as_slice()) {
            match read_doc_entry(chars.as_slice()) {
                Some(entry) => {
                    entries.push(entry);
                },
                None => {},
            }
        }
        i += 1;
    }
    assert(all.take(all.len() as int) == all);
    entries
}

} // verus!
