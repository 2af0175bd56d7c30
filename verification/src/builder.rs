//! The annotation grammar and the command it describes.
//!
//! A script carries its description in comment lines: `#`, then `@`, then a
//! keyword and what the keyword asks for. A text is read line by line into a
//! stream of tags, the stream is cut into groups at every `sub` tag, and the
//! groups are folded into a command with its nested commands.

use crate::model::{
    arg_type_of, args_view, commands_view, options_view, text_view, ArgType, Command, CommandArg,
    CommandArgView, CommandOption, CommandOptionView, CommandView, EmbeddedCommand, Model,
    ScriptCommand,
};
use crate::text::{
    after_first_word, chars_of, eq_ignore_case, equals_ignore_case, first_line, first_word,
    is_span, is_word, lemma_span_len, lemma_span_unique, line_of, skip_whitespace, span, span_len,
    string_of, tail, trim, trim_start, trimmed, CharClass,
};
use std::path::PathBuf;
use vstd::prelude::*;

verus! {

pub const TRUE: &'static str = "true";

pub const FALSE: &'static str = "false";

pub const IGNORE_TAG: &'static str = "ignore";

pub const SUB_TAG: &'static str = "sub";

pub const NAME_TAG: &'static str = "name";

pub const ABOUT_TAG: &'static str = "about";

pub const ARG_TAG: &'static str = "arg";

pub const VAR_ARG_TAG: &'static str = "vararg";

pub const OPT_TAG: &'static str = "opt";

/// The payload of a `name` tag: the name the command goes by.
#[derive(Debug, Clone, PartialEq)]
pub struct NameTag {
    pub name: String,
}

impl NameTag {
    pub fn new(name: String) -> (r: Self)
        ensures
            r.name == name,
    {
        NameTag { name }
    }
}

/// The payload of a `sub` tag: the name of a nested command. `path` is kept for
/// a script of its own and is not read by anything yet.
#[derive(Debug, Clone, PartialEq)]
pub struct SubTag {
    pub name: String,
    pub path: Option<String>,
}

impl SubTag {
    pub fn new(name: String, path: Option<String>) -> (r: Self)
        ensures
            r.name == name,
            r.path == path,
    {
        SubTag { name, path }
    }
}

/// The payload of an `about` tag: a description.
#[derive(Debug, Clone, PartialEq)]
pub struct AboutTag {
    pub text: String,
}

impl AboutTag {
    pub fn new(text: String) -> (r: Self)
        ensures
            r.text == text,
    {
        AboutTag { text }
    }
}

/// One annotation, as read from a single comment line.
#[derive(Debug, Clone, PartialEq)]
pub enum DocTag {
    Ignore,
    Name(NameTag),
    Sub(SubTag),
    About(AboutTag),
    Arg(CommandArg),
    Opt(CommandOption),
}

/// One annotation, its texts as character sequences.
pub enum DocTagView {
    Ignore,
    Name { name: Seq<char> },
    Sub { name: Seq<char>, path: Option<Seq<char>> },
    About { text: Seq<char> },
    Arg(CommandArgView),
    Opt(CommandOptionView),
}

impl View for DocTag {
    type V = DocTagView;

    open spec fn view(&self) -> DocTagView {
        match *self {
            DocTag::Ignore => DocTagView::Ignore,
            DocTag::Name(tag) => DocTagView::Name { name: tag.name@ },
            DocTag::Sub(tag) => DocTagView::Sub { name: tag.name@, path: text_view(tag.path) },
            DocTag::About(tag) => DocTagView::About { text: tag.text@ },
            DocTag::Arg(arg) => DocTagView::Arg(arg@),
            DocTag::Opt(option) => DocTagView::Opt(option@),
        }
    }
}

/// The view of a tag that may be missing.
pub open spec fn tag_view(tag: Option<DocTag>) -> Option<DocTagView> {
    match tag {
        Some(tag) => Some(tag@),
        None => None,
    }
}

/// The views of a stream of tags.
pub open spec fn tags_view(tags: Seq<DocTag>) -> Seq<DocTagView> {
    Seq::new(tags.len(), |i: int| tags[i]@)
}

/// The views of a list of groups.
pub open spec fn groups_view(groups: Seq<Vec<DocTag>>) -> Seq<Seq<DocTagView>> {
    Seq::new(groups.len(), |i: int| tags_view(groups[i]@))
}

// ---------------------------------------------------------------------------
// Details of `arg` and `opt` tags
// ---------------------------------------------------------------------------

/// The boolean that `word` spells: `true` or `false`, in any mix of cases.
pub open spec fn bool_literal(word: Seq<char>) -> Option<bool> {
    if eq_ignore_case(word, TRUE@) {
        Some(true)
    } else if eq_ignore_case(word, FALSE@) {
        Some(false)
    } else {
        None
    }
}

/// The kind that `word` names as a type token: a name of at least one
/// character between `<` and `>`.
pub open spec fn type_token(word: Seq<char>) -> Option<ArgType> {
    if word.len() >= 3 && word[0] == '<' && word.last() == '>' {
        Some(arg_type_of(word.subrange(1, word.len() - 1)))
    } else {
        None
    }
}

/// The character that `word` gives as a short flag: one character between two
/// single quotes.
pub open spec fn short_flag(word: Seq<char>) -> Option<char> {
    if word.len() == 3 && word[0] == '\'' && word[2] == '\'' {
        Some(word[1])
    } else {
        None
    }
}

/// What is left of `s` behind an optional field: what follows the first word
/// where the field was found in it, all of `s` where it was not.
pub open spec fn after_field<T>(found: Option<T>, s: Seq<char>) -> Seq<char> {
    if found is Some {
        after_first_word(s)
    } else {
        s
    }
}

/// The description that `s` holds: `s` without the whitespace at its two ends,
/// or none where nothing is left.
pub open spec fn description_of(s: Seq<char>) -> Option<Seq<char>> {
    let text = trimmed(s);
    if text.len() > 0 {
        Some(text)
    } else {
        None
    }
}

/// The argument that the details behind its name describe. The details are
/// read word by word: a first word that is a boolean literal says whether the
/// argument is optional (it is not where the word is missing); the next word,
/// if it is a type token, gives the type (`Unknown` where it is missing); what
/// is left is the description.
pub open spec fn arg_details_of(name: Seq<char>, var_arg: bool, details: Seq<char>) -> CommandArgView {
    let optional = bool_literal(first_word(details));
    let rest = after_field(optional, details);
    let arg_type = type_token(first_word(rest));
    CommandArgView {
        name,
        optional: match optional {
            Some(value) => value,
            None => false,
        },
        var_arg,
        arg_type: match arg_type {
            Some(kind) => kind,
            None => ArgType::Unknown,
        },
        description: description_of(after_field(arg_type, rest)),
    }
}

/// The option that the details behind its name describe. The details are read
/// word by word: a first word that is a short flag gives the flag; the next
/// word, if it is a boolean literal, says whether the option has a parameter
/// (it has none where the word is missing); what is left is the description.
pub open spec fn opt_details_of(name: Seq<char>, details: Seq<char>) -> CommandOptionView {
    let short = short_flag(first_word(details));
    let rest = after_field(short, details);
    let has_param = bool_literal(first_word(rest));
    CommandOptionView {
        name,
        short,
        has_param: match has_param {
            Some(value) => value,
            None => false,
        },
        description: description_of(after_field(has_param, rest)),
    }
}

/// Reads a boolean literal as the first word of `input`: its value and what
/// follows the word.
pub fn padded_bool(input: &[char]) -> (r: Option<(bool, &[char])>)
    ensures
        match r {
            Some((value, rest)) => bool_literal(first_word(input@)) == Some(value) && rest@
                == after_first_word(input@),
            None => bool_literal(first_word(input@)) is None,
        },
{
    let (word, rest) = split_first_word(input);
    if equals_ignore_case(word, TRUE) {
        Some((true, rest))
    } else if equals_ignore_case(word, FALSE) {
        Some((false, rest))
    } else {
        None
    }
}

/// Reads a boolean literal as the first word of `input`; where there is none,
/// the value is `false` and nothing of `input` is taken.
pub fn padded_bool_default_false(input: &[char]) -> (r: (bool, &[char]))
    ensures
        r.0 == match bool_literal(first_word(input@)) {
            Some(value) => value,
            None => false,
        },
        r.1@ == after_field(bool_literal(first_word(input@)), input@),
{
    match padded_bool(input) {
        Some(found) => found,
        None => (false, input),
    }
}

/// Reads a type token as the first word of `input`: the kind it names and what
/// follows the word.
pub fn arg_type(input: &[char]) -> (r: Option<(ArgType, &[char])>)
    ensures
        match r {
            Some((kind, rest)) => type_token(first_word(input@)) == Some(kind) && rest@
                == after_first_word(input@),
            None => type_token(first_word(input@)) is None,
        },
{
    let (word, rest) = split_first_word(input);
    let len: usize = word.len();
    if len >= 3 && word[0] == '<' && word[len - 1] == '>' {
        Some((ArgType::of_name(&word[1..len - 1]), rest))
    } else {
        None
    }
}

/// Reads a short flag as the first word of `input`: the character and what
/// follows the word.
pub fn short_option(input: &[char]) -> (r: Option<(char, &[char])>)
    ensures
        match r {
            Some((c, rest)) => short_flag(first_word(input@)) == Some(c) && rest@
                == after_first_word(input@),
            None => short_flag(first_word(input@)) is None,
        },
{
    let (word, rest) = split_first_word(input);
    if word.len() == 3 && word[0] == '\'' && word[2] == '\'' {
        Some((word[1], rest))
    } else {
        None
    }
}

/// The text of `rest`, or none where `rest` is empty.
pub fn none_if_empty(rest: &[char]) -> (r: Option<String>)
    ensures
        text_view(r) == if rest@.len() > 0 {
            Some(rest@)
        } else {
            None
        },
{
    if rest.len() > 0 {
        Some(string_of(rest))
    } else {
        None
    }
}

/// Reads the details of an `arg` or `vararg` tag, which follow its name.
pub fn arg_details(name: String, var_arg: bool, input: &[char]) -> (r: CommandArg)
    ensures
        r@ == arg_details_of(name@, var_arg, input@),
{
    let (optional, rest) = padded_bool_default_false(input);
    let (kind, rest) = match arg_type(rest) {
        Some(found) => found,
        None => (ArgType::Unknown, rest),
    };
    CommandArg::new(name, optional, var_arg, kind, none_if_empty(trim(rest)))
}

/// Reads the details of an `opt` tag, which follow its name.
pub fn opt_details(name: String, input: &[char]) -> (r: CommandOption)
    ensures
        r@ == opt_details_of(name@, input@),
{
    let (short, rest) = match short_option(input) {
        Some((c, rest)) => (Some(c), rest),
        None => (None, input),
    };
    let (has_param, rest) = padded_bool_default_false(rest);
    CommandOption::new(name, short, has_param, none_if_empty(trim(rest)))
}

/// The first word of `input` and what follows the word.
pub fn split_first_word(input: &[char]) -> (r: (&[char], &[char]))
    ensures
        r.0@ == first_word(input@),
        r.1@ == after_first_word(input@),
{
    let t = skip_whitespace(input);
    let n: usize = span(t, CharClass::Word);
    (&t[0..n], tail(t, n))
}

// ---------------------------------------------------------------------------
// Tags
// ---------------------------------------------------------------------------

/// The tag that an `ignore` keyword stands for, whatever follows it.
pub open spec fn ignore_tag_of(input: Seq<char>) -> Option<DocTagView> {
    Some(DocTagView::Ignore)
}

/// No tag: what follows a keyword that is not known.
pub open spec fn unknown_tag_of(input: Seq<char>) -> Option<DocTagView> {
    None
}

/// The `name` tag that the first line of `input` gives after the keyword: its
/// first word is the name, the rest of the line is not read. No tag where the
/// line holds no word.
pub open spec fn name_tag_of(input: Seq<char>) -> Option<DocTagView> {
    let name = first_word(first_line(input));
    if name.len() > 0 {
        Some(DocTagView::Name { name })
    } else {
        None
    }
}

/// The `sub` tag that the first line of `input` gives after the keyword: its
/// first word is the name, the rest of the line is not read, and there is no
/// path. No tag where the line holds no word.
pub open spec fn sub_tag_of(input: Seq<char>) -> Option<DocTagView> {
    let name = first_word(first_line(input));
    if name.len() > 0 {
        Some(DocTagView::Sub { name, path: None })
    } else {
        None
    }
}

/// The `about` tag that the first line of `input` gives after the keyword: the
/// whole line without its leading whitespace, which may be empty.
pub open spec fn about_tag_of(input: Seq<char>) -> Option<DocTagView> {
    Some(DocTagView::About { text: trim_start(first_line(input)) })
}

/// The `arg` or `vararg` tag that the first line of `input` gives after the
/// keyword: its first word is the name, the details follow. No tag where the
/// line holds no word.
pub open spec fn arg_tag_of(var_arg: bool, input: Seq<char>) -> Option<DocTagView> {
    let line = first_line(input);
    let name = first_word(line);
    if name.len() > 0 {
        Some(DocTagView::Arg(arg_details_of(name, var_arg, after_first_word(line))))
    } else {
        None
    }
}

/// The `opt` tag that the first line of `input` gives after the keyword: its
/// first word is the name, the details follow. No tag where the line holds no
/// word.
pub open spec fn opt_tag_of(input: Seq<char>) -> Option<DocTagView> {
    let line = first_line(input);
    let name = first_word(line);
    if name.len() > 0 {
        Some(DocTagView::Opt(opt_details_of(name, after_first_word(line))))
    } else {
        None
    }
}

/// What a keyword asks for.
#[derive(Debug, Clone, Copy)]
pub enum TagKind {
    Ignore,
    Name,
    Sub,
    About,
    Arg,
    VarArg,
    Opt,
    Unknown,
}

/// What the keyword `keyword` asks for: one of the seven kinds for the seven
/// keywords, `Unknown` for any other text.
pub open spec fn tag_kind_of(keyword: Seq<char>) -> TagKind {
    if keyword == IGNORE_TAG@ {
        TagKind::Ignore
    } else if keyword == NAME_TAG@ {
        TagKind::Name
    } else if keyword == SUB_TAG@ {
        TagKind::Sub
    } else if keyword == ABOUT_TAG@ {
        TagKind::About
    } else if keyword == ARG_TAG@ {
        TagKind::Arg
    } else if keyword == VAR_ARG_TAG@ {
        TagKind::VarArg
    } else if keyword == OPT_TAG@ {
        TagKind::Opt
    } else {
        TagKind::Unknown
    }
}

/// The tag that the first line of `input` gives, `input` starting at the
/// keyword. The keyword is the longest prefix of the line free of whitespace
/// and hyphens; what follows it on the line goes to the keyword's own reader.
pub open spec fn doc_tag_of(input: Seq<char>) -> Option<DocTagView> {
    let line = first_line(input);
    let k = span_len(line, CharClass::Keyword) as int;
    let rest = line.skip(k);
    match tag_kind_of(line.take(k)) {
        TagKind::Ignore => ignore_tag_of(rest),
        TagKind::Name => name_tag_of(rest),
        TagKind::Sub => sub_tag_of(rest),
        TagKind::About => about_tag_of(rest),
        TagKind::Arg => arg_tag_of(false, rest),
        TagKind::VarArg => arg_tag_of(true, rest),
        TagKind::Opt => opt_tag_of(rest),
        TagKind::Unknown => unknown_tag_of(rest),
    }
}

/// The tag that the first line of `input` gives, `input` starting behind the
/// comment character: after optional whitespace an `@` must come, and the tag
/// is what follows it. No tag otherwise.
pub open spec fn annotation_of(input: Seq<char>) -> Option<DocTagView> {
    let t = trim_start(first_line(input));
    if t.len() > 0 && t[0] == '@' {
        doc_tag_of(t.skip(1))
    } else {
        None
    }
}

/// The tag that the first line of `input` gives: after optional whitespace a
/// `#` must come, and the tag is the annotation behind it. No tag otherwise.
pub open spec fn line_tag_of(input: Seq<char>) -> Option<DocTagView> {
    let t = trim_start(first_line(input));
    if t.len() > 0 && t[0] == '#' {
        annotation_of(t.skip(1))
    } else {
        None
    }
}

/// The tags of a text, line by line and in order. A line ends at a carriage
/// return, at a line feed or where the text ends; a line without a tag adds
/// nothing.
pub open spec fn tags_of(text: Seq<char>) -> Seq<DocTagView>
    decreases text.len(),
{
    if text.len() == 0 {
        Seq::empty()
    } else {
        let n = span_len(text, CharClass::Line) as int;
        let rest = if n < text.len() {
            tags_of(text.skip(n + 1))
        } else {
            Seq::empty()
        };
        match line_tag_of(text) {
            Some(tag) => seq![tag] + rest,
            None => rest,
        }
    }
}

/// The identifier at the front of `input`: its longest prefix free of
/// whitespace and hyphens.
pub fn identifier(input: &[char]) -> (r: &[char])
    ensures
        r@ == input@.take(span_len(input@, CharClass::Keyword) as int),
        r@.len() == span_len(input@, CharClass::Keyword) <= input@.len(),
{
    let n: usize = span(input, CharClass::Keyword);
    &input[0..n]
}

/// Reads what follows an `ignore` keyword.
pub fn ignore_tag(input: &[char]) -> (r: Option<DocTag>)
    ensures
        tag_view(r) == ignore_tag_of(input@),
{
    Some(DocTag::Ignore)
}

/// Reads what follows a keyword that is not known.
pub fn unknown_tag(input: &[char]) -> (r: Option<DocTag>)
    ensures
        tag_view(r) == unknown_tag_of(input@),
{
    None
}

/// Reads what follows a `name` keyword on its line.
pub fn name_tag(input: &[char]) -> (r: Option<DocTag>)
    ensures
        tag_view(r) == name_tag_of(input@),
{
    let (name, _) = split_first_word(line_of(input));
    if name.len() > 0 {
        Some(DocTag::Name(NameTag::new(string_of(name))))
    } else {
        None
    }
}

/// Reads what follows a `sub` keyword on its line.
pub fn sub_tag(input: &[char]) -> (r: Option<DocTag>)
    ensures
        tag_view(r) == sub_tag_of(input@),
{
    let (name, _) = split_first_word(line_of(input));
    if name.len() > 0 {
        Some(DocTag::Sub(SubTag::new(string_of(name), None)))
    } else {
        None
    }
}

/// Reads what follows an `about` keyword on its line.
pub fn about_tag(input: &[char]) -> (r: Option<DocTag>)
    ensures
        tag_view(r) == about_tag_of(input@),
{
    let text = skip_whitespace(line_of(input));
    Some(DocTag::About(AboutTag::new(string_of(text))))
}

/// Reads what follows an `arg` keyword (`var_arg` false) or a `vararg` keyword
/// (`var_arg` true) on its line.
pub fn arg_var_arg(var_arg: bool, input: &[char]) -> (r: Option<DocTag>)
    ensures
        tag_view(r) == arg_tag_of(var_arg, input@),
{
    let (name, details) = split_first_word(line_of(input));
    if name.len() > 0 {
        Some(DocTag::Arg(arg_details(string_of(name), var_arg, details)))
    } else {
        None
    }
}

/// Reads what follows an `arg` keyword on its line.
pub fn arg_tag(input: &[char]) -> (r: Option<DocTag>)
    ensures
        tag_view(r) == arg_tag_of(false, input@),
{
    arg_var_arg(false, input)
}

/// Reads what follows a `vararg` keyword on its line.
pub fn var_arg_tag(input: &[char]) -> (r: Option<DocTag>)
    ensures
        tag_view(r) == arg_tag_of(true, input@),
{
    arg_var_arg(true, input)
}

/// Reads what follows an `opt` keyword on its line.
pub fn opt_tag(input: &[char]) -> (r: Option<DocTag>)
    ensures
        tag_view(r) == opt_tag_of(input@),
{
    let (name, details) = split_first_word(line_of(input));
    if name.len() > 0 {
        Some(DocTag::Opt(opt_details(string_of(name), details)))
    } else {
        None
    }
}

/// Looks the keyword `tag` up.
pub fn parser_for_tag(tag: &[char]) -> (r: TagKind)
    ensures
        r == tag_kind_of(tag@),
{
    if is_word(tag, IGNORE_TAG) {
        TagKind::Ignore
    } else if is_word(tag, NAME_TAG) {
        TagKind::Name
    } else if is_word(tag, SUB_TAG) {
        TagKind::Sub
    } else if is_word(tag, ABOUT_TAG) {
        TagKind::About
    } else if is_word(tag, ARG_TAG) {
        TagKind::Arg
    } else if is_word(tag, VAR_ARG_TAG) {
        TagKind::VarArg
    } else if is_word(tag, OPT_TAG) {
        TagKind::Opt
    } else {
        TagKind::Unknown
    }
}

/// Reads a tag from the first line of `input`, which starts at the keyword.
pub fn doc_tag(input: &[char]) -> (r: Option<DocTag>)
    ensures
        tag_view(r) == doc_tag_of(input@),
{
    let line = line_of(input);
    let keyword = identifier(line);
    let rest = tail(line, keyword.len());
    match parser_for_tag(keyword) {
        TagKind::Ignore => ignore_tag(rest),
        TagKind::Name => name_tag(rest),
        TagKind::Sub => sub_tag(rest),
        TagKind::About => about_tag(rest),
        TagKind::Arg => arg_tag(rest),
        TagKind::VarArg => var_arg_tag(rest),
        TagKind::Opt => opt_tag(rest),
        TagKind::Unknown => unknown_tag(rest),
    }
}

/// Reads a tag from the first line of `input`, which starts behind the comment
/// character.
pub fn doc_tag_or_not(input: &[char]) -> (r: Option<DocTag>)
    ensures
        tag_view(r) == annotation_of(input@),
{
    let t = skip_whitespace(line_of(input));
    if t.len() > 0 && t[0] == '@' {
        doc_tag(tail(t, 1))
    } else {
        None
    }
}

/// Reads a tag from the first line of `input`.
pub fn comment_or_not(input: &[char]) -> (r: Option<DocTag>)
    ensures
        tag_view(r) == line_tag_of(input@),
{
    let t = skip_whitespace(line_of(input));
    if t.len() > 0 && t[0] == '#' {
        doc_tag_or_not(tail(t, 1))
    } else {
        None
    }
}

/// Reads the tags of a text, line by line.
pub fn scan_tags(text: &[char]) -> (tags: Vec<DocTag>)
    ensures
        tags_view(tags@) == tags_of(text@),
{
    let mut tags: Vec<DocTag> = Vec::new();
    let mut pos: usize = 0;
    assert(text@.skip(0) == text@);
    while pos < text.len()
        invariant
            pos <= text@.len(),
            tags_of(text@) == tags_view(tags@) + tags_of(text@.skip(pos as int)),
        decreases text@.len() - pos,
    {
        let rest = tail(text, pos);
        let n: usize = span(rest, CharClass::Line);
        match comment_or_not(rest) {
            Some(tag) => {
                tags.push(tag);
            },
            None => {},
        }
        if n < rest.len() {
            assert(rest@.skip(n + 1) == text@.skip(pos + n + 1));
            pos = pos + n + 1;
        } else {
            pos = text.len();
        }
    }
    tags
}


// ---------------------------------------------------------------------------
// Groups
// ---------------------------------------------------------------------------

/// The groups of a tag stream, built tag by tag from one empty group: a `sub`
/// tag opens a new group that holds it, any other tag joins the last group.
pub open spec fn groups_of(tags: Seq<DocTagView>) -> Seq<Seq<DocTagView>>
    decreases tags.len(),
{
    if tags.len() == 0 {
        seq![Seq::empty()]
    } else {
        let groups = groups_of(tags.drop_last());
        let tag = tags.last();
        if tag is Sub {
            groups.push(seq![tag])
        } else {
            groups.update(groups.len() - 1, groups.last().push(tag))
        }
    }
}

impl DocTag {
    /// Whether this is the `ignore` tag.
    pub fn is_ignore(&self) -> (r: bool)
        ensures
            r == (self@ is Ignore),
    {
        match self {
            DocTag::Ignore => true,
            _ => false,
        }
    }

    /// Whether this is a `sub` tag.
    pub fn is_sub(&self) -> (r: bool)
        ensures
            r == (self@ is Sub),
    {
        match self {
            DocTag::Sub(_) => true,
            _ => false,
        }
    }
}

/// Cuts a tag stream into its groups.
pub fn group_tags(tags: Vec<DocTag>) -> (groups: Vec<Vec<DocTag>>)
    ensures
        groups_view(groups@) == groups_of(tags_view(tags@)),
{
    let ghost all = tags@;
    let mut groups: Vec<Vec<DocTag>> = Vec::new();
    let mut current: Vec<DocTag> = Vec::new();
    assert(tags_view(current@) == Seq::<DocTagView>::empty());
    for tag in it: tags
        invariant
            it.seq() == all,
            groups_view(groups@).push(tags_view(current@)) == groups_of(
                tags_view(all.take(it.index())),
            ),
    {
        let ghost i = it.index();
        let ghost seen = tags_view(all.take(i));
        let ghost now = tags_view(all.take(i + 1));
        let ghost open = tags_view(current@);
        assert(now.drop_last() == seen);
        if tag.is_sub() {
            groups.push(current);
            current = vec![tag];
            assert(tags_view(current@) == seq![tag@]);
        } else {
            current.push(tag);
            assert(tags_view(current@) == open.push(tag@));
        }
    }
    assert(all.take(all.len() as int) == all);
    groups.push(current);
    groups
}

/// Reads the tags of a text and cuts them into groups.
pub fn collect(input: &[char]) -> (groups: Vec<Vec<DocTag>>)
    ensures
        groups_view(groups@) == groups_of(tags_of(input@)),
{
    group_tags(scan_tags(input))
}


// ---------------------------------------------------------------------------
// Assembly
// ---------------------------------------------------------------------------

pub const ANY_ARGS_NAME: &'static str = "args";

pub const ANY_ARGS_ABOUT: &'static str = "Any arguments are passed to the script";

pub const NO_SUB_TAG: &'static str = "No sub tag found";

/// The arguments that the `arg` and `vararg` tags of `tags` describe, in the
/// order of the tags.
pub open spec fn args_of(tags: Seq<DocTagView>) -> Seq<CommandArgView>
    decreases tags.len(),
{
    if tags.len() == 0 {
        Seq::empty()
    } else {
        let before = args_of(tags.drop_last());
        match tags.last() {
            DocTagView::Arg(arg) => before.push(arg),
            _ => before,
        }
    }
}

/// The options that the `opt` tags of `tags` describe, in the order of the tags.
pub open spec fn options_of(tags: Seq<DocTagView>) -> Seq<CommandOptionView>
    decreases tags.len(),
{
    if tags.len() == 0 {
        Seq::empty()
    } else {
        let before = options_of(tags.drop_last());
        match tags.last() {
            DocTagView::Opt(option) => before.push(option),
            _ => before,
        }
    }
}

/// The text of the last `about` tag of `tags`.
pub open spec fn last_about(tags: Seq<DocTagView>) -> Option<Seq<char>>
    decreases tags.len(),
{
    if tags.len() == 0 {
        None
    } else {
        match tags.last() {
            DocTagView::About { text } => Some(text),
            _ => last_about(tags.drop_last()),
        }
    }
}

/// The name of the last `name` tag of `tags`.
pub open spec fn last_name(tags: Seq<DocTagView>) -> Option<Seq<char>>
    decreases tags.len(),
{
    if tags.len() == 0 {
        None
    } else {
        match tags.last() {
            DocTagView::Name { name } => Some(name),
            _ => last_name(tags.drop_last()),
        }
    }
}

/// The name of the `sub` tag that `tags` begins with, if it begins with one.
pub open spec fn leading_sub(tags: Seq<DocTagView>) -> Option<Seq<char>> {
    if tags.len() > 0 {
        match tags[0] {
            DocTagView::Sub { name, path } => Some(name),
            _ => None,
        }
    } else {
        None
    }
}

/// What a script without any tag becomes: a command under the default name
/// that hands any arguments on to the script.
pub open spec fn untagged_script(default_name: Seq<char>, path: PathBuf) -> CommandView {
    CommandView {
        name: default_name,
        description: None,
        options: Seq::empty(),
        args: seq![
            CommandArgView {
                name: ANY_ARGS_NAME@,
                optional: true,
                var_arg: true,
                arg_type: ArgType::Unknown,
                description: Some(ANY_ARGS_ABOUT@),
            },
        ],
        sub_commands: Seq::empty(),
        path: Some(path),
    }
}

/// The nested command that a group describes. Its name is that of the `sub`
/// tag the group begins with; its options and arguments are those of the
/// group, in order; the last `about` tag gives its description.
pub open spec fn sub_command_of(group: Seq<DocTagView>) -> CommandView {
    CommandView {
        name: leading_sub(group).unwrap(),
        description: last_about(group),
        options: options_of(group),
        args: args_of(group),
        sub_commands: Seq::empty(),
        path: None,
    }
}

/// The command that the groups of a script describe. The first group gives its
/// options and arguments, in order; its last `about` tag the description; its
/// last `name` tag the name, in place of the default name. Each further group
/// gives one nested command.
pub open spec fn script_command_of(
    groups: Seq<Seq<DocTagView>>,
    default_name: Seq<char>,
    path: PathBuf,
) -> CommandView
    recommends
        groups.len() > 0,
{
    CommandView {
        name: match last_name(groups[0]) {
            Some(name) => name,
            None => default_name,
        },
        description: last_about(groups[0]),
        options: options_of(groups[0]),
        args: args_of(groups[0]),
        sub_commands: Seq::new(
            (groups.len() - 1) as nat,
            |i: int| sub_command_of(groups[i + 1]),
        ),
        path: Some(path),
    }
}

/// Whether a group after the first does not begin with a `sub` tag.
pub open spec fn has_stray_group(groups: Seq<Seq<DocTagView>>) -> bool {
    exists|i: int| 1 <= i < groups.len() && leading_sub(#[trigger] groups[i]) is None
}

/// What the groups of a script are assembled to, in this order of precedence:
/// without any tag, the command of an untagged script; with `ignore` as the
/// first tag, no command; with a group after the first that does not begin
/// with a `sub` tag, an error; otherwise the command the groups describe.
pub open spec fn assembled(
    groups: Seq<Seq<DocTagView>>,
    default_name: Seq<char>,
    path: PathBuf,
) -> Result<Option<CommandView>, Seq<char>> {
    if groups.len() == 0 || (groups.len() == 1 && groups[0].len() == 0) {
        Ok(Some(untagged_script(default_name, path)))
    } else if groups[0].len() > 0 && groups[0][0] is Ignore {
        Ok(None)
    } else if has_stray_group(groups) {
        Err(NO_SUB_TAG@)
    } else {
        Ok(Some(script_command_of(groups, default_name, path)))
    }
}

/// The view of what assembly returns.
pub open spec fn assembly_view(r: Result<Option<ScriptCommand>, String>) -> Result<
    Option<CommandView>,
    Seq<char>,
> {
    match r {
        Ok(Some(command)) => Ok(Some(command@)),
        Ok(None) => Ok(None),
        Err(message) => Err(message@),
    }
}

/// What one group says of its command.
pub struct GroupParts {
    pub sub_name: Option<String>,
    pub name: Option<String>,
    pub description: Option<String>,
    pub options: Vec<CommandOption>,
    pub args: Vec<CommandArg>,
}

/// Takes a group apart: the name of its leading `sub` tag, its last `name` and
/// `about` tags, and its options and arguments in order.
pub fn read_group(group: Vec<DocTag>) -> (parts: GroupParts)
    ensures
        text_view(parts.sub_name) == leading_sub(tags_view(group@)),
        text_view(parts.name) == last_name(tags_view(group@)),
        text_view(parts.description) == last_about(tags_view(group@)),
        options_view(parts.options@) == options_of(tags_view(group@)),
        args_view(parts.args@) == args_of(tags_view(group@)),
{
    let ghost all = group@;
    let mut sub_name: Option<String> = None;
    let mut name: Option<String> = None;
    let mut description: Option<String> = None;
    let mut options: Vec<CommandOption> = Vec::new();
    let mut args: Vec<CommandArg> = Vec::new();
    let mut first: bool = true;
    for tag in it: group
        invariant
            it.seq() == all,
            first == (it.index() == 0),
            text_view(sub_name) == leading_sub(tags_view(all.take(it.index()))),
            text_view(name) == last_name(tags_view(all.take(it.index()))),
            text_view(description) == last_about(tags_view(all.take(it.index()))),
            options_view(options@) == options_of(tags_view(all.take(it.index()))),
            args_view(args@) == args_of(tags_view(all.take(it.index()))),
    {
        let ghost i = it.index();
        let ghost seen = tags_view(all.take(i));
        let ghost now = tags_view(all.take(i + 1));
        assert(now.drop_last() == seen);
        match tag {
            DocTag::Arg(arg) => args.push(arg),
            DocTag::Opt(option) => options.push(option),
            DocTag::About(about) => description = Some(about.text),
            DocTag::Name(name_tag) => name = Some(name_tag.name),
            DocTag::Sub(sub) => {
                if first {
                    sub_name = Some(sub.name);
                }
            },
            DocTag::Ignore => {},
        }
        first = false;
    }
    assert(all.take(all.len() as int) == all);
    GroupParts { sub_name, name, description, options, args }
}

/// Assembles the groups of a script into its command. `default_name` names the
/// command where no `name` tag does; `path` is the script's.
pub fn assemble(groups: Vec<Vec<DocTag>>, default_name: String, path: PathBuf) -> (r: Result<
    Option<ScriptCommand>,
    String,
>)
    ensures
        assembly_view(r) == assembled(groups_view(groups@), default_name@, path),
{
    let ghost all = groups@;
    let ghost views = groups_view(all);
    if groups.len() == 0 || (groups.len() == 1 && groups[0].len() == 0) {
        let any_args = CommandArg::new(
            ANY_ARGS_NAME.to_owned(),
            true,
            true,
            ArgType::Unknown,
            Some(ANY_ARGS_ABOUT.to_owned()),
        );
        let args: Vec<CommandArg> = vec![any_args];
        let command = ScriptCommand::new(
            default_name,
            None,
            path,
            Vec::new(),
            args,
            Vec::new(),
        );
        assert(command@.args == untagged_script(default_name@, path).args);
        assert(command@.options == untagged_script(default_name@, path).options);
        assert(command@.sub_commands == untagged_script(default_name@, path).sub_commands);
        return Ok(Some(command));
    }
    if groups[0].len() > 0 && groups[0][0].is_ignore() {
        return Ok(None);
    }
    let mut root: Option<GroupParts> = None;
    let mut sub_commands: Vec<Command> = Vec::new();
    for group in it: groups
        invariant
            it.seq() == all,
            views == groups_view(all),
            all.len() > 0,
            !(views.len() == 1 && views[0].len() == 0),
            !(views[0].len() > 0 && views[0][0] is Ignore),
            root is None <==> it.index() == 0,
            root matches Some(parts) ==> {
                &&& text_view(parts.name) == last_name(views[0])
                &&& text_view(parts.description) == last_about(views[0])
                &&& options_view(parts.options@) == options_of(views[0])
                &&& args_view(parts.args@) == args_of(views[0])
            },
            forall|j: int| 1 <= j < it.index() ==> leading_sub(#[trigger] views[j]) is Some,
            commands_view(sub_commands@) == Seq::new(
                if it.index() == 0 {
                    0nat
                } else {
                    (it.index() - 1) as nat
                },
                |j: int| sub_command_of(views[j + 1]),
            ),
    {
        let ghost i = it.index();
        let ghost before = commands_view(sub_commands@);
        assert(views[i] == tags_view(group@));
        let parts = read_group(group);
        if root.is_none() {
            root = Some(parts);
        } else {
            match parts.sub_name {
                Some(name) => {
                    let embedded = EmbeddedCommand::new(
                        name,
                        parts.description,
                        parts.options,
                        parts.args,
                    );
                    sub_commands.push(Command::Embedded(embedded));
                    assert(commands_view(sub_commands@) == before.push(embedded@));
                },
                None => {
                    return Err(NO_SUB_TAG.to_owned());
                },
            }
        }
    }
    let parts = root.unwrap();
    let name = match parts.name {
        Some(name) => name,
        None => default_name,
    };
    let command = ScriptCommand::new(
        name,
        parts.description,
        path,
        parts.options,
        parts.args,
        sub_commands,
    );
    assert(command@.sub_commands == script_command_of(views, default_name@, path).sub_commands);
    Ok(Some(command))
}

/// Builds the command that the text of a script describes. `default_name`
/// names the command where no `name` tag does; `path` is the script's.
pub fn build_script_command(path: PathBuf, default_name: String, file_content: &str) -> (r: Result<
    Option<ScriptCommand>,
    String,
>)
    ensures
        assembly_view(r) == assembled(groups_of(tags_of(file_content@)), default_name@, path),
        r is Ok,
{
    let text = chars_of(file_content);
    proof {
        lemma_text_is_assembled(file_content@, default_name@, path);
    }
    assemble(collect(text.as_slice()), default_name, path)
}


/// A script as it was read: where it lies, the name its command goes by
/// where no tag names it, and its text.
pub struct ScriptFile {
    pub path: PathBuf,
    pub default_name: String,
    pub content: String,
}

/// A script as it was read, its texts as character sequences.
pub struct ScriptFileView {
    pub path: PathBuf,
    pub default_name: Seq<char>,
    pub content: Seq<char>,
}

impl View for ScriptFile {
    type V = ScriptFileView;

    open spec fn view(&self) -> ScriptFileView {
        ScriptFileView {
            path: self.path,
            default_name: self.default_name@,
            content: self.content@,
        }
    }
}

/// The views of a list of scripts.
pub open spec fn scripts_view(scripts: Seq<ScriptFile>) -> Seq<ScriptFileView> {
    Seq::new(scripts.len(), |i: int| scripts[i]@)
}

/// The commands of a list of scripts: the command of each script that is
/// assembled to one, in the order of the scripts. A script that is assembled
/// to none, or not at all, adds nothing.
pub open spec fn commands_of(scripts: Seq<ScriptFileView>) -> Seq<CommandView>
    decreases scripts.len(),
{
    if scripts.len() == 0 {
        Seq::empty()
    } else {
        let before = commands_of(scripts.drop_last());
        let script = scripts.last();
        match assembled(groups_of(tags_of(script.content)), script.default_name, script.path) {
            Ok(Some(command)) => before.push(command),
            _ => before,
        }
    }
}

/// Builds the model of a tool from its scripts.
pub fn build_model(scripts: Vec<ScriptFile>) -> (model: Model)
    ensures
        model@ == commands_of(scripts_view(scripts@)),
{
    let ghost all = scripts@;
    let mut commands: Vec<Command> = Vec::new();
    for script in it: scripts
        invariant
            it.seq() == all,
            commands_view(commands@) == commands_of(scripts_view(all.take(it.index()))),
    {
        let ghost i = it.index();
        let ghost now = scripts_view(all.take(i + 1));
        assert(now.drop_last() == scripts_view(all.take(i)));
        match build_script_command(script.path, script.default_name, script.content.as_str()) {
            Ok(Some(command)) => {
                commands.push(Command::Script(command));
            },
            _ => {},
        }
    }
    assert(all.take(all.len() as int) == all);
    Model::new(commands)
}

// ---------------------------------------------------------------------------
// What holds of every text
// ---------------------------------------------------------------------------

/// How many `sub` tags a tag stream holds.
pub open spec fn sub_count(tags: Seq<DocTagView>) -> nat
    decreases tags.len(),
{
    if tags.len() == 0 {
        0
    } else if tags.last() is Sub {
        sub_count(tags.drop_last()) + 1
    } else {
        sub_count(tags.drop_last())
    }
}

/// The groups of a list of groups laid end to end.
pub open spec fn joined(groups: Seq<Seq<DocTagView>>) -> Seq<DocTagView>
    decreases groups.len(),
{
    if groups.len() == 0 {
        Seq::empty()
    } else {
        joined(groups.drop_last()) + groups.last()
    }
}

/// Whether a group holds no `sub` tag from position `from` on.
pub open spec fn no_sub_from(group: Seq<DocTagView>, from: int) -> bool {
    forall|k: int| from <= k < group.len() ==> !(#[trigger] group[k] is Sub)
}

/// A tag stream has one group more than it has `sub` tags.
pub proof fn lemma_group_count(tags: Seq<DocTagView>)
    ensures
        groups_of(tags).len() == 1 + sub_count(tags),
    decreases tags.len(),
{
    if tags.len() > 0 {
        lemma_group_count(tags.drop_last());
    }
}

/// The groups of a tag stream, laid end to end, are the stream: no tag is lost,
/// none is added, and the order is kept.
pub proof fn lemma_groups_join(tags: Seq<DocTagView>)
    ensures
        joined(groups_of(tags)) == tags,
    decreases tags.len(),
{
    if tags.len() == 0 {
        let groups = groups_of(tags);
        reveal_with_fuel(joined, 2);
        assert(groups.drop_last() == Seq::<Seq<DocTagView>>::empty());
        assert(joined(groups) == Seq::<DocTagView>::empty() + Seq::<DocTagView>::empty());
    } else {
        let before = groups_of(tags.drop_last());
        let tag = tags.last();
        lemma_groups_join(tags.drop_last());
        lemma_group_count(tags.drop_last());
        if tag is Sub {
            assert(before.push(seq![tag]).drop_last() == before);
            assert(tags.drop_last() + seq![tag] == tags);
        } else {
            let groups = before.update(before.len() - 1, before.last().push(tag));
            assert(groups.drop_last() == before.drop_last());
            assert(joined(before) == joined(before.drop_last()) + before.last());
            assert(joined(groups) == joined(before.drop_last()) + before.last().push(tag));
            assert(joined(before.drop_last()) + before.last().push(tag) == (joined(
                before.drop_last(),
            ) + before.last()).push(tag));
            assert(tags.drop_last().push(tag) == tags);
        }
    }
}

/// The first group of a tag stream holds no `sub` tag; every later group
/// begins with a `sub` tag and holds no other.
pub proof fn lemma_groups_shape(tags: Seq<DocTagView>)
    ensures
        groups_of(tags).len() > 0,
        no_sub_from(groups_of(tags)[0], 0),
        forall|i: int|
            1 <= i < groups_of(tags).len() ==> {
                &&& leading_sub(#[trigger] groups_of(tags)[i]) is Some
                &&& no_sub_from(groups_of(tags)[i], 1)
            },
    decreases tags.len(),
{
    if tags.len() > 0 {
        lemma_groups_shape(tags.drop_last());
    }
}

/// The first group of a tag stream is the stream up to its first `sub` tag: a
/// tag before which no `sub` tag stands is in the first group, at its own
/// position.
pub proof fn lemma_first_group(tags: Seq<DocTagView>, at: int)
    requires
        0 <= at < tags.len(),
        forall|k: int| 0 <= k <= at ==> !(#[trigger] tags[k] is Sub),
    ensures
        at < groups_of(tags)[0].len(),
        groups_of(tags)[0][at] == tags[at],
    decreases tags.len(),
{
    let before = tags.drop_last();
    lemma_group_count(before);
    if at < before.len() {
        lemma_first_group(before, at);
    } else {
        lemma_first_group_alone(before);
    }
}

/// A tag stream without a `sub` tag is its own and only group.
pub proof fn lemma_first_group_alone(tags: Seq<DocTagView>)
    requires
        forall|k: int| 0 <= k < tags.len() ==> !(#[trigger] tags[k] is Sub),
    ensures
        groups_of(tags) == seq![tags],
    decreases tags.len(),
{
    if tags.len() == 0 {
        assert(tags == Seq::<DocTagView>::empty());
    } else {
        let before = tags.drop_last();
        lemma_first_group_alone(before);
        assert(before.push(tags.last()) == tags);
    }
}

/// The groups of a tag stream are never refused: only a list of groups that
/// was not cut from a stream can hold a later group without its `sub` tag.
pub proof fn lemma_groups_never_stray(tags: Seq<DocTagView>)
    ensures
        !has_stray_group(groups_of(tags)),
{
    lemma_groups_shape(tags);
}

/// A line feed at the end of a text adds no tag and takes none away: the last
/// line is read whether or not it is terminated.
pub proof fn lemma_final_line_feed(text: Seq<char>)
    ensures
        tags_of(text.push('\n')) == tags_of(text),
    decreases text.len(),
{
    let more = text.push('\n');
    let n = span_len(text, CharClass::Line) as int;
    lemma_span_len(text, CharClass::Line);
    assert(is_span(more, CharClass::Line, n)) by {
        assert forall|i: int| 0 <= i < n implies CharClass::Line.has(#[trigger] more[i]) by {}
        if n < text.len() {
            assert(more[n] == text[n]);
        }
    }
    lemma_span_unique(more, CharClass::Line, n);
    assert(first_line(more) == first_line(text));
    assert(line_tag_of(more) == line_tag_of(text));
    if 0 < text.len() && n < text.len() {
        assert(more.skip(n + 1) == text.skip(n + 1).push('\n'));
        lemma_final_line_feed(text.skip(n + 1));
    } else if 0 < text.len() {
        assert(tags_of(more.skip(n + 1)) == Seq::<DocTagView>::empty());
    }
}

/// A text is always assembled, to a command or to none.
pub proof fn lemma_text_is_assembled(text: Seq<char>, default_name: Seq<char>, path: PathBuf)
    ensures
        assembled(groups_of(tags_of(text)), default_name, path) is Ok,
{
    lemma_groups_never_stray(tags_of(text));
}

/// A text without any tag is assembled to a command that takes exactly one
/// argument: it is named "args", optional, variadic and of unknown type.
pub proof fn lemma_untagged_text(text: Seq<char>, default_name: Seq<char>, path: PathBuf)
    requires
        tags_of(text).len() == 0,
    ensures
        assembled(groups_of(tags_of(text)), default_name, path) matches Ok(Some(command)) && {
            &&& command == untagged_script(default_name, path)
            &&& command.args.len() == 1
            &&& command.args[0].name == ANY_ARGS_NAME@
            &&& command.args[0].optional
            &&& command.args[0].var_arg
            &&& command.args[0].arg_type == ArgType::Unknown
        },
{
}

/// A text whose first tag is `ignore` is assembled to no command, whatever
/// else it holds.
pub proof fn lemma_ignored_text(text: Seq<char>, default_name: Seq<char>, path: PathBuf)
    requires
        tags_of(text).len() > 0,
        tags_of(text)[0] is Ignore,
    ensures
        assembled(groups_of(tags_of(text)), default_name, path) == Ok::<
            Option<CommandView>,
            Seq<char>,
        >(None),
{
    let tags = tags_of(text);
    lemma_first_group(tags, 0);
    lemma_group_count(tags);
}

/// The positions in `tags` of its `arg` and `vararg` tags, in rising order.
pub open spec fn arg_positions(tags: Seq<DocTagView>) -> Seq<int>
    decreases tags.len(),
{
    if tags.len() == 0 {
        Seq::empty()
    } else {
        let before = arg_positions(tags.drop_last());
        if tags.last() is Arg {
            before.push(tags.len() - 1)
        } else {
            before
        }
    }
}

/// The positions in `tags` of its `opt` tags, in rising order.
pub open spec fn option_positions(tags: Seq<DocTagView>) -> Seq<int>
    decreases tags.len(),
{
    if tags.len() == 0 {
        Seq::empty()
    } else {
        let before = option_positions(tags.drop_last());
        if tags.last() is Opt {
            before.push(tags.len() - 1)
        } else {
            before
        }
    }
}

/// The arguments of a group stand in the order of their tags: argument `k` is
/// what the `k`-th `arg` or `vararg` tag of the group describes, these tags
/// are met at rising positions, and no such tag is left out.
pub proof fn lemma_args_keep_order(tags: Seq<DocTagView>)
    ensures
        args_of(tags).len() == arg_positions(tags).len(),
        forall|k: int|
            0 <= k < args_of(tags).len() ==> {
                &&& 0 <= #[trigger] arg_positions(tags)[k] < tags.len()
                &&& tags[arg_positions(tags)[k]] == DocTagView::Arg(args_of(tags)[k])
            },
        forall|j: int, k: int|
            0 <= j < k < arg_positions(tags).len() ==> arg_positions(tags)[j] < arg_positions(
                tags,
            )[k],
        forall|i: int|
            0 <= i < tags.len() && #[trigger] tags[i] is Arg ==> arg_positions(tags).contains(i),
    decreases tags.len(),
{
    if tags.len() > 0 {
        let before = tags.drop_last();
        lemma_args_keep_order(before);
        let positions = arg_positions(tags);
        assert forall|i: int| 0 <= i < tags.len() && #[trigger] tags[i] is Arg implies positions.contains(
            i,
        ) by {
            if i < before.len() {
                assert(before[i] == tags[i]);
                let k = choose|k: int|
                    0 <= k < arg_positions(before).len() && arg_positions(before)[k] == i;
                assert(positions[k] == i);
            } else {
                assert(positions[positions.len() - 1] == i);
            }
        }
    }
}

/// The options of a group stand in the order of their tags: option `k` is what
/// the `k`-th `opt` tag of the group describes, these tags are met at rising
/// positions, and no such tag is left out.
pub proof fn lemma_options_keep_order(tags: Seq<DocTagView>)
    ensures
        options_of(tags).len() == option_positions(tags).len(),
        forall|k: int|
            0 <= k < options_of(tags).len() ==> {
                &&& 0 <= #[trigger] option_positions(tags)[k] < tags.len()
                &&& tags[option_positions(tags)[k]] == DocTagView::Opt(options_of(tags)[k])
            },
        forall|j: int, k: int|
            0 <= j < k < option_positions(tags).len() ==> option_positions(tags)[j]
                < option_positions(tags)[k],
        forall|i: int|
            0 <= i < tags.len() && #[trigger] tags[i] is Opt ==> option_positions(tags).contains(
                i,
            ),
    decreases tags.len(),
{
    if tags.len() > 0 {
        let before = tags.drop_last();
        lemma_options_keep_order(before);
        let positions = option_positions(tags);
        assert forall|i: int| 0 <= i < tags.len() && #[trigger] tags[i] is Opt implies positions.contains(
            i,
        ) by {
            if i < before.len() {
                assert(before[i] == tags[i]);
                let k = choose|k: int|
                    0 <= k < option_positions(before).len() && option_positions(before)[k] == i;
                assert(positions[k] == i);
            } else {
                assert(positions[positions.len() - 1] == i);
            }
        }
    }
}

} // verus!
