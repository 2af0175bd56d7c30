//! Characters, character classes and the spans they form at the front of a text.
//!
//! The annotation grammar is read from a `[char]` slice. Everything it needs to
//! know about single characters lives here: what counts as whitespace, where a
//! word, a keyword or a line stops, and how a text compares with a word when
//! case is ignored.

use vstd::prelude::*;

verus! {

/// `String::push` appends `c` to the end of the string.
pub assume_specification[ String::push ](s: &mut String, c: char)
    ensures
        final(s)@ == old(s)@.push(c),
;

/// Space, tab, carriage return and line feed.
pub open spec fn is_whitespace(c: char) -> bool {
    c == ' ' || c == '\t' || c == '\r' || c == '\n'
}

/// A carriage return or a line feed: either one ends a line.
pub open spec fn is_line_end(c: char) -> bool {
    c == '\r' || c == '\n'
}

/// The sets of characters that the grammar scans over.
#[derive(Debug, Clone, Copy)]
pub enum CharClass {
    /// Space, tab, carriage return, line feed.
    Whitespace,
    /// Anything but whitespace.
    Word,
    /// Anything but whitespace and the hyphen.
    Keyword,
    /// Anything but the two characters that end a line.
    Line,
    /// Anything but the space.
    Field,
}

impl CharClass {
    /// Whether `c` belongs to the class.
    pub open spec fn has(self, c: char) -> bool {
        match self {
            CharClass::Whitespace => is_whitespace(c),
            CharClass::Word => !is_whitespace(c),
            CharClass::Keyword => !is_whitespace(c) && c != '-',
            CharClass::Line => !is_line_end(c),
            CharClass::Field => c != ' ',
        }
    }

    /// Whether `c` belongs to the class.
    pub fn contains(self, c: char) -> (r: bool)
        ensures
            r == self.has(c),
    {
        let white: bool = c == ' ' || c == '\t' || c == '\r' || c == '\n';
        match self {
            CharClass::Whitespace => white,
            CharClass::Word => !white,
            CharClass::Keyword => !white && c != '-',
            CharClass::Line => !(c == '\r' || c == '\n'),
            CharClass::Field => c != ' ',
        }
    }
}

/// The length of the longest prefix of `s` whose characters all belong to `class`.
pub open spec fn span_len(s: Seq<char>, class: CharClass) -> nat
    decreases s.len(),
{
    if s.len() > 0 && class.has(s[0]) {
        1 + span_len(s.drop_first(), class)
    } else {
        0
    }
}

/// `n` is where the leading run of `class` characters in `s` stops.
pub open spec fn is_span(s: Seq<char>, class: CharClass, n: int) -> bool {
    &&& 0 <= n <= s.len()
    &&& forall|i: int| 0 <= i < n ==> class.has(#[trigger] s[i])
    &&& n < s.len() ==> !class.has(s[n])
}

/// `span_len` is the one position at which the leading run stops.
pub proof fn lemma_span_len(s: Seq<char>, class: CharClass)
    ensures
        is_span(s, class, span_len(s, class) as int),
    decreases s.len(),
{
    if s.len() > 0 && class.has(s[0]) {
        let t = s.drop_first();
        lemma_span_len(t, class);
        let n = span_len(s, class) as int;
        assert forall|i: int| 0 <= i < n implies class.has(#[trigger] s[i]) by {
            if i > 0 {
                assert(s[i] == t[i - 1]);
            }
        }
    }
}

/// Any position at which the leading run stops is `span_len`.
pub proof fn lemma_span_unique(s: Seq<char>, class: CharClass, n: int)
    requires
        is_span(s, class, n),
    ensures
        span_len(s, class) == n,
    decreases s.len(),
{
    if n > 0 {
        let t = s.drop_first();
        assert forall|i: int| 0 <= i < n - 1 implies class.has(#[trigger] t[i]) by {}
        lemma_span_unique(t, class, n - 1);
    }
}

/// The length of the longest prefix of `input` made of `class` characters.
pub fn span(input: &[char], class: CharClass) -> (n: usize)
    ensures
        n == span_len(input@, class),
        n <= input@.len() <= usize::MAX,
{
    let mut n: usize = 0;
    while n < input.len() && class.contains(input[n])
        invariant
            n <= input@.len(),
            forall|i: int| 0 <= i < n ==> class.has(#[trigger] input@[i]),
        decreases input@.len() - n,
    {
        n += 1;
    }
    proof {
        lemma_span_unique(input@, class, n as int);
    }
    n
}

/// The first line of `s`: everything before the first character that ends a line.
pub open spec fn first_line(s: Seq<char>) -> Seq<char> {
    s.take(span_len(s, CharClass::Line) as int)
}

/// `s` without its leading whitespace.
pub open spec fn trim_start(s: Seq<char>) -> Seq<char> {
    s.skip(span_len(s, CharClass::Whitespace) as int)
}

/// `s` without its trailing whitespace.
pub open spec fn trim_end(s: Seq<char>) -> Seq<char>
    decreases s.len(),
{
    if s.len() > 0 && is_whitespace(s.last()) {
        trim_end(s.drop_last())
    } else {
        s
    }
}

/// `s` without its leading and its trailing whitespace.
pub open spec fn trimmed(s: Seq<char>) -> Seq<char> {
    trim_end(trim_start(s))
}

/// The first whitespace-delimited word of `s`; empty where `s` holds none.
pub open spec fn first_word(s: Seq<char>) -> Seq<char> {
    let t = trim_start(s);
    t.take(span_len(t, CharClass::Word) as int)
}

/// What follows the first word of `s`.
pub open spec fn after_first_word(s: Seq<char>) -> Seq<char> {
    let t = trim_start(s);
    t.skip(span_len(t, CharClass::Word) as int)
}

/// The first line of `input`, as a slice of it.
pub fn line_of(input: &[char]) -> (line: &[char])
    ensures
        line@ == first_line(input@),
{
    let n: usize = span(input, CharClass::Line);
    &input[0..n]
}

/// `input` from position `from` on.
pub fn tail(input: &[char], from: usize) -> (r: &[char])
    requires
        from <= input@.len(),
    ensures
        r@ == input@.skip(from as int),
{
    &input[from..input.len()]
}

/// `input` without its leading whitespace.
pub fn skip_whitespace(input: &[char]) -> (r: &[char])
    ensures
        r@ == trim_start(input@),
{
    let n: usize = span(input, CharClass::Whitespace);
    tail(input, n)
}

/// `input` without its trailing whitespace.
pub fn skip_whitespace_end(input: &[char]) -> (r: &[char])
    ensures
        r@ == trim_end(input@),
{
    let mut n: usize = input.len();
    assert(input@.take(n as int) == input@);
    while n > 0 && CharClass::Whitespace.contains(input[n - 1])
        invariant
            n <= input@.len(),
            trim_end(input@) == trim_end(input@.take(n as int)),
        decreases n,
    {
        assert(input@.take(n as int).drop_last() == input@.take(n - 1));
        n -= 1;
    }
    &input[0..n]
}

/// `input` without its leading and its trailing whitespace.
pub fn trim(input: &[char]) -> (r: &[char])
    ensures
        r@ == trimmed(input@),
{
    skip_whitespace_end(skip_whitespace(input))
}

/// The lower-case form of an ASCII capital; any other character unchanged.
pub open spec fn ascii_lower(c: char) -> char {
    if 'A' <= c && c <= 'Z' {
        ((c as u8) + 32) as char
    } else {
        c
    }
}

/// The lower-case form of an ASCII capital; any other character unchanged.
pub fn to_ascii_lower(c: char) -> (r: char)
    ensures
        r == ascii_lower(c),
{
    if 'A' <= c && c <= 'Z' {
        ((c as u8) + 32) as char
    } else {
        c
    }
}

/// Whether `a` and `b` are the same text once ASCII capitals are lowered.
pub open spec fn eq_ignore_case(a: Seq<char>, b: Seq<char>) -> bool {
    &&& a.len() == b.len()
    &&& forall|i: int| 0 <= i < a.len() ==> ascii_lower(#[trigger] a[i]) == ascii_lower(b[i])
}

/// Whether `input` is `word`, ASCII case ignored.
pub fn equals_ignore_case(input: &[char], word: &str) -> (r: bool)
    ensures
        r == eq_ignore_case(input@, word@),
{
    let len: usize = word.unicode_len();
    if input.len() != len {
        return false;
    }
    let mut i: usize = 0;
    while i < len
        invariant
            i <= len == word@.len(),
            len == input@.len(),
            forall|j: int| 0 <= j < i ==> ascii_lower(#[trigger] input@[j]) == ascii_lower(word@[j]),
        decreases len - i,
    {
        if to_ascii_lower(input[i]) != to_ascii_lower(word.get_char(i)) {
            return false;
        }
        i += 1;
    }
    true
}

/// Whether `input` is exactly `word`.
pub fn is_word(input: &[char], word: &str) -> (r: bool)
    ensures
        r == (input@ == word@),
{
    let len: usize = word.unicode_len();
    if input.len() != len {
        return false;
    }
    let mut i: usize = 0;
    while i < len
        invariant
            i <= len == word@.len(),
            len == input@.len(),
            forall|j: int| 0 <= j < i ==> input@[j] == word@[j],
        decreases len - i,
    {
        if input[i] != word.get_char(i) {
            return false;
        }
        i += 1;
    }
    assert(input@ =~= word@);
    true
}

/// The characters of `s`, in order.
pub fn chars_of(s: &str) -> (v: Vec<char>)
    ensures
        v@ == s@,
{
    let mut v: Vec<char> = Vec::new();
    for c in it: s.chars()
        invariant
            v@ == it.seq().take(it.index()),
            it.seq() == s@,
    {
        v.push(c);
    }
    v
}

/// The string made of `chars`, in order.
pub fn string_of(chars: &[char]) -> (s: String)
    ensures
        s@ == chars@,
{
    let mut s = String::new();
    let mut i: usize = 0;
    while i < chars.len()
        invariant
            i <= chars@.len(),
            s@ == chars@.take(i as int),
        decreases chars@.len() - i,
    {
        s.push(chars[i]);
        i += 1;
    }
    s
}

} // verus!
