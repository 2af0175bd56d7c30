//! Names of script files.

use crate::model::text_view;
use vstd::prelude::*;

verus! {

/// The pattern that finds the suffix of a file name.
pub const FILE_SUFFIX: &'static str = ".[^.]*$";

/// What the `regex` crate makes of `text` when the leftmost match of `pattern`
/// in it is replaced by `replacement`; none where the crate refuses the
/// pattern.
pub uninterp spec fn regex_replaced(
    pattern: Seq<char>,
    text: Seq<char>,
    replacement: Seq<char>,
) -> Option<Seq<char>>;

/// `regex::Regex::new` on `pattern`, then `regex::Regex::replace` on `text` and
/// `replacement`. Nothing is claimed of the outcome but that the same three
/// texts always give the same one: that outcome is `regex_replaced`.
#[verifier::external_body]
fn regex_replace(pattern: &str, text: &str, replacement: &str) -> (r: Option<String>)
    ensures
        text_view(r) == regex_replaced(pattern@, text@, replacement@),
{
    match regex::Regex::new(pattern) {
        Ok(regex) => Some(regex.replace(text, replacement).into_owned()),
        Err(_) => None,
    }
}

/// Strips the file type suffix from the given file name: the leftmost match of
/// `FILE_SUFFIX` is taken out. None where the pattern is refused.
pub fn strip_file_suffix(name: &str) -> (r: Option<String>)
    ensures
        text_view(r) == regex_replaced(FILE_SUFFIX@, name@, ""@),
{
    regex_replace(FILE_SUFFIX, name, "")
}

} // verus!
