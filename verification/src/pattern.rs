use vstd::prelude::*;

verus! {

/// Declares `regex::Error` as a type whose inside is not looked at.
#[verifier::external_type_specification]
#[verifier::external_body]
pub struct ExRegexError(regex::Error);

/// The text in which `regex::Regex::replace_all` has replaced every match
/// of a pattern, or `None` where `regex::Regex::new` refuses the pattern.
pub uninterp spec fn replaced(pattern: Seq<char>, text: Seq<char>, replacement: Seq<char>) -> Option<
    Seq<char>,
>;

/// The text that `str::to_lowercase` makes of a text.
pub uninterp spec fn lowered(text: Seq<char>) -> Seq<char>;

/// Compiles the pattern with `regex::Regex::new` and calls
/// `regex::Regex::replace_all` on the text.
///
/// Claims that the outcome is a function of the three texts.
#[verifier::external_body]
fn replace_with(pattern: &str, text: &str, replacement: &str) -> (r: Result<String, regex::Error>)
    ensures
        match r {
            Ok(new) => replaced(pattern@, text@, replacement@) == Some(new@),
            Err(_) => replaced(pattern@, text@, replacement@) is None,
        },
{
    Ok(regex::Regex::new(pattern)?.replace_all(text, replacement).into_owned())
}

/// Calls `str::to_lowercase`.
///
/// Claims that the result is a function of the text.
#[verifier::external_body]
fn lowercase_of(text: &str) -> (r: String)
    ensures
        r@ == lowered(text@),
{
    text.to_lowercase()
}

/// The text with every match of `pattern` replaced by `replacement`.
///
/// Returns `None` exactly where the pattern is not a regular expression
/// that can be compiled.
pub fn replace_all(pattern: &str, text: &str, replacement: &str) -> (r: Option<String>)
    ensures
        r.deep_view() == replaced(pattern@, text@, replacement@),
{
    match replace_with(pattern, text, replacement) {
        Ok(new) => Some(new),
        Err(_) => None,
    }
}

/// The text in lower case.
pub fn lowercase(text: &str) -> (r: String)
    ensures
        r@ == lowered(text@),
{
    lowercase_of(text)
}

} // verus!
