use vstd::prelude::*;
use crate::text::string_views;

verus! {

/// Whether the regular expression `pattern` finds a match somewhere in
/// `text`; nothing where `pattern` is no regular expression.
pub uninterp spec fn spec_regex_is_match(pattern: Seq<char>, text: Seq<char>) -> Option<bool>;

/// The texts of the successive matches, from left to right and without
/// overlap, that the regular expression `pattern` finds in `text`; nothing
/// where `pattern` is no regular expression.
pub uninterp spec fn spec_regex_find_all(pattern: Seq<char>, text: Seq<char>) -> Option<
    Seq<Seq<char>>,
>;

/// The lower-case form of a text under the Unicode case mappings.
pub uninterp spec fn spec_lowercase(text: Seq<char>) -> Seq<char>;

/// Compiles `pattern` with `regex::Regex::new` and asks `Regex::is_match`
/// whether it matches in `text`. The outcome depends on the two texts alone;
/// what the regular expression means is taken on trust.
#[verifier::external_body]
pub(crate) fn regex_is_match(pattern: &str, text: &str) -> (res: Option<bool>)
    ensures
        res == spec_regex_is_match(pattern@, text@),
{
    match regex::Regex::new(pattern) {
        Ok(re) => Some(re.is_match(text)),
        Err(_) => None,
    }
}

/// Compiles `pattern` with `regex::Regex::new` and collects the text of
/// each match that `Regex::find_iter` yields in `text`, in the order in
/// which they come. The outcome depends on the two texts alone.
#[verifier::external_body]
pub(crate) fn regex_find_all(pattern: &str, text: &str) -> (res: Option<Vec<String>>)
    ensures
        res is Some <==> spec_regex_find_all(pattern@, text@) is Some,
        res matches Some(v) ==> spec_regex_find_all(pattern@, text@) == Some(string_views(v@)),
{
    match regex::Regex::new(pattern) {
        Ok(re) => Some(re.find_iter(text).map(|m| m.as_str().to_string()).collect()),
        Err(_) => None,
    }
}

/// Calls `str::to_lowercase`: each character is replaced by its lower-case
/// equivalent under the Unicode case mappings.
#[verifier::external_body]
pub(crate) fn lowercase(text: &str) -> (res: String)
    ensures
        res@ == spec_lowercase(text@),
{
    text.to_lowercase()
}

} // verus!
