//! Regular expressions: replacing, finding and capturing.
use vstd::prelude::*;

verus! {

/// Whether `pattern` is a regular expression that compiles.
pub uninterp spec fn regex_compiles(pattern: Seq<char>) -> bool;

/// `text` with every non-overlapping match of `pattern` replaced by the
/// template `replacement`, whose `$name` refers to a capture group.
pub uninterp spec fn regex_replaced(
    pattern: Seq<char>,
    replacement: Seq<char>,
    text: Seq<char>,
) -> Seq<char>;

/// Relies on `regex::Regex::new`, which fails exactly on patterns that do
/// not compile, and on `Regex::replace_all`, whose result depends on the
/// pattern, the template and the text alone.
#[verifier::external_body]
pub(crate) fn replace_all_matches(pattern: &str, replacement: &str, text: &str) -> (r: Option<
    String,
>)
    ensures
        r is Some <==> regex_compiles(pattern@),
        r is Some ==> r->Some_0@ == regex_replaced(pattern@, replacement@, text@),
{
    match regex::Regex::new(pattern) {
        Ok(re) => Some(re.replace_all(text, replacement).into_owned()),
        Err(_) => None,
    }
}

/// The first match of `pattern` in `text`, leftmost first; `None` when
/// there is none or the pattern does not compile.
pub uninterp spec fn regex_first_match(pattern: Seq<char>, text: Seq<char>) -> Option<Seq<char>>;

/// Relies on `regex::Regex::new` and `Regex::find`: the match depends on
/// the pattern and the text alone.
#[verifier::external_body]
pub(crate) fn first_match(pattern: &str, text: &str) -> (r: Option<String>)
    ensures
        r is Some <==> regex_first_match(pattern@, text@) is Some,
        r is Some ==> r->Some_0@ == regex_first_match(pattern@, text@)->Some_0,
{
    match regex::Regex::new(pattern) {
        Ok(re) => match re.find(text) {
            Some(m) => Some(m.as_str().to_string()),
            None => None,
        },
        Err(_) => None,
    }
}

/// The texts of the capture groups `first` and `second` in the first match
/// of `pattern` in `text`; `None` when there is no match, a group took no
/// part in it, or the pattern does not compile.
pub uninterp spec fn regex_named_captures(
    pattern: Seq<char>,
    text: Seq<char>,
    first: Seq<char>,
    second: Seq<char>,
) -> Option<(Seq<char>, Seq<char>)>;

/// Relies on `regex::Regex::new`, `Regex::captures` and `Captures::name`:
/// the groups depend on the pattern, the text and the group names alone.
#[verifier::external_body]
pub(crate) fn named_captures(pattern: &str, text: &str, first: &str, second: &str) -> (r: Option<(String, String)>)
    ensures
        r is Some <==> regex_named_captures(pattern@, text@, first@, second@) is Some,
        r matches Some(c) ==> (c.0@, c.1@) == regex_named_captures(pattern@, text@, first@, second@)->Some_0,
{
    let re = match regex::Regex::new(pattern) {
        Ok(re) => re,
        Err(_) => return None,
    };
    match re.captures(text) {
        Some(c) => match (c.name(first), c.name(second)) {
            (Some(a), Some(b)) => Some((a.as_str().to_string(), b.as_str().to_string())),
            _ => None,
        },
        None => None,
    }
}

/// `text` with the first match of `pattern` replaced by the template
/// `replacement`; `None` when the pattern does not compile.
pub uninterp spec fn regex_replaced_first(
    pattern: Seq<char>,
    replacement: Seq<char>,
    text: Seq<char>,
) -> Option<Seq<char>>;

/// Relies on `regex::Regex::new` and `Regex::replace`: the result depends on
/// the pattern, the template and the text alone.
#[verifier::external_body]
pub(crate) fn replace_first_match(pattern: &str, replacement: &str, text: &str) -> (r: Option<String>)
    ensures
        r is Some <==> regex_replaced_first(pattern@, replacement@, text@) is Some,
        r is Some ==> r->Some_0@ == regex_replaced_first(pattern@, replacement@, text@)->Some_0,
{
    match regex::Regex::new(pattern) {
        Ok(re) => Some(re.replace(text, replacement).into_owned()),
        Err(_) => None,
    }
}

} // verus!
