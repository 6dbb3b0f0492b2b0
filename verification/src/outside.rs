//! The calls that this crate makes into other crates, and the one call
//! into the standard library for which Verus has no contract. Verus takes
//! the contracts in this file on trust; everything else in the crate is
//! proved from them.

use vstd::prelude::*;
use crate::text::opt_view;

verus! {

/// What `regex` captures in its first group when the pattern `pattern` is
/// searched in `haystack`: nothing where the pattern does not compile, finds
/// no match, or matches without its first group taking part.
pub uninterp spec fn regex_first_group(pattern: Seq<char>, haystack: Seq<char>) -> Option<Seq<char>>;

/// What `urlencoding` decodes `text` to: nothing where the decoded bytes are
/// no UTF-8.
pub uninterp spec fn percent_decoded(text: Seq<char>) -> Option<Seq<char>>;

/// What `serde_json` makes of a text: the string members of the value that
/// the text parses to, or, where the text is no JSON document, the
/// parser's message.
pub uninterp spec fn json_document(text: Seq<char>) -> Result<Map<Seq<char>, Seq<char>>, Seq<char>>;

/// The string members of a JSON value: for an object, its keys that hold a
/// string, each with that string; for any other value, none.
pub uninterp spec fn json_strings(doc: serde_json::Value) -> Map<Seq<char>, Seq<char>>;

/// Makes `serde_json::Value` known to Verus, as a value that is carried
/// about and looked into only through `string_member`.
#[verifier::external_type_specification]
#[verifier::external_body]
pub struct ExJsonValue(serde_json::Value);

/// Builds the string that holds exactly the characters of `chars`.
///
/// Trusted: `String::from_iter` over the characters of a vector yields a
/// string whose characters are those of the vector, in order.
#[verifier::external_body]
pub(crate) fn string_of(chars: &Vec<char>) -> (out: String)
    ensures
        out@ == chars@,
{
    String::from_iter(chars.iter())
}

/// Trusted: compiles `pattern` with `regex::Regex::new`, searches `haystack`
/// with `Regex::captures` and takes group 1 with `Captures::get`. The
/// result depends on the two texts alone.
#[verifier::external_body]
pub(crate) fn first_group(pattern: &str, haystack: &str) -> (found: Option<String>)
    ensures
        opt_view(found) == regex_first_group(pattern@, haystack@),
{
    match regex::Regex::new(pattern) {
        Ok(re) => match re.captures(haystack) {
            Some(groups) => match groups.get(1) {
                Some(m) => Some(m.as_str().to_string()),
                None => None,
            },
            None => None,
        },
        Err(_) => None,
    }
}

/// Trusted: `urlencoding::decode` turns each `%` followed by two hex digits
/// into the byte they name, leaves everything else as it is, and fails
/// where the bytes it arrives at are no UTF-8. The result depends on
/// `text` alone.
#[verifier::external_body]
pub(crate) fn percent_decode(text: &str) -> (decoded: Option<String>)
    ensures
        opt_view(decoded) == percent_decoded(text@),
{
    match urlencoding::decode(text) {
        Ok(s) => Some(s.into_owned()),
        Err(_) => None,
    }
}

/// Trusted: `serde_json::from_str` reads `text` as one JSON value and fails
/// where `text` is no JSON document, with an error whose text says what is
/// wrong and where. Value and error depend on `text` alone.
#[verifier::external_body]
pub(crate) fn parse_json(text: &str) -> (doc: Result<serde_json::Value, String>)
    ensures
        match doc {
            Ok(v) => json_document(text@) == Ok::<Map<Seq<char>, Seq<char>>, Seq<char>>(
                json_strings(v),
            ),
            Err(message) => json_document(text@) == Err::<Map<Seq<char>, Seq<char>>, Seq<char>>(
                message@,
            ),
        },
{
    match serde_json::from_str::<serde_json::Value>(text) {
        Ok(v) => Ok(v),
        Err(e) => Err(e.to_string()),
    }
}

/// Trusted: `serde_json::Value::get` with a string key finds the member of
/// an object under that key, and `Value::as_str` gives its text where it is
/// a string.
#[verifier::external_body]
pub(crate) fn string_member(doc: &serde_json::Value, key: &str) -> (member: Option<String>)
    ensures
        member is Some == json_strings(*doc).contains_key(key@),
        member matches Some(s) ==> json_strings(*doc)[key@] == s@,
{
    match doc.get(key) {
        Some(v) => match v.as_str() {
            Some(s) => Some(s.to_string()),
            None => None,
        },
        None => None,
    }
}

} // verus!
