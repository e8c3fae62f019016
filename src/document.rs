use vstd::prelude::*;

verus! {

#[verifier::external_type_specification]
#[verifier::external_body]
pub struct ExJsonValue(json::JsonValue);

/// The document that the `json` crate parses from a text, if it accepts it.
pub uninterp spec fn json_of(text: Seq<char>) -> Option<json::JsonValue>;

/// The string value of a document's member, if it is a string.
pub uninterp spec fn str_at(doc: json::JsonValue, key: Seq<char>) -> Option<Seq<char>>;

/// The string value of a member of a document's member, if it is a string.
pub uninterp spec fn str_under(doc: json::JsonValue, outer: Seq<char>, key: Seq<char>) -> Option<
    Seq<char>,
>;

/// The `Display` text of a document's member (`null` where there is none).
pub uninterp spec fn shown_at(doc: json::JsonValue, key: Seq<char>) -> Seq<char>;

/// The `Display` text of a member of a document's member.
pub uninterp spec fn shown_under(doc: json::JsonValue, outer: Seq<char>, key: Seq<char>) -> Seq<
    char,
>;

/// A document's member read as a `usize`, if it is a number that fits.
pub uninterp spec fn count_at(doc: json::JsonValue, key: Seq<char>) -> Option<usize>;

/// The string value under `key` of the element at `index` of the array that
/// is the document's member `list`, if it is a string.
pub uninterp spec fn str_in_list(
    doc: json::JsonValue,
    list: Seq<char>,
    index: usize,
    key: Seq<char>,
) -> Option<Seq<char>>;

pub open spec fn opt_text(o: Option<String>) -> Option<Seq<char>> {
    match o {
        Some(s) => Some(s@),
        None => None,
    }
}

/// Relies on `json::parse`: the parsed document, or nothing where the text
/// is no JSON; the outcome depends on the text alone.
#[verifier::external_body]
pub(crate) fn parse_document(text: &str) -> (r: Option<json::JsonValue>)
    ensures
        r == json_of(text@),
{
    json::parse(text).ok()
}

/// Relies on `doc[key].as_str()` of `json::JsonValue`: indexing gives null
/// where there is no member, and `as_str` the text of a string value only.
#[verifier::external_body]
pub(crate) fn text_at(doc: &json::JsonValue, key: &str) -> (r: Option<String>)
    ensures
        opt_text(r) == str_at(*doc, key@),
{
    doc[key].as_str().map(|s| s.to_string())
}

/// Relies on `doc[outer][key].as_str()` of `json::JsonValue`.
#[verifier::external_body]
pub(crate) fn text_under(doc: &json::JsonValue, outer: &str, key: &str) -> (r: Option<String>)
    ensures
        opt_text(r) == str_under(*doc, outer@, key@),
{
    doc[outer][key].as_str().map(|s| s.to_string())
}

/// Relies on `doc[key].to_string()` of `json::JsonValue`: a string's text,
/// other values as JSON.
#[verifier::external_body]
pub(crate) fn display_at(doc: &json::JsonValue, key: &str) -> (r: String)
    ensures
        r@ == shown_at(*doc, key@),
{
    doc[key].to_string()
}

/// Relies on `doc[outer][key].to_string()` of `json::JsonValue`.
#[verifier::external_body]
pub(crate) fn display_under(doc: &json::JsonValue, outer: &str, key: &str) -> (r: String)
    ensures
        r@ == shown_under(*doc, outer@, key@),
{
    doc[outer][key].to_string()
}

/// Relies on `doc[key].as_usize()` of `json::JsonValue`.
#[verifier::external_body]
pub(crate) fn usize_at(doc: &json::JsonValue, key: &str) -> (r: Option<usize>)
    ensures
        r == count_at(*doc, key@),
{
    doc[key].as_usize()
}

/// Relies on `doc[list][index][key].as_str()` of `json::JsonValue`:
/// indexing an array past its end, or anything but an array, gives null.
#[verifier::external_body]
pub(crate) fn text_in_list(doc: &json::JsonValue, list: &str, index: usize, key: &str) -> (r:
    Option<String>)
    ensures
        opt_text(r) == str_in_list(*doc, list@, index, key@),
{
    doc[list][index][key].as_str().map(|s| s.to_string())
}

} // verus!
