//! Declarations of the outside types and functions that the library calls, with
//! what it assumes of them.
use vstd::prelude::*;

verus! {

/// A JSON document as `serde_json` holds it; opaque here.
#[verifier::external_type_specification]
#[verifier::external_body]
pub struct ExValue(serde_json::Value);

/// The value that a JSON pointer such as `/config/addr` reaches in a document, if any.
pub uninterp spec fn json_at(v: serde_json::Value, path: Seq<char>) -> Option<serde_json::Value>;

/// The elements of a JSON value, if it is an array.
pub uninterp spec fn json_items(v: serde_json::Value) -> Option<Seq<serde_json::Value>>;

/// The text of a JSON value, if it is a string.
pub uninterp spec fn json_text(v: serde_json::Value) -> Option<Seq<char>>;

/// Relies on `serde_json::Value::pointer`: looks a path up in a document; what it
/// finds depends on the document and the path alone.
pub assume_specification<'a, 'b>[ serde_json::Value::pointer ](
    v: &'a serde_json::Value,
    pointer: &'b str,
) -> (r: Option<&'a serde_json::Value>)
    ensures
        match r {
            Some(x) => json_at(*v, pointer@) == Some(*x),
            None => json_at(*v, pointer@) is None,
        },
;

/// Relies on `serde_json::Value::as_array`: the elements of an array value, `None`
/// for any other value.
pub assume_specification[ serde_json::Value::as_array ](v: &serde_json::Value) -> (r: Option<
    &Vec<serde_json::Value>,
>)
    ensures
        match r {
            Some(a) => json_items(*v) == Some(a@),
            None => json_items(*v) is None,
        },
;

/// Relies on `serde_json::Value::as_str`: the text of a string value, `None` for any
/// other value.
pub assume_specification[ serde_json::Value::as_str ](v: &serde_json::Value) -> (r: Option<&str>)
    ensures
        match r {
            Some(s) => json_text(*v) == Some(s@),
            None => json_text(*v) is None,
        },
;

/// A parsed URL; opaque here.
#[verifier::external_type_specification]
#[verifier::external_body]
pub struct ExUrl(url::Url);

/// Why `url::Url::parse` refused its input; opaque here.
#[verifier::external_type_specification]
#[verifier::external_body]
pub struct ExParseError(url::ParseError);

/// Whether `url::Url::parse` accepts a string.
pub uninterp spec fn url_parses(s: Seq<char>) -> bool;

/// The URL that `url::Url::parse` makes of a string it accepts.
pub uninterp spec fn parsed_url(s: Seq<char>) -> url::Url;

/// Relies on `url::Url::parse`: with the default options, whether it succeeds and
/// what it returns depend on the input alone.
pub assume_specification[ url::Url::parse ](input: &str) -> (r: Result<
    url::Url,
    url::ParseError,
>)
    ensures
        r is Ok <==> url_parses(input@),
        r is Ok ==> r->Ok_0 == parsed_url(input@),
;

} // verus!
