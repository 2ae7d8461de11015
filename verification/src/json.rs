//! The library's only window onto `serde_json`: parsing a request, putting a
//! JSON body back into compact form, and quoting a string as a JSON string
//! literal. Each operation is a function of its text argument alone, so each
//! result is given a name that the callers' contracts build on.

use crate::proxy::ProxyRequest;
use vstd::prelude::*;

verus! {

/// What parsing a proxy request means: `None` where the text is not a JSON
/// object carrying a string `api`, a string `ip` and an optional string
/// `id`; otherwise those three members, as `(api, ip, id)`.
pub uninterp spec fn spec_parse_request(s: Seq<char>) -> Option<
    (Seq<char>, Seq<char>, Option<Seq<char>>),
>;

/// The compact re-encoding of a JSON text (object keys in sorted order, no
/// inter-token spacing), or the parser's error message where the text is not
/// JSON.
pub uninterp spec fn canon_json(s: Seq<char>) -> Result<Seq<char>, Seq<char>>;

/// A string written as a double-quoted JSON string literal, with the
/// characters JSON cannot hold raw escaped.
pub uninterp spec fn json_str_lit(s: Seq<char>) -> Seq<char>;

/// Relies on `serde_json::from_str::<serde_json::Value>` and on
/// `serde_json::Value`'s accessors: parsing depends on the text alone, and
/// the accessors only read the three request members out of the parsed
/// object (any other shape, or a non-string member, is a parse failure;
/// a missing or `null` `id` is an absent one; extra members are ignored).
#[verifier::external_body]
pub(crate) fn parse_request(text: &str) -> (r: Option<ProxyRequest>)
    ensures
        match r {
            Some(q) => spec_parse_request(text@) == Some(q@),
            None => spec_parse_request(text@) is None,
        },
{
    let v: serde_json::Value = match serde_json::from_str(text) {
        Ok(v) => v,
        Err(_) => return None,
    };
    let api = v.get("api")?.as_str()?.to_string();
    let ip = v.get("ip")?.as_str()?.to_string();
    let id = match v.get("id") {
        None | Some(serde_json::Value::Null) => None,
        Some(serde_json::Value::String(s)) => Some(s.clone()),
        Some(_) => return None,
    };
    Some(ProxyRequest { api, ip, id })
}

/// Relies on `serde_json::from_str::<serde_json::Value>` and
/// `serde_json::Value::to_string`: both depend on the text alone, and
/// `to_string` writes the parsed value back compactly. The error case hands
/// back the parser's own message.
#[verifier::external_body]
pub(crate) fn reencode_json(body: &str) -> (r: Result<String, String>)
    ensures
        match r {
            Ok(c) => canon_json(body@) == Ok::<Seq<char>, Seq<char>>(c@),
            Err(e) => canon_json(body@) == Err::<Seq<char>, Seq<char>>(e@),
        },
{
    match serde_json::from_str::<serde_json::Value>(body) {
        Ok(v) => Ok(v.to_string()),
        Err(e) => Err(e.to_string()),
    }
}

/// Relies on `serde_json::to_string` applied to a `&str`: the result is the
/// argument as a double-quoted, escaped JSON string literal, and writing a
/// string value cannot fail.
#[verifier::external_body]
pub(crate) fn json_quote(s: &str) -> (r: String)
    ensures
        r@ == json_str_lit(s@),
{
    match serde_json::to_string(s) {
        Ok(q) => q,
        Err(_) => String::new(),
    }
}

} // verus!
