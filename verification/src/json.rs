//! JSON string quoting, done by serde_json behind a trusted wrapper.

use vstd::prelude::*;

verus! {

/// The JSON string literal (opening quote, escaped characters, closing
/// quote) that serde_json produces for a string with these characters.
pub uninterp spec fn json_string_of(s: Seq<char>) -> Seq<char>;

/// Relies on serde_json::to_string for `str`: it writes `"`, the escaped
/// characters, `"`, and its output depends on the characters alone.
/// Serializing a string value cannot fail (no fallible Serialize
/// implementation and no non-string map key is involved), so the error
/// arm below is never taken.
#[verifier::external_body]
pub(crate) fn json_quote(s: &str) -> (r: String)
    ensures
        r@ == json_string_of(s@),
{
    match serde_json::to_string(s) {
        Ok(quoted) => quoted,
        Err(_) => String::new(),
    }
}

/// The JSON text for a boolean.
pub open spec fn json_bool(b: bool) -> Seq<char> {
    if b {
        "true"@
    } else {
        "false"@
    }
}

/// The JSON text for an optional boolean: `null` when absent.
pub open spec fn json_opt_bool(o: Option<bool>) -> Seq<char> {
    match o {
        Some(b) => json_bool(b),
        None => "null"@,
    }
}

/// Appends the JSON text of an optional boolean to `out`.
pub(crate) fn append_opt_bool(out: &mut String, o: Option<bool>)
    ensures
        final(out)@ == old(out)@ + json_opt_bool(o),
{
    match o {
        Some(true) => out.append("true"),
        Some(false) => out.append("false"),
        None => out.append("null"),
    }
}

} // verus!
