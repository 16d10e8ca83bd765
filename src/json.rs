use vstd::prelude::*;

verus! {

/// The JSON string literal that serde_json writes for `s`: the characters of
/// `s` between double quotes, with `"`, `\` and the control characters
/// below U+0020 escaped.
pub uninterp spec fn json_string_of(s: Seq<char>) -> Seq<char>;

/// Relies on the `Display` impl of `serde_json::Value`: a `Value::String` is
/// written as one quoted JSON string literal, which depends on the string's
/// characters alone.
#[verifier::external_body]
pub(crate) fn json_quote(s: &str) -> (r: String)
    ensures
        r@ == json_string_of(s@),
{
    serde_json::Value::String(s.to_string()).to_string()
}

} // verus!
