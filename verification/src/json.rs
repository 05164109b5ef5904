//! JSON text of a string value, as `serde_json` writes it.

use vstd::prelude::*;

verus! {

/// The compact JSON text that `serde_json` gives a string value.
pub uninterp spec fn json_text(s: Seq<char>) -> Seq<char>;

/// Whether JSON text holds every character of the string as it is: none is a
/// control character, a double quote or a backslash.
pub open spec fn needs_no_escape(s: Seq<char>) -> bool {
    forall|i: int| 0 <= i < s.len() ==> ' ' <= #[trigger] s[i] && s[i] != '"' && s[i] != '\\'
}

/// The string between two double quotes.
pub open spec fn quoted(s: Seq<char>) -> Seq<char> {
    seq!['"'] + s + seq!['"']
}

/// `serde_json::Value::String(..)` shown through `Display`, which writes the
/// value as compact JSON and cannot fail for a string.
///
/// Claimed of it: the text depends on the string alone, and a string in which
/// nothing has to be escaped comes back between two double quotes, unchanged.
#[verifier::external_body]
pub(crate) fn json_string(s: &str) -> (text: String)
    ensures
        text@ == json_text(s@),
        needs_no_escape(s@) ==> text@ == quoted(s@),
{
    serde_json::Value::String(s.to_owned()).to_string()
}

} // verus!
