//! HTTP header maps, as far as this library writes to them.
//!
//! The map itself is `http`'s `HeaderMap`, reached through `axum::http`.
//! Nothing in here is proved: these are the statements about that crate on
//! which the proofs elsewhere rest.

use axum::http::header::{HeaderMap, HeaderValue, MaxSizeReached};
use vstd::prelude::*;

verus! {

/// `http::HeaderMap`, carried as an opaque value.
#[verifier::external_type_specification]
#[verifier::external_body]
#[verifier::reject_recursive_types(T)]
pub struct ExHeaderMap<T>(HeaderMap<T>);

/// `http::HeaderValue`, carried as an opaque value.
#[verifier::external_type_specification]
#[verifier::external_body]
pub struct ExHeaderValue(HeaderValue);

/// `http::header::MaxSizeReached`, the error of a header map that cannot grow.
#[verifier::external_type_specification]
#[verifier::external_body]
pub struct ExMaxSizeReached(MaxSizeReached);

/// What a header map holds: for each field name that is present (in lower
/// case, as the map stores it) the values under that name, in order, each as
/// its bytes.
pub uninterp spec fn header_fields(headers: HeaderMap<HeaderValue>) -> Map<Seq<char>, Seq<Seq<u8>>>;

/// A character of a lower-case field name made of letters, digits and hyphens.
pub open spec fn is_name_char(c: char) -> bool {
    ('a' <= c && c <= 'z') || ('0' <= c && c <= '9') || c == '-'
}

/// A non-empty field name of such characters, at most 64 of them.
pub open spec fn is_field_name(name: Seq<char>) -> bool {
    &&& 0 < name.len() <= 64
    &&& forall|i: int| 0 <= i < name.len() ==> is_name_char(#[trigger] name[i])
}

/// A field value of printable ASCII characters only (space to tilde).
pub open spec fn is_field_text(text: Seq<char>) -> bool {
    forall|i: int| 0 <= i < text.len() ==> ' ' <= #[trigger] text[i] && text[i] <= '~'
}

/// The bytes of an ASCII text, one per character.
pub open spec fn text_bytes(text: Seq<char>) -> Seq<u8> {
    Seq::new(text.len(), |i: int| text[i] as u8)
}

/// Whether a map with these fields is certain to accept `more` further names:
/// with them it holds at most 3276 names.
///
/// A header map refuses an insertion in two places only: where its table of
/// slots would have to grow beyond 32768 slots, and where it holds 32768
/// names. It grows the table, to twice its size, only when the names fill
/// the usable three quarters of it, or, after long runs of collisions, when
/// five times their number reaches the size of the table. A table that
/// cannot be doubled has more than 16384 slots, so a map that refuses holds
/// more than 3276 names. How the map was allocated does not enter.
pub open spec fn has_room(fields: Map<Seq<char>, Seq<Seq<u8>>>, more: nat) -> bool {
    fields.dom().finite() && fields.dom().len() + more <= 3276
}

/// `HeaderMap::try_insert`, with the name given as a static string and the
/// value made by `HeaderValue::from_static`.
///
/// Claimed of it: when it returns `Ok`, the name holds exactly the one new
/// value, whatever it held before, and every other name is untouched; when it
/// returns `Err` (the map is at the size it cannot grow beyond) the map holds
/// what it held. A map with room for one more name always returns `Ok`; of a
/// larger map the outcome depends on how it has grown, so nothing is claimed
/// about that. The precondition keeps out the names and values on which the
/// two conversions panic.
#[verifier::external_body]
pub(crate) fn try_put(
    headers: &mut HeaderMap<HeaderValue>,
    name: &'static str,
    text: &'static str,
) -> (done: Result<(), MaxSizeReached>)
    requires
        is_field_name(name@),
        is_field_text(text@),
    ensures
        has_room(header_fields(*old(headers)), 1) ==> done is Ok,
        done is Ok ==> header_fields(*final(headers)) == header_fields(*old(headers)).insert(
            name@,
            seq![text_bytes(text@)],
        ),
        done is Err ==> header_fields(*final(headers)) == header_fields(*old(headers)),
{
    match headers.try_insert(name, HeaderValue::from_static(text)) {
        Ok(_) => Ok(()),
        Err(full) => Err(full),
    }
}

} // verus!
