//! Cross-origin isolation: the two headers that every response carries.

use crate::fields::{has_room, header_fields, text_bytes, try_put};
use axum::http::header::{HeaderMap, HeaderValue};
use vstd::prelude::*;

verus! {

/// Name of the opener-policy header, as header maps store it.
pub const OPENER_POLICY: &'static str = "cross-origin-opener-policy";

/// The opener policy that is announced.
pub const SAME_ORIGIN: &'static str = "same-origin";

/// Name of the embedder-policy header, as header maps store it.
pub const EMBEDDER_POLICY: &'static str = "cross-origin-embedder-policy";

/// The embedder policy that is announced.
pub const REQUIRE_CORP: &'static str = "require-corp";

/// Why the isolation headers could not be set.
#[derive(Debug, Clone, Copy, PartialEq, Eq)]
pub enum HeaderError {
    /// The header map is as large as a header map can get.
    MapFull,
}

/// The given fields with the opener policy set, and nothing else changed.
pub open spec fn with_opener_policy(fields: Map<Seq<char>, Seq<Seq<u8>>>) -> Map<
    Seq<char>,
    Seq<Seq<u8>>,
> {
    fields.insert(OPENER_POLICY@, seq![text_bytes(SAME_ORIGIN@)])
}

/// The given fields with both policies set: each of the two names holds
/// exactly its one value, and every other name holds what it held.
pub open spec fn isolated(fields: Map<Seq<char>, Seq<Seq<u8>>>) -> Map<Seq<char>, Seq<Seq<u8>>> {
    with_opener_policy(fields).insert(EMBEDDER_POLICY@, seq![text_bytes(REQUIRE_CORP@)])
}

/// Whether the fields announce both policies, each exactly once.
pub open spec fn carries_isolation(fields: Map<Seq<char>, Seq<Seq<u8>>>) -> bool {
    &&& fields.contains_key(OPENER_POLICY@)
    &&& fields[OPENER_POLICY@] == seq![text_bytes(SAME_ORIGIN@)]
    &&& fields.contains_key(EMBEDDER_POLICY@)
    &&& fields[EMBEDDER_POLICY@] == seq![text_bytes(REQUIRE_CORP@)]
}

/// Setting the policies gives fields that carry them, whatever was there.
pub proof fn isolated_carries_isolation(fields: Map<Seq<char>, Seq<Seq<u8>>>)
    ensures
        carries_isolation(isolated(fields)),
{
    reveal_strlit("cross-origin-opener-policy");
    reveal_strlit("cross-origin-embedder-policy");
    assert(OPENER_POLICY@.len() == 26);
    assert(EMBEDDER_POLICY@.len() == 28);
}

/// Setting the policies touches no other name: a name that is neither of the
/// two is present afterwards exactly if it was before, with the same values.
pub proof fn isolated_keeps_other_fields(fields: Map<Seq<char>, Seq<Seq<u8>>>, name: Seq<char>)
    requires
        name != OPENER_POLICY@,
        name != EMBEDDER_POLICY@,
    ensures
        isolated(fields).contains_key(name) == fields.contains_key(name),
        fields.contains_key(name) ==> isolated(fields)[name] == fields[name],
{
}

/// Setting the policies a second time changes nothing.
pub proof fn isolated_twice(fields: Map<Seq<char>, Seq<Seq<u8>>>)
    ensures
        isolated(isolated(fields)) == isolated(fields),
{
    assert(isolated(isolated(fields)) =~= isolated(fields));
}

/// Sets the two isolation headers on a response's header map, replacing
/// whatever the response had under those names and leaving the rest alone.
///
/// A map with room for two more names, as every ordinary response has, always
/// gets them. A larger map can refuse to grow; then the error is returned and
/// the map holds what it held, except that the opener policy may already be
/// in place.
pub fn set_coep_coop(headers: &mut HeaderMap<HeaderValue>) -> (done: Result<(), HeaderError>)
    ensures
        has_room(header_fields(*old(headers)), 2) ==> done is Ok,
        done is Ok ==> header_fields(*final(headers)) == isolated(header_fields(*old(headers))),
        done is Ok ==> carries_isolation(header_fields(*final(headers))),
        done is Err ==> header_fields(*final(headers)) == header_fields(*old(headers))
            || header_fields(*final(headers)) == with_opener_policy(header_fields(*old(headers))),
{
    proof {
        reveal_strlit("cross-origin-opener-policy");
        reveal_strlit("same-origin");
        reveal_strlit("cross-origin-embedder-policy");
        reveal_strlit("require-corp");
        isolated_carries_isolation(header_fields(*old(headers)));
    }
    match try_put(headers, OPENER_POLICY, SAME_ORIGIN) {
        Ok(()) => {},
        Err(_) => {
            return Err(HeaderError::MapFull);
        },
    }
    proof {
        let before = header_fields(*old(headers));
        if has_room(before, 2) {
            assert(with_opener_policy(before).dom() =~= before.dom().insert(OPENER_POLICY@));
            assert(has_room(with_opener_policy(before), 1));
        }
    }
    match try_put(headers, EMBEDDER_POLICY, REQUIRE_CORP) {
        Ok(()) => Ok(()),
        Err(_) => Err(HeaderError::MapFull),
    }
}

} // verus!
