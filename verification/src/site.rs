//! Where the host listens and where its documents live.

use vstd::prelude::*;

verus! {

/// TCP port of the listener; it listens on every interface.
pub const PORT: u16 = 10001;

/// Directory of the pre-built static assets.
pub const ASSET_ROOT: &'static str = "dist";

/// The entry document, served for every path that names no asset.
pub const FALLBACK_DOCUMENT: &'static str = "dist/index.html";

} // verus!
