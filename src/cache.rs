//! Keys under which assets and build lists are cached.
use crate::text::{chars_of, string_of};
use vstd::prelude::*;

verus! {

/// The key of the cached build list.
pub const BUILDS_LIST_KEY: &'static str = "cache:builds_list";

/// The key of asset `asset_name` of build `build_hash`: `asset:<build>:<asset>`.
pub fn asset_key(build_hash: &str, asset_name: &str) -> (r: String)
    ensures
        r@ == "asset:"@ + build_hash@ + ":"@ + asset_name@,
{
    let mut k = chars_of("asset:");
    let mut h = chars_of(build_hash);
    let mut sep = chars_of(":");
    let mut n = chars_of(asset_name);
    k.append(&mut h);
    k.append(&mut sep);
    k.append(&mut n);
    string_of(&k)
}

/// The key of the cached build list.
pub fn builds_list_key() -> (r: &'static str)
    ensures
        r@ == BUILDS_LIST_KEY@,
{
    BUILDS_LIST_KEY
}

} // verus!
