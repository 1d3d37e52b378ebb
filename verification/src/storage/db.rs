use vstd::prelude::*;

verus! {

/// The cache that a store gets unless told otherwise: 1 GiB.
pub const DEFAULT_CACHE_BYTES: u64 = 1024 * 1024 * 1024;

/// The cache of a store in light mode: 16 MiB.
pub const LIGHT_CACHE_BYTES: u64 = 16 * 1024 * 1024;

/// The cache capacity for a node, which is smaller in light mode.
pub fn cache_capacity(light: bool) -> (bytes: u64)
    ensures
        bytes == if light {
            LIGHT_CACHE_BYTES
        } else {
            DEFAULT_CACHE_BYTES
        },
{
    if light {
        LIGHT_CACHE_BYTES
    } else {
        DEFAULT_CACHE_BYTES
    }
}

} // verus!
