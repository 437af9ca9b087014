use vstd::prelude::*;

verus! {

/// Marks the shared HTTP client in a context's type map.
pub struct HttpKey;

/// Marks the metadata attached to a queued track.
pub struct TrackMetaKey;

/// Marks the shard manager in a context's type map.
pub struct ShardManagerContainer;

/// Marks the configuration handler in a context's type map.
pub struct ConfigContainer;

} // verus!
