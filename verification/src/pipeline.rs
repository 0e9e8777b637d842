//! The loaded pipeline, as this core observes it.
//!
//! The pipeline itself — weights bound to a device — is owned by the host
//! that performed the load.  The decision logic reads exactly one piece of
//! its metadata: the cache configuration it was resolved with, whose presence
//! signals that paged attention is available.

use vstd::prelude::*;

verus! {

/// The paged-attention cache layout a pipeline reports after loading.
#[derive(Clone, Copy, Debug, PartialEq, Eq)]
pub struct CacheConfig {
    /// Cache page size in tokens.
    pub block_size: usize,
    /// Number of cache pages held in device memory.
    pub num_gpu_blocks: usize,
    /// Number of cache pages held in host memory.
    pub num_cpu_blocks: usize,
}

/// Metadata of a loaded, device-bound pipeline.
#[derive(Clone, Copy, Debug, PartialEq, Eq)]
pub struct Pipeline {
    /// The host's handle for the loaded instance.
    pub handle: u64,
    /// The cache configuration the load resolved, if any.
    pub cache_config: Option<CacheConfig>,
}

} // verus!
