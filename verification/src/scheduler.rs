//! Scheduler selection.
//!
//! The policy is derived strictly from two inputs: whether the caller's
//! descriptor requested a paged-attention cache, and whether the loaded
//! pipeline reports one.  Text and vision agree except on one point: when a
//! requested cache is missing from the pipeline, text treats the situation as
//! a loader contract violation (the selector refuses that input), while
//! vision silently falls back to the default scheduler.

use vstd::prelude::*;

use crate::descriptor::PagedAttnConfig;
use crate::pipeline::CacheConfig;

verus! {

/// Why building the runtime can fail once a pipeline is in hand.
#[derive(Clone, Copy, Debug, PartialEq, Eq)]
pub enum BuildError {
    /// The configured maximum sequence count does not fit the fixed-slot
    /// scheduler's capacity type, which holds counts of at least one.
    Conversion,
}

/// Capacity of the fixed-slot scheduler: a slot count of at least one.
#[derive(Clone, Copy, Debug, PartialEq, Eq)]
pub enum DefaultSchedulerMethod {
    Fixed(usize),
}

impl DefaultSchedulerMethod {
    /// The slot count is at least one.
    pub open spec fn well_formed(self) -> bool {
        match self {
            DefaultSchedulerMethod::Fixed(n) => n >= 1,
        }
    }
}

/// The scheduling policy the runtime is wired with.
#[derive(Clone, Copy, Debug, PartialEq, Eq)]
pub enum SchedulerConfig {
    /// Capacity-bounded paging, parameterized by the pipeline's cache layout.
    PagedAttentionMeta { max_num_seqs: usize, config: CacheConfig },
    /// Fixed-slot scheduling.
    DefaultScheduler { method: DefaultSchedulerMethod },
}

impl SchedulerConfig {
    /// A default policy carries a well-formed slot count.
    pub open spec fn well_formed(self) -> bool {
        match self {
            SchedulerConfig::PagedAttentionMeta { .. } => true,
            SchedulerConfig::DefaultScheduler { method } => method.well_formed(),
        }
    }
}

/// Conversion of a sequence count into fixed-slot capacity: exact for counts
/// of at least one, a conversion error for zero.
pub open spec fn spec_fixed_method(max_num_seqs: usize) -> Result<DefaultSchedulerMethod, BuildError> {
    if max_num_seqs >= 1 {
        Ok(DefaultSchedulerMethod::Fixed(max_num_seqs))
    } else {
        Err(BuildError::Conversion)
    }
}

/// The default policy for `max_num_seqs` slots, or the conversion error.
pub open spec fn spec_default_scheduler(max_num_seqs: usize) -> Result<SchedulerConfig, BuildError> {
    match spec_fixed_method(max_num_seqs) {
        Ok(method) => Ok(SchedulerConfig::DefaultScheduler { method }),
        Err(e) => Err(e),
    }
}

/// The text path's policy.  When a paged-attention cache was requested the
/// pipeline's reported configuration is taken as present (the selector's
/// caller must have checked it); otherwise the default scheduler is sized by
/// `max_num_seqs`.
pub open spec fn spec_text_scheduler(
    paged_attn_cfg: Option<PagedAttnConfig>,
    cache_config: Option<CacheConfig>,
    max_num_seqs: usize,
) -> Result<SchedulerConfig, BuildError> {
    match paged_attn_cfg {
        Some(_) => Ok(
            SchedulerConfig::PagedAttentionMeta { max_num_seqs, config: cache_config.unwrap() },
        ),
        None => spec_default_scheduler(max_num_seqs),
    }
}

/// The vision path's policy.  As the text path, except that a requested cache
/// the pipeline does not report falls back to the default scheduler.
pub open spec fn spec_vision_scheduler(
    paged_attn_cfg: Option<PagedAttnConfig>,
    cache_config: Option<CacheConfig>,
    max_num_seqs: usize,
) -> Result<SchedulerConfig, BuildError> {
    match paged_attn_cfg {
        Some(_) => match cache_config {
            Some(config) => Ok(SchedulerConfig::PagedAttentionMeta { max_num_seqs, config }),
            None => spec_default_scheduler(max_num_seqs),
        },
        None => spec_default_scheduler(max_num_seqs),
    }
}

/// Converts the sequence count into the fixed-slot capacity type.
pub fn fixed_method(max_num_seqs: usize) -> (r: Result<DefaultSchedulerMethod, BuildError>)
    ensures
        r == spec_fixed_method(max_num_seqs),
        r matches Ok(m) ==> m.well_formed(),
{
    if max_num_seqs >= 1 {
        Ok(DefaultSchedulerMethod::Fixed(max_num_seqs))
    } else {
        Err(BuildError::Conversion)
    }
}

/// Selects the text path's policy.  A requested cache must have been
/// resolved by the load: its absence is the loader breaking its contract,
/// and no policy stands for it.
pub fn select_text_scheduler(
    paged_attn_cfg: Option<PagedAttnConfig>,
    cache_config: Option<CacheConfig>,
    max_num_seqs: usize,
) -> (r: Result<SchedulerConfig, BuildError>)
    requires
        paged_attn_cfg is Some ==> cache_config is Some,
    ensures
        r == spec_text_scheduler(paged_attn_cfg, cache_config, max_num_seqs),
        r matches Ok(c) ==> c.well_formed(),
{
    match paged_attn_cfg {
        Some(_) => {
            let config = cache_config.unwrap();
            Ok(SchedulerConfig::PagedAttentionMeta { max_num_seqs, config })
        },
        None => match fixed_method(max_num_seqs) {
            Ok(method) => Ok(SchedulerConfig::DefaultScheduler { method }),
            Err(e) => Err(e),
        },
    }
}

/// Selects the vision path's policy: as the text path, but an unresolved
/// cache request falls back to the default scheduler instead of failing.
pub fn select_vision_scheduler(
    paged_attn_cfg: Option<PagedAttnConfig>,
    cache_config: Option<CacheConfig>,
    max_num_seqs: usize,
) -> (r: Result<SchedulerConfig, BuildError>)
    ensures
        r == spec_vision_scheduler(paged_attn_cfg, cache_config, max_num_seqs),
        r matches Ok(c) ==> c.well_formed(),
{
    match paged_attn_cfg {
        Some(_) => match cache_config {
            Some(config) => Ok(SchedulerConfig::PagedAttentionMeta { max_num_seqs, config }),
            None => match fixed_method(max_num_seqs) {
                Ok(method) => Ok(SchedulerConfig::DefaultScheduler { method }),
                Err(e) => Err(e),
            },
        },
        None => match fixed_method(max_num_seqs) {
            Ok(method) => Ok(SchedulerConfig::DefaultScheduler { method }),
            Err(e) => Err(e),
        },
    }
}

/// Law: a descriptor that did not request paged attention gets, on either
/// modality path, the default scheduler with exactly `max_num_seqs` fixed
/// slots — or the conversion error when the count is zero.
pub proof fn lemma_unrequested_paged_attention_defaults(
    cache_config: Option<CacheConfig>,
    max_num_seqs: usize,
)
    ensures
        spec_text_scheduler(None, cache_config, max_num_seqs) == spec_vision_scheduler(
            None,
            cache_config,
            max_num_seqs,
        ),
        max_num_seqs >= 1 ==> spec_text_scheduler(None, cache_config, max_num_seqs) == Ok::<
            SchedulerConfig,
            BuildError,
        >(
            SchedulerConfig::DefaultScheduler {
                method: DefaultSchedulerMethod::Fixed(max_num_seqs),
            },
        ),
        max_num_seqs == 0 ==> spec_text_scheduler(None, cache_config, max_num_seqs) == Err::<
            SchedulerConfig,
            BuildError,
        >(BuildError::Conversion),
{
}

/// Law: on the text path, a requested paged-attention cache that the
/// pipeline reports yields the paged policy carrying exactly the pipeline's
/// reported cache configuration, whatever the sequence count.
pub proof fn lemma_text_paged_attention_uses_pipeline_cache(
    requested: PagedAttnConfig,
    reported: CacheConfig,
    max_num_seqs: usize,
)
    ensures
        spec_text_scheduler(Some(requested), Some(reported), max_num_seqs) == Ok::<
            SchedulerConfig,
            BuildError,
        >(SchedulerConfig::PagedAttentionMeta { max_num_seqs, config: reported }),
{
}

/// Law: on the vision path, a requested paged-attention cache that the
/// pipeline does not report is no error: the selection is exactly what an
/// unrequested cache would have produced, the default scheduler with
/// `max_num_seqs` slots when the count admits one.
pub proof fn lemma_vision_missing_cache_falls_back(requested: PagedAttnConfig, max_num_seqs: usize)
    ensures
        spec_vision_scheduler(Some(requested), None, max_num_seqs) == spec_vision_scheduler(
            None,
            None,
            max_num_seqs,
        ),
        max_num_seqs >= 1 ==> spec_vision_scheduler(Some(requested), None, max_num_seqs) == Ok::<
            SchedulerConfig,
            BuildError,
        >(
            SchedulerConfig::DefaultScheduler {
                method: DefaultSchedulerMethod::Fixed(max_num_seqs),
            },
        ),
{
}

} // verus!
