use lora_model::descriptor::PagedAttnConfig;
use lora_model::pipeline::CacheConfig;
use lora_model::scheduler::BuildError;
use lora_model::scheduler::DefaultSchedulerMethod;
use lora_model::scheduler::SchedulerConfig;
use lora_model::scheduler::fixed_method;
use lora_model::scheduler::select_text_scheduler;
use lora_model::scheduler::select_vision_scheduler;

fn paged_request() -> PagedAttnConfig {
    PagedAttnConfig {
        block_size: Some(32),
        mem_cpu: 512,
        mem_gpu: 4096,
    }
}

fn reported_cache() -> CacheConfig {
    CacheConfig {
        block_size: 32,
        num_gpu_blocks: 128,
        num_cpu_blocks: 16,
    }
}

#[test]
fn scenario_a_text_unrequested_gives_default_sixteen() {
    let r = select_text_scheduler(None, None, 16);
    assert_eq!(
        r,
        Ok(SchedulerConfig::DefaultScheduler {
            method: DefaultSchedulerMethod::Fixed(16)
        })
    );
}

#[test]
fn scenario_b_vision_requested_and_reported_gives_paged_meta() {
    let cache = reported_cache();
    let r = select_vision_scheduler(Some(paged_request()), Some(cache), 8);
    assert_eq!(
        r,
        Ok(SchedulerConfig::PagedAttentionMeta {
            max_num_seqs: 8,
            config: cache,
        })
    );
}

#[test]
fn scenario_c_vision_requested_but_unreported_falls_back() {
    let r = select_vision_scheduler(Some(paged_request()), None, 8);
    assert_eq!(
        r,
        Ok(SchedulerConfig::DefaultScheduler {
            method: DefaultSchedulerMethod::Fixed(8)
        })
    );
}

#[test]
fn text_requested_and_reported_carries_pipeline_cache() {
    let cache = reported_cache();
    let r = select_text_scheduler(Some(paged_request()), Some(cache), 5);
    assert_eq!(
        r,
        Ok(SchedulerConfig::PagedAttentionMeta {
            max_num_seqs: 5,
            config: cache,
        })
    );
}

#[test]
fn vision_unrequested_gives_default() {
    let r = select_vision_scheduler(None, Some(reported_cache()), 3);
    assert_eq!(
        r,
        Ok(SchedulerConfig::DefaultScheduler {
            method: DefaultSchedulerMethod::Fixed(3)
        })
    );
}

#[test]
fn zero_sequence_count_is_a_conversion_error() {
    assert_eq!(select_text_scheduler(None, None, 0), Err(BuildError::Conversion));
    assert_eq!(select_vision_scheduler(None, None, 0), Err(BuildError::Conversion));
    assert_eq!(
        select_vision_scheduler(Some(paged_request()), None, 0),
        Err(BuildError::Conversion)
    );
    assert_eq!(fixed_method(0), Err(BuildError::Conversion));
}

#[test]
fn one_sequence_fits_the_capacity_type() {
    assert_eq!(fixed_method(1), Ok(DefaultSchedulerMethod::Fixed(1)));
}
