use lora_model::builder::LoraModelBuilder;
use lora_model::descriptor::PagedAttnConfig;
use lora_model::descriptor::TextModelBuilder;
use lora_model::descriptor::ToolCallbackEntry;
use lora_model::descriptor::ToolCallbackWithToolEntry;
use lora_model::descriptor::VisionModelBuilder;
use lora_model::pipeline::CacheConfig;
use lora_model::pipeline::Pipeline;
use lora_model::scheduler::BuildError;
use lora_model::scheduler::DefaultSchedulerMethod;
use lora_model::scheduler::SchedulerConfig;

fn plain_pipeline() -> Pipeline {
    Pipeline {
        handle: 11,
        cache_config: None,
    }
}

fn paged_pipeline() -> Pipeline {
    Pipeline {
        handle: 12,
        cache_config: Some(CacheConfig {
            block_size: 32,
            num_gpu_blocks: 64,
            num_cpu_blocks: 8,
        }),
    }
}

#[test]
fn scenario_d_tool_callbacks_resolve_by_name() {
    let mut d = TextModelBuilder::new("org/text-model".to_string());
    d.max_num_seqs = 16;
    d.tool_callbacks = vec![
        ToolCallbackEntry {
            name: "search".to_string(),
            callback: 1,
        },
        ToolCallbackEntry {
            name: "calc".to_string(),
            callback: 2,
        },
    ];
    let b = LoraModelBuilder::from_text_model_builder(d, Vec::new());
    let model = b.build(plain_pipeline()).expect("build");
    assert_eq!(model.runner.tool_callback(&"search".to_string()), Some(1));
    assert_eq!(model.runner.tool_callback(&"calc".to_string()), Some(2));
    assert_eq!(model.runner.tool_callback(&"absent".to_string()), None);
}

#[test]
fn scenario_e_prefix_cache_toggle_follows_the_depth() {
    let mut d = TextModelBuilder::new("org/text-model".to_string());
    let b = LoraModelBuilder::from_text_model_builder(d, Vec::new());
    let model = b.build(plain_pipeline()).expect("build");
    assert!(model.runner.no_prefix_cache);
    assert_eq!(model.runner.prefix_cache_n, None);

    d = TextModelBuilder::new("org/text-model".to_string());
    d.prefix_cache_n = Some(4);
    let b = LoraModelBuilder::from_text_model_builder(d, Vec::new());
    let model = b.build(plain_pipeline()).expect("build");
    assert!(!model.runner.no_prefix_cache);
    assert_eq!(model.runner.prefix_cache_n, Some(4));
}

#[test]
fn text_default_scheduler_has_sixteen_slots() {
    let mut d = TextModelBuilder::new("org/text-model".to_string());
    d.max_num_seqs = 16;
    let b = LoraModelBuilder::from_text_model_builder(d, Vec::new());
    let model = b.build(plain_pipeline()).expect("build");
    assert_eq!(
        model.runner.method,
        SchedulerConfig::DefaultScheduler {
            method: DefaultSchedulerMethod::Fixed(16)
        }
    );
    assert_eq!(model.runner.pipeline, plain_pipeline());
}

#[test]
fn text_paged_attention_wires_the_reported_cache() {
    let mut d = TextModelBuilder::new("org/text-model".to_string());
    d.max_num_seqs = 16;
    d.paged_attn_cfg = Some(PagedAttnConfig {
        block_size: None,
        mem_cpu: 256,
        mem_gpu: 2048,
    });
    let b = LoraModelBuilder::from_text_model_builder(d, Vec::new());
    let pipeline = paged_pipeline();
    let model = b.build(pipeline).expect("build");
    assert_eq!(
        model.runner.method,
        SchedulerConfig::PagedAttentionMeta {
            max_num_seqs: 16,
            config: pipeline.cache_config.unwrap(),
        }
    );
}

#[test]
fn vision_missing_cache_falls_back_to_default() {
    let mut d = VisionModelBuilder::new("org/vision-model".to_string());
    d.max_num_seqs = 8;
    d.paged_attn_cfg = Some(PagedAttnConfig {
        block_size: None,
        mem_cpu: 256,
        mem_gpu: 2048,
    });
    let b = LoraModelBuilder::from_vision_model_builder(d, Vec::new());
    let model = b.build(plain_pipeline()).expect("build");
    assert_eq!(
        model.runner.method,
        SchedulerConfig::DefaultScheduler {
            method: DefaultSchedulerMethod::Fixed(8)
        }
    );
}

#[test]
fn text_no_kv_cache_is_the_callers_choice() {
    let mut d = TextModelBuilder::new("org/text-model".to_string());
    d.no_kv_cache = true;
    let b = LoraModelBuilder::from_text_model_builder(d, Vec::new());
    let model = b.build(plain_pipeline()).expect("build");
    assert!(model.runner.no_kv_cache);
}

#[test]
fn vision_no_kv_cache_is_hard_disabled() {
    let d = VisionModelBuilder::new("org/vision-model".to_string());
    let b = LoraModelBuilder::from_vision_model_builder(d, Vec::new());
    let model = b.build(plain_pipeline()).expect("build");
    assert!(!model.runner.no_kv_cache);
}

#[test]
fn vision_bound_tool_callbacks_resolve_by_name() {
    let mut d = VisionModelBuilder::new("org/vision-model".to_string());
    d.tool_callbacks = vec![ToolCallbackEntry {
        name: "search".to_string(),
        callback: 1,
    }];
    d.tool_callbacks_with_tools = vec![ToolCallbackWithToolEntry {
        name: "lookup".to_string(),
        callback: 5,
        tool: 6,
    }];
    let b = LoraModelBuilder::from_vision_model_builder(d, Vec::new());
    let model = b.build(plain_pipeline()).expect("build");
    assert_eq!(model.runner.tool_callback(&"search".to_string()), Some(1));
    assert_eq!(
        model.runner.tool_callback_with_tool(&"lookup".to_string()),
        Some((5, 6))
    );
    assert_eq!(model.runner.tool_callback_with_tool(&"search".to_string()), None);
}

#[test]
fn search_callback_and_embedding_model_are_kept() {
    let mut d = TextModelBuilder::new("org/text-model".to_string());
    d.search_callback = Some(42);
    d.search_bert_model = Some("bert-mini".to_string());
    d.throughput_logging = true;
    let b = LoraModelBuilder::from_text_model_builder(d, Vec::new());
    let model = b.build(plain_pipeline()).expect("build");
    assert_eq!(model.runner.search_callback, Some(42));
    assert_eq!(model.runner.search_embedding_model, Some("bert-mini".to_string()));
    assert!(model.runner.throughput_logging);
}

#[test]
fn zero_sequence_count_surfaces_the_conversion_error() {
    let mut d = TextModelBuilder::new("org/text-model".to_string());
    d.max_num_seqs = 0;
    let b = LoraModelBuilder::from_text_model_builder(d, Vec::new());
    match b.build(plain_pipeline()) {
        Err(BuildError::Conversion) => {}
        Ok(_) => panic!("a zero sequence count must not yield a runtime"),
    }
}
