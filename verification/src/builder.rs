//! The adapter-aware model builder.
//!
//! A `LoraModelBuilder` holds a modality-tagged descriptor plus the adapter
//! identifier list.  Its decisions split around the one step this core does
//! not perform, the load itself: `load_request` states exactly which load the
//! host must run, and `build` consumes the builder together with the loaded
//! pipeline's metadata and wires the runtime.  A builder is single-use:
//! `build` takes it by value.

use vstd::prelude::*;

use crate::config::project_text_config;
use crate::config::project_vision_config;
use crate::config::spec_text_config;
use crate::config::spec_vision_config;
use crate::copying::clone_opt_string;
use crate::copying::clone_string_vec;
use crate::descriptor::TextModelBuilder;
use crate::descriptor::ToolCallbackEntry;
use crate::descriptor::ToolCallbackWithToolEntry;
use crate::descriptor::VisionModelBuilder;
use crate::loader::AutoDeviceMapDefaults;
use crate::loader::LoadRequest;
use crate::loader::LoaderSpec;
use crate::loader::NormalLoader;
use crate::loader::NormalLoaderBuilder;
use crate::loader::VisionLoader;
use crate::loader::VisionLoaderBuilder;
use crate::loader::device_map_request;
use crate::loader::device_request;
use crate::loader::spec_device_map_request;
use crate::loader::spec_device_request;
use crate::pipeline::Pipeline;
use crate::runner::MistralRsBuilder;
use crate::runner::Model;
use crate::runner::register_tool_callbacks;
use crate::runner::register_tool_callbacks_with_tools;
use crate::scheduler::BuildError;
use crate::scheduler::select_text_scheduler;
use crate::scheduler::select_vision_scheduler;
use crate::scheduler::spec_text_scheduler;
use crate::scheduler::spec_vision_scheduler;

verus! {

/// The modality-tagged descriptor a builder was constructed from.
#[derive(Debug)]
pub enum LoraModelBuilderInner {
    Text(TextModelBuilder),
    Vision(VisionModelBuilder),
}

/// Wrapper of model descriptors for LoRA models, for both modalities.
#[derive(Debug)]
pub struct LoraModelBuilder {
    pub inner: LoraModelBuilderInner,
    pub lora_adapter_ids: Vec<String>,
}

/// The loader a text descriptor and an adapter sequence assemble.
pub open spec fn text_loader_matches(
    t: TextModelBuilder,
    adapters: Seq<String>,
    l: NormalLoader,
) -> bool {
    &&& l.config == spec_text_config(t)
    &&& l.chat_template == t.chat_template
    &&& l.tokenizer_json == t.tokenizer_json
    &&& l.model_id == Some(t.model_id)
    &&& l.no_kv_cache == t.no_kv_cache
    &&& l.jinja_explicit == t.jinja_explicit
    &&& l.loader_type == t.loader_type
    &&& l.adapter_ids() == adapters
}

/// The loader a vision descriptor and an adapter sequence assemble.
pub open spec fn vision_loader_matches(
    v: VisionModelBuilder,
    adapters: Seq<String>,
    l: VisionLoader,
) -> bool {
    &&& l.config == spec_vision_config(v)
    &&& l.chat_template == v.chat_template
    &&& l.tokenizer_json == v.tokenizer_json
    &&& l.model_id == Some(v.model_id)
    &&& l.jinja_explicit == v.jinja_explicit
    &&& l.loader_type == v.loader_type
    &&& l.adapter_ids() == adapters
}

/// The load a text descriptor instructs the host to perform.
pub open spec fn text_load_request_matches(
    t: TextModelBuilder,
    adapters: Seq<String>,
    r: LoadRequest,
) -> bool {
    &&& r.loader matches LoaderSpec::Text(l) && text_loader_matches(t, adapters, l)
    &&& r.hf_revision == t.hf_revision
    &&& r.token_source == t.token_source
    &&& r.dtype == t.dtype
    &&& r.device == spec_device_request(t.device, t.force_cpu)
    &&& r.with_logging == t.with_logging
    &&& r.silent == !t.with_logging
    &&& r.device_mapping == spec_device_map_request(
        t.device_mapping,
        AutoDeviceMapDefaults::Text,
    )
    &&& r.isq == t.isq
    &&& r.paged_attn_cfg == t.paged_attn_cfg
}

/// The load a vision descriptor instructs the host to perform.
pub open spec fn vision_load_request_matches(
    v: VisionModelBuilder,
    adapters: Seq<String>,
    r: LoadRequest,
) -> bool {
    &&& r.loader matches LoaderSpec::Vision(l) && vision_loader_matches(v, adapters, l)
    &&& r.hf_revision == v.hf_revision
    &&& r.token_source == v.token_source
    &&& r.dtype == v.dtype
    &&& r.device == spec_device_request(v.device, v.force_cpu)
    &&& r.with_logging == v.with_logging
    &&& r.silent == !v.with_logging
    &&& r.device_mapping == spec_device_map_request(
        v.device_mapping,
        AutoDeviceMapDefaults::Vision,
    )
    &&& r.isq == v.isq
    &&& r.paged_attn_cfg == v.paged_attn_cfg
}

/// The runtime a text descriptor and a pipeline resolve to: either the model
/// wired with the selected policy, or the policy selection's error.
pub open spec fn text_runtime_post(
    t: TextModelBuilder,
    pipeline: Pipeline,
    r: Result<Model, BuildError>,
) -> bool {
    match spec_text_scheduler(t.paged_attn_cfg, pipeline.cache_config, t.max_num_seqs) {
        Ok(method) => {
            &&& r matches Ok(m)
            &&& m.runner.pipeline == pipeline
            &&& m.runner.method == method
            &&& m.runner.throughput_logging == t.throughput_logging
            &&& m.runner.search_embedding_model == t.search_bert_model
            &&& m.runner.search_callback == t.search_callback
            &&& m.runner.tool_callbacks@ == t.tool_callbacks@
            &&& m.runner.tool_callbacks_with_tools@ == Seq::<ToolCallbackWithToolEntry>::empty()
            &&& m.runner.no_kv_cache == t.no_kv_cache
            &&& m.runner.no_prefix_cache == (t.prefix_cache_n is None)
            &&& m.runner.prefix_cache_n == t.prefix_cache_n
        },
        Err(e) => r == Err::<Model, BuildError>(e),
    }
}

/// The runtime a vision descriptor and a pipeline resolve to.  Vision
/// hard-disables the no-KV-cache override and registers the bound-tool table
/// in addition to the plain one.
pub open spec fn vision_runtime_post(
    v: VisionModelBuilder,
    pipeline: Pipeline,
    r: Result<Model, BuildError>,
) -> bool {
    match spec_vision_scheduler(v.paged_attn_cfg, pipeline.cache_config, v.max_num_seqs) {
        Ok(method) => {
            &&& r matches Ok(m)
            &&& m.runner.pipeline == pipeline
            &&& m.runner.method == method
            &&& m.runner.throughput_logging == v.throughput_logging
            &&& m.runner.search_embedding_model == v.search_bert_model
            &&& m.runner.search_callback == v.search_callback
            &&& m.runner.tool_callbacks@ == v.tool_callbacks@
            &&& m.runner.tool_callbacks_with_tools@ == v.tool_callbacks_with_tools@
            &&& m.runner.no_kv_cache == false
            &&& m.runner.no_prefix_cache == (v.prefix_cache_n is None)
            &&& m.runner.prefix_cache_n == v.prefix_cache_n
        },
        Err(e) => r == Err::<Model, BuildError>(e),
    }
}

impl LoraModelBuilder {
    /// Wraps a text descriptor with the adapter identifiers to attach.
    pub fn from_text_model_builder(text_model: TextModelBuilder, lora_adapter_ids: Vec<String>) -> (r:
        Self)
        ensures
            r.inner == LoraModelBuilderInner::Text(text_model),
            r.lora_adapter_ids == lora_adapter_ids,
    {
        LoraModelBuilder { inner: LoraModelBuilderInner::Text(text_model), lora_adapter_ids }
    }

    /// Wraps a vision descriptor with the adapter identifiers to attach.
    pub fn from_vision_model_builder(
        vision_model: VisionModelBuilder,
        lora_adapter_ids: Vec<String>,
    ) -> (r: Self)
        ensures
            r.inner == LoraModelBuilderInner::Vision(vision_model),
            r.lora_adapter_ids == lora_adapter_ids,
    {
        LoraModelBuilder { inner: LoraModelBuilderInner::Vision(vision_model), lora_adapter_ids }
    }

    /// Assembles the load the host must perform: the modality's loader with
    /// the adapter list attached, and every invocation parameter the
    /// descriptor settles — the explicit device or a probe, the explicit
    /// mapping or the modality's automatic default, and silence as the
    /// inverse of the logging request.
    pub fn load_request(&self) -> (r: LoadRequest)
        ensures
            self.inner matches LoraModelBuilderInner::Text(t) ==> text_load_request_matches(
                t,
                self.lora_adapter_ids@,
                r,
            ),
            self.inner matches LoraModelBuilderInner::Vision(v) ==> vision_load_request_matches(
                v,
                self.lora_adapter_ids@,
                r,
            ),
    {
        match &self.inner {
            LoraModelBuilderInner::Text(t) => {
                let config = project_text_config(t);
                let loader = NormalLoaderBuilder::new(
                    config,
                    clone_opt_string(&t.chat_template),
                    clone_opt_string(&t.tokenizer_json),
                    Some(t.model_id.clone()),
                    t.no_kv_cache,
                    clone_opt_string(&t.jinja_explicit),
                ).with_lora(clone_string_vec(&self.lora_adapter_ids)).build(
                    clone_opt_string(&t.loader_type),
                );
                LoadRequest {
                    loader: LoaderSpec::Text(loader),
                    hf_revision: clone_opt_string(&t.hf_revision),
                    token_source: t.token_source.clone(),
                    dtype: t.dtype.clone(),
                    device: device_request(t.device, t.force_cpu),
                    with_logging: t.with_logging,
                    silent: !t.with_logging,
                    device_mapping: device_map_request(
                        t.device_mapping,
                        AutoDeviceMapDefaults::Text,
                    ),
                    isq: clone_opt_string(&t.isq),
                    paged_attn_cfg: t.paged_attn_cfg,
                }
            },
            LoraModelBuilderInner::Vision(v) => {
                let config = project_vision_config(v);
                let loader = VisionLoaderBuilder::new(
                    config,
                    clone_opt_string(&v.chat_template),
                    clone_opt_string(&v.tokenizer_json),
                    Some(v.model_id.clone()),
                    clone_opt_string(&v.jinja_explicit),
                ).with_lora(clone_string_vec(&self.lora_adapter_ids)).build(
                    clone_opt_string(&v.loader_type),
                );
                LoadRequest {
                    loader: LoaderSpec::Vision(loader),
                    hf_revision: clone_opt_string(&v.hf_revision),
                    token_source: v.token_source.clone(),
                    dtype: v.dtype.clone(),
                    device: device_request(v.device, v.force_cpu),
                    with_logging: v.with_logging,
                    silent: !v.with_logging,
                    device_mapping: device_map_request(
                        v.device_mapping,
                        AutoDeviceMapDefaults::Vision,
                    ),
                    isq: clone_opt_string(&v.isq),
                    paged_attn_cfg: v.paged_attn_cfg,
                }
            },
        }
    }

    /// Wires the runtime from the loaded pipeline's metadata: selects the
    /// scheduler policy, registers the callbacks, applies the cache toggles
    /// and finalizes the model.  On the text path a requested paged-attention
    /// cache must have been resolved by the load; its absence is the loader
    /// breaking its contract, and no runtime stands for it.
    pub fn build(self, pipeline: Pipeline) -> (r: Result<Model, BuildError>)
        requires
            self.inner matches LoraModelBuilderInner::Text(t) ==> (t.paged_attn_cfg is Some
                ==> pipeline.cache_config is Some),
        ensures
            self.inner matches LoraModelBuilderInner::Text(t) ==> text_runtime_post(
                t,
                pipeline,
                r,
            ),
            self.inner matches LoraModelBuilderInner::Vision(v) ==> vision_runtime_post(
                v,
                pipeline,
                r,
            ),
    {
        match self.inner {
            LoraModelBuilderInner::Text(text_model) => build_text_runtime(text_model, pipeline),
            LoraModelBuilderInner::Vision(vision_model) => build_vision_runtime(
                vision_model,
                pipeline,
            ),
        }
    }
}

/// The text path from pipeline metadata to the finished model.
fn build_text_runtime(t: TextModelBuilder, pipeline: Pipeline) -> (r: Result<Model, BuildError>)
    requires
        t.paged_attn_cfg is Some ==> pipeline.cache_config is Some,
    ensures
        text_runtime_post(t, pipeline, r),
{
    let TextModelBuilder {
        paged_attn_cfg,
        max_num_seqs,
        no_kv_cache,
        prefix_cache_n,
        throughput_logging,
        search_bert_model,
        search_callback,
        tool_callbacks,
        ..
    } = t;
    let scheduler_method = match select_text_scheduler(
        paged_attn_cfg,
        pipeline.cache_config,
        max_num_seqs,
    ) {
        Ok(method) => method,
        Err(e) => {
            return Err(e);
        },
    };

    let mut runner = MistralRsBuilder::new(
        pipeline,
        scheduler_method,
        throughput_logging,
        search_bert_model,
    );
    if let Some(cb) = search_callback {
        runner = runner.with_search_callback(cb);
    }
    let runner = register_tool_callbacks(runner, &tool_callbacks);
    proof {
        assert(Seq::<ToolCallbackEntry>::empty() + tool_callbacks@
            =~= tool_callbacks@);
    }
    let runner = runner.with_no_kv_cache(no_kv_cache).with_no_prefix_cache(
        prefix_cache_n.is_none(),
    );
    let runner = if let Some(n) = prefix_cache_n {
        runner.with_prefix_cache_n(n)
    } else {
        runner
    };

    Ok(Model::new(runner.build()))
}

/// The vision path from pipeline metadata to the finished model.
fn build_vision_runtime(v: VisionModelBuilder, pipeline: Pipeline) -> (r: Result<
    Model,
    BuildError,
>)
    ensures
        vision_runtime_post(v, pipeline, r),
{
    let VisionModelBuilder {
        paged_attn_cfg,
        max_num_seqs,
        prefix_cache_n,
        throughput_logging,
        search_bert_model,
        search_callback,
        tool_callbacks,
        tool_callbacks_with_tools,
        ..
    } = v;
    let scheduler_method = match select_vision_scheduler(
        paged_attn_cfg,
        pipeline.cache_config,
        max_num_seqs,
    ) {
        Ok(method) => method,
        Err(e) => {
            return Err(e);
        },
    };

    let mut runner = MistralRsBuilder::new(
        pipeline,
        scheduler_method,
        throughput_logging,
        search_bert_model,
    );
    if let Some(cb) = search_callback {
        runner = runner.with_search_callback(cb);
    }
    let runner = register_tool_callbacks(runner, &tool_callbacks);
    let runner = register_tool_callbacks_with_tools(runner, &tool_callbacks_with_tools);
    proof {
        assert(Seq::<ToolCallbackEntry>::empty() + tool_callbacks@
            =~= tool_callbacks@);
        assert(Seq::<ToolCallbackWithToolEntry>::empty() + tool_callbacks_with_tools@
            =~= tool_callbacks_with_tools@);
    }
    let runner = runner.with_no_kv_cache(false).with_no_prefix_cache(prefix_cache_n.is_none());
    let runner = if let Some(n) = prefix_cache_n {
        runner.with_prefix_cache_n(n)
    } else {
        runner
    };

    Ok(Model::new(runner.build()))
}

} // verus!
