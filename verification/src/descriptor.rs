//! Caller-supplied model descriptors.
//!
//! A descriptor is an immutable bundle of plain values: identifiers and paths
//! as strings, switches as booleans, counts as integers, and handles (devices,
//! device-map plans, callbacks, tools) as numeric identifiers owned by the
//! host that serves the model.  The text and vision shapes differ only where
//! the domain does: vision adds image and slicing parameters plus a second
//! callback table, text adds a weight-organization choice and a caller-held
//! KV-cache switch.

use vstd::prelude::*;

verus! {

/// Identifier of a compute device known to the host.
pub type DeviceId = u64;

/// Identifier of a device-mapping plan known to the host.
pub type DeviceMapId = u64;

/// Identifier of a registered callback; the callable lives with the host.
pub type CallbackId = u64;

/// Identifier of a tool definition; the definition lives with the host.
pub type ToolId = u64;

/// How in-situ quantization groups a model's weights.
#[derive(Clone, Copy, Debug, PartialEq, Eq)]
pub enum IsqOrganization {
    Default,
    MoeExpertsOnly,
}

/// A request for a paged-attention cache, sized by the caller.
#[derive(Clone, Copy, Debug, PartialEq, Eq)]
pub struct PagedAttnConfig {
    /// Cache page size in tokens, when the caller fixes it.
    pub block_size: Option<usize>,
    /// Host memory budget for the cache, in megabytes.
    pub mem_cpu: usize,
    /// Device memory budget for the cache, in megabytes.
    pub mem_gpu: usize,
}

/// A tool callback registration: a unique name bound to a callback.
#[derive(Debug, PartialEq, Eq)]
pub struct ToolCallbackEntry {
    pub name: String,
    pub callback: CallbackId,
}

/// A tool callback bound to a specific tool definition (vision only).
#[derive(Debug, PartialEq, Eq)]
pub struct ToolCallbackWithToolEntry {
    pub name: String,
    pub callback: CallbackId,
    pub tool: ToolId,
}

/// Descriptor of a text-only base model.
#[derive(Debug)]
pub struct TextModelBuilder {
    pub model_id: String,
    pub topology: Option<String>,
    pub organization: IsqOrganization,
    pub write_uqff: Option<String>,
    pub from_uqff: Option<String>,
    pub hf_cache_path: Option<String>,
    pub chat_template: Option<String>,
    pub tokenizer_json: Option<String>,
    pub jinja_explicit: Option<String>,
    pub loader_type: Option<String>,
    pub dtype: String,
    pub hf_revision: Option<String>,
    pub token_source: String,
    pub isq: Option<String>,
    pub device: Option<DeviceId>,
    pub force_cpu: bool,
    pub device_mapping: Option<DeviceMapId>,
    pub paged_attn_cfg: Option<PagedAttnConfig>,
    pub max_num_seqs: usize,
    pub no_kv_cache: bool,
    pub prefix_cache_n: Option<usize>,
    pub with_logging: bool,
    pub throughput_logging: bool,
    pub search_bert_model: Option<String>,
    pub search_callback: Option<CallbackId>,
    pub tool_callbacks: Vec<ToolCallbackEntry>,
}

/// Descriptor of a vision-capable base model.
#[derive(Debug)]
pub struct VisionModelBuilder {
    pub model_id: String,
    pub topology: Option<String>,
    pub write_uqff: Option<String>,
    pub from_uqff: Option<String>,
    pub max_edge: Option<u32>,
    pub calibration_file: Option<String>,
    pub imatrix: Option<String>,
    pub hf_cache_path: Option<String>,
    pub matformer_config_path: Option<String>,
    pub matformer_slice_name: Option<String>,
    pub chat_template: Option<String>,
    pub tokenizer_json: Option<String>,
    pub jinja_explicit: Option<String>,
    pub loader_type: Option<String>,
    pub dtype: String,
    pub hf_revision: Option<String>,
    pub token_source: String,
    pub isq: Option<String>,
    pub device: Option<DeviceId>,
    pub force_cpu: bool,
    pub device_mapping: Option<DeviceMapId>,
    pub paged_attn_cfg: Option<PagedAttnConfig>,
    pub max_num_seqs: usize,
    pub prefix_cache_n: Option<usize>,
    pub with_logging: bool,
    pub throughput_logging: bool,
    pub search_bert_model: Option<String>,
    pub search_callback: Option<CallbackId>,
    pub tool_callbacks: Vec<ToolCallbackEntry>,
    pub tool_callbacks_with_tools: Vec<ToolCallbackWithToolEntry>,
}

impl TextModelBuilder {
    /// A descriptor for `model_id` with every other field at its default:
    /// no optional source or path, switches off, thirty-two sequence slots.
    pub fn new(model_id: String) -> (r: Self)
        ensures
            r.model_id == model_id,
            r.topology is None,
            r.organization == IsqOrganization::Default,
            r.write_uqff is None,
            r.from_uqff is None,
            r.hf_cache_path is None,
            r.chat_template is None,
            r.tokenizer_json is None,
            r.jinja_explicit is None,
            r.loader_type is None,
            r.dtype@ == Seq::<char>::empty(),
            r.hf_revision is None,
            r.token_source@ == Seq::<char>::empty(),
            r.isq is None,
            r.device is None,
            r.force_cpu == false,
            r.device_mapping is None,
            r.paged_attn_cfg is None,
            r.max_num_seqs == 32,
            r.no_kv_cache == false,
            r.prefix_cache_n is None,
            r.with_logging == false,
            r.throughput_logging == false,
            r.search_bert_model is None,
            r.search_callback is None,
            r.tool_callbacks@ == Seq::<ToolCallbackEntry>::empty(),
    {
        TextModelBuilder {
            model_id,
            topology: None,
            organization: IsqOrganization::Default,
            write_uqff: None,
            from_uqff: None,
            hf_cache_path: None,
            chat_template: None,
            tokenizer_json: None,
            jinja_explicit: None,
            loader_type: None,
            dtype: String::new(),
            hf_revision: None,
            token_source: String::new(),
            isq: None,
            device: None,
            force_cpu: false,
            device_mapping: None,
            paged_attn_cfg: None,
            max_num_seqs: 32,
            no_kv_cache: false,
            prefix_cache_n: None,
            with_logging: false,
            throughput_logging: false,
            search_bert_model: None,
            search_callback: None,
            tool_callbacks: Vec::new(),
        }
    }
}

impl VisionModelBuilder {
    /// A descriptor for `model_id` with every other field at its default:
    /// no optional source or path, switches off, thirty-two sequence slots.
    pub fn new(model_id: String) -> (r: Self)
        ensures
            r.model_id == model_id,
            r.topology is None,
            r.write_uqff is None,
            r.from_uqff is None,
            r.max_edge is None,
            r.calibration_file is None,
            r.imatrix is None,
            r.hf_cache_path is None,
            r.matformer_config_path is None,
            r.matformer_slice_name is None,
            r.chat_template is None,
            r.tokenizer_json is None,
            r.jinja_explicit is None,
            r.loader_type is None,
            r.dtype@ == Seq::<char>::empty(),
            r.hf_revision is None,
            r.token_source@ == Seq::<char>::empty(),
            r.isq is None,
            r.device is None,
            r.force_cpu == false,
            r.device_mapping is None,
            r.paged_attn_cfg is None,
            r.max_num_seqs == 32,
            r.prefix_cache_n is None,
            r.with_logging == false,
            r.throughput_logging == false,
            r.search_bert_model is None,
            r.search_callback is None,
            r.tool_callbacks@ == Seq::<ToolCallbackEntry>::empty(),
            r.tool_callbacks_with_tools@ == Seq::<ToolCallbackWithToolEntry>::empty(),
    {
        VisionModelBuilder {
            model_id,
            topology: None,
            write_uqff: None,
            from_uqff: None,
            max_edge: None,
            calibration_file: None,
            imatrix: None,
            hf_cache_path: None,
            matformer_config_path: None,
            matformer_slice_name: None,
            chat_template: None,
            tokenizer_json: None,
            jinja_explicit: None,
            loader_type: None,
            dtype: String::new(),
            hf_revision: None,
            token_source: String::new(),
            isq: None,
            device: None,
            force_cpu: false,
            device_mapping: None,
            paged_attn_cfg: None,
            max_num_seqs: 32,
            prefix_cache_n: None,
            with_logging: false,
            throughput_logging: false,
            search_bert_model: None,
            search_callback: None,
            tool_callbacks: Vec::new(),
            tool_callbacks_with_tools: Vec::new(),
        }
    }
}

} // verus!
