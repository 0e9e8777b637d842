//! Loader assembly.
//!
//! A loader bundles a load configuration with template and tokenizer sources,
//! the adapter list, and the loader-type selector.  Attaching adapters is
//! unconditional: an empty list yields an adapter-free loader, not an error.
//! A `LoadRequest` is the finished instruction to the host: which loader to
//! run, against which revision, credentials, precision, device and mapping
//! strategy, and with which optional quantization and cache request.

use vstd::prelude::*;

use crate::config::NormalSpecificConfig;
use crate::config::VisionSpecificConfig;
use crate::descriptor::DeviceId;
use crate::descriptor::DeviceMapId;
use crate::descriptor::PagedAttnConfig;

verus! {

/// Staged construction of a text loader.
#[derive(Debug)]
pub struct NormalLoaderBuilder {
    pub config: NormalSpecificConfig,
    pub chat_template: Option<String>,
    pub tokenizer_json: Option<String>,
    pub model_id: Option<String>,
    pub no_kv_cache: bool,
    pub jinja_explicit: Option<String>,
    pub lora_adapter_ids: Option<Vec<String>>,
}

/// Staged construction of a vision loader.
#[derive(Debug)]
pub struct VisionLoaderBuilder {
    pub config: VisionSpecificConfig,
    pub chat_template: Option<String>,
    pub tokenizer_json: Option<String>,
    pub model_id: Option<String>,
    pub jinja_explicit: Option<String>,
    pub lora_adapter_ids: Option<Vec<String>>,
}

/// A finalized text loader, ready to be run by the host.
#[derive(Debug)]
pub struct NormalLoader {
    pub config: NormalSpecificConfig,
    pub chat_template: Option<String>,
    pub tokenizer_json: Option<String>,
    pub model_id: Option<String>,
    pub no_kv_cache: bool,
    pub jinja_explicit: Option<String>,
    pub lora_adapter_ids: Option<Vec<String>>,
    pub loader_type: Option<String>,
}

/// A finalized vision loader, ready to be run by the host.
#[derive(Debug)]
pub struct VisionLoader {
    pub config: VisionSpecificConfig,
    pub chat_template: Option<String>,
    pub tokenizer_json: Option<String>,
    pub model_id: Option<String>,
    pub jinja_explicit: Option<String>,
    pub lora_adapter_ids: Option<Vec<String>>,
    pub loader_type: Option<String>,
}

/// The adapter identifiers a loader will attach: none requested and an empty
/// list both mean the empty sequence.
pub open spec fn spec_adapter_ids(lora_adapter_ids: Option<Vec<String>>) -> Seq<String> {
    match lora_adapter_ids {
        None => Seq::<String>::empty(),
        Some(ids) => ids@,
    }
}

/// The text loader a builder finalizes into.
pub open spec fn spec_normal_loader(
    b: NormalLoaderBuilder,
    loader_type: Option<String>,
) -> NormalLoader {
    NormalLoader {
        config: b.config,
        chat_template: b.chat_template,
        tokenizer_json: b.tokenizer_json,
        model_id: b.model_id,
        no_kv_cache: b.no_kv_cache,
        jinja_explicit: b.jinja_explicit,
        lora_adapter_ids: b.lora_adapter_ids,
        loader_type,
    }
}

/// The vision loader a builder finalizes into.
pub open spec fn spec_vision_loader(
    b: VisionLoaderBuilder,
    loader_type: Option<String>,
) -> VisionLoader {
    VisionLoader {
        config: b.config,
        chat_template: b.chat_template,
        tokenizer_json: b.tokenizer_json,
        model_id: b.model_id,
        jinja_explicit: b.jinja_explicit,
        lora_adapter_ids: b.lora_adapter_ids,
        loader_type,
    }
}

impl NormalLoaderBuilder {
    /// Stages a text loader; no adapter support is requested yet.
    pub fn new(
        config: NormalSpecificConfig,
        chat_template: Option<String>,
        tokenizer_json: Option<String>,
        model_id: Option<String>,
        no_kv_cache: bool,
        jinja_explicit: Option<String>,
    ) -> (r: Self)
        ensures
            r.config == config,
            r.chat_template == chat_template,
            r.tokenizer_json == tokenizer_json,
            r.model_id == model_id,
            r.no_kv_cache == no_kv_cache,
            r.jinja_explicit == jinja_explicit,
            r.lora_adapter_ids is None,
    {
        NormalLoaderBuilder {
            config,
            chat_template,
            tokenizer_json,
            model_id,
            no_kv_cache,
            jinja_explicit,
            lora_adapter_ids: None,
        }
    }

    /// Attaches the adapter list; an empty list is valid and attaches none.
    pub fn with_lora(self, lora_adapter_ids: Vec<String>) -> (r: Self)
        ensures
            r == (NormalLoaderBuilder { lora_adapter_ids: Some(lora_adapter_ids), ..self }),
    {
        NormalLoaderBuilder { lora_adapter_ids: Some(lora_adapter_ids), ..self }
    }

    /// Finalizes the loader against the descriptor's loader-type selector.
    pub fn build(self, loader_type: Option<String>) -> (r: NormalLoader)
        ensures
            r == spec_normal_loader(self, loader_type),
    {
        NormalLoader {
            config: self.config,
            chat_template: self.chat_template,
            tokenizer_json: self.tokenizer_json,
            model_id: self.model_id,
            no_kv_cache: self.no_kv_cache,
            jinja_explicit: self.jinja_explicit,
            lora_adapter_ids: self.lora_adapter_ids,
            loader_type,
        }
    }
}

impl VisionLoaderBuilder {
    /// Stages a vision loader; no adapter support is requested yet.
    pub fn new(
        config: VisionSpecificConfig,
        chat_template: Option<String>,
        tokenizer_json: Option<String>,
        model_id: Option<String>,
        jinja_explicit: Option<String>,
    ) -> (r: Self)
        ensures
            r.config == config,
            r.chat_template == chat_template,
            r.tokenizer_json == tokenizer_json,
            r.model_id == model_id,
            r.jinja_explicit == jinja_explicit,
            r.lora_adapter_ids is None,
    {
        VisionLoaderBuilder {
            config,
            chat_template,
            tokenizer_json,
            model_id,
            jinja_explicit,
            lora_adapter_ids: None,
        }
    }

    /// Attaches the adapter list; an empty list is valid and attaches none.
    pub fn with_lora(self, lora_adapter_ids: Vec<String>) -> (r: Self)
        ensures
            r == (VisionLoaderBuilder { lora_adapter_ids: Some(lora_adapter_ids), ..self }),
    {
        VisionLoaderBuilder { lora_adapter_ids: Some(lora_adapter_ids), ..self }
    }

    /// Finalizes the loader against the descriptor's loader-type selector.
    pub fn build(self, loader_type: Option<String>) -> (r: VisionLoader)
        ensures
            r == spec_vision_loader(self, loader_type),
    {
        VisionLoader {
            config: self.config,
            chat_template: self.chat_template,
            tokenizer_json: self.tokenizer_json,
            model_id: self.model_id,
            jinja_explicit: self.jinja_explicit,
            lora_adapter_ids: self.lora_adapter_ids,
            loader_type,
        }
    }
}

impl NormalLoader {
    /// The adapter identifiers this loader will attach.
    pub open spec fn adapter_ids(self) -> Seq<String> {
        spec_adapter_ids(self.lora_adapter_ids)
    }

    /// Whether any adapter will be attached.
    pub fn has_adapters(&self) -> (r: bool)
        ensures
            r == (self.adapter_ids().len() > 0),
    {
        match &self.lora_adapter_ids {
            None => false,
            Some(ids) => ids.len() > 0,
        }
    }
}

impl VisionLoader {
    /// The adapter identifiers this loader will attach.
    pub open spec fn adapter_ids(self) -> Seq<String> {
        spec_adapter_ids(self.lora_adapter_ids)
    }

    /// Whether any adapter will be attached.
    pub fn has_adapters(&self) -> (r: bool)
        ensures
            r == (self.adapter_ids().len() > 0),
    {
        match &self.lora_adapter_ids {
            None => false,
            Some(ids) => ids.len() > 0,
        }
    }
}

/// Two text loaders that load the same way: same configuration, sources,
/// type selector and cache switch, and the same adapter sequence.
pub open spec fn normal_loaders_equivalent(a: NormalLoader, b: NormalLoader) -> bool {
    &&& a.config == b.config
    &&& a.chat_template == b.chat_template
    &&& a.tokenizer_json == b.tokenizer_json
    &&& a.model_id == b.model_id
    &&& a.no_kv_cache == b.no_kv_cache
    &&& a.jinja_explicit == b.jinja_explicit
    &&& a.loader_type == b.loader_type
    &&& a.adapter_ids() == b.adapter_ids()
}

/// Two vision loaders that load the same way.
pub open spec fn vision_loaders_equivalent(a: VisionLoader, b: VisionLoader) -> bool {
    &&& a.config == b.config
    &&& a.chat_template == b.chat_template
    &&& a.tokenizer_json == b.tokenizer_json
    &&& a.model_id == b.model_id
    &&& a.jinja_explicit == b.jinja_explicit
    &&& a.loader_type == b.loader_type
    &&& a.adapter_ids() == b.adapter_ids()
}

/// Law: attaching an empty adapter list leaves a text loader equivalent to
/// one built with no adapter support requested at all.
pub proof fn lemma_text_empty_adapter_list_is_passthrough(
    b: NormalLoaderBuilder,
    empty_ids: Vec<String>,
    loader_type: Option<String>,
)
    requires
        b.lora_adapter_ids is None,
        empty_ids@ == Seq::<String>::empty(),
    ensures
        normal_loaders_equivalent(
            spec_normal_loader(
                NormalLoaderBuilder { lora_adapter_ids: Some(empty_ids), ..b },
                loader_type,
            ),
            spec_normal_loader(b, loader_type),
        ),
{
}

/// Law: attaching an empty adapter list leaves a vision loader equivalent to
/// one built with no adapter support requested at all.
pub proof fn lemma_vision_empty_adapter_list_is_passthrough(
    b: VisionLoaderBuilder,
    empty_ids: Vec<String>,
    loader_type: Option<String>,
)
    requires
        b.lora_adapter_ids is None,
        empty_ids@ == Seq::<String>::empty(),
    ensures
        vision_loaders_equivalent(
            spec_vision_loader(
                VisionLoaderBuilder { lora_adapter_ids: Some(empty_ids), ..b },
                loader_type,
            ),
            spec_vision_loader(b, loader_type),
        ),
{
}

/// Which compute device the host should bind: the caller's explicit choice,
/// or the best available found by a probe seeded with the force-CPU flag.
#[derive(Clone, Copy, Debug, PartialEq, Eq)]
pub enum DeviceRequest {
    Explicit(DeviceId),
    Probe { force_cpu: bool },
}

/// Which modality's parameters seed an automatic device-mapping strategy.
#[derive(Clone, Copy, Debug, PartialEq, Eq)]
pub enum AutoDeviceMapDefaults {
    Text,
    Vision,
}

/// The device-mapping strategy the host should apply: the caller's explicit
/// plan, or an automatic strategy with modality-specific defaults.
#[derive(Clone, Copy, Debug, PartialEq, Eq)]
pub enum DeviceMapRequest {
    Explicit(DeviceMapId),
    Auto(AutoDeviceMapDefaults),
}

/// The device choice derived from a descriptor.
pub open spec fn spec_device_request(device: Option<DeviceId>, force_cpu: bool) -> DeviceRequest {
    match device {
        Some(d) => DeviceRequest::Explicit(d),
        None => DeviceRequest::Probe { force_cpu },
    }
}

/// The mapping choice derived from a descriptor.
pub open spec fn spec_device_map_request(
    device_mapping: Option<DeviceMapId>,
    defaults: AutoDeviceMapDefaults,
) -> DeviceMapRequest {
    match device_mapping {
        Some(m) => DeviceMapRequest::Explicit(m),
        None => DeviceMapRequest::Auto(defaults),
    }
}

/// Derives the device choice from the descriptor's preference.
pub fn device_request(device: Option<DeviceId>, force_cpu: bool) -> (r: DeviceRequest)
    ensures
        r == spec_device_request(device, force_cpu),
{
    match device {
        Some(d) => DeviceRequest::Explicit(d),
        None => DeviceRequest::Probe { force_cpu },
    }
}

/// Derives the mapping choice from the descriptor's preference.
pub fn device_map_request(
    device_mapping: Option<DeviceMapId>,
    defaults: AutoDeviceMapDefaults,
) -> (r: DeviceMapRequest)
    ensures
        r == spec_device_map_request(device_mapping, defaults),
{
    match device_mapping {
        Some(m) => DeviceMapRequest::Explicit(m),
        None => DeviceMapRequest::Auto(defaults),
    }
}

/// The loader to run, tagged by modality.
#[derive(Debug)]
pub enum LoaderSpec {
    Text(NormalLoader),
    Vision(VisionLoader),
}

/// Everything the host needs to perform the load: the loader, the source
/// revision and credentials, numeric precision, device and mapping choices,
/// logging behaviour, and the optional quantization and cache requests.
#[derive(Debug)]
pub struct LoadRequest {
    pub loader: LoaderSpec,
    pub hf_revision: Option<String>,
    pub token_source: String,
    pub dtype: String,
    pub device: DeviceRequest,
    /// Logging must be initialized before the load when set.
    pub with_logging: bool,
    /// The load runs silently exactly when logging was not requested.
    pub silent: bool,
    pub device_mapping: DeviceMapRequest,
    pub isq: Option<String>,
    pub paged_attn_cfg: Option<PagedAttnConfig>,
}

} // verus!
