use lora_model::builder::LoraModelBuilder;
use lora_model::config::project_text_config;
use lora_model::config::project_vision_config;
use lora_model::descriptor::TextModelBuilder;
use lora_model::descriptor::VisionModelBuilder;
use lora_model::loader::AutoDeviceMapDefaults;
use lora_model::loader::DeviceMapRequest;
use lora_model::loader::DeviceRequest;
use lora_model::loader::LoaderSpec;
use lora_model::loader::NormalLoaderBuilder;
use lora_model::loader::VisionLoaderBuilder;

#[test]
fn empty_adapter_list_behaves_like_no_lora_request() {
    let d = TextModelBuilder::new("org/text-model".to_string());
    let with_empty = NormalLoaderBuilder::new(
        project_text_config(&d),
        Some("template".to_string()),
        None,
        Some("org/text-model".to_string()),
        false,
        None,
    )
    .with_lora(Vec::new())
    .build(Some("llama".to_string()));
    let without = NormalLoaderBuilder::new(
        project_text_config(&d),
        Some("template".to_string()),
        None,
        Some("org/text-model".to_string()),
        false,
        None,
    )
    .build(Some("llama".to_string()));

    assert_eq!(with_empty.config, without.config);
    assert_eq!(with_empty.chat_template, without.chat_template);
    assert_eq!(with_empty.tokenizer_json, without.tokenizer_json);
    assert_eq!(with_empty.model_id, without.model_id);
    assert_eq!(with_empty.no_kv_cache, without.no_kv_cache);
    assert_eq!(with_empty.jinja_explicit, without.jinja_explicit);
    assert_eq!(with_empty.loader_type, without.loader_type);
    assert_eq!(
        with_empty.lora_adapter_ids.clone().unwrap_or_default(),
        without.lora_adapter_ids.clone().unwrap_or_default()
    );
    assert!(!with_empty.has_adapters());
    assert!(!without.has_adapters());
}

#[test]
fn vision_empty_adapter_list_behaves_like_no_lora_request() {
    let d = VisionModelBuilder::new("org/vision-model".to_string());
    let with_empty = VisionLoaderBuilder::new(
        project_vision_config(&d),
        None,
        None,
        Some("org/vision-model".to_string()),
        None,
    )
    .with_lora(Vec::new())
    .build(None);
    let without = VisionLoaderBuilder::new(
        project_vision_config(&d),
        None,
        None,
        Some("org/vision-model".to_string()),
        None,
    )
    .build(None);

    assert_eq!(with_empty.config, without.config);
    assert_eq!(
        with_empty.lora_adapter_ids.clone().unwrap_or_default(),
        without.lora_adapter_ids.clone().unwrap_or_default()
    );
    assert!(!with_empty.has_adapters());
    assert!(!without.has_adapters());
}

#[test]
fn adapters_are_attached_in_order() {
    let d = TextModelBuilder::new("org/text-model".to_string());
    let adapters = vec!["adapter-a".to_string(), "adapter-b".to_string()];
    let b = LoraModelBuilder::from_text_model_builder(d, adapters.clone());
    let request = b.load_request();
    match request.loader {
        LoaderSpec::Text(l) => {
            assert!(l.has_adapters());
            assert_eq!(l.lora_adapter_ids, Some(adapters));
        }
        LoaderSpec::Vision(_) => panic!("text descriptor assembled a vision loader"),
    }
}

#[test]
fn text_load_request_settles_invocation_parameters() {
    let mut d = TextModelBuilder::new("org/text-model".to_string());
    d.with_logging = true;
    d.hf_revision = Some("main".to_string());
    d.token_source = "cache".to_string();
    d.dtype = "auto".to_string();
    d.isq = Some("q4k".to_string());
    d.no_kv_cache = true;
    let b = LoraModelBuilder::from_text_model_builder(d, Vec::new());
    let request = b.load_request();
    assert!(request.with_logging);
    assert!(!request.silent);
    assert_eq!(request.hf_revision, Some("main".to_string()));
    assert_eq!(request.token_source, "cache".to_string());
    assert_eq!(request.dtype, "auto".to_string());
    assert_eq!(request.isq, Some("q4k".to_string()));
    assert_eq!(request.device, DeviceRequest::Probe { force_cpu: false });
    assert_eq!(
        request.device_mapping,
        DeviceMapRequest::Auto(AutoDeviceMapDefaults::Text)
    );
    match request.loader {
        LoaderSpec::Text(l) => {
            assert!(l.no_kv_cache);
            assert_eq!(l.model_id, Some("org/text-model".to_string()));
        }
        LoaderSpec::Vision(_) => panic!("text descriptor assembled a vision loader"),
    }
}

#[test]
fn silent_is_the_inverse_of_with_logging() {
    let d = TextModelBuilder::new("org/text-model".to_string());
    let b = LoraModelBuilder::from_text_model_builder(d, Vec::new());
    let request = b.load_request();
    assert!(!request.with_logging);
    assert!(request.silent);
}

#[test]
fn explicit_device_and_mapping_are_kept() {
    let mut d = VisionModelBuilder::new("org/vision-model".to_string());
    d.device = Some(3);
    d.device_mapping = Some(9);
    d.force_cpu = true;
    let b = LoraModelBuilder::from_vision_model_builder(d, Vec::new());
    let request = b.load_request();
    assert_eq!(request.device, DeviceRequest::Explicit(3));
    assert_eq!(request.device_mapping, DeviceMapRequest::Explicit(9));
}

#[test]
fn vision_defaults_seed_the_automatic_mapping() {
    let mut d = VisionModelBuilder::new("org/vision-model".to_string());
    d.force_cpu = true;
    let b = LoraModelBuilder::from_vision_model_builder(d, Vec::new());
    let request = b.load_request();
    assert_eq!(request.device, DeviceRequest::Probe { force_cpu: true });
    assert_eq!(
        request.device_mapping,
        DeviceMapRequest::Auto(AutoDeviceMapDefaults::Vision)
    );
}
