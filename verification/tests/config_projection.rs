use lora_model::config::project_text_config;
use lora_model::config::project_vision_config;
use lora_model::descriptor::IsqOrganization;
use lora_model::descriptor::TextModelBuilder;
use lora_model::descriptor::VisionModelBuilder;

fn text_descriptor() -> TextModelBuilder {
    let mut d = TextModelBuilder::new("org/text-model".to_string());
    d.topology = Some("topology.yml".to_string());
    d.organization = IsqOrganization::MoeExpertsOnly;
    d.write_uqff = Some("out.uqff".to_string());
    d.from_uqff = Some("in.uqff".to_string());
    d.hf_cache_path = Some("/cache".to_string());
    d
}

fn vision_descriptor() -> VisionModelBuilder {
    let mut d = VisionModelBuilder::new("org/vision-model".to_string());
    d.topology = Some("topology.yml".to_string());
    d.write_uqff = Some("out.uqff".to_string());
    d.from_uqff = Some("in.uqff".to_string());
    d.max_edge = Some(1024);
    d.calibration_file = Some("calib.txt".to_string());
    d.imatrix = Some("imatrix.dat".to_string());
    d.hf_cache_path = Some("/cache".to_string());
    d.matformer_config_path = Some("matformer.yml".to_string());
    d.matformer_slice_name = Some("small".to_string());
    d
}

#[test]
fn text_projection_is_idempotent() {
    let d = text_descriptor();
    let first = project_text_config(&d);
    let second = project_text_config(&d);
    assert_eq!(first, second);
}

#[test]
fn vision_projection_is_idempotent() {
    let d = vision_descriptor();
    let first = project_vision_config(&d);
    let second = project_vision_config(&d);
    assert_eq!(first, second);
}

#[test]
fn text_projection_copies_fields_and_pins_vision_concepts_absent() {
    let d = text_descriptor();
    let c = project_text_config(&d);
    assert_eq!(c.topology, Some("topology.yml".to_string()));
    assert_eq!(c.organization, IsqOrganization::MoeExpertsOnly);
    assert_eq!(c.write_uqff, Some("out.uqff".to_string()));
    assert_eq!(c.from_uqff, Some("in.uqff".to_string()));
    assert_eq!(c.hf_cache_path, Some("/cache".to_string()));
    assert_eq!(c.imatrix, None);
    assert_eq!(c.calibration_file, None);
    assert_eq!(c.matformer_config_path, None);
    assert_eq!(c.matformer_slice_name, None);
}

#[test]
fn vision_projection_copies_every_field() {
    let d = vision_descriptor();
    let c = project_vision_config(&d);
    assert_eq!(c.topology, Some("topology.yml".to_string()));
    assert_eq!(c.write_uqff, Some("out.uqff".to_string()));
    assert_eq!(c.from_uqff, Some("in.uqff".to_string()));
    assert_eq!(c.max_edge, Some(1024));
    assert_eq!(c.calibration_file, Some("calib.txt".to_string()));
    assert_eq!(c.imatrix, Some("imatrix.dat".to_string()));
    assert_eq!(c.hf_cache_path, Some("/cache".to_string()));
    assert_eq!(c.matformer_config_path, Some("matformer.yml".to_string()));
    assert_eq!(c.matformer_slice_name, Some("small".to_string()));
}
