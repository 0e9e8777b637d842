//! Modality-specific load configuration, projected from a descriptor.
//!
//! Projection is pure and total: every field of a load configuration traces
//! to exactly one descriptor field, or is an explicit absence sentinel where
//! the modality lacks the concept.  The text shape always carries no imatrix,
//! no calibration file and no matformer selection; the vision shape sources
//! those from the descriptor and has no weight-organization choice.

use vstd::prelude::*;

use crate::copying::clone_opt_string;
use crate::descriptor::IsqOrganization;
use crate::descriptor::TextModelBuilder;
use crate::descriptor::VisionModelBuilder;

verus! {

/// What the text loader needs to know to load the model.
#[derive(Debug, PartialEq, Eq)]
pub struct NormalSpecificConfig {
    pub topology: Option<String>,
    pub organization: IsqOrganization,
    pub write_uqff: Option<String>,
    pub from_uqff: Option<String>,
    pub imatrix: Option<String>,
    pub calibration_file: Option<String>,
    pub hf_cache_path: Option<String>,
    pub matformer_config_path: Option<String>,
    pub matformer_slice_name: Option<String>,
}

/// What the vision loader needs to know to load the model.
#[derive(Debug, PartialEq, Eq)]
pub struct VisionSpecificConfig {
    pub topology: Option<String>,
    pub write_uqff: Option<String>,
    pub from_uqff: Option<String>,
    pub max_edge: Option<u32>,
    pub calibration_file: Option<String>,
    pub imatrix: Option<String>,
    pub hf_cache_path: Option<String>,
    pub matformer_config_path: Option<String>,
    pub matformer_slice_name: Option<String>,
}

/// The text projection: loading-relevant fields verbatim, with the
/// vision-only concepts pinned to their absence sentinel.
pub open spec fn spec_text_config(d: TextModelBuilder) -> NormalSpecificConfig {
    NormalSpecificConfig {
        topology: d.topology,
        organization: d.organization,
        write_uqff: d.write_uqff,
        from_uqff: d.from_uqff,
        imatrix: None,
        calibration_file: None,
        hf_cache_path: d.hf_cache_path,
        matformer_config_path: None,
        matformer_slice_name: None,
    }
}

/// The vision projection: loading-relevant fields verbatim, matformer
/// slicing parameters sourced directly from the descriptor.
pub open spec fn spec_vision_config(d: VisionModelBuilder) -> VisionSpecificConfig {
    VisionSpecificConfig {
        topology: d.topology,
        write_uqff: d.write_uqff,
        from_uqff: d.from_uqff,
        max_edge: d.max_edge,
        calibration_file: d.calibration_file,
        imatrix: d.imatrix,
        hf_cache_path: d.hf_cache_path,
        matformer_config_path: d.matformer_config_path,
        matformer_slice_name: d.matformer_slice_name,
    }
}

/// Projects a text descriptor into its load configuration.
pub fn project_text_config(d: &TextModelBuilder) -> (c: NormalSpecificConfig)
    ensures
        c == spec_text_config(*d),
{
    NormalSpecificConfig {
        topology: clone_opt_string(&d.topology),
        organization: d.organization,
        write_uqff: clone_opt_string(&d.write_uqff),
        from_uqff: clone_opt_string(&d.from_uqff),
        imatrix: None,
        calibration_file: None,
        hf_cache_path: clone_opt_string(&d.hf_cache_path),
        matformer_config_path: None,
        matformer_slice_name: None,
    }
}

/// Projects a vision descriptor into its load configuration.
pub fn project_vision_config(d: &VisionModelBuilder) -> (c: VisionSpecificConfig)
    ensures
        c == spec_vision_config(*d),
{
    VisionSpecificConfig {
        topology: clone_opt_string(&d.topology),
        write_uqff: clone_opt_string(&d.write_uqff),
        from_uqff: clone_opt_string(&d.from_uqff),
        max_edge: d.max_edge,
        calibration_file: clone_opt_string(&d.calibration_file),
        imatrix: clone_opt_string(&d.imatrix),
        hf_cache_path: clone_opt_string(&d.hf_cache_path),
        matformer_config_path: clone_opt_string(&d.matformer_config_path),
        matformer_slice_name: clone_opt_string(&d.matformer_slice_name),
    }
}

/// Law: projection is a pure function of the descriptor, so any two
/// projections of one text descriptor are the same configuration.
pub proof fn lemma_text_projection_idempotent(
    d: TextModelBuilder,
    c1: NormalSpecificConfig,
    c2: NormalSpecificConfig,
)
    requires
        c1 == spec_text_config(d),
        c2 == spec_text_config(d),
    ensures
        c1 == c2,
{
}

/// Law: projection is a pure function of the descriptor, so any two
/// projections of one vision descriptor are the same configuration.
pub proof fn lemma_vision_projection_idempotent(
    d: VisionModelBuilder,
    c1: VisionSpecificConfig,
    c2: VisionSpecificConfig,
)
    requires
        c1 == spec_vision_config(d),
        c2 == spec_vision_config(d),
    ensures
        c1 == c2,
{
}

} // verus!
