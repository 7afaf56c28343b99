//! Parameter records of the video post-processing pipeline.

use vstd::prelude::*;
use crate::bindings::VABufferID;
use crate::bindings::VARectangle;
use crate::bindings::VASurfaceID;

verus! {

/// The `VABlendState` record of the driver. The three levels are 32-bit
/// floats, held as their bit patterns.
#[derive(Clone, Copy, Debug, PartialEq, Eq)]
pub struct BlendState {
    pub flags: u32,
    pub global_alpha: u32,
    pub min_luma: u32,
    pub max_luma: u32,
}

impl BlendState {
    /// Makes the record from its fields, in their order.
    pub fn new(flags: u32, global_alpha: u32, min_luma: u32, max_luma: u32) -> (fields: Self)
        ensures
            fields == (BlendState { flags, global_alpha, min_luma, max_luma }),
    {
        BlendState { flags, global_alpha, min_luma, max_luma }
    }
}

/// The `VAProcColorProperties` record of the driver.
#[derive(Clone, Copy, Debug, PartialEq, Eq)]
pub struct ProcColorProperties {
    pub chroma_sample_location: u8,
    pub color_range: u8,
    pub colour_primaries: u8,
    pub transfer_characteristics: u8,
    pub matrix_coefficients: u8,
}

impl ProcColorProperties {
    /// Makes the record from its fields, in their order.
    pub fn new(
        chroma_sample_location: u8,
        color_range: u8,
        colour_primaries: u8,
        transfer_characteristics: u8,
        matrix_coefficients: u8,
    ) -> (fields: Self)
        ensures
            fields == (ProcColorProperties {
                chroma_sample_location,
                color_range,
                colour_primaries,
                transfer_characteristics,
                matrix_coefficients,
            }),
    {
        ProcColorProperties {
            chroma_sample_location,
            color_range,
            colour_primaries,
            transfer_characteristics,
            matrix_coefficients,
        }
    }
}

impl Default for ProcColorProperties {
    /// The properties that are all zero.
    fn default() -> (fields: Self)
        ensures
            fields == (ProcColorProperties {
                chroma_sample_location: 0,
                color_range: 0,
                colour_primaries: 0,
                transfer_characteristics: 0,
                matrix_coefficients: 0,
            }),
    {
        Self::new(0, 0, 0, 0, 0)
    }
}

/// The `VAHdrMetaData` record of the driver. The metadata is borrowed: it
/// has to stay where it is for as long as the record is in use.
#[derive(Clone, Copy, Debug, PartialEq, Eq)]
pub struct HdrMetaData<'a> {
    pub metadata_type: u32,
    pub metadata: Option<&'a [u8]>,
    pub metadata_size: u32,
}

impl<'a> HdrMetaData<'a> {
    /// Makes the record from its fields, in their order.
    pub fn new(metadata_type: u32, metadata: Option<&'a [u8]>, metadata_size: u32) -> (fields: Self)
        ensures
            fields == (HdrMetaData { metadata_type, metadata, metadata_size }),
    {
        HdrMetaData { metadata_type, metadata, metadata_size }
    }
}

/// The `VAProcPipelineParameterBuffer` record of the driver. Each list that
/// the driver takes by address is held here by value, with its count beside
/// it.
#[derive(Clone, Debug, PartialEq, Eq)]
pub struct VAProcPipelineParameterBuffer<'a> {
    pub surface: VASurfaceID,
    pub surface_region: Option<VARectangle>,
    pub surface_color_standard: u32,
    pub output_region: Option<VARectangle>,
    pub output_background_color: u32,
    pub output_color_standard: u32,
    pub pipeline_flags: u32,
    pub filter_flags: u32,
    pub filters: Option<Vec<VABufferID>>,
    pub num_filters: u32,
    pub forward_references: Option<Vec<VASurfaceID>>,
    pub num_forward_references: u32,
    pub backward_references: Option<Vec<VASurfaceID>>,
    pub num_backward_references: u32,
    pub rotation_state: u32,
    pub blend_state: Option<Vec<BlendState>>,
    pub mirror_state: u32,
    pub additional_outputs: Option<Vec<VASurfaceID>>,
    pub num_additional_outputs: u32,
    pub input_surface_flag: u32,
    pub output_surface_flag: u32,
    pub input_color_properties: ProcColorProperties,
    pub output_color_properties: ProcColorProperties,
    pub processing_mode: u32,
    pub output_hdr_metadata: Option<Vec<HdrMetaData<'a>>>,
}

/// The count that goes with a list: its length, as far as 32 bits hold it,
/// or zero when there is no list.
pub open spec fn count_of<T>(list: Option<Vec<T>>) -> u32 {
    match list {
        Some(list) => list@.len() as u32,
        None => 0,
    }
}

fn list_count<T>(list: &Option<Vec<T>>) -> (count: u32)
    ensures
        count == count_of(*list),
{
    match list {
        Some(list) => #[verifier::truncate] (list.len() as u32),
        None => 0,
    }
}

/// The parameters of one run of the post-processing pipeline, together with
/// everything that they refer to.
#[derive(Clone, Debug, PartialEq, Eq)]
pub struct ProcPipelineParameterBuffer<'a> {
    c_params: Box<VAProcPipelineParameterBuffer<'a>>,
}

impl<'a> View for ProcPipelineParameterBuffer<'a> {
    type V = VAProcPipelineParameterBuffer<'a>;

    closed spec fn view(&self) -> VAProcPipelineParameterBuffer<'a> {
        *self.c_params
    }
}

impl<'a> ProcPipelineParameterBuffer<'a> {
    /// Makes the parameters. Every count is that of its list, and zero for a
    /// list that is not given.
    pub fn new(
        surface: VASurfaceID,
        surface_region: Option<VARectangle>,
        surface_color_standard: u8,
        output_region: Option<VARectangle>,
        output_background_color: u32,
        output_color_standard: u8,
        pipeline_flags: u32,
        filter_flags: u32,
        filters: Option<Vec<VABufferID>>,
        forward_references: Option<Vec<VASurfaceID>>,
        backward_references: Option<Vec<VASurfaceID>>,
        rotation_state: u32,
        blend_state: Option<Vec<BlendState>>,
        mirror_state: u32,
        additional_outputs: Option<Vec<VASurfaceID>>,
        input_surface_flag: u32,
        output_surface_flag: u32,
        input_color_properties: ProcColorProperties,
        output_color_properties: ProcColorProperties,
        processing_mode: u32,
        output_hdr_metadata: Option<Vec<HdrMetaData<'a>>>,
    ) -> (params: Self)
        ensures
            params@ == (VAProcPipelineParameterBuffer {
                surface,
                surface_region,
                surface_color_standard: surface_color_standard as u32,
                output_region,
                output_background_color,
                output_color_standard: output_color_standard as u32,
                pipeline_flags,
                filter_flags,
                filters,
                num_filters: count_of(filters),
                forward_references,
                num_forward_references: count_of(forward_references),
                backward_references,
                num_backward_references: count_of(backward_references),
                rotation_state,
                blend_state,
                mirror_state,
                additional_outputs,
                num_additional_outputs: count_of(additional_outputs),
                input_surface_flag,
                output_surface_flag,
                input_color_properties,
                output_color_properties,
                processing_mode,
                output_hdr_metadata,
            }),
    {
        let num_filters = list_count(&filters);
        let num_forward_references = list_count(&forward_references);
        let num_backward_references = list_count(&backward_references);
        let num_additional_outputs = list_count(&additional_outputs);
        ProcPipelineParameterBuffer {
            c_params: Box::new(
                VAProcPipelineParameterBuffer {
                    surface,
                    surface_region,
                    surface_color_standard: surface_color_standard as u32,
                    output_region,
                    output_background_color,
                    output_color_standard: output_color_standard as u32,
                    pipeline_flags,
                    filter_flags,
                    filters,
                    num_filters,
                    forward_references,
                    num_forward_references,
                    backward_references,
                    num_backward_references,
                    rotation_state,
                    blend_state,
                    mirror_state,
                    additional_outputs,
                    num_additional_outputs,
                    input_surface_flag,
                    output_surface_flag,
                    input_color_properties,
                    output_color_properties,
                    processing_mode,
                    output_hdr_metadata,
                },
            ),
        }
    }

    /// Returns the parameters as the driver is handed them.
    pub fn inner(&self) -> (inner: &VAProcPipelineParameterBuffer<'a>)
        ensures
            *inner == self@,
    {
        &self.c_params
    }
}

} // verus!
