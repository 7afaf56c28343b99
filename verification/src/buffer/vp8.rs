//! Parameter records of VP8 decoding and encoding.

use vstd::prelude::*;
use crate::bindings::VABufferID;
use crate::bindings::VASurfaceID;

verus! {

/// The `pic_fields` flags of `VAPictureParameterBufferVP8`.
#[derive(Clone, Copy, Debug, PartialEq, Eq)]
pub struct VP8PicFields {
    pub key_frame: u32,
    pub version: u32,
    pub segmentation_enabled: u32,
    pub update_mb_segmentation_map: u32,
    pub update_segment_feature_data: u32,
    pub filter_type: u32,
    pub sharpness_level: u32,
    pub loop_filter_adj_enable: u32,
    pub mode_ref_lf_delta_update: u32,
    pub sign_bias_golden: u32,
    pub sign_bias_alternate: u32,
    pub mb_no_coeff_skip: u32,
    pub loop_filter_disable: u32,
}

impl VP8PicFields {
    /// Makes the record from its fields, in their order.
    pub fn new(
        key_frame: u32,
        version: u32,
        segmentation_enabled: u32,
        update_mb_segmentation_map: u32,
        update_segment_feature_data: u32,
        filter_type: u32,
        sharpness_level: u32,
        loop_filter_adj_enable: u32,
        mode_ref_lf_delta_update: u32,
        sign_bias_golden: u32,
        sign_bias_alternate: u32,
        mb_no_coeff_skip: u32,
        loop_filter_disable: u32,
    ) -> (fields: Self)
        ensures
            fields == (VP8PicFields {
                key_frame,
                version,
                segmentation_enabled,
                update_mb_segmentation_map,
                update_segment_feature_data,
                filter_type,
                sharpness_level,
                loop_filter_adj_enable,
                mode_ref_lf_delta_update,
                sign_bias_golden,
                sign_bias_alternate,
                mb_no_coeff_skip,
                loop_filter_disable,
            }),
    {
        VP8PicFields {
            key_frame,
            version,
            segmentation_enabled,
            update_mb_segmentation_map,
            update_segment_feature_data,
            filter_type,
            sharpness_level,
            loop_filter_adj_enable,
            mode_ref_lf_delta_update,
            sign_bias_golden,
            sign_bias_alternate,
            mb_no_coeff_skip,
            loop_filter_disable,
        }
    }

    /// Returns the record as the driver is handed it.
    pub fn inner(&self) -> (inner: &Self)
        ensures
            inner == self,
    {
        self
    }
}

/// The `VABoolCoderContextVPX` record of the driver.
#[derive(Clone, Copy, Debug, PartialEq, Eq)]
pub struct BoolCoderContextVPX {
    pub range: u8,
    pub value: u8,
    pub count: u8,
}

impl BoolCoderContextVPX {
    /// Makes the record from its fields, in their order.
    pub fn new(
        range: u8,
        value: u8,
        count: u8,
    ) -> (fields: Self)
        ensures
            fields == (BoolCoderContextVPX {
                range,
                value,
                count,
            }),
    {
        BoolCoderContextVPX {
            range,
            value,
            count,
        }
    }
}

/// The `VAPictureParameterBufferVP8` record of the driver.
#[derive(Clone, Copy, Debug, PartialEq, Eq)]
pub struct PictureParameterBufferVP8 {
    pub frame_width: u32,
    pub frame_height: u32,
    pub last_ref_frame: VASurfaceID,
    pub golden_ref_frame: VASurfaceID,
    pub alt_ref_frame: VASurfaceID,
    pub pic_fields: VP8PicFields,
    pub mb_segment_tree_probs: [u8; 3],
    pub loop_filter_level: [u8; 4],
    pub loop_filter_deltas_ref_frame: [i8; 4],
    pub loop_filter_deltas_mode: [i8; 4],
    pub prob_skip_false: u8,
    pub prob_intra: u8,
    pub prob_last: u8,
    pub prob_gf: u8,
    pub y_mode_probs: [u8; 4],
    pub uv_mode_probs: [u8; 3],
    pub mv_probs: [[u8; 19]; 2],
    pub bool_coder_ctx: BoolCoderContextVPX,
}

impl PictureParameterBufferVP8 {
    /// Makes the record from its fields, in their order.
    pub fn new(
        frame_width: u32,
        frame_height: u32,
        last_ref_frame: VASurfaceID,
        golden_ref_frame: VASurfaceID,
        alt_ref_frame: VASurfaceID,
        pic_fields: &VP8PicFields,
        mb_segment_tree_probs: [u8; 3],
        loop_filter_level: [u8; 4],
        loop_filter_deltas_ref_frame: [i8; 4],
        loop_filter_deltas_mode: [i8; 4],
        prob_skip_false: u8,
        prob_intra: u8,
        prob_last: u8,
        prob_gf: u8,
        y_mode_probs: [u8; 4],
        uv_mode_probs: [u8; 3],
        mv_probs: [[u8; 19]; 2],
        bool_coder_ctx: &BoolCoderContextVPX,
    ) -> (fields: Self)
        ensures
            fields == (PictureParameterBufferVP8 {
                frame_width,
                frame_height,
                last_ref_frame,
                golden_ref_frame,
                alt_ref_frame,
                pic_fields: *pic_fields,
                mb_segment_tree_probs,
                loop_filter_level,
                loop_filter_deltas_ref_frame,
                loop_filter_deltas_mode,
                prob_skip_false,
                prob_intra,
                prob_last,
                prob_gf,
                y_mode_probs,
                uv_mode_probs,
                mv_probs,
                bool_coder_ctx: *bool_coder_ctx,
            }),
    {
        PictureParameterBufferVP8 {
            frame_width,
            frame_height,
            last_ref_frame,
            golden_ref_frame,
            alt_ref_frame,
            pic_fields: *pic_fields,
            mb_segment_tree_probs,
            loop_filter_level,
            loop_filter_deltas_ref_frame,
            loop_filter_deltas_mode,
            prob_skip_false,
            prob_intra,
            prob_last,
            prob_gf,
            y_mode_probs,
            uv_mode_probs,
            mv_probs,
            bool_coder_ctx: *bool_coder_ctx,
        }
    }

    /// Returns the record as the driver is handed it.
    pub fn inner(&self) -> (inner: &Self)
        ensures
            inner == self,
    {
        self
    }
}

/// The `VASliceParameterBufferVP8` record of the driver.
#[derive(Clone, Copy, Debug, PartialEq, Eq)]
pub struct SliceParameterBufferVP8 {
    pub slice_data_size: u32,
    pub slice_data_offset: u32,
    pub slice_data_flag: u32,
    pub macroblock_offset: u32,
    pub num_of_partitions: u8,
    pub partition_size: [u32; 9],
}

impl SliceParameterBufferVP8 {
    /// Makes the record from its fields, in their order.
    pub fn new(
        slice_data_size: u32,
        slice_data_offset: u32,
        slice_data_flag: u32,
        macroblock_offset: u32,
        num_of_partitions: u8,
        partition_size: [u32; 9],
    ) -> (fields: Self)
        ensures
            fields == (SliceParameterBufferVP8 {
                slice_data_size,
                slice_data_offset,
                slice_data_flag,
                macroblock_offset,
                num_of_partitions,
                partition_size,
            }),
    {
        SliceParameterBufferVP8 {
            slice_data_size,
            slice_data_offset,
            slice_data_flag,
            macroblock_offset,
            num_of_partitions,
            partition_size,
        }
    }

    /// Returns the record as the driver is handed it.
    pub fn inner(&self) -> (inner: &Self)
        ensures
            inner == self,
    {
        self
    }
}

/// The `VAIQMatrixBufferVP8` record of the driver.
#[derive(Clone, Copy, Debug, PartialEq, Eq)]
pub struct IQMatrixBufferVP8 {
    pub quantization_index: [[u16; 6]; 4],
}

impl IQMatrixBufferVP8 {
    /// Makes the record from its fields, in their order.
    pub fn new(
        quantization_index: [[u16; 6]; 4],
    ) -> (fields: Self)
        ensures
            fields == (IQMatrixBufferVP8 {
                quantization_index,
            }),
    {
        IQMatrixBufferVP8 {
            quantization_index,
        }
    }

    /// Returns the record as the driver is handed it.
    pub fn inner(&self) -> (inner: &Self)
        ensures
            inner == self,
    {
        self
    }
}

/// The `VAProbabilityDataBufferVP8` record of the driver.
#[derive(Clone, Copy, Debug, PartialEq, Eq)]
pub struct ProbabilityDataBufferVP8 {
    pub dct_coeff_probs: [[[[u8; 11]; 3]; 8]; 4],
}

impl ProbabilityDataBufferVP8 {
    /// Makes the record from its fields, in their order.
    pub fn new(
        dct_coeff_probs: [[[[u8; 11]; 3]; 8]; 4],
    ) -> (fields: Self)
        ensures
            fields == (ProbabilityDataBufferVP8 {
                dct_coeff_probs,
            }),
    {
        ProbabilityDataBufferVP8 {
            dct_coeff_probs,
        }
    }

    /// Returns the record as the driver is handed it.
    pub fn inner(&self) -> (inner: &Self)
        ensures
            inner == self,
    {
        self
    }
}

/// The `VAEncSequenceParameterBufferVP8` record of the driver.
#[derive(Clone, Copy, Debug, PartialEq, Eq)]
pub struct EncSequenceParameterBufferVP8 {
    pub frame_width: u32,
    pub frame_height: u32,
    pub frame_width_scale: u32,
    pub frame_height_scale: u32,
    pub error_resilient: u32,
    pub kf_auto: u32,
    pub kf_min_dist: u32,
    pub kf_max_dist: u32,
    pub bits_per_second: u32,
    pub intra_period: u32,
    pub reference_frames: [VASurfaceID; 4],
}

impl EncSequenceParameterBufferVP8 {
    /// Makes the record from its fields, in their order.
    pub fn new(
        frame_width: u32,
        frame_height: u32,
        frame_width_scale: u32,
        frame_height_scale: u32,
        error_resilient: u32,
        kf_auto: u32,
        kf_min_dist: u32,
        kf_max_dist: u32,
        bits_per_second: u32,
        intra_period: u32,
        reference_frames: [VASurfaceID; 4],
    ) -> (fields: Self)
        ensures
            fields == (EncSequenceParameterBufferVP8 {
                frame_width,
                frame_height,
                frame_width_scale,
                frame_height_scale,
                error_resilient,
                kf_auto,
                kf_min_dist,
                kf_max_dist,
                bits_per_second,
                intra_period,
                reference_frames,
            }),
    {
        EncSequenceParameterBufferVP8 {
            frame_width,
            frame_height,
            frame_width_scale,
            frame_height_scale,
            error_resilient,
            kf_auto,
            kf_min_dist,
            kf_max_dist,
            bits_per_second,
            intra_period,
            reference_frames,
        }
    }
}

/// The `ref_flags` flags of `VAEncPictureParameterBufferVP8`.
#[derive(Clone, Copy, Debug, PartialEq, Eq)]
pub struct VP8EncRefFlags {
    pub force_kf: u32,
    pub no_ref_last: u32,
    pub no_ref_gf: u32,
    pub no_ref_arf: u32,
    pub temporal_id: u32,
    pub first_ref: u32,
    pub second_ref: u32,
}

impl VP8EncRefFlags {
    /// Makes the record from its fields, in their order.
    pub fn new(
        force_kf: u32,
        no_ref_last: u32,
        no_ref_gf: u32,
        no_ref_arf: u32,
        temporal_id: u32,
        first_ref: u32,
        second_ref: u32,
    ) -> (fields: Self)
        ensures
            fields == (VP8EncRefFlags {
                force_kf,
                no_ref_last,
                no_ref_gf,
                no_ref_arf,
                temporal_id,
                first_ref,
                second_ref,
            }),
    {
        VP8EncRefFlags {
            force_kf,
            no_ref_last,
            no_ref_gf,
            no_ref_arf,
            temporal_id,
            first_ref,
            second_ref,
        }
    }
}

/// The `pic_flags` flags of `VAEncPictureParameterBufferVP8`.
#[derive(Clone, Copy, Debug, PartialEq, Eq)]
pub struct VP8EncPicFlags {
    pub frame_type: u32,
    pub version: u32,
    pub show_frame: u32,
    pub color_space: u32,
    pub recon_filter_type: u32,
    pub loop_filter_type: u32,
    pub auto_partitions: u32,
    pub num_token_partitions: u32,
    pub clamping_type: u32,
    pub segmentation_enabled: u32,
    pub update_mb_segmentation_map: u32,
    pub update_segment_feature_data: u32,
    pub loop_filter_adj_enable: u32,
    pub refresh_entropy_probs: u32,
    pub refresh_golden_frame: u32,
    pub refresh_alternate_frame: u32,
    pub refresh_last: u32,
    pub copy_buffer_to_golden: u32,
    pub copy_buffer_to_alternate: u32,
    pub sign_bias_golden: u32,
    pub sign_bias_alternate: u32,
    pub mb_no_coeff_skip: u32,
    pub forced_lf_adjustment: u32,
}

impl VP8EncPicFlags {
    /// Makes the record from its fields, in their order.
    pub fn new(
        frame_type: u32,
        version: u32,
        show_frame: u32,
        color_space: u32,
        recon_filter_type: u32,
        loop_filter_type: u32,
        auto_partitions: u32,
        num_token_partitions: u32,
        clamping_type: u32,
        segmentation_enabled: u32,
        update_mb_segmentation_map: u32,
        update_segment_feature_data: u32,
        loop_filter_adj_enable: u32,
        refresh_entropy_probs: u32,
        refresh_golden_frame: u32,
        refresh_alternate_frame: u32,
        refresh_last: u32,
        copy_buffer_to_golden: u32,
        copy_buffer_to_alternate: u32,
        sign_bias_golden: u32,
        sign_bias_alternate: u32,
        mb_no_coeff_skip: u32,
        forced_lf_adjustment: u32,
    ) -> (fields: Self)
        ensures
            fields == (VP8EncPicFlags {
                frame_type,
                version,
                show_frame,
                color_space,
                recon_filter_type,
                loop_filter_type,
                auto_partitions,
                num_token_partitions,
                clamping_type,
                segmentation_enabled,
                update_mb_segmentation_map,
                update_segment_feature_data,
                loop_filter_adj_enable,
                refresh_entropy_probs,
                refresh_golden_frame,
                refresh_alternate_frame,
                refresh_last,
                copy_buffer_to_golden,
                copy_buffer_to_alternate,
                sign_bias_golden,
                sign_bias_alternate,
                mb_no_coeff_skip,
                forced_lf_adjustment,
            }),
    {
        VP8EncPicFlags {
            frame_type,
            version,
            show_frame,
            color_space,
            recon_filter_type,
            loop_filter_type,
            auto_partitions,
            num_token_partitions,
            clamping_type,
            segmentation_enabled,
            update_mb_segmentation_map,
            update_segment_feature_data,
            loop_filter_adj_enable,
            refresh_entropy_probs,
            refresh_golden_frame,
            refresh_alternate_frame,
            refresh_last,
            copy_buffer_to_golden,
            copy_buffer_to_alternate,
            sign_bias_golden,
            sign_bias_alternate,
            mb_no_coeff_skip,
            forced_lf_adjustment,
        }
    }
}

/// The `VAEncPictureParameterBufferVP8` record of the driver.
#[derive(Clone, Copy, Debug, PartialEq, Eq)]
pub struct EncPictureParameterBufferVP8 {
    pub reconstructed_frame: VASurfaceID,
    pub ref_last_frame: VASurfaceID,
    pub ref_gf_frame: VASurfaceID,
    pub ref_arf_frame: VASurfaceID,
    pub coded_buf: VABufferID,
    pub ref_flags: VP8EncRefFlags,
    pub pic_flags: VP8EncPicFlags,
    pub loop_filter_level: [i8; 4],
    pub ref_lf_delta: [i8; 4],
    pub mode_lf_delta: [i8; 4],
    pub sharpness_level: u8,
    pub clamp_qindex_high: u8,
    pub clamp_qindex_low: u8,
}

impl EncPictureParameterBufferVP8 {
    /// Makes the record from its fields, in their order.
    pub fn new(
        reconstructed_frame: VASurfaceID,
        ref_last_frame: VASurfaceID,
        ref_gf_frame: VASurfaceID,
        ref_arf_frame: VASurfaceID,
        coded_buf: VABufferID,
        ref_flags: &VP8EncRefFlags,
        pic_flags: &VP8EncPicFlags,
        loop_filter_level: [i8; 4],
        ref_lf_delta: [i8; 4],
        mode_lf_delta: [i8; 4],
        sharpness_level: u8,
        clamp_qindex_high: u8,
        clamp_qindex_low: u8,
    ) -> (fields: Self)
        ensures
            fields == (EncPictureParameterBufferVP8 {
                reconstructed_frame,
                ref_last_frame,
                ref_gf_frame,
                ref_arf_frame,
                coded_buf,
                ref_flags: *ref_flags,
                pic_flags: *pic_flags,
                loop_filter_level,
                ref_lf_delta,
                mode_lf_delta,
                sharpness_level,
                clamp_qindex_high,
                clamp_qindex_low,
            }),
    {
        EncPictureParameterBufferVP8 {
            reconstructed_frame,
            ref_last_frame,
            ref_gf_frame,
            ref_arf_frame,
            coded_buf,
            ref_flags: *ref_flags,
            pic_flags: *pic_flags,
            loop_filter_level,
            ref_lf_delta,
            mode_lf_delta,
            sharpness_level,
            clamp_qindex_high,
            clamp_qindex_low,
        }
    }
}

} // verus!
