//! Parameter records of VP9 decoding and encoding.

use vstd::prelude::*;
use crate::bindings::VABufferID;
use crate::bindings::VASurfaceID;

verus! {

/// The `pic_fields` flags of `VAPictureParameterBufferVP9`.
#[derive(Clone, Copy, Debug, PartialEq, Eq)]
pub struct VP9PicFields {
    pub subsampling_x: u32,
    pub subsampling_y: u32,
    pub frame_type: u32,
    pub show_frame: u32,
    pub error_resilient_mode: u32,
    pub intra_only: u32,
    pub allow_high_precision_mv: u32,
    pub mcomp_filter_type: u32,
    pub frame_parallel_decoding_mode: u32,
    pub reset_frame_context: u32,
    pub refresh_frame_context: u32,
    pub frame_context_idx: u32,
    pub segmentation_enabled: u32,
    pub segmentation_temporal_update: u32,
    pub segmentation_update_map: u32,
    pub last_ref_frame: u32,
    pub last_ref_frame_sign_bias: u32,
    pub golden_ref_frame: u32,
    pub golden_ref_frame_sign_bias: u32,
    pub alt_ref_frame: u32,
    pub alt_ref_frame_sign_bias: u32,
    pub lossless_flag: u32,
}

impl VP9PicFields {
    /// Makes the record from its fields, in their order.
    pub fn new(
        subsampling_x: u32,
        subsampling_y: u32,
        frame_type: u32,
        show_frame: u32,
        error_resilient_mode: u32,
        intra_only: u32,
        allow_high_precision_mv: u32,
        mcomp_filter_type: u32,
        frame_parallel_decoding_mode: u32,
        reset_frame_context: u32,
        refresh_frame_context: u32,
        frame_context_idx: u32,
        segmentation_enabled: u32,
        segmentation_temporal_update: u32,
        segmentation_update_map: u32,
        last_ref_frame: u32,
        last_ref_frame_sign_bias: u32,
        golden_ref_frame: u32,
        golden_ref_frame_sign_bias: u32,
        alt_ref_frame: u32,
        alt_ref_frame_sign_bias: u32,
        lossless_flag: u32,
    ) -> (fields: Self)
        ensures
            fields == (VP9PicFields {
                subsampling_x,
                subsampling_y,
                frame_type,
                show_frame,
                error_resilient_mode,
                intra_only,
                allow_high_precision_mv,
                mcomp_filter_type,
                frame_parallel_decoding_mode,
                reset_frame_context,
                refresh_frame_context,
                frame_context_idx,
                segmentation_enabled,
                segmentation_temporal_update,
                segmentation_update_map,
                last_ref_frame,
                last_ref_frame_sign_bias,
                golden_ref_frame,
                golden_ref_frame_sign_bias,
                alt_ref_frame,
                alt_ref_frame_sign_bias,
                lossless_flag,
            }),
    {
        VP9PicFields {
            subsampling_x,
            subsampling_y,
            frame_type,
            show_frame,
            error_resilient_mode,
            intra_only,
            allow_high_precision_mv,
            mcomp_filter_type,
            frame_parallel_decoding_mode,
            reset_frame_context,
            refresh_frame_context,
            frame_context_idx,
            segmentation_enabled,
            segmentation_temporal_update,
            segmentation_update_map,
            last_ref_frame,
            last_ref_frame_sign_bias,
            golden_ref_frame,
            golden_ref_frame_sign_bias,
            alt_ref_frame,
            alt_ref_frame_sign_bias,
            lossless_flag,
        }
    }

    /// Returns the record as the driver is handed it.
    pub fn inner(&self) -> (inner: &Self)
        ensures
            inner == self,
    {
        self
    }
}

/// The `VADecPictureParameterBufferVP9` record of the driver.
#[derive(Clone, Copy, Debug, PartialEq, Eq)]
pub struct PictureParameterBufferVP9 {
    pub frame_width: u16,
    pub frame_height: u16,
    pub reference_frames: [VASurfaceID; 8],
    pub pic_fields: VP9PicFields,
    pub filter_level: u8,
    pub sharpness_level: u8,
    pub log2_tile_rows: u8,
    pub log2_tile_columns: u8,
    pub frame_header_length_in_bytes: u8,
    pub first_partition_size: u16,
    pub mb_segment_tree_probs: [u8; 7],
    pub segment_pred_probs: [u8; 3],
    pub profile: u8,
    pub bit_depth: u8,
}

impl PictureParameterBufferVP9 {
    /// Makes the record from its fields, in their order.
    pub fn new(
        frame_width: u16,
        frame_height: u16,
        reference_frames: [VASurfaceID; 8],
        pic_fields: &VP9PicFields,
        filter_level: u8,
        sharpness_level: u8,
        log2_tile_rows: u8,
        log2_tile_columns: u8,
        frame_header_length_in_bytes: u8,
        first_partition_size: u16,
        mb_segment_tree_probs: [u8; 7],
        segment_pred_probs: [u8; 3],
        profile: u8,
        bit_depth: u8,
    ) -> (fields: Self)
        ensures
            fields == (PictureParameterBufferVP9 {
                frame_width,
                frame_height,
                reference_frames,
                pic_fields: *pic_fields,
                filter_level,
                sharpness_level,
                log2_tile_rows,
                log2_tile_columns,
                frame_header_length_in_bytes,
                first_partition_size,
                mb_segment_tree_probs,
                segment_pred_probs,
                profile,
                bit_depth,
            }),
    {
        PictureParameterBufferVP9 {
            frame_width,
            frame_height,
            reference_frames,
            pic_fields: *pic_fields,
            filter_level,
            sharpness_level,
            log2_tile_rows,
            log2_tile_columns,
            frame_header_length_in_bytes,
            first_partition_size,
            mb_segment_tree_probs,
            segment_pred_probs,
            profile,
            bit_depth,
        }
    }

    /// Returns the record as the driver is handed it.
    pub fn inner(&self) -> (inner: &Self)
        ensures
            inner == self,
    {
        self
    }
}

/// The `segment_flags` flags of `VASegmentParameterVP9`.
#[derive(Clone, Copy, Debug, PartialEq, Eq)]
pub struct VP9SegmentFlags {
    pub segment_reference_enabled: u16,
    pub segment_reference: u16,
    pub segment_reference_skipped: u16,
}

impl VP9SegmentFlags {
    /// Makes the record from its fields, in their order.
    pub fn new(
        segment_reference_enabled: u16,
        segment_reference: u16,
        segment_reference_skipped: u16,
    ) -> (fields: Self)
        ensures
            fields == (VP9SegmentFlags {
                segment_reference_enabled,
                segment_reference,
                segment_reference_skipped,
            }),
    {
        VP9SegmentFlags {
            segment_reference_enabled,
            segment_reference,
            segment_reference_skipped,
        }
    }

    /// Returns the record as the driver is handed it.
    pub fn inner(&self) -> (inner: &Self)
        ensures
            inner == self,
    {
        self
    }
}

/// The `VASegmentParameterVP9` record of the driver.
#[derive(Clone, Copy, Debug, PartialEq, Eq)]
pub struct SegmentParameterVP9 {
    pub segment_flags: VP9SegmentFlags,
    pub filter_level: [[u8; 2]; 4],
    pub luma_ac_quant_scale: i16,
    pub luma_dc_quant_scale: i16,
    pub chroma_ac_quant_scale: i16,
    pub chroma_dc_quant_scale: i16,
}

impl SegmentParameterVP9 {
    /// Makes the record from its fields, in their order.
    pub fn new(
        segment_flags: &VP9SegmentFlags,
        filter_level: [[u8; 2]; 4],
        luma_ac_quant_scale: i16,
        luma_dc_quant_scale: i16,
        chroma_ac_quant_scale: i16,
        chroma_dc_quant_scale: i16,
    ) -> (fields: Self)
        ensures
            fields == (SegmentParameterVP9 {
                segment_flags: *segment_flags,
                filter_level,
                luma_ac_quant_scale,
                luma_dc_quant_scale,
                chroma_ac_quant_scale,
                chroma_dc_quant_scale,
            }),
    {
        SegmentParameterVP9 {
            segment_flags: *segment_flags,
            filter_level,
            luma_ac_quant_scale,
            luma_dc_quant_scale,
            chroma_ac_quant_scale,
            chroma_dc_quant_scale,
        }
    }
}

/// The `VASliceParameterBufferVP9` record of the driver.
#[derive(Clone, Copy, Debug, PartialEq, Eq)]
pub struct SliceParameterBufferVP9 {
    pub slice_data_size: u32,
    pub slice_data_offset: u32,
    pub slice_data_flag: u32,
    pub seg_param: [SegmentParameterVP9; 8],
}

impl SliceParameterBufferVP9 {
    /// Makes the record from its fields, in their order.
    pub fn new(
        slice_data_size: u32,
        slice_data_offset: u32,
        slice_data_flag: u32,
        seg_param: [SegmentParameterVP9; 8],
    ) -> (fields: Self)
        ensures
            fields == (SliceParameterBufferVP9 {
                slice_data_size,
                slice_data_offset,
                slice_data_flag,
                seg_param,
            }),
    {
        SliceParameterBufferVP9 {
            slice_data_size,
            slice_data_offset,
            slice_data_flag,
            seg_param,
        }
    }

    /// Returns the record as the driver is handed it.
    pub fn inner(&self) -> (inner: &Self)
        ensures
            inner == self,
    {
        self
    }
}

/// The `VACodedBufferVP9Status` record of the driver.
#[derive(Clone, Copy, Debug, PartialEq, Eq)]
pub struct CodedBufferVP9Status {
    pub base_qp_index: u16,
    pub loop_filter_level: u8,
    pub long_term_indication: u8,
    pub next_frame_width: u16,
    pub next_frame_height: u16,
}

impl CodedBufferVP9Status {
    /// Makes the record from its fields, in their order.
    pub fn new(
        base_qp_index: u16,
        loop_filter_level: u8,
        long_term_indication: u8,
        next_frame_width: u16,
        next_frame_height: u16,
    ) -> (fields: Self)
        ensures
            fields == (CodedBufferVP9Status {
                base_qp_index,
                loop_filter_level,
                long_term_indication,
                next_frame_width,
                next_frame_height,
            }),
    {
        CodedBufferVP9Status {
            base_qp_index,
            loop_filter_level,
            long_term_indication,
            next_frame_width,
            next_frame_height,
        }
    }
}

/// The `VAEncSequenceParameterBufferVP9` record of the driver.
#[derive(Clone, Copy, Debug, PartialEq, Eq)]
pub struct EncSequenceParameterBufferVP9 {
    pub max_frame_width: u32,
    pub max_frame_height: u32,
    pub kf_auto: u32,
    pub kf_min_dist: u32,
    pub kf_max_dist: u32,
    pub bits_per_second: u32,
    pub intra_period: u32,
}

impl EncSequenceParameterBufferVP9 {
    /// Makes the record from its fields, in their order.
    pub fn new(
        max_frame_width: u32,
        max_frame_height: u32,
        kf_auto: u32,
        kf_min_dist: u32,
        kf_max_dist: u32,
        bits_per_second: u32,
        intra_period: u32,
    ) -> (fields: Self)
        ensures
            fields == (EncSequenceParameterBufferVP9 {
                max_frame_width,
                max_frame_height,
                kf_auto,
                kf_min_dist,
                kf_max_dist,
                bits_per_second,
                intra_period,
            }),
    {
        EncSequenceParameterBufferVP9 {
            max_frame_width,
            max_frame_height,
            kf_auto,
            kf_min_dist,
            kf_max_dist,
            bits_per_second,
            intra_period,
        }
    }
}

/// The `ref_flags` flags of `VAEncPictureParameterBufferVP9`.
#[derive(Clone, Copy, Debug, PartialEq, Eq)]
pub struct VP9EncRefFlags {
    pub force_kf: u32,
    pub ref_frame_ctrl_l0: u32,
    pub ref_frame_ctrl_l1: u32,
    pub ref_last_idx: u32,
    pub ref_last_sign_bias: u32,
    pub ref_gf_idx: u32,
    pub ref_gf_sign_bias: u32,
    pub ref_arf_idx: u32,
    pub ref_arf_sign_bias: u32,
    pub temporal_id: u32,
}

impl VP9EncRefFlags {
    /// Makes the record from its fields, in their order.
    pub fn new(
        force_kf: u32,
        ref_frame_ctrl_l0: u32,
        ref_frame_ctrl_l1: u32,
        ref_last_idx: u32,
        ref_last_sign_bias: u32,
        ref_gf_idx: u32,
        ref_gf_sign_bias: u32,
        ref_arf_idx: u32,
        ref_arf_sign_bias: u32,
        temporal_id: u32,
    ) -> (fields: Self)
        ensures
            fields == (VP9EncRefFlags {
                force_kf,
                ref_frame_ctrl_l0,
                ref_frame_ctrl_l1,
                ref_last_idx,
                ref_last_sign_bias,
                ref_gf_idx,
                ref_gf_sign_bias,
                ref_arf_idx,
                ref_arf_sign_bias,
                temporal_id,
            }),
    {
        VP9EncRefFlags {
            force_kf,
            ref_frame_ctrl_l0,
            ref_frame_ctrl_l1,
            ref_last_idx,
            ref_last_sign_bias,
            ref_gf_idx,
            ref_gf_sign_bias,
            ref_arf_idx,
            ref_arf_sign_bias,
            temporal_id,
        }
    }
}

/// The `pic_flags` flags of `VAEncPictureParameterBufferVP9`.
#[derive(Clone, Copy, Debug, PartialEq, Eq)]
pub struct VP9EncPicFlags {
    pub frame_type: u32,
    pub show_frame: u32,
    pub error_resilient_mode: u32,
    pub intra_only: u32,
    pub allow_high_precision_mv: u32,
    pub mcomp_filter_type: u32,
    pub frame_parallel_decoding_mode: u32,
    pub reset_frame_context: u32,
    pub refresh_frame_context: u32,
    pub frame_context_idx: u32,
    pub segmentation_enabled: u32,
    pub segmentation_temporal_update: u32,
    pub segmentation_update_map: u32,
    pub lossless_mode: u32,
    pub comp_prediction_mode: u32,
    pub auto_segmentation: u32,
    pub super_frame_flag: u32,
}

impl VP9EncPicFlags {
    /// Makes the record from its fields, in their order.
    pub fn new(
        frame_type: u32,
        show_frame: u32,
        error_resilient_mode: u32,
        intra_only: u32,
        allow_high_precision_mv: u32,
        mcomp_filter_type: u32,
        frame_parallel_decoding_mode: u32,
        reset_frame_context: u32,
        refresh_frame_context: u32,
        frame_context_idx: u32,
        segmentation_enabled: u32,
        segmentation_temporal_update: u32,
        segmentation_update_map: u32,
        lossless_mode: u32,
        comp_prediction_mode: u32,
        auto_segmentation: u32,
        super_frame_flag: u32,
    ) -> (fields: Self)
        ensures
            fields == (VP9EncPicFlags {
                frame_type,
                show_frame,
                error_resilient_mode,
                intra_only,
                allow_high_precision_mv,
                mcomp_filter_type,
                frame_parallel_decoding_mode,
                reset_frame_context,
                refresh_frame_context,
                frame_context_idx,
                segmentation_enabled,
                segmentation_temporal_update,
                segmentation_update_map,
                lossless_mode,
                comp_prediction_mode,
                auto_segmentation,
                super_frame_flag,
            }),
    {
        VP9EncPicFlags {
            frame_type,
            show_frame,
            error_resilient_mode,
            intra_only,
            allow_high_precision_mv,
            mcomp_filter_type,
            frame_parallel_decoding_mode,
            reset_frame_context,
            refresh_frame_context,
            frame_context_idx,
            segmentation_enabled,
            segmentation_temporal_update,
            segmentation_update_map,
            lossless_mode,
            comp_prediction_mode,
            auto_segmentation,
            super_frame_flag,
        }
    }
}

/// The `VAEncPictureParameterBufferVP9` record of the driver.
#[derive(Clone, Copy, Debug, PartialEq, Eq)]
pub struct EncPictureParameterBufferVP9 {
    pub frame_width_src: u32,
    pub frame_height_src: u32,
    pub frame_width_dst: u32,
    pub frame_height_dst: u32,
    pub reconstructed_frame: VASurfaceID,
    pub reference_frames: [VASurfaceID; 8],
    pub coded_buf: VABufferID,
    pub ref_flags: VP9EncRefFlags,
    pub pic_flags: VP9EncPicFlags,
    pub refresh_frame_flags: u8,
    pub luma_ac_qindex: u8,
    pub luma_dc_qindex_delta: i8,
    pub chroma_ac_qindex_delta: i8,
    pub chroma_dc_qindex_delta: i8,
    pub filter_level: u8,
    pub sharpness_level: u8,
    pub ref_lf_delta: [i8; 4],
    pub mode_lf_delta: [i8; 2],
    pub bit_offset_ref_lf_delta: u16,
    pub bit_offset_mode_lf_delta: u16,
    pub bit_offset_lf_level: u16,
    pub bit_offset_qindex: u16,
    pub bit_offset_first_partition_size: u16,
    pub bit_offset_segmentation: u16,
    pub bit_size_segmentation: u16,
    pub log2_tile_rows: u8,
    pub log2_tile_columns: u8,
    pub skip_frame_flag: u8,
    pub number_skip_frames: u8,
    pub skip_frames_size: u32,
}

impl EncPictureParameterBufferVP9 {
    /// Makes the record from its fields, in their order.
    pub fn new(
        frame_width_src: u32,
        frame_height_src: u32,
        frame_width_dst: u32,
        frame_height_dst: u32,
        reconstructed_frame: VASurfaceID,
        reference_frames: [VASurfaceID; 8],
        coded_buf: VABufferID,
        ref_flags: &VP9EncRefFlags,
        pic_flags: &VP9EncPicFlags,
        refresh_frame_flags: u8,
        luma_ac_qindex: u8,
        luma_dc_qindex_delta: i8,
        chroma_ac_qindex_delta: i8,
        chroma_dc_qindex_delta: i8,
        filter_level: u8,
        sharpness_level: u8,
        ref_lf_delta: [i8; 4],
        mode_lf_delta: [i8; 2],
        bit_offset_ref_lf_delta: u16,
        bit_offset_mode_lf_delta: u16,
        bit_offset_lf_level: u16,
        bit_offset_qindex: u16,
        bit_offset_first_partition_size: u16,
        bit_offset_segmentation: u16,
        bit_size_segmentation: u16,
        log2_tile_rows: u8,
        log2_tile_columns: u8,
        skip_frame_flag: u8,
        number_skip_frames: u8,
        skip_frames_size: u32,
    ) -> (fields: Self)
        ensures
            fields == (EncPictureParameterBufferVP9 {
                frame_width_src,
                frame_height_src,
                frame_width_dst,
                frame_height_dst,
                reconstructed_frame,
                reference_frames,
                coded_buf,
                ref_flags: *ref_flags,
                pic_flags: *pic_flags,
                refresh_frame_flags,
                luma_ac_qindex,
                luma_dc_qindex_delta,
                chroma_ac_qindex_delta,
                chroma_dc_qindex_delta,
                filter_level,
                sharpness_level,
                ref_lf_delta,
                mode_lf_delta,
                bit_offset_ref_lf_delta,
                bit_offset_mode_lf_delta,
                bit_offset_lf_level,
                bit_offset_qindex,
                bit_offset_first_partition_size,
                bit_offset_segmentation,
                bit_size_segmentation,
                log2_tile_rows,
                log2_tile_columns,
                skip_frame_flag,
                number_skip_frames,
                skip_frames_size,
            }),
    {
        EncPictureParameterBufferVP9 {
            frame_width_src,
            frame_height_src,
            frame_width_dst,
            frame_height_dst,
            reconstructed_frame,
            reference_frames,
            coded_buf,
            ref_flags: *ref_flags,
            pic_flags: *pic_flags,
            refresh_frame_flags,
            luma_ac_qindex,
            luma_dc_qindex_delta,
            chroma_ac_qindex_delta,
            chroma_dc_qindex_delta,
            filter_level,
            sharpness_level,
            ref_lf_delta,
            mode_lf_delta,
            bit_offset_ref_lf_delta,
            bit_offset_mode_lf_delta,
            bit_offset_lf_level,
            bit_offset_qindex,
            bit_offset_first_partition_size,
            bit_offset_segmentation,
            bit_size_segmentation,
            log2_tile_rows,
            log2_tile_columns,
            skip_frame_flag,
            number_skip_frames,
            skip_frames_size,
        }
    }
}

} // verus!
