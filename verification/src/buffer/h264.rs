//! Parameter records of H.264 decoding and encoding.

use vstd::prelude::*;
use crate::bindings::VABufferID;
use crate::bindings::VASurfaceID;

verus! {

/// The `VAPictureH264` record of the driver.
#[derive(Clone, Copy, Debug, PartialEq, Eq)]
pub struct PictureH264 {
    pub picture_id: VASurfaceID,
    pub frame_idx: u32,
    pub flags: u32,
    pub top_field_order_cnt: i32,
    pub bottom_field_order_cnt: i32,
}

impl PictureH264 {
    /// Makes the record from its fields, in their order.
    pub fn new(
        picture_id: VASurfaceID,
        frame_idx: u32,
        flags: u32,
        top_field_order_cnt: i32,
        bottom_field_order_cnt: i32,
    ) -> (fields: Self)
        ensures
            fields == (PictureH264 {
                picture_id,
                frame_idx,
                flags,
                top_field_order_cnt,
                bottom_field_order_cnt,
            }),
    {
        PictureH264 {
            picture_id,
            frame_idx,
            flags,
            top_field_order_cnt,
            bottom_field_order_cnt,
        }
    }
}

/// The `seq_fields` flags of `VAPictureParameterBufferH264`.
#[derive(Clone, Copy, Debug, PartialEq, Eq)]
pub struct H264SeqFields {
    pub chroma_format_idc: u32,
    pub residual_colour_transform_flag: u32,
    pub gaps_in_frame_num_value_allowed_flag: u32,
    pub frame_mbs_only_flag: u32,
    pub mb_adaptive_frame_field_flag: u32,
    pub direct_8x8_inference_flag: u32,
    pub min_luma_bi_pred_size8x8: u32,
    pub log2_max_frame_num_minus4: u32,
    pub pic_order_cnt_type: u32,
    pub log2_max_pic_order_cnt_lsb_minus4: u32,
    pub delta_pic_order_always_zero_flag: u32,
}

impl H264SeqFields {
    /// Makes the record from its fields, in their order.
    pub fn new(
        chroma_format_idc: u32,
        residual_colour_transform_flag: u32,
        gaps_in_frame_num_value_allowed_flag: u32,
        frame_mbs_only_flag: u32,
        mb_adaptive_frame_field_flag: u32,
        direct_8x8_inference_flag: u32,
        min_luma_bi_pred_size8x8: u32,
        log2_max_frame_num_minus4: u32,
        pic_order_cnt_type: u32,
        log2_max_pic_order_cnt_lsb_minus4: u32,
        delta_pic_order_always_zero_flag: u32,
    ) -> (fields: Self)
        ensures
            fields == (H264SeqFields {
                chroma_format_idc,
                residual_colour_transform_flag,
                gaps_in_frame_num_value_allowed_flag,
                frame_mbs_only_flag,
                mb_adaptive_frame_field_flag,
                direct_8x8_inference_flag,
                min_luma_bi_pred_size8x8,
                log2_max_frame_num_minus4,
                pic_order_cnt_type,
                log2_max_pic_order_cnt_lsb_minus4,
                delta_pic_order_always_zero_flag,
            }),
    {
        H264SeqFields {
            chroma_format_idc,
            residual_colour_transform_flag,
            gaps_in_frame_num_value_allowed_flag,
            frame_mbs_only_flag,
            mb_adaptive_frame_field_flag,
            direct_8x8_inference_flag,
            min_luma_bi_pred_size8x8,
            log2_max_frame_num_minus4,
            pic_order_cnt_type,
            log2_max_pic_order_cnt_lsb_minus4,
            delta_pic_order_always_zero_flag,
        }
    }

    /// Returns the record as the driver is handed it.
    pub fn inner(&self) -> (inner: &Self)
        ensures
            inner == self,
    {
        self
    }
}

/// The `pic_fields` flags of `VAPictureParameterBufferH264`.
#[derive(Clone, Copy, Debug, PartialEq, Eq)]
pub struct H264PicFields {
    pub entropy_coding_mode_flag: u32,
    pub weighted_pred_flag: u32,
    pub weighted_bipred_idc: u32,
    pub transform_8x8_mode_flag: u32,
    pub field_pic_flag: u32,
    pub constrained_intra_pred_flag: u32,
    pub pic_order_present_flag: u32,
    pub deblocking_filter_control_present_flag: u32,
    pub redundant_pic_cnt_present_flag: u32,
    pub reference_pic_flag: u32,
}

impl H264PicFields {
    /// Makes the record from its fields, in their order.
    pub fn new(
        entropy_coding_mode_flag: u32,
        weighted_pred_flag: u32,
        weighted_bipred_idc: u32,
        transform_8x8_mode_flag: u32,
        field_pic_flag: u32,
        constrained_intra_pred_flag: u32,
        pic_order_present_flag: u32,
        deblocking_filter_control_present_flag: u32,
        redundant_pic_cnt_present_flag: u32,
        reference_pic_flag: u32,
    ) -> (fields: Self)
        ensures
            fields == (H264PicFields {
                entropy_coding_mode_flag,
                weighted_pred_flag,
                weighted_bipred_idc,
                transform_8x8_mode_flag,
                field_pic_flag,
                constrained_intra_pred_flag,
                pic_order_present_flag,
                deblocking_filter_control_present_flag,
                redundant_pic_cnt_present_flag,
                reference_pic_flag,
            }),
    {
        H264PicFields {
            entropy_coding_mode_flag,
            weighted_pred_flag,
            weighted_bipred_idc,
            transform_8x8_mode_flag,
            field_pic_flag,
            constrained_intra_pred_flag,
            pic_order_present_flag,
            deblocking_filter_control_present_flag,
            redundant_pic_cnt_present_flag,
            reference_pic_flag,
        }
    }

    /// Returns the record as the driver is handed it.
    pub fn inner(&self) -> (inner: &Self)
        ensures
            inner == self,
    {
        self
    }
}

/// The `VAPictureParameterBufferH264` record of the driver.
#[derive(Clone, Copy, Debug, PartialEq, Eq)]
pub struct PictureParameterBufferH264 {
    pub curr_pic: PictureH264,
    pub reference_frames: [PictureH264; 16],
    pub picture_width_in_mbs_minus1: u16,
    pub picture_height_in_mbs_minus1: u16,
    pub bit_depth_luma_minus8: u8,
    pub bit_depth_chroma_minus8: u8,
    pub num_ref_frames: u8,
    pub seq_fields: H264SeqFields,
    pub num_slice_groups_minus1: u8,
    pub slice_group_map_type: u8,
    pub slice_group_change_rate_minus1: u16,
    pub pic_init_qp_minus26: i8,
    pub pic_init_qs_minus26: i8,
    pub chroma_qp_index_offset: i8,
    pub second_chroma_qp_index_offset: i8,
    pub pic_fields: H264PicFields,
    pub frame_num: u16,
}

impl PictureParameterBufferH264 {
    /// Makes the record from its fields, in their order.
    pub fn new(
        curr_pic: PictureH264,
        reference_frames: [PictureH264; 16],
        picture_width_in_mbs_minus1: u16,
        picture_height_in_mbs_minus1: u16,
        bit_depth_luma_minus8: u8,
        bit_depth_chroma_minus8: u8,
        num_ref_frames: u8,
        seq_fields: &H264SeqFields,
        num_slice_groups_minus1: u8,
        slice_group_map_type: u8,
        slice_group_change_rate_minus1: u16,
        pic_init_qp_minus26: i8,
        pic_init_qs_minus26: i8,
        chroma_qp_index_offset: i8,
        second_chroma_qp_index_offset: i8,
        pic_fields: &H264PicFields,
        frame_num: u16,
    ) -> (fields: Self)
        ensures
            fields == (PictureParameterBufferH264 {
                curr_pic,
                reference_frames,
                picture_width_in_mbs_minus1,
                picture_height_in_mbs_minus1,
                bit_depth_luma_minus8,
                bit_depth_chroma_minus8,
                num_ref_frames,
                seq_fields: *seq_fields,
                num_slice_groups_minus1,
                slice_group_map_type,
                slice_group_change_rate_minus1,
                pic_init_qp_minus26,
                pic_init_qs_minus26,
                chroma_qp_index_offset,
                second_chroma_qp_index_offset,
                pic_fields: *pic_fields,
                frame_num,
            }),
    {
        PictureParameterBufferH264 {
            curr_pic,
            reference_frames,
            picture_width_in_mbs_minus1,
            picture_height_in_mbs_minus1,
            bit_depth_luma_minus8,
            bit_depth_chroma_minus8,
            num_ref_frames,
            seq_fields: *seq_fields,
            num_slice_groups_minus1,
            slice_group_map_type,
            slice_group_change_rate_minus1,
            pic_init_qp_minus26,
            pic_init_qs_minus26,
            chroma_qp_index_offset,
            second_chroma_qp_index_offset,
            pic_fields: *pic_fields,
            frame_num,
        }
    }

    /// Returns the record as the driver is handed it.
    pub fn inner(&self) -> (inner: &Self)
        ensures
            inner == self,
    {
        self
    }
}

/// The `VASliceParameterBufferH264` record of the driver.
#[derive(Clone, Copy, Debug, PartialEq, Eq)]
pub struct SliceParameterBufferH264 {
    pub slice_data_size: u32,
    pub slice_data_offset: u32,
    pub slice_data_flag: u32,
    pub slice_data_bit_offset: u16,
    pub first_mb_in_slice: u16,
    pub slice_type: u8,
    pub direct_spatial_mv_pred_flag: u8,
    pub num_ref_idx_l0_active_minus1: u8,
    pub num_ref_idx_l1_active_minus1: u8,
    pub cabac_init_idc: u8,
    pub slice_qp_delta: i8,
    pub disable_deblocking_filter_idc: u8,
    pub slice_alpha_c0_offset_div2: i8,
    pub slice_beta_offset_div2: i8,
    pub ref_pic_list_0: [PictureH264; 32],
    pub ref_pic_list_1: [PictureH264; 32],
    pub luma_log2_weight_denom: u8,
    pub chroma_log2_weight_denom: u8,
    pub luma_weight_l0_flag: u8,
    pub luma_weight_l0: [i16; 32],
    pub luma_offset_l0: [i16; 32],
    pub chroma_weight_l0_flag: u8,
    pub chroma_weight_l0: [[i16; 2]; 32],
    pub chroma_offset_l0: [[i16; 2]; 32],
    pub luma_weight_l1_flag: u8,
    pub luma_weight_l1: [i16; 32],
    pub luma_offset_l1: [i16; 32],
    pub chroma_weight_l1_flag: u8,
    pub chroma_weight_l1: [[i16; 2]; 32],
    pub chroma_offset_l1: [[i16; 2]; 32],
}

impl SliceParameterBufferH264 {
    /// Makes the record from its fields, in their order.
    pub fn new(
        slice_data_size: u32,
        slice_data_offset: u32,
        slice_data_flag: u32,
        slice_data_bit_offset: u16,
        first_mb_in_slice: u16,
        slice_type: u8,
        direct_spatial_mv_pred_flag: u8,
        num_ref_idx_l0_active_minus1: u8,
        num_ref_idx_l1_active_minus1: u8,
        cabac_init_idc: u8,
        slice_qp_delta: i8,
        disable_deblocking_filter_idc: u8,
        slice_alpha_c0_offset_div2: i8,
        slice_beta_offset_div2: i8,
        ref_pic_list_0: [PictureH264; 32],
        ref_pic_list_1: [PictureH264; 32],
        luma_log2_weight_denom: u8,
        chroma_log2_weight_denom: u8,
        luma_weight_l0_flag: u8,
        luma_weight_l0: [i16; 32],
        luma_offset_l0: [i16; 32],
        chroma_weight_l0_flag: u8,
        chroma_weight_l0: [[i16; 2]; 32],
        chroma_offset_l0: [[i16; 2]; 32],
        luma_weight_l1_flag: u8,
        luma_weight_l1: [i16; 32],
        luma_offset_l1: [i16; 32],
        chroma_weight_l1_flag: u8,
        chroma_weight_l1: [[i16; 2]; 32],
        chroma_offset_l1: [[i16; 2]; 32],
    ) -> (fields: Self)
        ensures
            fields == (SliceParameterBufferH264 {
                slice_data_size,
                slice_data_offset,
                slice_data_flag,
                slice_data_bit_offset,
                first_mb_in_slice,
                slice_type,
                direct_spatial_mv_pred_flag,
                num_ref_idx_l0_active_minus1,
                num_ref_idx_l1_active_minus1,
                cabac_init_idc,
                slice_qp_delta,
                disable_deblocking_filter_idc,
                slice_alpha_c0_offset_div2,
                slice_beta_offset_div2,
                ref_pic_list_0,
                ref_pic_list_1,
                luma_log2_weight_denom,
                chroma_log2_weight_denom,
                luma_weight_l0_flag,
                luma_weight_l0,
                luma_offset_l0,
                chroma_weight_l0_flag,
                chroma_weight_l0,
                chroma_offset_l0,
                luma_weight_l1_flag,
                luma_weight_l1,
                luma_offset_l1,
                chroma_weight_l1_flag,
                chroma_weight_l1,
                chroma_offset_l1,
            }),
    {
        SliceParameterBufferH264 {
            slice_data_size,
            slice_data_offset,
            slice_data_flag,
            slice_data_bit_offset,
            first_mb_in_slice,
            slice_type,
            direct_spatial_mv_pred_flag,
            num_ref_idx_l0_active_minus1,
            num_ref_idx_l1_active_minus1,
            cabac_init_idc,
            slice_qp_delta,
            disable_deblocking_filter_idc,
            slice_alpha_c0_offset_div2,
            slice_beta_offset_div2,
            ref_pic_list_0,
            ref_pic_list_1,
            luma_log2_weight_denom,
            chroma_log2_weight_denom,
            luma_weight_l0_flag,
            luma_weight_l0,
            luma_offset_l0,
            chroma_weight_l0_flag,
            chroma_weight_l0,
            chroma_offset_l0,
            luma_weight_l1_flag,
            luma_weight_l1,
            luma_offset_l1,
            chroma_weight_l1_flag,
            chroma_weight_l1,
            chroma_offset_l1,
        }
    }

    /// Returns the record as the driver is handed it.
    pub fn inner(&self) -> (inner: &Self)
        ensures
            inner == self,
    {
        self
    }
}

/// The `VAIQMatrixBufferH264` record of the driver.
#[derive(Clone, Copy, Debug, PartialEq, Eq)]
pub struct IQMatrixBufferH264 {
    pub scaling_list4x4: [[u8; 16]; 6],
    pub scaling_list8x8: [[u8; 64]; 2],
}

impl IQMatrixBufferH264 {
    /// Makes the record from its fields, in their order.
    pub fn new(
        scaling_list4x4: [[u8; 16]; 6],
        scaling_list8x8: [[u8; 64]; 2],
    ) -> (fields: Self)
        ensures
            fields == (IQMatrixBufferH264 {
                scaling_list4x4,
                scaling_list8x8,
            }),
    {
        IQMatrixBufferH264 {
            scaling_list4x4,
            scaling_list8x8,
        }
    }

    /// Returns the record as the driver is handed it.
    pub fn inner(&self) -> (inner: &Self)
        ensures
            inner == self,
    {
        self
    }
}

/// The `seq_fields` flags of `VAEncSequenceParameterBufferH264`.
#[derive(Clone, Copy, Debug, PartialEq, Eq)]
pub struct H264EncSeqFields {
    pub chroma_format_idc: u32,
    pub frame_mbs_only_flag: u32,
    pub mb_adaptive_frame_field_flag: u32,
    pub seq_scaling_matrix_present_flag: u32,
    pub direct_8x8_inference_flag: u32,
    pub log2_max_frame_num_minus4: u32,
    pub pic_order_cnt_type: u32,
    pub log2_max_pic_order_cnt_lsb_minus4: u32,
    pub delta_pic_order_always_zero_flag: u32,
}

impl H264EncSeqFields {
    /// Makes the record from its fields, in their order.
    pub fn new(
        chroma_format_idc: u32,
        frame_mbs_only_flag: u32,
        mb_adaptive_frame_field_flag: u32,
        seq_scaling_matrix_present_flag: u32,
        direct_8x8_inference_flag: u32,
        log2_max_frame_num_minus4: u32,
        pic_order_cnt_type: u32,
        log2_max_pic_order_cnt_lsb_minus4: u32,
        delta_pic_order_always_zero_flag: u32,
    ) -> (fields: Self)
        ensures
            fields == (H264EncSeqFields {
                chroma_format_idc,
                frame_mbs_only_flag,
                mb_adaptive_frame_field_flag,
                seq_scaling_matrix_present_flag,
                direct_8x8_inference_flag,
                log2_max_frame_num_minus4,
                pic_order_cnt_type,
                log2_max_pic_order_cnt_lsb_minus4,
                delta_pic_order_always_zero_flag,
            }),
    {
        H264EncSeqFields {
            chroma_format_idc,
            frame_mbs_only_flag,
            mb_adaptive_frame_field_flag,
            seq_scaling_matrix_present_flag,
            direct_8x8_inference_flag,
            log2_max_frame_num_minus4,
            pic_order_cnt_type,
            log2_max_pic_order_cnt_lsb_minus4,
            delta_pic_order_always_zero_flag,
        }
    }

    /// Returns the record as the driver is handed it.
    pub fn inner(&self) -> (inner: &Self)
        ensures
            inner == self,
    {
        self
    }
}

/// The `vui_fields` flags of `VAEncSequenceParameterBufferH264`.
#[derive(Clone, Copy, Debug, PartialEq, Eq, Default)]
pub struct H264VuiFields {
    pub aspect_ratio_info_present_flag: u32,
    pub timing_info_present_flag: u32,
    pub bitstream_restriction_flag: u32,
    pub log2_max_mv_length_horizontal: u32,
    pub log2_max_mv_length_vertical: u32,
    pub fixed_frame_rate_flag: u32,
    pub low_delay_hrd_flag: u32,
    pub motion_vectors_over_pic_boundaries_flag: u32,
}

impl H264VuiFields {
    /// Makes the record from its fields, in their order.
    pub fn new(
        aspect_ratio_info_present_flag: u32,
        timing_info_present_flag: u32,
        bitstream_restriction_flag: u32,
        log2_max_mv_length_horizontal: u32,
        log2_max_mv_length_vertical: u32,
        fixed_frame_rate_flag: u32,
        low_delay_hrd_flag: u32,
        motion_vectors_over_pic_boundaries_flag: u32,
    ) -> (fields: Self)
        ensures
            fields == (H264VuiFields {
                aspect_ratio_info_present_flag,
                timing_info_present_flag,
                bitstream_restriction_flag,
                log2_max_mv_length_horizontal,
                log2_max_mv_length_vertical,
                fixed_frame_rate_flag,
                low_delay_hrd_flag,
                motion_vectors_over_pic_boundaries_flag,
            }),
    {
        H264VuiFields {
            aspect_ratio_info_present_flag,
            timing_info_present_flag,
            bitstream_restriction_flag,
            log2_max_mv_length_horizontal,
            log2_max_mv_length_vertical,
            fixed_frame_rate_flag,
            low_delay_hrd_flag,
            motion_vectors_over_pic_boundaries_flag,
        }
    }
}

/// The frame cropping offsets of an encoded sequence.
#[derive(Clone, Copy, Debug, PartialEq, Eq, Default)]
pub struct H264EncFrameCropOffsets {
    pub left: u32,
    pub right: u32,
    pub top: u32,
    pub bottom: u32,
}

impl H264EncFrameCropOffsets {
    /// Makes the record from its fields, in their order.
    pub fn new(
        frame_crop_left_offset: u32,
        frame_crop_right_offset: u32,
        frame_crop_top_offset: u32,
        frame_crop_bottom_offset: u32,
    ) -> (offsets: Self)
        ensures
            offsets == (H264EncFrameCropOffsets {
                left: frame_crop_left_offset,
                right: frame_crop_right_offset,
                top: frame_crop_top_offset,
                bottom: frame_crop_bottom_offset,
            }),
    {
        H264EncFrameCropOffsets {
            left: frame_crop_left_offset,
            right: frame_crop_right_offset,
            top: frame_crop_top_offset,
            bottom: frame_crop_bottom_offset,
        }
    }

    /// The offsets that stand for no cropping.
    pub open spec fn zero() -> Self {
        H264EncFrameCropOffsets { left: 0, right: 0, top: 0, bottom: 0 }
    }
}

impl H264VuiFields {
    /// The flags that stand for no usability information.
    pub open spec fn zero() -> Self {
        H264VuiFields {
            aspect_ratio_info_present_flag: 0,
            timing_info_present_flag: 0,
            bitstream_restriction_flag: 0,
            log2_max_mv_length_horizontal: 0,
            log2_max_mv_length_vertical: 0,
            fixed_frame_rate_flag: 0,
            low_delay_hrd_flag: 0,
            motion_vectors_over_pic_boundaries_flag: 0,
        }
    }
}

/// The `VAEncSequenceParameterBufferH264` record of the driver.
#[derive(Clone, Copy, Debug, PartialEq, Eq)]
pub struct EncSequenceParameterBufferH264 {
    pub seq_parameter_set_id: u8,
    pub level_idc: u8,
    pub intra_period: u32,
    pub intra_idr_period: u32,
    pub ip_period: u32,
    pub bits_per_second: u32,
    pub max_num_ref_frames: u32,
    pub picture_width_in_mbs: u16,
    pub picture_height_in_mbs: u16,
    pub seq_fields: H264EncSeqFields,
    pub bit_depth_luma_minus8: u8,
    pub bit_depth_chroma_minus8: u8,
    pub num_ref_frames_in_pic_order_cnt_cycle: u8,
    pub offset_for_non_ref_pic: i32,
    pub offset_for_top_to_bottom_field: i32,
    pub offset_for_ref_frame: [i32; 256],
    pub frame_cropping_flag: u8,
    pub frame_crop_left_offset: u32,
    pub frame_crop_right_offset: u32,
    pub frame_crop_top_offset: u32,
    pub frame_crop_bottom_offset: u32,
    pub vui_parameters_present_flag: u8,
    pub vui_fields: H264VuiFields,
    pub aspect_ratio_idc: u8,
    pub sar_width: u32,
    pub sar_height: u32,
    pub num_units_in_tick: u32,
    pub time_scale: u32,
}

impl EncSequenceParameterBufferH264 {
    /// Makes the record. The cropping flag is set exactly when `frame_crop`
    /// is given, and the offsets are those of `frame_crop`, or zero without
    /// it; likewise the usability flag and `vui_fields`.
    pub fn new(
        seq_parameter_set_id: u8,
        level_idc: u8,
        intra_period: u32,
        intra_idr_period: u32,
        ip_period: u32,
        bits_per_second: u32,
        max_num_ref_frames: u32,
        picture_width_in_mbs: u16,
        picture_height_in_mbs: u16,
        seq_fields: &H264EncSeqFields,
        bit_depth_luma_minus8: u8,
        bit_depth_chroma_minus8: u8,
        num_ref_frames_in_pic_order_cnt_cycle: u8,
        offset_for_non_ref_pic: i32,
        offset_for_top_to_bottom_field: i32,
        offset_for_ref_frame: [i32; 256],
        frame_crop: Option<H264EncFrameCropOffsets>,
        vui_fields: Option<H264VuiFields>,
        aspect_ratio_idc: u8,
        sar_width: u32,
        sar_height: u32,
        num_units_in_tick: u32,
        time_scale: u32,
    ) -> (fields: Self)
        ensures
            fields == (EncSequenceParameterBufferH264 {
                seq_parameter_set_id,
                level_idc,
                intra_period,
                intra_idr_period,
                ip_period,
                bits_per_second,
                max_num_ref_frames,
                picture_width_in_mbs,
                picture_height_in_mbs,
                seq_fields: *seq_fields,
                bit_depth_luma_minus8,
                bit_depth_chroma_minus8,
                num_ref_frames_in_pic_order_cnt_cycle,
                offset_for_non_ref_pic,
                offset_for_top_to_bottom_field,
                offset_for_ref_frame,
                frame_cropping_flag: if frame_crop is Some {
                    1u8
                } else {
                    0u8
                },
                frame_crop_left_offset: frame_crop.unwrap_or(H264EncFrameCropOffsets::zero()).left,
                frame_crop_right_offset: frame_crop.unwrap_or(H264EncFrameCropOffsets::zero()).right,
                frame_crop_top_offset: frame_crop.unwrap_or(H264EncFrameCropOffsets::zero()).top,
                frame_crop_bottom_offset: frame_crop.unwrap_or(
                    H264EncFrameCropOffsets::zero(),
                ).bottom,
                vui_parameters_present_flag: if vui_fields is Some {
                    1u8
                } else {
                    0u8
                },
                vui_fields: vui_fields.unwrap_or(H264VuiFields::zero()),
                aspect_ratio_idc,
                sar_width,
                sar_height,
                num_units_in_tick,
                time_scale,
            }),
    {
        let (frame_cropping_flag, crop): (u8, H264EncFrameCropOffsets) = match frame_crop {
            Some(crop) => (1, crop),
            None => (0, H264EncFrameCropOffsets { left: 0, right: 0, top: 0, bottom: 0 }),
        };
        let (vui_parameters_present_flag, vui): (u8, H264VuiFields) = match vui_fields {
            Some(vui) => (1, vui),
            None => (0, H264VuiFields::new(0, 0, 0, 0, 0, 0, 0, 0)),
        };
        EncSequenceParameterBufferH264 {
            seq_parameter_set_id,
            level_idc,
            intra_period,
            intra_idr_period,
            ip_period,
            bits_per_second,
            max_num_ref_frames,
            picture_width_in_mbs,
            picture_height_in_mbs,
            seq_fields: *seq_fields,
            bit_depth_luma_minus8,
            bit_depth_chroma_minus8,
            num_ref_frames_in_pic_order_cnt_cycle,
            offset_for_non_ref_pic,
            offset_for_top_to_bottom_field,
            offset_for_ref_frame,
            frame_cropping_flag,
            frame_crop_left_offset: crop.left,
            frame_crop_right_offset: crop.right,
            frame_crop_top_offset: crop.top,
            frame_crop_bottom_offset: crop.bottom,
            vui_parameters_present_flag,
            vui_fields: vui,
            aspect_ratio_idc,
            sar_width,
            sar_height,
            num_units_in_tick,
            time_scale,
        }
    }
}

/// The `pic_fields` flags of `VAEncPictureParameterBufferH264`.
#[derive(Clone, Copy, Debug, PartialEq, Eq)]
pub struct H264EncPicFields {
    pub idr_pic_flag: u32,
    pub reference_pic_flag: u32,
    pub entropy_coding_mode_flag: u32,
    pub weighted_pred_flag: u32,
    pub weighted_bipred_idc: u32,
    pub constrained_intra_pred_flag: u32,
    pub transform_8x8_mode_flag: u32,
    pub deblocking_filter_control_present_flag: u32,
    pub redundant_pic_cnt_present_flag: u32,
    pub pic_order_present_flag: u32,
    pub pic_scaling_matrix_present_flag: u32,
}

impl H264EncPicFields {
    /// Makes the record from its fields, in their order.
    pub fn new(
        idr_pic_flag: u32,
        reference_pic_flag: u32,
        entropy_coding_mode_flag: u32,
        weighted_pred_flag: u32,
        weighted_bipred_idc: u32,
        constrained_intra_pred_flag: u32,
        transform_8x8_mode_flag: u32,
        deblocking_filter_control_present_flag: u32,
        redundant_pic_cnt_present_flag: u32,
        pic_order_present_flag: u32,
        pic_scaling_matrix_present_flag: u32,
    ) -> (fields: Self)
        ensures
            fields == (H264EncPicFields {
                idr_pic_flag,
                reference_pic_flag,
                entropy_coding_mode_flag,
                weighted_pred_flag,
                weighted_bipred_idc,
                constrained_intra_pred_flag,
                transform_8x8_mode_flag,
                deblocking_filter_control_present_flag,
                redundant_pic_cnt_present_flag,
                pic_order_present_flag,
                pic_scaling_matrix_present_flag,
            }),
    {
        H264EncPicFields {
            idr_pic_flag,
            reference_pic_flag,
            entropy_coding_mode_flag,
            weighted_pred_flag,
            weighted_bipred_idc,
            constrained_intra_pred_flag,
            transform_8x8_mode_flag,
            deblocking_filter_control_present_flag,
            redundant_pic_cnt_present_flag,
            pic_order_present_flag,
            pic_scaling_matrix_present_flag,
        }
    }
}

/// The `VAEncPictureParameterBufferH264` record of the driver.
#[derive(Clone, Copy, Debug, PartialEq, Eq)]
pub struct EncPictureParameterBufferH264 {
    pub curr_pic: PictureH264,
    pub reference_frames: [PictureH264; 16],
    pub coded_buf: VABufferID,
    pub pic_parameter_set_id: u8,
    pub seq_parameter_set_id: u8,
    pub last_picture: u8,
    pub frame_num: u16,
    pub pic_init_qp: u8,
    pub num_ref_idx_l0_active_minus1: u8,
    pub num_ref_idx_l1_active_minus1: u8,
    pub chroma_qp_index_offset: i8,
    pub second_chroma_qp_index_offset: i8,
    pub pic_fields: H264EncPicFields,
}

impl EncPictureParameterBufferH264 {
    /// Makes the record from its fields, in their order.
    pub fn new(
        curr_pic: PictureH264,
        reference_frames: [PictureH264; 16],
        coded_buf: VABufferID,
        pic_parameter_set_id: u8,
        seq_parameter_set_id: u8,
        last_picture: u8,
        frame_num: u16,
        pic_init_qp: u8,
        num_ref_idx_l0_active_minus1: u8,
        num_ref_idx_l1_active_minus1: u8,
        chroma_qp_index_offset: i8,
        second_chroma_qp_index_offset: i8,
        pic_fields: &H264EncPicFields,
    ) -> (fields: Self)
        ensures
            fields == (EncPictureParameterBufferH264 {
                curr_pic,
                reference_frames,
                coded_buf,
                pic_parameter_set_id,
                seq_parameter_set_id,
                last_picture,
                frame_num,
                pic_init_qp,
                num_ref_idx_l0_active_minus1,
                num_ref_idx_l1_active_minus1,
                chroma_qp_index_offset,
                second_chroma_qp_index_offset,
                pic_fields: *pic_fields,
            }),
    {
        EncPictureParameterBufferH264 {
            curr_pic,
            reference_frames,
            coded_buf,
            pic_parameter_set_id,
            seq_parameter_set_id,
            last_picture,
            frame_num,
            pic_init_qp,
            num_ref_idx_l0_active_minus1,
            num_ref_idx_l1_active_minus1,
            chroma_qp_index_offset,
            second_chroma_qp_index_offset,
            pic_fields: *pic_fields,
        }
    }
}

/// The `VAEncSliceParameterBufferH264` record of the driver.
#[derive(Clone, Copy, Debug, PartialEq, Eq)]
pub struct EncSliceParameterBufferH264 {
    pub macroblock_address: u32,
    pub num_macroblocks: u32,
    pub macroblock_info: VABufferID,
    pub slice_type: u8,
    pub pic_parameter_set_id: u8,
    pub idr_pic_id: u16,
    pub pic_order_cnt_lsb: u16,
    pub delta_pic_order_cnt_bottom: i32,
    pub delta_pic_order_cnt: [i32; 2],
    pub direct_spatial_mv_pred_flag: u8,
    pub num_ref_idx_active_override_flag: u8,
    pub num_ref_idx_l0_active_minus1: u8,
    pub num_ref_idx_l1_active_minus1: u8,
    pub ref_pic_list_0: [PictureH264; 32],
    pub ref_pic_list_1: [PictureH264; 32],
    pub luma_log2_weight_denom: u8,
    pub chroma_log2_weight_denom: u8,
    pub luma_weight_l0_flag: u8,
    pub luma_weight_l0: [i16; 32],
    pub luma_offset_l0: [i16; 32],
    pub chroma_weight_l0_flag: u8,
    pub chroma_weight_l0: [[i16; 2]; 32],
    pub chroma_offset_l0: [[i16; 2]; 32],
    pub luma_weight_l1_flag: u8,
    pub luma_weight_l1: [i16; 32],
    pub luma_offset_l1: [i16; 32],
    pub chroma_weight_l1_flag: u8,
    pub chroma_weight_l1: [[i16; 2]; 32],
    pub chroma_offset_l1: [[i16; 2]; 32],
    pub cabac_init_idc: u8,
    pub slice_qp_delta: i8,
    pub disable_deblocking_filter_idc: u8,
    pub slice_alpha_c0_offset_div2: i8,
    pub slice_beta_offset_div2: i8,
}

impl EncSliceParameterBufferH264 {
    /// Makes the record from its fields, in their order.
    pub fn new(
        macroblock_address: u32,
        num_macroblocks: u32,
        macroblock_info: VABufferID,
        slice_type: u8,
        pic_parameter_set_id: u8,
        idr_pic_id: u16,
        pic_order_cnt_lsb: u16,
        delta_pic_order_cnt_bottom: i32,
        delta_pic_order_cnt: [i32; 2],
        direct_spatial_mv_pred_flag: u8,
        num_ref_idx_active_override_flag: u8,
        num_ref_idx_l0_active_minus1: u8,
        num_ref_idx_l1_active_minus1: u8,
        ref_pic_list_0: [PictureH264; 32],
        ref_pic_list_1: [PictureH264; 32],
        luma_log2_weight_denom: u8,
        chroma_log2_weight_denom: u8,
        luma_weight_l0_flag: u8,
        luma_weight_l0: [i16; 32],
        luma_offset_l0: [i16; 32],
        chroma_weight_l0_flag: u8,
        chroma_weight_l0: [[i16; 2]; 32],
        chroma_offset_l0: [[i16; 2]; 32],
        luma_weight_l1_flag: u8,
        luma_weight_l1: [i16; 32],
        luma_offset_l1: [i16; 32],
        chroma_weight_l1_flag: u8,
        chroma_weight_l1: [[i16; 2]; 32],
        chroma_offset_l1: [[i16; 2]; 32],
        cabac_init_idc: u8,
        slice_qp_delta: i8,
        disable_deblocking_filter_idc: u8,
        slice_alpha_c0_offset_div2: i8,
        slice_beta_offset_div2: i8,
    ) -> (fields: Self)
        ensures
            fields == (EncSliceParameterBufferH264 {
                macroblock_address,
                num_macroblocks,
                macroblock_info,
                slice_type,
                pic_parameter_set_id,
                idr_pic_id,
                pic_order_cnt_lsb,
                delta_pic_order_cnt_bottom,
                delta_pic_order_cnt,
                direct_spatial_mv_pred_flag,
                num_ref_idx_active_override_flag,
                num_ref_idx_l0_active_minus1,
                num_ref_idx_l1_active_minus1,
                ref_pic_list_0,
                ref_pic_list_1,
                luma_log2_weight_denom,
                chroma_log2_weight_denom,
                luma_weight_l0_flag,
                luma_weight_l0,
                luma_offset_l0,
                chroma_weight_l0_flag,
                chroma_weight_l0,
                chroma_offset_l0,
                luma_weight_l1_flag,
                luma_weight_l1,
                luma_offset_l1,
                chroma_weight_l1_flag,
                chroma_weight_l1,
                chroma_offset_l1,
                cabac_init_idc,
                slice_qp_delta,
                disable_deblocking_filter_idc,
                slice_alpha_c0_offset_div2,
                slice_beta_offset_div2,
            }),
    {
        EncSliceParameterBufferH264 {
            macroblock_address,
            num_macroblocks,
            macroblock_info,
            slice_type,
            pic_parameter_set_id,
            idr_pic_id,
            pic_order_cnt_lsb,
            delta_pic_order_cnt_bottom,
            delta_pic_order_cnt,
            direct_spatial_mv_pred_flag,
            num_ref_idx_active_override_flag,
            num_ref_idx_l0_active_minus1,
            num_ref_idx_l1_active_minus1,
            ref_pic_list_0,
            ref_pic_list_1,
            luma_log2_weight_denom,
            chroma_log2_weight_denom,
            luma_weight_l0_flag,
            luma_weight_l0,
            luma_offset_l0,
            chroma_weight_l0_flag,
            chroma_weight_l0,
            chroma_offset_l0,
            luma_weight_l1_flag,
            luma_weight_l1,
            luma_offset_l1,
            chroma_weight_l1_flag,
            chroma_weight_l1,
            chroma_offset_l1,
            cabac_init_idc,
            slice_qp_delta,
            disable_deblocking_filter_idc,
            slice_alpha_c0_offset_div2,
            slice_beta_offset_div2,
        }
    }

    /// Returns the record as the driver is handed it.
    pub fn inner(&self) -> (inner: &Self)
        ensures
            inner == self,
    {
        self
    }
}

/// The `info` field of `VAEncMacroblockParameterBufferH264`: the fields of an
/// intra macroblock, or those of an inter macroblock, of which there are
/// none.
#[derive(Clone, Copy, Debug, PartialEq, Eq)]
pub enum H264EncMacroblockInfo {
    Intra { pred_avail_override_flag: u32, pred_avail_flags: u32 },
    Inter,
}

impl H264EncMacroblockInfo {
    /// The fields of an intra macroblock.
    pub fn new_intra(pred_avail_override_flag: u32, pred_avail_flags: u32) -> (info: Self)
        ensures
            info == (H264EncMacroblockInfo::Intra { pred_avail_override_flag, pred_avail_flags }),
    {
        H264EncMacroblockInfo::Intra { pred_avail_override_flag, pred_avail_flags }
    }

    /// The fields of an inter macroblock.
    pub fn new_inter() -> (info: Self)
        ensures
            info == H264EncMacroblockInfo::Inter,
    {
        H264EncMacroblockInfo::Inter
    }
}

/// The `VAEncMacroblockParameterBufferH264` record of the driver.
#[derive(Clone, Copy, Debug, PartialEq, Eq)]
pub struct EncMacroblockParameterBufferH264 {
    pub qp: u8,
    pub info: H264EncMacroblockInfo,
}

impl EncMacroblockParameterBufferH264 {
    /// Makes the record from its fields, in their order.
    pub fn new(
        qp: u8,
        info: &H264EncMacroblockInfo,
    ) -> (fields: Self)
        ensures
            fields == (EncMacroblockParameterBufferH264 {
                qp,
                info: *info,
            }),
    {
        EncMacroblockParameterBufferH264 {
            qp,
            info: *info,
        }
    }

    /// Returns the record as the driver is handed it.
    pub fn inner(&self) -> (inner: &Self)
        ensures
            inner == self,
    {
        self
    }
}

} // verus!
