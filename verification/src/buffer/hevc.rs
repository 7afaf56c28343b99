//! Parameter records of HEVC decoding and encoding.

use vstd::prelude::*;
use crate::bindings::VABufferID;
use crate::bindings::VASurfaceID;

verus! {

/// The `VAPictureHEVC` record of the driver.
#[derive(Clone, Copy, Debug, PartialEq, Eq, Default)]
pub struct PictureHEVC {
    pub picture_id: VASurfaceID,
    pub pic_order_cnt: i32,
    pub flags: u32,
}

impl PictureHEVC {
    /// Makes the record from its fields, in their order.
    pub fn new(
        picture_id: VASurfaceID,
        pic_order_cnt: i32,
        flags: u32,
    ) -> (fields: Self)
        ensures
            fields == (PictureHEVC {
                picture_id,
                pic_order_cnt,
                flags,
            }),
    {
        PictureHEVC {
            picture_id,
            pic_order_cnt,
            flags,
        }
    }

    /// Returns the `picture_id` field.
    pub fn picture_id(&self) -> (value: u32)
        ensures
            value == self.picture_id,
    {
        self.picture_id
    }

    /// Returns the `pic_order_cnt` field.
    pub fn pic_order_cnt(&self) -> (value: i32)
        ensures
            value == self.pic_order_cnt,
    {
        self.pic_order_cnt
    }

    /// Returns the `flags` field.
    pub fn flags(&self) -> (value: u32)
        ensures
            value == self.flags,
    {
        self.flags
    }
}

/// The `pic_fields` flags of `VAPictureParameterBufferHEVC`.
#[derive(Clone, Copy, Debug, PartialEq, Eq)]
pub struct HevcPicFields {
    pub chroma_format_idc: u32,
    pub separate_colour_plane_flag: u32,
    pub pcm_enabled_flag: u32,
    pub scaling_list_enabled_flag: u32,
    pub transform_skip_enabled_flag: u32,
    pub amp_enabled_flag: u32,
    pub strong_intra_smoothing_enabled_flag: u32,
    pub sign_data_hiding_enabled_flag: u32,
    pub constrained_intra_pred_flag: u32,
    pub cu_qp_delta_enabled_flag: u32,
    pub weighted_pred_flag: u32,
    pub weighted_bipred_flag: u32,
    pub transquant_bypass_enabled_flag: u32,
    pub tiles_enabled_flag: u32,
    pub entropy_coding_sync_enabled_flag: u32,
    pub pps_loop_filter_across_slices_enabled_flag: u32,
    pub loop_filter_across_tiles_enabled_flag: u32,
    pub pcm_loop_filter_disabled_flag: u32,
    pub no_pic_reordering_flag: u32,
    pub no_bi_pred_flag: u32,
}

impl HevcPicFields {
    /// Makes the record from its fields, in their order.
    pub fn new(
        chroma_format_idc: u32,
        separate_colour_plane_flag: u32,
        pcm_enabled_flag: u32,
        scaling_list_enabled_flag: u32,
        transform_skip_enabled_flag: u32,
        amp_enabled_flag: u32,
        strong_intra_smoothing_enabled_flag: u32,
        sign_data_hiding_enabled_flag: u32,
        constrained_intra_pred_flag: u32,
        cu_qp_delta_enabled_flag: u32,
        weighted_pred_flag: u32,
        weighted_bipred_flag: u32,
        transquant_bypass_enabled_flag: u32,
        tiles_enabled_flag: u32,
        entropy_coding_sync_enabled_flag: u32,
        pps_loop_filter_across_slices_enabled_flag: u32,
        loop_filter_across_tiles_enabled_flag: u32,
        pcm_loop_filter_disabled_flag: u32,
        no_pic_reordering_flag: u32,
        no_bi_pred_flag: u32,
    ) -> (fields: Self)
        ensures
            fields == (HevcPicFields {
                chroma_format_idc,
                separate_colour_plane_flag,
                pcm_enabled_flag,
                scaling_list_enabled_flag,
                transform_skip_enabled_flag,
                amp_enabled_flag,
                strong_intra_smoothing_enabled_flag,
                sign_data_hiding_enabled_flag,
                constrained_intra_pred_flag,
                cu_qp_delta_enabled_flag,
                weighted_pred_flag,
                weighted_bipred_flag,
                transquant_bypass_enabled_flag,
                tiles_enabled_flag,
                entropy_coding_sync_enabled_flag,
                pps_loop_filter_across_slices_enabled_flag,
                loop_filter_across_tiles_enabled_flag,
                pcm_loop_filter_disabled_flag,
                no_pic_reordering_flag,
                no_bi_pred_flag,
            }),
    {
        HevcPicFields {
            chroma_format_idc,
            separate_colour_plane_flag,
            pcm_enabled_flag,
            scaling_list_enabled_flag,
            transform_skip_enabled_flag,
            amp_enabled_flag,
            strong_intra_smoothing_enabled_flag,
            sign_data_hiding_enabled_flag,
            constrained_intra_pred_flag,
            cu_qp_delta_enabled_flag,
            weighted_pred_flag,
            weighted_bipred_flag,
            transquant_bypass_enabled_flag,
            tiles_enabled_flag,
            entropy_coding_sync_enabled_flag,
            pps_loop_filter_across_slices_enabled_flag,
            loop_filter_across_tiles_enabled_flag,
            pcm_loop_filter_disabled_flag,
            no_pic_reordering_flag,
            no_bi_pred_flag,
        }
    }

    /// Returns the record as the driver is handed it.
    pub fn inner(&self) -> (inner: &Self)
        ensures
            inner == self,
    {
        self
    }
}

/// The `slice_parsing_fields` flags of `VAPictureParameterBufferHEVC`.
#[derive(Clone, Copy, Debug, PartialEq, Eq)]
pub struct HevcSliceParsingFields {
    pub lists_modification_present_flag: u32,
    pub long_term_ref_pics_present_flag: u32,
    pub sps_temporal_mvp_enabled_flag: u32,
    pub cabac_init_present_flag: u32,
    pub output_flag_present_flag: u32,
    pub dependent_slice_segments_enabled_flag: u32,
    pub pps_slice_chroma_qp_offsets_present_flag: u32,
    pub sample_adaptive_offset_enabled_flag: u32,
    pub deblocking_filter_override_enabled_flag: u32,
    pub pps_disable_deblocking_filter_flag: u32,
    pub slice_segment_header_extension_present_flag: u32,
    pub rap_pic_flag: u32,
    pub idr_pic_flag: u32,
    pub intra_pic_flag: u32,
}

impl HevcSliceParsingFields {
    /// Makes the record from its fields, in their order.
    pub fn new(
        lists_modification_present_flag: u32,
        long_term_ref_pics_present_flag: u32,
        sps_temporal_mvp_enabled_flag: u32,
        cabac_init_present_flag: u32,
        output_flag_present_flag: u32,
        dependent_slice_segments_enabled_flag: u32,
        pps_slice_chroma_qp_offsets_present_flag: u32,
        sample_adaptive_offset_enabled_flag: u32,
        deblocking_filter_override_enabled_flag: u32,
        pps_disable_deblocking_filter_flag: u32,
        slice_segment_header_extension_present_flag: u32,
        rap_pic_flag: u32,
        idr_pic_flag: u32,
        intra_pic_flag: u32,
    ) -> (fields: Self)
        ensures
            fields == (HevcSliceParsingFields {
                lists_modification_present_flag,
                long_term_ref_pics_present_flag,
                sps_temporal_mvp_enabled_flag,
                cabac_init_present_flag,
                output_flag_present_flag,
                dependent_slice_segments_enabled_flag,
                pps_slice_chroma_qp_offsets_present_flag,
                sample_adaptive_offset_enabled_flag,
                deblocking_filter_override_enabled_flag,
                pps_disable_deblocking_filter_flag,
                slice_segment_header_extension_present_flag,
                rap_pic_flag,
                idr_pic_flag,
                intra_pic_flag,
            }),
    {
        HevcSliceParsingFields {
            lists_modification_present_flag,
            long_term_ref_pics_present_flag,
            sps_temporal_mvp_enabled_flag,
            cabac_init_present_flag,
            output_flag_present_flag,
            dependent_slice_segments_enabled_flag,
            pps_slice_chroma_qp_offsets_present_flag,
            sample_adaptive_offset_enabled_flag,
            deblocking_filter_override_enabled_flag,
            pps_disable_deblocking_filter_flag,
            slice_segment_header_extension_present_flag,
            rap_pic_flag,
            idr_pic_flag,
            intra_pic_flag,
        }
    }

    /// Returns the record as the driver is handed it.
    pub fn inner(&self) -> (inner: &Self)
        ensures
            inner == self,
    {
        self
    }
}

/// The `VAPictureParameterBufferHEVC` record of the driver.
#[derive(Clone, Copy, Debug, PartialEq, Eq)]
pub struct PictureParameterBufferHEVC {
    pub curr_pic: PictureHEVC,
    pub reference_frames: [PictureHEVC; 15],
    pub pic_width_in_luma_samples: u16,
    pub pic_height_in_luma_samples: u16,
    pub pic_fields: HevcPicFields,
    pub sps_max_dec_pic_buffering_minus1: u8,
    pub bit_depth_luma_minus8: u8,
    pub bit_depth_chroma_minus8: u8,
    pub pcm_sample_bit_depth_luma_minus1: u8,
    pub pcm_sample_bit_depth_chroma_minus1: u8,
    pub log2_min_luma_coding_block_size_minus3: u8,
    pub log2_diff_max_min_luma_coding_block_size: u8,
    pub log2_min_transform_block_size_minus2: u8,
    pub log2_diff_max_min_transform_block_size: u8,
    pub log2_min_pcm_luma_coding_block_size_minus3: u8,
    pub log2_diff_max_min_pcm_luma_coding_block_size: u8,
    pub max_transform_hierarchy_depth_intra: u8,
    pub max_transform_hierarchy_depth_inter: u8,
    pub init_qp_minus26: i8,
    pub diff_cu_qp_delta_depth: u8,
    pub pps_cb_qp_offset: i8,
    pub pps_cr_qp_offset: i8,
    pub log2_parallel_merge_level_minus2: u8,
    pub num_tile_columns_minus1: u8,
    pub num_tile_rows_minus1: u8,
    pub column_width_minus1: [u16; 19],
    pub row_height_minus1: [u16; 21],
    pub slice_parsing_fields: HevcSliceParsingFields,
    pub log2_max_pic_order_cnt_lsb_minus4: u8,
    pub num_short_term_ref_pic_sets: u8,
    pub num_long_term_ref_pic_sps: u8,
    pub num_ref_idx_l0_default_active_minus1: u8,
    pub num_ref_idx_l1_default_active_minus1: u8,
    pub pps_beta_offset_div2: i8,
    pub pps_tc_offset_div2: i8,
    pub num_extra_slice_header_bits: u8,
    pub st_rps_bits: u32,
}

impl PictureParameterBufferHEVC {
    /// Makes the record from its fields, in their order.
    pub fn new(
        curr_pic: PictureHEVC,
        reference_frames: [PictureHEVC; 15],
        pic_width_in_luma_samples: u16,
        pic_height_in_luma_samples: u16,
        pic_fields: &HevcPicFields,
        sps_max_dec_pic_buffering_minus1: u8,
        bit_depth_luma_minus8: u8,
        bit_depth_chroma_minus8: u8,
        pcm_sample_bit_depth_luma_minus1: u8,
        pcm_sample_bit_depth_chroma_minus1: u8,
        log2_min_luma_coding_block_size_minus3: u8,
        log2_diff_max_min_luma_coding_block_size: u8,
        log2_min_transform_block_size_minus2: u8,
        log2_diff_max_min_transform_block_size: u8,
        log2_min_pcm_luma_coding_block_size_minus3: u8,
        log2_diff_max_min_pcm_luma_coding_block_size: u8,
        max_transform_hierarchy_depth_intra: u8,
        max_transform_hierarchy_depth_inter: u8,
        init_qp_minus26: i8,
        diff_cu_qp_delta_depth: u8,
        pps_cb_qp_offset: i8,
        pps_cr_qp_offset: i8,
        log2_parallel_merge_level_minus2: u8,
        num_tile_columns_minus1: u8,
        num_tile_rows_minus1: u8,
        column_width_minus1: [u16; 19],
        row_height_minus1: [u16; 21],
        slice_parsing_fields: &HevcSliceParsingFields,
        log2_max_pic_order_cnt_lsb_minus4: u8,
        num_short_term_ref_pic_sets: u8,
        num_long_term_ref_pic_sps: u8,
        num_ref_idx_l0_default_active_minus1: u8,
        num_ref_idx_l1_default_active_minus1: u8,
        pps_beta_offset_div2: i8,
        pps_tc_offset_div2: i8,
        num_extra_slice_header_bits: u8,
        st_rps_bits: u32,
    ) -> (fields: Self)
        ensures
            fields == (PictureParameterBufferHEVC {
                curr_pic,
                reference_frames,
                pic_width_in_luma_samples,
                pic_height_in_luma_samples,
                pic_fields: *pic_fields,
                sps_max_dec_pic_buffering_minus1,
                bit_depth_luma_minus8,
                bit_depth_chroma_minus8,
                pcm_sample_bit_depth_luma_minus1,
                pcm_sample_bit_depth_chroma_minus1,
                log2_min_luma_coding_block_size_minus3,
                log2_diff_max_min_luma_coding_block_size,
                log2_min_transform_block_size_minus2,
                log2_diff_max_min_transform_block_size,
                log2_min_pcm_luma_coding_block_size_minus3,
                log2_diff_max_min_pcm_luma_coding_block_size,
                max_transform_hierarchy_depth_intra,
                max_transform_hierarchy_depth_inter,
                init_qp_minus26,
                diff_cu_qp_delta_depth,
                pps_cb_qp_offset,
                pps_cr_qp_offset,
                log2_parallel_merge_level_minus2,
                num_tile_columns_minus1,
                num_tile_rows_minus1,
                column_width_minus1,
                row_height_minus1,
                slice_parsing_fields: *slice_parsing_fields,
                log2_max_pic_order_cnt_lsb_minus4,
                num_short_term_ref_pic_sets,
                num_long_term_ref_pic_sps,
                num_ref_idx_l0_default_active_minus1,
                num_ref_idx_l1_default_active_minus1,
                pps_beta_offset_div2,
                pps_tc_offset_div2,
                num_extra_slice_header_bits,
                st_rps_bits,
            }),
    {
        PictureParameterBufferHEVC {
            curr_pic,
            reference_frames,
            pic_width_in_luma_samples,
            pic_height_in_luma_samples,
            pic_fields: *pic_fields,
            sps_max_dec_pic_buffering_minus1,
            bit_depth_luma_minus8,
            bit_depth_chroma_minus8,
            pcm_sample_bit_depth_luma_minus1,
            pcm_sample_bit_depth_chroma_minus1,
            log2_min_luma_coding_block_size_minus3,
            log2_diff_max_min_luma_coding_block_size,
            log2_min_transform_block_size_minus2,
            log2_diff_max_min_transform_block_size,
            log2_min_pcm_luma_coding_block_size_minus3,
            log2_diff_max_min_pcm_luma_coding_block_size,
            max_transform_hierarchy_depth_intra,
            max_transform_hierarchy_depth_inter,
            init_qp_minus26,
            diff_cu_qp_delta_depth,
            pps_cb_qp_offset,
            pps_cr_qp_offset,
            log2_parallel_merge_level_minus2,
            num_tile_columns_minus1,
            num_tile_rows_minus1,
            column_width_minus1,
            row_height_minus1,
            slice_parsing_fields: *slice_parsing_fields,
            log2_max_pic_order_cnt_lsb_minus4,
            num_short_term_ref_pic_sets,
            num_long_term_ref_pic_sps,
            num_ref_idx_l0_default_active_minus1,
            num_ref_idx_l1_default_active_minus1,
            pps_beta_offset_div2,
            pps_tc_offset_div2,
            num_extra_slice_header_bits,
            st_rps_bits,
        }
    }

    /// Returns the record as the driver is handed it.
    pub fn inner(&self) -> (inner: &Self)
        ensures
            inner == self,
    {
        self
    }
}

/// The `range_extension_pic_fields` flags of `VAPictureParameterBufferHEVCRext`.
#[derive(Clone, Copy, Debug, PartialEq, Eq)]
pub struct HevcRangeExtensionPicFields {
    pub transform_skip_rotation_enabled_flag: u32,
    pub transform_skip_context_enabled_flag: u32,
    pub implicit_rdpcm_enabled_flag: u32,
    pub explicit_rdpcm_enabled_flag: u32,
    pub extended_precision_processing_flag: u32,
    pub intra_smoothing_disabled_flag: u32,
    pub high_precision_offsets_enabled_flag: u32,
    pub persistent_rice_adaptation_enabled_flag: u32,
    pub cabac_bypass_alignment_enabled_flag: u32,
    pub cross_component_prediction_enabled_flag: u32,
    pub chroma_qp_offset_list_enabled_flag: u32,
}

impl HevcRangeExtensionPicFields {
    /// Makes the record from its fields, in their order.
    pub fn new(
        transform_skip_rotation_enabled_flag: u32,
        transform_skip_context_enabled_flag: u32,
        implicit_rdpcm_enabled_flag: u32,
        explicit_rdpcm_enabled_flag: u32,
        extended_precision_processing_flag: u32,
        intra_smoothing_disabled_flag: u32,
        high_precision_offsets_enabled_flag: u32,
        persistent_rice_adaptation_enabled_flag: u32,
        cabac_bypass_alignment_enabled_flag: u32,
        cross_component_prediction_enabled_flag: u32,
        chroma_qp_offset_list_enabled_flag: u32,
    ) -> (fields: Self)
        ensures
            fields == (HevcRangeExtensionPicFields {
                transform_skip_rotation_enabled_flag,
                transform_skip_context_enabled_flag,
                implicit_rdpcm_enabled_flag,
                explicit_rdpcm_enabled_flag,
                extended_precision_processing_flag,
                intra_smoothing_disabled_flag,
                high_precision_offsets_enabled_flag,
                persistent_rice_adaptation_enabled_flag,
                cabac_bypass_alignment_enabled_flag,
                cross_component_prediction_enabled_flag,
                chroma_qp_offset_list_enabled_flag,
            }),
    {
        HevcRangeExtensionPicFields {
            transform_skip_rotation_enabled_flag,
            transform_skip_context_enabled_flag,
            implicit_rdpcm_enabled_flag,
            explicit_rdpcm_enabled_flag,
            extended_precision_processing_flag,
            intra_smoothing_disabled_flag,
            high_precision_offsets_enabled_flag,
            persistent_rice_adaptation_enabled_flag,
            cabac_bypass_alignment_enabled_flag,
            cross_component_prediction_enabled_flag,
            chroma_qp_offset_list_enabled_flag,
        }
    }

    /// Returns the record as the driver is handed it.
    pub fn inner(&self) -> (inner: &Self)
        ensures
            inner == self,
    {
        self
    }
}

/// The `VAPictureParameterBufferHEVCRext` record of the driver.
#[derive(Clone, Copy, Debug, PartialEq, Eq)]
pub struct PictureParameterBufferHEVCRext {
    pub range_extension_pic_fields: HevcRangeExtensionPicFields,
    pub diff_cu_chroma_qp_offset_depth: u8,
    pub chroma_qp_offset_list_len_minus1: u8,
    pub log2_sao_offset_scale_luma: u8,
    pub log2_sao_offset_scale_chroma: u8,
    pub log2_max_transform_skip_block_size_minus2: u8,
    pub cb_qp_offset_list: [i8; 6],
    pub cr_qp_offset_list: [i8; 6],
}

impl PictureParameterBufferHEVCRext {
    /// Makes the record from its fields, in their order.
    pub fn new(
        range_extension_pic_fields: &HevcRangeExtensionPicFields,
        diff_cu_chroma_qp_offset_depth: u8,
        chroma_qp_offset_list_len_minus1: u8,
        log2_sao_offset_scale_luma: u8,
        log2_sao_offset_scale_chroma: u8,
        log2_max_transform_skip_block_size_minus2: u8,
        cb_qp_offset_list: [i8; 6],
        cr_qp_offset_list: [i8; 6],
    ) -> (fields: Self)
        ensures
            fields == (PictureParameterBufferHEVCRext {
                range_extension_pic_fields: *range_extension_pic_fields,
                diff_cu_chroma_qp_offset_depth,
                chroma_qp_offset_list_len_minus1,
                log2_sao_offset_scale_luma,
                log2_sao_offset_scale_chroma,
                log2_max_transform_skip_block_size_minus2,
                cb_qp_offset_list,
                cr_qp_offset_list,
            }),
    {
        PictureParameterBufferHEVCRext {
            range_extension_pic_fields: *range_extension_pic_fields,
            diff_cu_chroma_qp_offset_depth,
            chroma_qp_offset_list_len_minus1,
            log2_sao_offset_scale_luma,
            log2_sao_offset_scale_chroma,
            log2_max_transform_skip_block_size_minus2,
            cb_qp_offset_list,
            cr_qp_offset_list,
        }
    }

    /// Returns the record as the driver is handed it.
    pub fn inner(&self) -> (inner: &Self)
        ensures
            inner == self,
    {
        self
    }
}

/// The `screen_content_pic_fields` flags of `VAPictureParameterBufferHEVCScc`.
#[derive(Clone, Copy, Debug, PartialEq, Eq)]
pub struct HevcScreenContentPicFields {
    pub pps_curr_pic_ref_enabled_flag: u32,
    pub palette_mode_enabled_flag: u32,
    pub motion_vector_resolution_control_idc: u32,
    pub intra_boundary_filtering_disabled_flag: u32,
    pub residual_adaptive_colour_transform_enabled_flag: u32,
    pub pps_slice_act_qp_offsets_present_flag: u32,
}

impl HevcScreenContentPicFields {
    /// Makes the record from its fields, in their order.
    pub fn new(
        pps_curr_pic_ref_enabled_flag: u32,
        palette_mode_enabled_flag: u32,
        motion_vector_resolution_control_idc: u32,
        intra_boundary_filtering_disabled_flag: u32,
        residual_adaptive_colour_transform_enabled_flag: u32,
        pps_slice_act_qp_offsets_present_flag: u32,
    ) -> (fields: Self)
        ensures
            fields == (HevcScreenContentPicFields {
                pps_curr_pic_ref_enabled_flag,
                palette_mode_enabled_flag,
                motion_vector_resolution_control_idc,
                intra_boundary_filtering_disabled_flag,
                residual_adaptive_colour_transform_enabled_flag,
                pps_slice_act_qp_offsets_present_flag,
            }),
    {
        HevcScreenContentPicFields {
            pps_curr_pic_ref_enabled_flag,
            palette_mode_enabled_flag,
            motion_vector_resolution_control_idc,
            intra_boundary_filtering_disabled_flag,
            residual_adaptive_colour_transform_enabled_flag,
            pps_slice_act_qp_offsets_present_flag,
        }
    }

    /// Returns the record as the driver is handed it.
    pub fn inner(&self) -> (inner: &Self)
        ensures
            inner == self,
    {
        self
    }
}

/// The `VAPictureParameterBufferHEVCScc` record of the driver.
#[derive(Clone, Copy, Debug, PartialEq, Eq)]
pub struct PictureParameterBufferHEVCScc {
    pub screen_content_pic_fields: HevcScreenContentPicFields,
    pub palette_max_size: u8,
    pub delta_palette_max_predictor_size: u8,
    pub predictor_palette_size: u8,
    pub predictor_palette_entries: [[u16; 128]; 3],
    pub pps_act_y_qp_offset_plus5: i8,
    pub pps_act_cb_qp_offset_plus5: i8,
    pub pps_act_cr_qp_offset_plus3: i8,
}

impl PictureParameterBufferHEVCScc {
    /// Makes the record from its fields, in their order.
    pub fn new(
        screen_content_pic_fields: &HevcScreenContentPicFields,
        palette_max_size: u8,
        delta_palette_max_predictor_size: u8,
        predictor_palette_size: u8,
        predictor_palette_entries: [[u16; 128]; 3],
        pps_act_y_qp_offset_plus5: i8,
        pps_act_cb_qp_offset_plus5: i8,
        pps_act_cr_qp_offset_plus3: i8,
    ) -> (fields: Self)
        ensures
            fields == (PictureParameterBufferHEVCScc {
                screen_content_pic_fields: *screen_content_pic_fields,
                palette_max_size,
                delta_palette_max_predictor_size,
                predictor_palette_size,
                predictor_palette_entries,
                pps_act_y_qp_offset_plus5,
                pps_act_cb_qp_offset_plus5,
                pps_act_cr_qp_offset_plus3,
            }),
    {
        PictureParameterBufferHEVCScc {
            screen_content_pic_fields: *screen_content_pic_fields,
            palette_max_size,
            delta_palette_max_predictor_size,
            predictor_palette_size,
            predictor_palette_entries,
            pps_act_y_qp_offset_plus5,
            pps_act_cb_qp_offset_plus5,
            pps_act_cr_qp_offset_plus3,
        }
    }

    /// Returns the record as the driver is handed it.
    pub fn inner(&self) -> (inner: &Self)
        ensures
            inner == self,
    {
        self
    }
}

/// The `long_slice_flags` flags of `VASliceParameterBufferHEVC`.
#[derive(Clone, Copy, Debug, PartialEq, Eq)]
pub struct HevcLongSliceFlags {
    pub last_slice_of_pic: u32,
    pub dependent_slice_segment_flag: u32,
    pub slice_type: u32,
    pub color_plane_id: u32,
    pub slice_sao_luma_flag: u32,
    pub slice_sao_chroma_flag: u32,
    pub mvd_l1_zero_flag: u32,
    pub cabac_init_flag: u32,
    pub slice_temporal_mvp_enabled_flag: u32,
    pub slice_deblocking_filter_disabled_flag: u32,
    pub collocated_from_l0_flag: u32,
    pub slice_loop_filter_across_slices_enabled_flag: u32,
}

impl HevcLongSliceFlags {
    /// Makes the record from its fields, in their order.
    pub fn new(
        last_slice_of_pic: u32,
        dependent_slice_segment_flag: u32,
        slice_type: u32,
        color_plane_id: u32,
        slice_sao_luma_flag: u32,
        slice_sao_chroma_flag: u32,
        mvd_l1_zero_flag: u32,
        cabac_init_flag: u32,
        slice_temporal_mvp_enabled_flag: u32,
        slice_deblocking_filter_disabled_flag: u32,
        collocated_from_l0_flag: u32,
        slice_loop_filter_across_slices_enabled_flag: u32,
    ) -> (fields: Self)
        ensures
            fields == (HevcLongSliceFlags {
                last_slice_of_pic,
                dependent_slice_segment_flag,
                slice_type,
                color_plane_id,
                slice_sao_luma_flag,
                slice_sao_chroma_flag,
                mvd_l1_zero_flag,
                cabac_init_flag,
                slice_temporal_mvp_enabled_flag,
                slice_deblocking_filter_disabled_flag,
                collocated_from_l0_flag,
                slice_loop_filter_across_slices_enabled_flag,
            }),
    {
        HevcLongSliceFlags {
            last_slice_of_pic,
            dependent_slice_segment_flag,
            slice_type,
            color_plane_id,
            slice_sao_luma_flag,
            slice_sao_chroma_flag,
            mvd_l1_zero_flag,
            cabac_init_flag,
            slice_temporal_mvp_enabled_flag,
            slice_deblocking_filter_disabled_flag,
            collocated_from_l0_flag,
            slice_loop_filter_across_slices_enabled_flag,
        }
    }

    /// Returns the record as the driver is handed it.
    pub fn inner(&self) -> (inner: &Self)
        ensures
            inner == self,
    {
        self
    }
}

/// The `VASliceParameterBufferHEVC` record of the driver.
#[derive(Clone, Copy, Debug, PartialEq, Eq)]
pub struct SliceParameterBufferHEVC {
    pub slice_data_size: u32,
    pub slice_data_offset: u32,
    pub slice_data_flag: u32,
    pub slice_data_byte_offset: u32,
    pub slice_segment_address: u32,
    pub ref_pic_list: [[u8; 15]; 2],
    pub long_slice_flags: HevcLongSliceFlags,
    pub collocated_ref_idx: u8,
    pub num_ref_idx_l0_active_minus1: u8,
    pub num_ref_idx_l1_active_minus1: u8,
    pub slice_qp_delta: i8,
    pub slice_cb_qp_offset: i8,
    pub slice_cr_qp_offset: i8,
    pub slice_beta_offset_div2: i8,
    pub slice_tc_offset_div2: i8,
    pub luma_log2_weight_denom: u8,
    pub delta_chroma_log2_weight_denom: i8,
    pub delta_luma_weight_l0: [i8; 15],
    pub luma_offset_l0: [i8; 15],
    pub delta_chroma_weight_l0: [[i8; 2]; 15],
    pub chroma_offset_l0: [[i8; 2]; 15],
    pub delta_luma_weight_l1: [i8; 15],
    pub luma_offset_l1: [i8; 15],
    pub delta_chroma_weight_l1: [[i8; 2]; 15],
    pub chroma_offset_l1: [[i8; 2]; 15],
    pub five_minus_max_num_merge_cand: u8,
    pub num_entry_point_offsets: u16,
    pub entry_offset_to_subset_array: u16,
    pub slice_data_num_emu_prevn_bytes: u16,
}

impl SliceParameterBufferHEVC {
    /// Makes the record from its fields, in their order.
    pub fn new(
        slice_data_size: u32,
        slice_data_offset: u32,
        slice_data_flag: u32,
        slice_data_byte_offset: u32,
        slice_segment_address: u32,
        ref_pic_list: [[u8; 15]; 2],
        long_slice_flags: &HevcLongSliceFlags,
        collocated_ref_idx: u8,
        num_ref_idx_l0_active_minus1: u8,
        num_ref_idx_l1_active_minus1: u8,
        slice_qp_delta: i8,
        slice_cb_qp_offset: i8,
        slice_cr_qp_offset: i8,
        slice_beta_offset_div2: i8,
        slice_tc_offset_div2: i8,
        luma_log2_weight_denom: u8,
        delta_chroma_log2_weight_denom: i8,
        delta_luma_weight_l0: [i8; 15],
        luma_offset_l0: [i8; 15],
        delta_chroma_weight_l0: [[i8; 2]; 15],
        chroma_offset_l0: [[i8; 2]; 15],
        delta_luma_weight_l1: [i8; 15],
        luma_offset_l1: [i8; 15],
        delta_chroma_weight_l1: [[i8; 2]; 15],
        chroma_offset_l1: [[i8; 2]; 15],
        five_minus_max_num_merge_cand: u8,
        num_entry_point_offsets: u16,
        entry_offset_to_subset_array: u16,
        slice_data_num_emu_prevn_bytes: u16,
    ) -> (fields: Self)
        ensures
            fields == (SliceParameterBufferHEVC {
                slice_data_size,
                slice_data_offset,
                slice_data_flag,
                slice_data_byte_offset,
                slice_segment_address,
                ref_pic_list,
                long_slice_flags: *long_slice_flags,
                collocated_ref_idx,
                num_ref_idx_l0_active_minus1,
                num_ref_idx_l1_active_minus1,
                slice_qp_delta,
                slice_cb_qp_offset,
                slice_cr_qp_offset,
                slice_beta_offset_div2,
                slice_tc_offset_div2,
                luma_log2_weight_denom,
                delta_chroma_log2_weight_denom,
                delta_luma_weight_l0,
                luma_offset_l0,
                delta_chroma_weight_l0,
                chroma_offset_l0,
                delta_luma_weight_l1,
                luma_offset_l1,
                delta_chroma_weight_l1,
                chroma_offset_l1,
                five_minus_max_num_merge_cand,
                num_entry_point_offsets,
                entry_offset_to_subset_array,
                slice_data_num_emu_prevn_bytes,
            }),
    {
        SliceParameterBufferHEVC {
            slice_data_size,
            slice_data_offset,
            slice_data_flag,
            slice_data_byte_offset,
            slice_segment_address,
            ref_pic_list,
            long_slice_flags: *long_slice_flags,
            collocated_ref_idx,
            num_ref_idx_l0_active_minus1,
            num_ref_idx_l1_active_minus1,
            slice_qp_delta,
            slice_cb_qp_offset,
            slice_cr_qp_offset,
            slice_beta_offset_div2,
            slice_tc_offset_div2,
            luma_log2_weight_denom,
            delta_chroma_log2_weight_denom,
            delta_luma_weight_l0,
            luma_offset_l0,
            delta_chroma_weight_l0,
            chroma_offset_l0,
            delta_luma_weight_l1,
            luma_offset_l1,
            delta_chroma_weight_l1,
            chroma_offset_l1,
            five_minus_max_num_merge_cand,
            num_entry_point_offsets,
            entry_offset_to_subset_array,
            slice_data_num_emu_prevn_bytes,
        }
    }

    /// Marks this slice as the last one of its picture. Whether a slice is
    /// the last may only be known after it has been made.
    pub fn set_as_last(&mut self)
        ensures
            *final(self) == (SliceParameterBufferHEVC {
                long_slice_flags: HevcLongSliceFlags {
                    last_slice_of_pic: 1,
                    ..old(self).long_slice_flags
                },
                ..*old(self)
            }),
    {
        self.long_slice_flags.last_slice_of_pic = 1;
    }

    /// Returns the record as the driver is handed it.
    pub fn inner(&self) -> (inner: &Self)
        ensures
            inner == self,
    {
        self
    }
}

/// The `slice_ext_flags` flags of `VASliceParameterBufferHEVCRext`.
#[derive(Clone, Copy, Debug, PartialEq, Eq)]
pub struct HevcSliceExtFlags {
    pub cu_chroma_qp_offset_enabled_flag: u32,
    pub use_integer_mv_flag: u32,
}

impl HevcSliceExtFlags {
    /// Makes the record from its fields, in their order.
    pub fn new(
        cu_chroma_qp_offset_enabled_flag: u32,
        use_integer_mv_flag: u32,
    ) -> (fields: Self)
        ensures
            fields == (HevcSliceExtFlags {
                cu_chroma_qp_offset_enabled_flag,
                use_integer_mv_flag,
            }),
    {
        HevcSliceExtFlags {
            cu_chroma_qp_offset_enabled_flag,
            use_integer_mv_flag,
        }
    }

    /// Returns the record as the driver is handed it.
    pub fn inner(&self) -> (inner: &Self)
        ensures
            inner == self,
    {
        self
    }
}

/// The `VASliceParameterBufferHEVCRext` record of the driver.
#[derive(Clone, Copy, Debug, PartialEq, Eq)]
pub struct SliceParameterBufferHEVCRext {
    pub luma_offset_l0: [i16; 15],
    pub chroma_offset_l0: [[i16; 2]; 15],
    pub luma_offset_l1: [i16; 15],
    pub chroma_offset_l1: [[i16; 2]; 15],
    pub slice_ext_flags: HevcSliceExtFlags,
    pub slice_act_y_qp_offset: i8,
    pub slice_act_cb_qp_offset: i8,
    pub slice_act_cr_qp_offset: i8,
}

impl SliceParameterBufferHEVCRext {
    /// Makes the record from its fields, in their order.
    pub fn new(
        luma_offset_l0: [i16; 15],
        chroma_offset_l0: [[i16; 2]; 15],
        luma_offset_l1: [i16; 15],
        chroma_offset_l1: [[i16; 2]; 15],
        slice_ext_flags: &HevcSliceExtFlags,
        slice_act_y_qp_offset: i8,
        slice_act_cb_qp_offset: i8,
        slice_act_cr_qp_offset: i8,
    ) -> (fields: Self)
        ensures
            fields == (SliceParameterBufferHEVCRext {
                luma_offset_l0,
                chroma_offset_l0,
                luma_offset_l1,
                chroma_offset_l1,
                slice_ext_flags: *slice_ext_flags,
                slice_act_y_qp_offset,
                slice_act_cb_qp_offset,
                slice_act_cr_qp_offset,
            }),
    {
        SliceParameterBufferHEVCRext {
            luma_offset_l0,
            chroma_offset_l0,
            luma_offset_l1,
            chroma_offset_l1,
            slice_ext_flags: *slice_ext_flags,
            slice_act_y_qp_offset,
            slice_act_cb_qp_offset,
            slice_act_cr_qp_offset,
        }
    }

    /// Returns the record as the driver is handed it.
    pub fn inner(&self) -> (inner: &Self)
        ensures
            inner == self,
    {
        self
    }
}

/// The `VAIQMatrixBufferHEVC` record of the driver.
#[derive(Clone, Copy, Debug, PartialEq, Eq)]
pub struct IQMatrixBufferHEVC {
    pub scaling_list4x4: [[u8; 16]; 6],
    pub scaling_list8x8: [[u8; 64]; 6],
    pub scaling_list16x16: [[u8; 64]; 6],
    pub scaling_list32x32: [[u8; 64]; 2],
    pub scaling_list_dc16x16: [u8; 6],
    pub scaling_list_dc32x32: [u8; 2],
}

impl IQMatrixBufferHEVC {
    /// Makes the record from its fields, in their order.
    pub fn new(
        scaling_list4x4: [[u8; 16]; 6],
        scaling_list8x8: [[u8; 64]; 6],
        scaling_list16x16: [[u8; 64]; 6],
        scaling_list32x32: [[u8; 64]; 2],
        scaling_list_dc16x16: [u8; 6],
        scaling_list_dc32x32: [u8; 2],
    ) -> (fields: Self)
        ensures
            fields == (IQMatrixBufferHEVC {
                scaling_list4x4,
                scaling_list8x8,
                scaling_list16x16,
                scaling_list32x32,
                scaling_list_dc16x16,
                scaling_list_dc32x32,
            }),
    {
        IQMatrixBufferHEVC {
            scaling_list4x4,
            scaling_list8x8,
            scaling_list16x16,
            scaling_list32x32,
            scaling_list_dc16x16,
            scaling_list_dc32x32,
        }
    }

    /// Returns the record as the driver is handed it.
    pub fn inner(&self) -> (inner: &Self)
        ensures
            inner == self,
    {
        self
    }
}

/// The `seq_fields` flags of `VAEncSequenceParameterBufferHEVC`.
#[derive(Clone, Copy, Debug, PartialEq, Eq)]
pub struct HEVCEncSeqFields {
    pub chroma_format_idc: u32,
    pub separate_colour_plane_flag: u32,
    pub bit_depth_luma_minus8: u32,
    pub bit_depth_chroma_minus8: u32,
    pub scaling_list_enabled_flag: u32,
    pub strong_intra_smoothing_enabled_flag: u32,
    pub amp_enabled_flag: u32,
    pub sample_adaptive_offset_enabled_flag: u32,
    pub pcm_enabled_flag: u32,
    pub pcm_loop_filter_disabled_flag: u32,
    pub sps_temporal_mvp_enabled_flag: u32,
    pub low_delay_seq: u32,
    pub hierachical_flag: u32,
}

impl HEVCEncSeqFields {
    /// Makes the record from its fields, in their order.
    pub fn new(
        chroma_format_idc: u32,
        separate_colour_plane_flag: u32,
        bit_depth_luma_minus8: u32,
        bit_depth_chroma_minus8: u32,
        scaling_list_enabled_flag: u32,
        strong_intra_smoothing_enabled_flag: u32,
        amp_enabled_flag: u32,
        sample_adaptive_offset_enabled_flag: u32,
        pcm_enabled_flag: u32,
        pcm_loop_filter_disabled_flag: u32,
        sps_temporal_mvp_enabled_flag: u32,
        low_delay_seq: u32,
        hierachical_flag: u32,
    ) -> (fields: Self)
        ensures
            fields == (HEVCEncSeqFields {
                chroma_format_idc,
                separate_colour_plane_flag,
                bit_depth_luma_minus8,
                bit_depth_chroma_minus8,
                scaling_list_enabled_flag,
                strong_intra_smoothing_enabled_flag,
                amp_enabled_flag,
                sample_adaptive_offset_enabled_flag,
                pcm_enabled_flag,
                pcm_loop_filter_disabled_flag,
                sps_temporal_mvp_enabled_flag,
                low_delay_seq,
                hierachical_flag,
            }),
    {
        HEVCEncSeqFields {
            chroma_format_idc,
            separate_colour_plane_flag,
            bit_depth_luma_minus8,
            bit_depth_chroma_minus8,
            scaling_list_enabled_flag,
            strong_intra_smoothing_enabled_flag,
            amp_enabled_flag,
            sample_adaptive_offset_enabled_flag,
            pcm_enabled_flag,
            pcm_loop_filter_disabled_flag,
            sps_temporal_mvp_enabled_flag,
            low_delay_seq,
            hierachical_flag,
        }
    }
}

/// The `vui_fields` flags of `VAEncSequenceParameterBufferHEVC`.
#[derive(Clone, Copy, Debug, PartialEq, Eq, Default)]
pub struct HevcEncVuiFields {
    pub aspect_ratio_info_present_flag: u32,
    pub neutral_chroma_indication_flag: u32,
    pub field_seq_flag: u32,
    pub vui_timing_info_present_flag: u32,
    pub bitstream_restriction_flag: u32,
    pub tiles_fixed_structure_flag: u32,
    pub motion_vectors_over_pic_boundaries_flag: u32,
    pub restricted_ref_pic_lists_flag: u32,
    pub log2_max_mv_length_horizontal: u32,
    pub log2_max_mv_length_vertical: u32,
}

impl HevcEncVuiFields {
    /// Makes the record from its fields, in their order.
    pub fn new(
        aspect_ratio_info_present_flag: u32,
        neutral_chroma_indication_flag: u32,
        field_seq_flag: u32,
        vui_timing_info_present_flag: u32,
        bitstream_restriction_flag: u32,
        tiles_fixed_structure_flag: u32,
        motion_vectors_over_pic_boundaries_flag: u32,
        restricted_ref_pic_lists_flag: u32,
        log2_max_mv_length_horizontal: u32,
        log2_max_mv_length_vertical: u32,
    ) -> (fields: Self)
        ensures
            fields == (HevcEncVuiFields {
                aspect_ratio_info_present_flag,
                neutral_chroma_indication_flag,
                field_seq_flag,
                vui_timing_info_present_flag,
                bitstream_restriction_flag,
                tiles_fixed_structure_flag,
                motion_vectors_over_pic_boundaries_flag,
                restricted_ref_pic_lists_flag,
                log2_max_mv_length_horizontal,
                log2_max_mv_length_vertical,
            }),
    {
        HevcEncVuiFields {
            aspect_ratio_info_present_flag,
            neutral_chroma_indication_flag,
            field_seq_flag,
            vui_timing_info_present_flag,
            bitstream_restriction_flag,
            tiles_fixed_structure_flag,
            motion_vectors_over_pic_boundaries_flag,
            restricted_ref_pic_lists_flag,
            log2_max_mv_length_horizontal,
            log2_max_mv_length_vertical,
        }
    }
}

impl HevcEncVuiFields {
    /// The flags that stand for no usability information.
    pub open spec fn zero() -> Self {
        HevcEncVuiFields {
            aspect_ratio_info_present_flag: 0,
            neutral_chroma_indication_flag: 0,
            field_seq_flag: 0,
            vui_timing_info_present_flag: 0,
            bitstream_restriction_flag: 0,
            tiles_fixed_structure_flag: 0,
            motion_vectors_over_pic_boundaries_flag: 0,
            restricted_ref_pic_lists_flag: 0,
            log2_max_mv_length_horizontal: 0,
            log2_max_mv_length_vertical: 0,
        }
    }
}

/// The `scc_fields` flags of `VAEncSequenceParameterBufferHEVC`.
#[derive(Clone, Copy, Debug, PartialEq, Eq)]
pub struct HevcEncSeqSccFields {
    pub palette_mode_enabled_flag: u32,
}

impl HevcEncSeqSccFields {
    /// Makes the record from its fields, in their order.
    pub fn new(
        palette_mode_enabled_flag: u32,
    ) -> (fields: Self)
        ensures
            fields == (HevcEncSeqSccFields {
                palette_mode_enabled_flag,
            }),
    {
        HevcEncSeqSccFields {
            palette_mode_enabled_flag,
        }
    }
}

/// The `VAEncSequenceParameterBufferHEVC` record of the driver.
#[derive(Clone, Copy, Debug, PartialEq, Eq)]
pub struct EncSequenceParameterBufferHEVC {
    pub general_profile_idc: u8,
    pub general_level_idc: u8,
    pub general_tier_flag: u8,
    pub intra_period: u32,
    pub intra_idr_period: u32,
    pub ip_period: u32,
    pub bits_per_second: u32,
    pub pic_width_in_luma_samples: u16,
    pub pic_height_in_luma_samples: u16,
    pub seq_fields: HEVCEncSeqFields,
    pub log2_min_luma_coding_block_size_minus3: u8,
    pub log2_diff_max_min_luma_coding_block_size: u8,
    pub log2_min_transform_block_size_minus2: u8,
    pub log2_diff_max_min_transform_block_size: u8,
    pub max_transform_hierarchy_depth_inter: u8,
    pub max_transform_hierarchy_depth_intra: u8,
    pub pcm_sample_bit_depth_luma_minus1: u32,
    pub pcm_sample_bit_depth_chroma_minus1: u32,
    pub log2_min_pcm_luma_coding_block_size_minus3: u32,
    pub log2_max_pcm_luma_coding_block_size_minus3: u32,
    pub vui_parameters_present_flag: u8,
    pub vui_fields: HevcEncVuiFields,
    pub aspect_ratio_idc: u8,
    pub sar_width: u32,
    pub sar_height: u32,
    pub vui_num_units_in_tick: u32,
    pub vui_time_scale: u32,
    pub min_spatial_segmentation_idc: u16,
    pub max_bytes_per_pic_denom: u8,
    pub max_bits_per_min_cu_denom: u8,
    pub scc_fields: HevcEncSeqSccFields,
}

impl EncSequenceParameterBufferHEVC {
    /// Makes the record. The usability flag is set exactly when `vui_fields`
    /// is given, and the usability flags are those of `vui_fields`, or zero
    /// without it.
    pub fn new(
        general_profile_idc: u8,
        general_level_idc: u8,
        general_tier_flag: u8,
        intra_period: u32,
        intra_idr_period: u32,
        ip_period: u32,
        bits_per_second: u32,
        pic_width_in_luma_samples: u16,
        pic_height_in_luma_samples: u16,
        seq_fields: &HEVCEncSeqFields,
        log2_min_luma_coding_block_size_minus3: u8,
        log2_diff_max_min_luma_coding_block_size: u8,
        log2_min_transform_block_size_minus2: u8,
        log2_diff_max_min_transform_block_size: u8,
        max_transform_hierarchy_depth_inter: u8,
        max_transform_hierarchy_depth_intra: u8,
        pcm_sample_bit_depth_luma_minus1: u32,
        pcm_sample_bit_depth_chroma_minus1: u32,
        log2_min_pcm_luma_coding_block_size_minus3: u32,
        log2_max_pcm_luma_coding_block_size_minus3: u32,
        vui_fields: Option<HevcEncVuiFields>,
        aspect_ratio_idc: u8,
        sar_width: u32,
        sar_height: u32,
        vui_num_units_in_tick: u32,
        vui_time_scale: u32,
        min_spatial_segmentation_idc: u16,
        max_bytes_per_pic_denom: u8,
        max_bits_per_min_cu_denom: u8,
        scc_fields: &HevcEncSeqSccFields,
    ) -> (fields: Self)
        ensures
            fields == (EncSequenceParameterBufferHEVC {
                general_profile_idc,
                general_level_idc,
                general_tier_flag,
                intra_period,
                intra_idr_period,
                ip_period,
                bits_per_second,
                pic_width_in_luma_samples,
                pic_height_in_luma_samples,
                seq_fields: *seq_fields,
                log2_min_luma_coding_block_size_minus3,
                log2_diff_max_min_luma_coding_block_size,
                log2_min_transform_block_size_minus2,
                log2_diff_max_min_transform_block_size,
                max_transform_hierarchy_depth_inter,
                max_transform_hierarchy_depth_intra,
                pcm_sample_bit_depth_luma_minus1,
                pcm_sample_bit_depth_chroma_minus1,
                log2_min_pcm_luma_coding_block_size_minus3,
                log2_max_pcm_luma_coding_block_size_minus3,
                vui_parameters_present_flag: if vui_fields is Some {
                    1u8
                } else {
                    0u8
                },
                vui_fields: vui_fields.unwrap_or(HevcEncVuiFields::zero()),
                aspect_ratio_idc,
                sar_width,
                sar_height,
                vui_num_units_in_tick,
                vui_time_scale,
                min_spatial_segmentation_idc,
                max_bytes_per_pic_denom,
                max_bits_per_min_cu_denom,
                scc_fields: *scc_fields,
            }),
    {
        let (vui_parameters_present_flag, vui): (u8, HevcEncVuiFields) = match vui_fields {
            Some(vui) => (1, vui),
            None => (0, HevcEncVuiFields::new(0, 0, 0, 0, 0, 0, 0, 0, 0, 0)),
        };
        EncSequenceParameterBufferHEVC {
            general_profile_idc,
            general_level_idc,
            general_tier_flag,
            intra_period,
            intra_idr_period,
            ip_period,
            bits_per_second,
            pic_width_in_luma_samples,
            pic_height_in_luma_samples,
            seq_fields: *seq_fields,
            log2_min_luma_coding_block_size_minus3,
            log2_diff_max_min_luma_coding_block_size,
            log2_min_transform_block_size_minus2,
            log2_diff_max_min_transform_block_size,
            max_transform_hierarchy_depth_inter,
            max_transform_hierarchy_depth_intra,
            pcm_sample_bit_depth_luma_minus1,
            pcm_sample_bit_depth_chroma_minus1,
            log2_min_pcm_luma_coding_block_size_minus3,
            log2_max_pcm_luma_coding_block_size_minus3,
            vui_parameters_present_flag,
            vui_fields: vui,
            aspect_ratio_idc,
            sar_width,
            sar_height,
            vui_num_units_in_tick,
            vui_time_scale,
            min_spatial_segmentation_idc,
            max_bytes_per_pic_denom,
            max_bits_per_min_cu_denom,
            scc_fields: *scc_fields,
        }
    }
}

/// The `pic_fields` flags of `VAEncPictureParameterBufferHEVC`.
#[derive(Clone, Copy, Debug, PartialEq, Eq)]
pub struct HEVCEncPicFields {
    pub idr_pic_flag: u32,
    pub coding_type: u32,
    pub reference_pic_flag: u32,
    pub dependent_slice_segments_enabled_flag: u32,
    pub sign_data_hiding_enabled_flag: u32,
    pub constrained_intra_pred_flag: u32,
    pub transform_skip_enabled_flag: u32,
    pub cu_qp_delta_enabled_flag: u32,
    pub weighted_pred_flag: u32,
    pub weighted_bipred_flag: u32,
    pub transquant_bypass_enabled_flag: u32,
    pub tiles_enabled_flag: u32,
    pub entropy_coding_sync_enabled_flag: u32,
    pub loop_filter_across_tiles_enabled_flag: u32,
    pub pps_loop_filter_across_slices_enabled_flag: u32,
    pub scaling_list_data_present_flag: u32,
    pub screen_content_flag: u32,
    pub enable_gpu_weighted_prediction: u32,
    pub no_output_of_prior_pics_flag: u32,
}

impl HEVCEncPicFields {
    /// Makes the record from its fields, in their order.
    pub fn new(
        idr_pic_flag: u32,
        coding_type: u32,
        reference_pic_flag: u32,
        dependent_slice_segments_enabled_flag: u32,
        sign_data_hiding_enabled_flag: u32,
        constrained_intra_pred_flag: u32,
        transform_skip_enabled_flag: u32,
        cu_qp_delta_enabled_flag: u32,
        weighted_pred_flag: u32,
        weighted_bipred_flag: u32,
        transquant_bypass_enabled_flag: u32,
        tiles_enabled_flag: u32,
        entropy_coding_sync_enabled_flag: u32,
        loop_filter_across_tiles_enabled_flag: u32,
        pps_loop_filter_across_slices_enabled_flag: u32,
        scaling_list_data_present_flag: u32,
        screen_content_flag: u32,
        enable_gpu_weighted_prediction: u32,
        no_output_of_prior_pics_flag: u32,
    ) -> (fields: Self)
        ensures
            fields == (HEVCEncPicFields {
                idr_pic_flag,
                coding_type,
                reference_pic_flag,
                dependent_slice_segments_enabled_flag,
                sign_data_hiding_enabled_flag,
                constrained_intra_pred_flag,
                transform_skip_enabled_flag,
                cu_qp_delta_enabled_flag,
                weighted_pred_flag,
                weighted_bipred_flag,
                transquant_bypass_enabled_flag,
                tiles_enabled_flag,
                entropy_coding_sync_enabled_flag,
                loop_filter_across_tiles_enabled_flag,
                pps_loop_filter_across_slices_enabled_flag,
                scaling_list_data_present_flag,
                screen_content_flag,
                enable_gpu_weighted_prediction,
                no_output_of_prior_pics_flag,
            }),
    {
        HEVCEncPicFields {
            idr_pic_flag,
            coding_type,
            reference_pic_flag,
            dependent_slice_segments_enabled_flag,
            sign_data_hiding_enabled_flag,
            constrained_intra_pred_flag,
            transform_skip_enabled_flag,
            cu_qp_delta_enabled_flag,
            weighted_pred_flag,
            weighted_bipred_flag,
            transquant_bypass_enabled_flag,
            tiles_enabled_flag,
            entropy_coding_sync_enabled_flag,
            loop_filter_across_tiles_enabled_flag,
            pps_loop_filter_across_slices_enabled_flag,
            scaling_list_data_present_flag,
            screen_content_flag,
            enable_gpu_weighted_prediction,
            no_output_of_prior_pics_flag,
        }
    }
}

/// The `scc_fields` flags of `VAEncPictureParameterBufferHEVC`.
#[derive(Clone, Copy, Debug, PartialEq, Eq)]
pub struct HevcEncPicSccFields {
    pub pps_curr_pic_ref_enabled_flag: u16,
}

impl HevcEncPicSccFields {
    /// Makes the record from its fields, in their order.
    pub fn new(
        pps_curr_pic_ref_enabled_flag: u16,
    ) -> (fields: Self)
        ensures
            fields == (HevcEncPicSccFields {
                pps_curr_pic_ref_enabled_flag,
            }),
    {
        HevcEncPicSccFields {
            pps_curr_pic_ref_enabled_flag,
        }
    }
}

/// The `VAEncPictureParameterBufferHEVC` record of the driver.
#[derive(Clone, Copy, Debug, PartialEq, Eq)]
pub struct EncPictureParameterBufferHEVC {
    pub decoded_curr_pic: PictureHEVC,
    pub reference_frames: [PictureHEVC; 15],
    pub coded_buf: VABufferID,
    pub collocated_ref_pic_index: u8,
    pub last_picture: u8,
    pub pic_init_qp: u8,
    pub diff_cu_qp_delta_depth: u8,
    pub pps_cb_qp_offset: i8,
    pub pps_cr_qp_offset: i8,
    pub num_tile_columns_minus1: u8,
    pub num_tile_rows_minus1: u8,
    pub column_width_minus1: [u8; 19],
    pub row_height_minus1: [u8; 21],
    pub log2_parallel_merge_level_minus2: u8,
    pub ctu_max_bitsize_allowed: u8,
    pub num_ref_idx_l0_default_active_minus1: u8,
    pub num_ref_idx_l1_default_active_minus1: u8,
    pub slice_pic_parameter_set_id: u8,
    pub nal_unit_type: u8,
    pub pic_fields: HEVCEncPicFields,
    pub hierarchical_level_plus1: u8,
    pub va_byte_reserved: u8,
    pub scc_fields: HevcEncPicSccFields,
}

impl EncPictureParameterBufferHEVC {
    /// Makes the record from its fields, in their order.
    pub fn new(
        decoded_curr_pic: PictureHEVC,
        reference_frames: [PictureHEVC; 15],
        coded_buf: VABufferID,
        collocated_ref_pic_index: u8,
        last_picture: u8,
        pic_init_qp: u8,
        diff_cu_qp_delta_depth: u8,
        pps_cb_qp_offset: i8,
        pps_cr_qp_offset: i8,
        num_tile_columns_minus1: u8,
        num_tile_rows_minus1: u8,
        column_width_minus1: [u8; 19],
        row_height_minus1: [u8; 21],
        log2_parallel_merge_level_minus2: u8,
        ctu_max_bitsize_allowed: u8,
        num_ref_idx_l0_default_active_minus1: u8,
        num_ref_idx_l1_default_active_minus1: u8,
        slice_pic_parameter_set_id: u8,
        nal_unit_type: u8,
        pic_fields: &HEVCEncPicFields,
        hierarchical_level_plus1: u8,
        va_byte_reserved: u8,
        scc_fields: &HevcEncPicSccFields,
    ) -> (fields: Self)
        ensures
            fields == (EncPictureParameterBufferHEVC {
                decoded_curr_pic,
                reference_frames,
                coded_buf,
                collocated_ref_pic_index,
                last_picture,
                pic_init_qp,
                diff_cu_qp_delta_depth,
                pps_cb_qp_offset,
                pps_cr_qp_offset,
                num_tile_columns_minus1,
                num_tile_rows_minus1,
                column_width_minus1,
                row_height_minus1,
                log2_parallel_merge_level_minus2,
                ctu_max_bitsize_allowed,
                num_ref_idx_l0_default_active_minus1,
                num_ref_idx_l1_default_active_minus1,
                slice_pic_parameter_set_id,
                nal_unit_type,
                pic_fields: *pic_fields,
                hierarchical_level_plus1,
                va_byte_reserved,
                scc_fields: *scc_fields,
            }),
    {
        EncPictureParameterBufferHEVC {
            decoded_curr_pic,
            reference_frames,
            coded_buf,
            collocated_ref_pic_index,
            last_picture,
            pic_init_qp,
            diff_cu_qp_delta_depth,
            pps_cb_qp_offset,
            pps_cr_qp_offset,
            num_tile_columns_minus1,
            num_tile_rows_minus1,
            column_width_minus1,
            row_height_minus1,
            log2_parallel_merge_level_minus2,
            ctu_max_bitsize_allowed,
            num_ref_idx_l0_default_active_minus1,
            num_ref_idx_l1_default_active_minus1,
            slice_pic_parameter_set_id,
            nal_unit_type,
            pic_fields: *pic_fields,
            hierarchical_level_plus1,
            va_byte_reserved,
            scc_fields: *scc_fields,
        }
    }
}

/// The `slice_fields` flags of `VAEncSliceParameterBufferHEVC`.
#[derive(Clone, Copy, Debug, PartialEq, Eq)]
pub struct HevcEncSliceFields {
    pub last_slice_of_pic_flag: u32,
    pub dependent_slice_segment_flag: u32,
    pub colour_plane_id: u32,
    pub slice_temporal_mvp_enabled_flag: u32,
    pub slice_sao_luma_flag: u32,
    pub slice_sao_chroma_flag: u32,
    pub num_ref_idx_active_override_flag: u32,
    pub mvd_l1_zero_flag: u32,
    pub cabac_init_flag: u32,
    pub slice_deblocking_filter_disabled_flag: u32,
    pub slice_loop_filter_across_slices_enabled_flag: u32,
    pub collocated_from_l0_flag: u32,
}

impl HevcEncSliceFields {
    /// Makes the record from its fields, in their order.
    pub fn new(
        last_slice_of_pic_flag: u32,
        dependent_slice_segment_flag: u32,
        colour_plane_id: u32,
        slice_temporal_mvp_enabled_flag: u32,
        slice_sao_luma_flag: u32,
        slice_sao_chroma_flag: u32,
        num_ref_idx_active_override_flag: u32,
        mvd_l1_zero_flag: u32,
        cabac_init_flag: u32,
        slice_deblocking_filter_disabled_flag: u32,
        slice_loop_filter_across_slices_enabled_flag: u32,
        collocated_from_l0_flag: u32,
    ) -> (fields: Self)
        ensures
            fields == (HevcEncSliceFields {
                last_slice_of_pic_flag,
                dependent_slice_segment_flag,
                colour_plane_id,
                slice_temporal_mvp_enabled_flag,
                slice_sao_luma_flag,
                slice_sao_chroma_flag,
                num_ref_idx_active_override_flag,
                mvd_l1_zero_flag,
                cabac_init_flag,
                slice_deblocking_filter_disabled_flag,
                slice_loop_filter_across_slices_enabled_flag,
                collocated_from_l0_flag,
            }),
    {
        HevcEncSliceFields {
            last_slice_of_pic_flag,
            dependent_slice_segment_flag,
            colour_plane_id,
            slice_temporal_mvp_enabled_flag,
            slice_sao_luma_flag,
            slice_sao_chroma_flag,
            num_ref_idx_active_override_flag,
            mvd_l1_zero_flag,
            cabac_init_flag,
            slice_deblocking_filter_disabled_flag,
            slice_loop_filter_across_slices_enabled_flag,
            collocated_from_l0_flag,
        }
    }
}

/// The `VAEncSliceParameterBufferHEVC` record of the driver.
#[derive(Clone, Copy, Debug, PartialEq, Eq)]
pub struct EncSliceParameterBufferHEVC {
    pub slice_segment_address: u32,
    pub num_ctu_in_slice: u32,
    pub slice_type: u8,
    pub slice_pic_parameter_set_id: u8,
    pub num_ref_idx_l0_active_minus1: u8,
    pub num_ref_idx_l1_active_minus1: u8,
    pub ref_pic_list0: [PictureHEVC; 15],
    pub ref_pic_list1: [PictureHEVC; 15],
    pub luma_log2_weight_denom: u8,
    pub delta_chroma_log2_weight_denom: i8,
    pub delta_luma_weight_l0: [i8; 15],
    pub luma_offset_l0: [i8; 15],
    pub delta_chroma_weight_l0: [[i8; 2]; 15],
    pub chroma_offset_l0: [[i8; 2]; 15],
    pub delta_luma_weight_l1: [i8; 15],
    pub luma_offset_l1: [i8; 15],
    pub delta_chroma_weight_l1: [[i8; 2]; 15],
    pub chroma_offset_l1: [[i8; 2]; 15],
    pub max_num_merge_cand: u8,
    pub slice_qp_delta: i8,
    pub slice_cb_qp_offset: i8,
    pub slice_cr_qp_offset: i8,
    pub slice_beta_offset_div2: i8,
    pub slice_tc_offset_div2: i8,
    pub slice_fields: HevcEncSliceFields,
    pub pred_weight_table_bit_offset: u32,
    pub pred_weight_table_bit_length: u32,
}

impl EncSliceParameterBufferHEVC {
    /// Makes the record from its fields, in their order.
    pub fn new(
        slice_segment_address: u32,
        num_ctu_in_slice: u32,
        slice_type: u8,
        slice_pic_parameter_set_id: u8,
        num_ref_idx_l0_active_minus1: u8,
        num_ref_idx_l1_active_minus1: u8,
        ref_pic_list0: [PictureHEVC; 15],
        ref_pic_list1: [PictureHEVC; 15],
        luma_log2_weight_denom: u8,
        delta_chroma_log2_weight_denom: i8,
        delta_luma_weight_l0: [i8; 15],
        luma_offset_l0: [i8; 15],
        delta_chroma_weight_l0: [[i8; 2]; 15],
        chroma_offset_l0: [[i8; 2]; 15],
        delta_luma_weight_l1: [i8; 15],
        luma_offset_l1: [i8; 15],
        delta_chroma_weight_l1: [[i8; 2]; 15],
        chroma_offset_l1: [[i8; 2]; 15],
        max_num_merge_cand: u8,
        slice_qp_delta: i8,
        slice_cb_qp_offset: i8,
        slice_cr_qp_offset: i8,
        slice_beta_offset_div2: i8,
        slice_tc_offset_div2: i8,
        slice_fields: &HevcEncSliceFields,
        pred_weight_table_bit_offset: u32,
        pred_weight_table_bit_length: u32,
    ) -> (fields: Self)
        ensures
            fields == (EncSliceParameterBufferHEVC {
                slice_segment_address,
                num_ctu_in_slice,
                slice_type,
                slice_pic_parameter_set_id,
                num_ref_idx_l0_active_minus1,
                num_ref_idx_l1_active_minus1,
                ref_pic_list0,
                ref_pic_list1,
                luma_log2_weight_denom,
                delta_chroma_log2_weight_denom,
                delta_luma_weight_l0,
                luma_offset_l0,
                delta_chroma_weight_l0,
                chroma_offset_l0,
                delta_luma_weight_l1,
                luma_offset_l1,
                delta_chroma_weight_l1,
                chroma_offset_l1,
                max_num_merge_cand,
                slice_qp_delta,
                slice_cb_qp_offset,
                slice_cr_qp_offset,
                slice_beta_offset_div2,
                slice_tc_offset_div2,
                slice_fields: *slice_fields,
                pred_weight_table_bit_offset,
                pred_weight_table_bit_length,
            }),
    {
        EncSliceParameterBufferHEVC {
            slice_segment_address,
            num_ctu_in_slice,
            slice_type,
            slice_pic_parameter_set_id,
            num_ref_idx_l0_active_minus1,
            num_ref_idx_l1_active_minus1,
            ref_pic_list0,
            ref_pic_list1,
            luma_log2_weight_denom,
            delta_chroma_log2_weight_denom,
            delta_luma_weight_l0,
            luma_offset_l0,
            delta_chroma_weight_l0,
            chroma_offset_l0,
            delta_luma_weight_l1,
            luma_offset_l1,
            delta_chroma_weight_l1,
            chroma_offset_l1,
            max_num_merge_cand,
            slice_qp_delta,
            slice_cb_qp_offset,
            slice_cr_qp_offset,
            slice_beta_offset_div2,
            slice_tc_offset_div2,
            slice_fields: *slice_fields,
            pred_weight_table_bit_offset,
            pred_weight_table_bit_length,
        }
    }
}

} // verus!
