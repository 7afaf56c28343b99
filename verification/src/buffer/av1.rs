//! Parameter records of AV1 decoding and encoding.

use vstd::prelude::*;
use crate::bindings::VABufferID;
use crate::bindings::VASurfaceID;

verus! {

/// The `seq_fields` flags of `VADecPictureParameterBufferAV1`.
#[derive(Clone, Copy, Debug, PartialEq, Eq)]
pub struct AV1SeqFields {
    pub still_picture: u32,
    pub use_128x128_superblock: u32,
    pub enable_filter_intra: u32,
    pub enable_intra_edge_filter: u32,
    pub enable_interintra_compound: u32,
    pub enable_masked_compound: u32,
    pub enable_dual_filter: u32,
    pub enable_order_hint: u32,
    pub enable_jnt_comp: u32,
    pub enable_cdef: u32,
    pub mono_chrome: u32,
    pub color_range: u32,
    pub subsampling_x: u32,
    pub subsampling_y: u32,
    pub chroma_sample_position: u32,
    pub film_grain_params_present: u32,
}

impl AV1SeqFields {
    /// Makes the record from its fields, in their order.
    pub fn new(
        still_picture: u32,
        use_128x128_superblock: u32,
        enable_filter_intra: u32,
        enable_intra_edge_filter: u32,
        enable_interintra_compound: u32,
        enable_masked_compound: u32,
        enable_dual_filter: u32,
        enable_order_hint: u32,
        enable_jnt_comp: u32,
        enable_cdef: u32,
        mono_chrome: u32,
        color_range: u32,
        subsampling_x: u32,
        subsampling_y: u32,
        chroma_sample_position: u32,
        film_grain_params_present: u32,
    ) -> (fields: Self)
        ensures
            fields == (AV1SeqFields {
                still_picture,
                use_128x128_superblock,
                enable_filter_intra,
                enable_intra_edge_filter,
                enable_interintra_compound,
                enable_masked_compound,
                enable_dual_filter,
                enable_order_hint,
                enable_jnt_comp,
                enable_cdef,
                mono_chrome,
                color_range,
                subsampling_x,
                subsampling_y,
                chroma_sample_position,
                film_grain_params_present,
            }),
    {
        AV1SeqFields {
            still_picture,
            use_128x128_superblock,
            enable_filter_intra,
            enable_intra_edge_filter,
            enable_interintra_compound,
            enable_masked_compound,
            enable_dual_filter,
            enable_order_hint,
            enable_jnt_comp,
            enable_cdef,
            mono_chrome,
            color_range,
            subsampling_x,
            subsampling_y,
            chroma_sample_position,
            film_grain_params_present,
        }
    }
}

/// The `segment_info_fields` flags of `VASegmentationStructAV1`.
#[derive(Clone, Copy, Debug, PartialEq, Eq)]
pub struct AV1SegmentInfoFields {
    pub enabled: u32,
    pub update_map: u32,
    pub temporal_update: u32,
    pub update_data: u32,
}

impl AV1SegmentInfoFields {
    /// Makes the record from its fields, in their order.
    pub fn new(
        enabled: u32,
        update_map: u32,
        temporal_update: u32,
        update_data: u32,
    ) -> (fields: Self)
        ensures
            fields == (AV1SegmentInfoFields {
                enabled,
                update_map,
                temporal_update,
                update_data,
            }),
    {
        AV1SegmentInfoFields {
            enabled,
            update_map,
            temporal_update,
            update_data,
        }
    }
}

/// The `seg_info` record of `VADecPictureParameterBufferAV1`.
#[derive(Clone, Copy, Debug, PartialEq, Eq)]
pub struct AV1Segmentation {
    pub segment_info_fields: AV1SegmentInfoFields,
    pub feature_data: [[i16; 8]; 8],
    pub feature_mask: [u8; 8],
}

impl AV1Segmentation {
    /// Makes the record from its fields, in their order.
    pub fn new(
        segment_info_fields: &AV1SegmentInfoFields,
        feature_data: [[i16; 8]; 8],
        feature_mask: [u8; 8],
    ) -> (fields: Self)
        ensures
            fields == (AV1Segmentation {
                segment_info_fields: *segment_info_fields,
                feature_data,
                feature_mask,
            }),
    {
        AV1Segmentation {
            segment_info_fields: *segment_info_fields,
            feature_data,
            feature_mask,
        }
    }
}

/// The `film_grain_fields` flags of `VADecPictureParameterBufferAV1`.
#[derive(Clone, Copy, Debug, PartialEq, Eq)]
pub struct AV1FilmGrainFields {
    pub apply_grain: u32,
    pub chroma_scaling_from_luma: u32,
    pub grain_scaling_minus_8: u32,
    pub ar_coeff_lag: u32,
    pub ar_coeff_shift_minus_6: u32,
    pub grain_scale_shift: u32,
    pub overlap_flag: u32,
    pub clip_to_restricted_range: u32,
}

impl AV1FilmGrainFields {
    /// Makes the record from its fields, in their order.
    pub fn new(
        apply_grain: u32,
        chroma_scaling_from_luma: u32,
        grain_scaling_minus_8: u32,
        ar_coeff_lag: u32,
        ar_coeff_shift_minus_6: u32,
        grain_scale_shift: u32,
        overlap_flag: u32,
        clip_to_restricted_range: u32,
    ) -> (fields: Self)
        ensures
            fields == (AV1FilmGrainFields {
                apply_grain,
                chroma_scaling_from_luma,
                grain_scaling_minus_8,
                ar_coeff_lag,
                ar_coeff_shift_minus_6,
                grain_scale_shift,
                overlap_flag,
                clip_to_restricted_range,
            }),
    {
        AV1FilmGrainFields {
            apply_grain,
            chroma_scaling_from_luma,
            grain_scaling_minus_8,
            ar_coeff_lag,
            ar_coeff_shift_minus_6,
            grain_scale_shift,
            overlap_flag,
            clip_to_restricted_range,
        }
    }
}

/// The `film_grain_info` record of `VADecPictureParameterBufferAV1`.
#[derive(Clone, Copy, Debug, PartialEq, Eq)]
pub struct AV1FilmGrain {
    pub film_grain_info_fields: AV1FilmGrainFields,
    pub grain_seed: u16,
    pub num_y_points: u8,
    pub point_y_value: [u8; 14],
    pub point_y_scaling: [u8; 14],
    pub num_cb_points: u8,
    pub point_cb_value: [u8; 10],
    pub point_cb_scaling: [u8; 10],
    pub num_cr_points: u8,
    pub point_cr_value: [u8; 10],
    pub point_cr_scaling: [u8; 10],
    pub ar_coeffs_y: [i8; 24],
    pub ar_coeffs_cb: [i8; 25],
    pub ar_coeffs_cr: [i8; 25],
    pub cb_mult: u8,
    pub cb_luma_mult: u8,
    pub cb_offset: u16,
    pub cr_mult: u8,
    pub cr_luma_mult: u8,
    pub cr_offset: u16,
}

impl AV1FilmGrain {
    /// Makes the record from its fields, in their order.
    pub fn new(
        film_grain_info_fields: &AV1FilmGrainFields,
        grain_seed: u16,
        num_y_points: u8,
        point_y_value: [u8; 14],
        point_y_scaling: [u8; 14],
        num_cb_points: u8,
        point_cb_value: [u8; 10],
        point_cb_scaling: [u8; 10],
        num_cr_points: u8,
        point_cr_value: [u8; 10],
        point_cr_scaling: [u8; 10],
        ar_coeffs_y: [i8; 24],
        ar_coeffs_cb: [i8; 25],
        ar_coeffs_cr: [i8; 25],
        cb_mult: u8,
        cb_luma_mult: u8,
        cb_offset: u16,
        cr_mult: u8,
        cr_luma_mult: u8,
        cr_offset: u16,
    ) -> (fields: Self)
        ensures
            fields == (AV1FilmGrain {
                film_grain_info_fields: *film_grain_info_fields,
                grain_seed,
                num_y_points,
                point_y_value,
                point_y_scaling,
                num_cb_points,
                point_cb_value,
                point_cb_scaling,
                num_cr_points,
                point_cr_value,
                point_cr_scaling,
                ar_coeffs_y,
                ar_coeffs_cb,
                ar_coeffs_cr,
                cb_mult,
                cb_luma_mult,
                cb_offset,
                cr_mult,
                cr_luma_mult,
                cr_offset,
            }),
    {
        AV1FilmGrain {
            film_grain_info_fields: *film_grain_info_fields,
            grain_seed,
            num_y_points,
            point_y_value,
            point_y_scaling,
            num_cb_points,
            point_cb_value,
            point_cb_scaling,
            num_cr_points,
            point_cr_value,
            point_cr_scaling,
            ar_coeffs_y,
            ar_coeffs_cb,
            ar_coeffs_cr,
            cb_mult,
            cb_luma_mult,
            cb_offset,
            cr_mult,
            cr_luma_mult,
            cr_offset,
        }
    }
}

/// The `pic_info_fields` flags of `VADecPictureParameterBufferAV1`.
#[derive(Clone, Copy, Debug, PartialEq, Eq)]
pub struct AV1PicInfoFields {
    pub frame_type: u32,
    pub show_frame: u32,
    pub showable_frame: u32,
    pub error_resilient_mode: u32,
    pub disable_cdf_update: u32,
    pub allow_screen_content_tools: u32,
    pub force_integer_mv: u32,
    pub allow_intrabc: u32,
    pub use_superres: u32,
    pub allow_high_precision_mv: u32,
    pub is_motion_mode_switchable: u32,
    pub use_ref_frame_mvs: u32,
    pub disable_frame_end_update_cdf: u32,
    pub uniform_tile_spacing_flag: u32,
    pub allow_warped_motion: u32,
    pub large_scale_tile: u32,
}

impl AV1PicInfoFields {
    /// Makes the record from its fields, in their order.
    pub fn new(
        frame_type: u32,
        show_frame: u32,
        showable_frame: u32,
        error_resilient_mode: u32,
        disable_cdf_update: u32,
        allow_screen_content_tools: u32,
        force_integer_mv: u32,
        allow_intrabc: u32,
        use_superres: u32,
        allow_high_precision_mv: u32,
        is_motion_mode_switchable: u32,
        use_ref_frame_mvs: u32,
        disable_frame_end_update_cdf: u32,
        uniform_tile_spacing_flag: u32,
        allow_warped_motion: u32,
        large_scale_tile: u32,
    ) -> (fields: Self)
        ensures
            fields == (AV1PicInfoFields {
                frame_type,
                show_frame,
                showable_frame,
                error_resilient_mode,
                disable_cdf_update,
                allow_screen_content_tools,
                force_integer_mv,
                allow_intrabc,
                use_superres,
                allow_high_precision_mv,
                is_motion_mode_switchable,
                use_ref_frame_mvs,
                disable_frame_end_update_cdf,
                uniform_tile_spacing_flag,
                allow_warped_motion,
                large_scale_tile,
            }),
    {
        AV1PicInfoFields {
            frame_type,
            show_frame,
            showable_frame,
            error_resilient_mode,
            disable_cdf_update,
            allow_screen_content_tools,
            force_integer_mv,
            allow_intrabc,
            use_superres,
            allow_high_precision_mv,
            is_motion_mode_switchable,
            use_ref_frame_mvs,
            disable_frame_end_update_cdf,
            uniform_tile_spacing_flag,
            allow_warped_motion,
            large_scale_tile,
        }
    }
}

/// The `loop_filter_fields` flags of `VADecPictureParameterBufferAV1`.
#[derive(Clone, Copy, Debug, PartialEq, Eq)]
pub struct AV1LoopFilterFields {
    pub sharpness_level: u8,
    pub mode_ref_delta_enabled: u8,
    pub mode_ref_delta_update: u8,
}

impl AV1LoopFilterFields {
    /// Makes the record from its fields, in their order.
    pub fn new(
        sharpness_level: u8,
        mode_ref_delta_enabled: u8,
        mode_ref_delta_update: u8,
    ) -> (fields: Self)
        ensures
            fields == (AV1LoopFilterFields {
                sharpness_level,
                mode_ref_delta_enabled,
                mode_ref_delta_update,
            }),
    {
        AV1LoopFilterFields {
            sharpness_level,
            mode_ref_delta_enabled,
            mode_ref_delta_update,
        }
    }
}

/// The `wm` record of `VADecPictureParameterBufferAV1`.
#[derive(Clone, Copy, Debug, PartialEq, Eq)]
pub struct AV1WarpedMotionParams {
    pub wmtype: u32,
    pub wmmat: [i32; 8],
    pub invalid: u8,
}

impl AV1WarpedMotionParams {
    /// Makes the record from its fields, in their order.
    pub fn new(
        wmtype: u32,
        wmmat: [i32; 8],
        invalid: u8,
    ) -> (fields: Self)
        ensures
            fields == (AV1WarpedMotionParams {
                wmtype,
                wmmat,
                invalid,
            }),
    {
        AV1WarpedMotionParams {
            wmtype,
            wmmat,
            invalid,
        }
    }
}

/// The `loop_restoration_fields` flags of `VADecPictureParameterBufferAV1`.
#[derive(Clone, Copy, Debug, PartialEq, Eq)]
pub struct AV1LoopRestorationFields {
    pub yframe_restoration_type: u16,
    pub cbframe_restoration_type: u16,
    pub crframe_restoration_type: u16,
    pub lr_unit_shift: u16,
    pub lr_uv_shift: u16,
}

impl AV1LoopRestorationFields {
    /// Makes the record from its fields, in their order.
    pub fn new(
        yframe_restoration_type: u16,
        cbframe_restoration_type: u16,
        crframe_restoration_type: u16,
        lr_unit_shift: u16,
        lr_uv_shift: u16,
    ) -> (fields: Self)
        ensures
            fields == (AV1LoopRestorationFields {
                yframe_restoration_type,
                cbframe_restoration_type,
                crframe_restoration_type,
                lr_unit_shift,
                lr_uv_shift,
            }),
    {
        AV1LoopRestorationFields {
            yframe_restoration_type,
            cbframe_restoration_type,
            crframe_restoration_type,
            lr_unit_shift,
            lr_uv_shift,
        }
    }
}

/// The `mode_control_fields` flags of `VADecPictureParameterBufferAV1`.
#[derive(Clone, Copy, Debug, PartialEq, Eq)]
pub struct AV1ModeControlFields {
    pub delta_q_present_flag: u32,
    pub log2_delta_q_res: u32,
    pub delta_lf_present_flag: u32,
    pub log2_delta_lf_res: u32,
    pub delta_lf_multi: u32,
    pub tx_mode: u32,
    pub reference_select: u32,
    pub reduced_tx_set_used: u32,
    pub skip_mode_present: u32,
}

impl AV1ModeControlFields {
    /// Makes the record from its fields, in their order.
    pub fn new(
        delta_q_present_flag: u32,
        log2_delta_q_res: u32,
        delta_lf_present_flag: u32,
        log2_delta_lf_res: u32,
        delta_lf_multi: u32,
        tx_mode: u32,
        reference_select: u32,
        reduced_tx_set_used: u32,
        skip_mode_present: u32,
    ) -> (fields: Self)
        ensures
            fields == (AV1ModeControlFields {
                delta_q_present_flag,
                log2_delta_q_res,
                delta_lf_present_flag,
                log2_delta_lf_res,
                delta_lf_multi,
                tx_mode,
                reference_select,
                reduced_tx_set_used,
                skip_mode_present,
            }),
    {
        AV1ModeControlFields {
            delta_q_present_flag,
            log2_delta_q_res,
            delta_lf_present_flag,
            log2_delta_lf_res,
            delta_lf_multi,
            tx_mode,
            reference_select,
            reduced_tx_set_used,
            skip_mode_present,
        }
    }
}

/// The `qmatrix_fields` flags of `VADecPictureParameterBufferAV1`.
#[derive(Clone, Copy, Debug, PartialEq, Eq)]
pub struct AV1QMatrixFields {
    pub using_qmatrix: u16,
    pub qm_y: u16,
    pub qm_u: u16,
    pub qm_v: u16,
}

impl AV1QMatrixFields {
    /// Makes the record from its fields, in their order.
    pub fn new(
        using_qmatrix: u16,
        qm_y: u16,
        qm_u: u16,
        qm_v: u16,
    ) -> (fields: Self)
        ensures
            fields == (AV1QMatrixFields {
                using_qmatrix,
                qm_y,
                qm_u,
                qm_v,
            }),
    {
        AV1QMatrixFields {
            using_qmatrix,
            qm_y,
            qm_u,
            qm_v,
        }
    }
}

/// The `VADecPictureParameterBufferAV1` record of the driver.
#[derive(Clone, Debug, PartialEq, Eq)]
pub struct PictureParameterBufferAV1 {
    pub profile: u8,
    pub order_hint_bits_minus_1: u8,
    pub bit_depth_idx: u8,
    pub matrix_coefficients: u8,
    pub seq_info_fields: AV1SeqFields,
    pub current_frame: VASurfaceID,
    pub current_display_picture: VASurfaceID,
    pub anchor_frames_num: u8,
    pub anchor_frames_list: Vec<VASurfaceID>,
    pub frame_width_minus1: u16,
    pub frame_height_minus1: u16,
    pub output_frame_width_in_tiles_minus_1: u16,
    pub output_frame_height_in_tiles_minus_1: u16,
    pub ref_frame_map: [VASurfaceID; 8],
    pub ref_frame_idx: [u8; 7],
    pub primary_ref_frame: u8,
    pub order_hint: u8,
    pub seg_info: AV1Segmentation,
    pub film_grain_info: AV1FilmGrain,
    pub tile_cols: u8,
    pub tile_rows: u8,
    pub width_in_sbs_minus_1: [u16; 63],
    pub height_in_sbs_minus_1: [u16; 63],
    pub tile_count_minus_1: u16,
    pub context_update_tile_id: u16,
    pub pic_info_fields: AV1PicInfoFields,
    pub superres_scale_denominator: u8,
    pub interp_filter: u8,
    pub filter_level: [u8; 2],
    pub filter_level_u: u8,
    pub filter_level_v: u8,
    pub loop_filter_info_fields: AV1LoopFilterFields,
    pub ref_deltas: [i8; 8],
    pub mode_deltas: [i8; 2],
    pub base_qindex: u8,
    pub y_dc_delta_q: i8,
    pub u_dc_delta_q: i8,
    pub u_ac_delta_q: i8,
    pub v_dc_delta_q: i8,
    pub v_ac_delta_q: i8,
    pub qmatrix_fields: AV1QMatrixFields,
    pub mode_control_fields: AV1ModeControlFields,
    pub cdef_damping_minus_3: u8,
    pub cdef_bits: u8,
    pub cdef_y_strengths: [u8; 8],
    pub cdef_uv_strengths: [u8; 8],
    pub loop_restoration_fields: AV1LoopRestorationFields,
    pub wm: [AV1WarpedMotionParams; 7],
}

impl PictureParameterBufferAV1 {
    /// Makes the record. The number of anchor frames is the length of
    /// `anchor_frames_list`, as far as a byte holds it.
    pub fn new(
        profile: u8,
        order_hint_bits_minus_1: u8,
        bit_depth_idx: u8,
        matrix_coefficients: u8,
        seq_info_fields: &AV1SeqFields,
        current_frame: VASurfaceID,
        current_display_picture: VASurfaceID,
        anchor_frames_list: Vec<VASurfaceID>,
        frame_width_minus1: u16,
        frame_height_minus1: u16,
        output_frame_width_in_tiles_minus_1: u16,
        output_frame_height_in_tiles_minus_1: u16,
        ref_frame_map: [VASurfaceID; 8],
        ref_frame_idx: [u8; 7],
        primary_ref_frame: u8,
        order_hint: u8,
        seg_info: &AV1Segmentation,
        film_grain_info: &AV1FilmGrain,
        tile_cols: u8,
        tile_rows: u8,
        width_in_sbs_minus_1: [u16; 63],
        height_in_sbs_minus_1: [u16; 63],
        tile_count_minus_1: u16,
        context_update_tile_id: u16,
        pic_info_fields: &AV1PicInfoFields,
        superres_scale_denominator: u8,
        interp_filter: u8,
        filter_level: [u8; 2],
        filter_level_u: u8,
        filter_level_v: u8,
        loop_filter_info_fields: &AV1LoopFilterFields,
        ref_deltas: [i8; 8],
        mode_deltas: [i8; 2],
        base_qindex: u8,
        y_dc_delta_q: i8,
        u_dc_delta_q: i8,
        u_ac_delta_q: i8,
        v_dc_delta_q: i8,
        v_ac_delta_q: i8,
        qmatrix_fields: &AV1QMatrixFields,
        mode_control_fields: &AV1ModeControlFields,
        cdef_damping_minus_3: u8,
        cdef_bits: u8,
        cdef_y_strengths: [u8; 8],
        cdef_uv_strengths: [u8; 8],
        loop_restoration_fields: &AV1LoopRestorationFields,
        wm: &[AV1WarpedMotionParams; 7],
    ) -> (fields: Self)
        ensures
            fields == (PictureParameterBufferAV1 {
                profile,
                order_hint_bits_minus_1,
                bit_depth_idx,
                matrix_coefficients,
                seq_info_fields: *seq_info_fields,
                current_frame,
                current_display_picture,
                anchor_frames_num: anchor_frames_list@.len() as u8,
                anchor_frames_list,
                frame_width_minus1,
                frame_height_minus1,
                output_frame_width_in_tiles_minus_1,
                output_frame_height_in_tiles_minus_1,
                ref_frame_map,
                ref_frame_idx,
                primary_ref_frame,
                order_hint,
                seg_info: *seg_info,
                film_grain_info: *film_grain_info,
                tile_cols,
                tile_rows,
                width_in_sbs_minus_1,
                height_in_sbs_minus_1,
                tile_count_minus_1,
                context_update_tile_id,
                pic_info_fields: *pic_info_fields,
                superres_scale_denominator,
                interp_filter,
                filter_level,
                filter_level_u,
                filter_level_v,
                loop_filter_info_fields: *loop_filter_info_fields,
                ref_deltas,
                mode_deltas,
                base_qindex,
                y_dc_delta_q,
                u_dc_delta_q,
                u_ac_delta_q,
                v_dc_delta_q,
                v_ac_delta_q,
                qmatrix_fields: *qmatrix_fields,
                mode_control_fields: *mode_control_fields,
                cdef_damping_minus_3,
                cdef_bits,
                cdef_y_strengths,
                cdef_uv_strengths,
                loop_restoration_fields: *loop_restoration_fields,
                wm: *wm,
            }),
    {
        PictureParameterBufferAV1 {
            profile,
            order_hint_bits_minus_1,
            bit_depth_idx,
            matrix_coefficients,
            seq_info_fields: *seq_info_fields,
            current_frame,
            current_display_picture,
            anchor_frames_num: #[verifier::truncate] (anchor_frames_list.len() as u8),
            anchor_frames_list,
            frame_width_minus1,
            frame_height_minus1,
            output_frame_width_in_tiles_minus_1,
            output_frame_height_in_tiles_minus_1,
            ref_frame_map,
            ref_frame_idx,
            primary_ref_frame,
            order_hint,
            seg_info: *seg_info,
            film_grain_info: *film_grain_info,
            tile_cols,
            tile_rows,
            width_in_sbs_minus_1,
            height_in_sbs_minus_1,
            tile_count_minus_1,
            context_update_tile_id,
            pic_info_fields: *pic_info_fields,
            superres_scale_denominator,
            interp_filter,
            filter_level,
            filter_level_u,
            filter_level_v,
            loop_filter_info_fields: *loop_filter_info_fields,
            ref_deltas,
            mode_deltas,
            base_qindex,
            y_dc_delta_q,
            u_dc_delta_q,
            u_ac_delta_q,
            v_dc_delta_q,
            v_ac_delta_q,
            qmatrix_fields: *qmatrix_fields,
            mode_control_fields: *mode_control_fields,
            cdef_damping_minus_3,
            cdef_bits,
            cdef_y_strengths,
            cdef_uv_strengths,
            loop_restoration_fields: *loop_restoration_fields,
            wm: *wm,
        }
    }
}

/// The parameters of one tile, as the driver's `VASliceParameterBufferAV1`
/// holds them.
#[derive(Clone, Copy, Debug, PartialEq, Eq)]
pub struct VASliceParameterBufferAV1 {
    pub slice_data_size: u32,
    pub slice_data_offset: u32,
    pub slice_data_flag: u32,
    pub tile_row: u16,
    pub tile_column: u16,
    pub tg_start: u16,
    pub tg_end: u16,
    pub anchor_frame_idx: u8,
    pub tile_idx_in_tile_list: u16,
}

/// A list of tile parameters. All tiles of a tile group are passed to the
/// driver in a single buffer.
#[derive(Debug, Default)]
pub struct SliceParameterBufferAV1(Vec<VASliceParameterBufferAV1>);

impl View for SliceParameterBufferAV1 {
    type V = Seq<VASliceParameterBufferAV1>;

    closed spec fn view(&self) -> Seq<VASliceParameterBufferAV1> {
        self.0@
    }
}

impl SliceParameterBufferAV1 {
    /// The list without any tile.
    pub fn new() -> (params: Self)
        ensures
            params@ == Seq::<VASliceParameterBufferAV1>::empty(),
    {
        SliceParameterBufferAV1(Vec::new())
    }

    /// Adds the parameters of one tile at the end of the list.
    pub fn add_slice_parameter(
        &mut self,
        slice_data_size: u32,
        slice_data_offset: u32,
        slice_data_flag: u32,
        tile_row: u16,
        tile_column: u16,
        tg_start: u16,
        tg_end: u16,
        anchor_frame_idx: u8,
        tile_idx_in_tile_list: u16,
    )
        ensures
            final(self)@ == old(self)@.push(
                VASliceParameterBufferAV1 {
                    slice_data_size,
                    slice_data_offset,
                    slice_data_flag,
                    tile_row,
                    tile_column,
                    tg_start,
                    tg_end,
                    anchor_frame_idx,
                    tile_idx_in_tile_list,
                },
            ),
    {
        self.0.push(
            VASliceParameterBufferAV1 {
                slice_data_size,
                slice_data_offset,
                slice_data_flag,
                tile_row,
                tile_column,
                tg_start,
                tg_end,
                anchor_frame_idx,
                tile_idx_in_tile_list,
            },
        );
    }

    /// Returns the tiles of the list, in the order in which they were added.
    pub fn inner(&self) -> (tiles: &Vec<VASliceParameterBufferAV1>)
        ensures
            tiles@ == self@,
    {
        &self.0
    }

    /// Returns the number of tiles in the list.
    pub fn len(&self) -> (len: usize)
        ensures
            len == self@.len(),
    {
        self.0.len()
    }
}

/// The `seq_fields` flags of `VAEncSequenceParameterBufferAV1`.
#[derive(Clone, Copy, Debug, PartialEq, Eq)]
pub struct AV1EncSeqFields {
    pub still_picture: bool,
    pub use_128x128_superblock: bool,
    pub enable_filter_intra: bool,
    pub enable_intra_edge_filter: bool,
    pub enable_interintra_compound: bool,
    pub enable_masked_compound: bool,
    pub enable_warped_motion: bool,
    pub enable_dual_filter: bool,
    pub enable_order_hint: bool,
    pub enable_jnt_comp: bool,
    pub enable_ref_frame_mvs: bool,
    pub enable_superres: bool,
    pub enable_cdef: bool,
    pub enable_restoration: bool,
    pub bit_depth_minus8: u32,
    pub subsampling_x: bool,
    pub subsampling_y: bool,
    pub mono_chrome: bool,
}

impl AV1EncSeqFields {
    /// Makes the record from its fields, in their order.
    pub fn new(
        still_picture: bool,
        use_128x128_superblock: bool,
        enable_filter_intra: bool,
        enable_intra_edge_filter: bool,
        enable_interintra_compound: bool,
        enable_masked_compound: bool,
        enable_warped_motion: bool,
        enable_dual_filter: bool,
        enable_order_hint: bool,
        enable_jnt_comp: bool,
        enable_ref_frame_mvs: bool,
        enable_superres: bool,
        enable_cdef: bool,
        enable_restoration: bool,
        bit_depth_minus8: u32,
        subsampling_x: bool,
        subsampling_y: bool,
        mono_chrome: bool,
    ) -> (fields: Self)
        ensures
            fields == (AV1EncSeqFields {
                still_picture,
                use_128x128_superblock,
                enable_filter_intra,
                enable_intra_edge_filter,
                enable_interintra_compound,
                enable_masked_compound,
                enable_warped_motion,
                enable_dual_filter,
                enable_order_hint,
                enable_jnt_comp,
                enable_ref_frame_mvs,
                enable_superres,
                enable_cdef,
                enable_restoration,
                bit_depth_minus8,
                subsampling_x,
                subsampling_y,
                mono_chrome,
            }),
    {
        AV1EncSeqFields {
            still_picture,
            use_128x128_superblock,
            enable_filter_intra,
            enable_intra_edge_filter,
            enable_interintra_compound,
            enable_masked_compound,
            enable_warped_motion,
            enable_dual_filter,
            enable_order_hint,
            enable_jnt_comp,
            enable_ref_frame_mvs,
            enable_superres,
            enable_cdef,
            enable_restoration,
            bit_depth_minus8,
            subsampling_x,
            subsampling_y,
            mono_chrome,
        }
    }
}

/// The `VAEncSequenceParameterBufferAV1` record of the driver.
#[derive(Clone, Copy, Debug, PartialEq, Eq)]
pub struct EncSequenceParameterBufferAV1 {
    pub seq_profile: u8,
    pub seq_level_idx: u8,
    pub seq_tier: u8,
    pub hierarchical_flag: u8,
    pub intra_period: u32,
    pub ip_period: u32,
    pub bits_per_second: u32,
    pub seq_fields: AV1EncSeqFields,
    pub order_hint_bits_minus_1: u8,
}

impl EncSequenceParameterBufferAV1 {
    /// Makes the record from its fields, in their order.
    pub fn new(
        seq_profile: u8,
        seq_level_idx: u8,
        seq_tier: u8,
        hierarchical_flag: u8,
        intra_period: u32,
        ip_period: u32,
        bits_per_second: u32,
        seq_fields: &AV1EncSeqFields,
        order_hint_bits_minus_1: u8,
    ) -> (fields: Self)
        ensures
            fields == (EncSequenceParameterBufferAV1 {
                seq_profile,
                seq_level_idx,
                seq_tier,
                hierarchical_flag,
                intra_period,
                ip_period,
                bits_per_second,
                seq_fields: *seq_fields,
                order_hint_bits_minus_1,
            }),
    {
        EncSequenceParameterBufferAV1 {
            seq_profile,
            seq_level_idx,
            seq_tier,
            hierarchical_flag,
            intra_period,
            ip_period,
            bits_per_second,
            seq_fields: *seq_fields,
            order_hint_bits_minus_1,
        }
    }
}

/// The `VARefFrameCtrlAV1` record of the driver.
#[derive(Clone, Copy, Debug, PartialEq, Eq, Default)]
pub struct RefFrameCtrlAV1 {
    pub search_idx0: u32,
    pub search_idx1: u32,
    pub search_idx2: u32,
    pub search_idx3: u32,
    pub search_idx4: u32,
    pub search_idx5: u32,
    pub search_idx6: u32,
}

impl RefFrameCtrlAV1 {
    /// Makes the record from its fields, in their order.
    pub fn new(
        search_idx0: u32,
        search_idx1: u32,
        search_idx2: u32,
        search_idx3: u32,
        search_idx4: u32,
        search_idx5: u32,
        search_idx6: u32,
    ) -> (fields: Self)
        ensures
            fields == (RefFrameCtrlAV1 {
                search_idx0,
                search_idx1,
                search_idx2,
                search_idx3,
                search_idx4,
                search_idx5,
                search_idx6,
            }),
    {
        RefFrameCtrlAV1 {
            search_idx0,
            search_idx1,
            search_idx2,
            search_idx3,
            search_idx4,
            search_idx5,
            search_idx6,
        }
    }
}

/// The `picture_flags` flags of `VAEncPictureParameterBufferAV1`.
#[derive(Clone, Copy, Debug, PartialEq, Eq, Default)]
pub struct AV1EncPictureFlags {
    pub frame_type: u32,
    pub error_resilient_mode: bool,
    pub disable_cdf_update: bool,
    pub use_superres: bool,
    pub allow_high_precision_mv: bool,
    pub use_ref_frame_mvs: bool,
    pub disable_frame_end_update_cdf: bool,
    pub reduced_tx_set: bool,
    pub enable_frame_obu: bool,
    pub long_term_reference: bool,
    pub disable_frame_recon: bool,
    pub allow_intrabc: bool,
    pub palette_mode_enable: bool,
    pub allow_screen_content_tools: bool,
    pub force_integer_mv: bool,
}

impl AV1EncPictureFlags {
    /// Makes the record from its fields, in their order.
    pub fn new(
        frame_type: u32,
        error_resilient_mode: bool,
        disable_cdf_update: bool,
        use_superres: bool,
        allow_high_precision_mv: bool,
        use_ref_frame_mvs: bool,
        disable_frame_end_update_cdf: bool,
        reduced_tx_set: bool,
        enable_frame_obu: bool,
        long_term_reference: bool,
        disable_frame_recon: bool,
        allow_intrabc: bool,
        palette_mode_enable: bool,
        allow_screen_content_tools: bool,
        force_integer_mv: bool,
    ) -> (fields: Self)
        ensures
            fields == (AV1EncPictureFlags {
                frame_type,
                error_resilient_mode,
                disable_cdf_update,
                use_superres,
                allow_high_precision_mv,
                use_ref_frame_mvs,
                disable_frame_end_update_cdf,
                reduced_tx_set,
                enable_frame_obu,
                long_term_reference,
                disable_frame_recon,
                allow_intrabc,
                palette_mode_enable,
                allow_screen_content_tools,
                force_integer_mv,
            }),
    {
        AV1EncPictureFlags {
            frame_type,
            error_resilient_mode,
            disable_cdf_update,
            use_superres,
            allow_high_precision_mv,
            use_ref_frame_mvs,
            disable_frame_end_update_cdf,
            reduced_tx_set,
            enable_frame_obu,
            long_term_reference,
            disable_frame_recon,
            allow_intrabc,
            palette_mode_enable,
            allow_screen_content_tools,
            force_integer_mv,
        }
    }
}

/// The `loop_filter_flags` flags of `VAEncPictureParameterBufferAV1`.
#[derive(Clone, Copy, Debug, PartialEq, Eq, Default)]
pub struct AV1EncLoopFilterFlags {
    pub sharpness_level: u8,
    pub mode_ref_delta_enabled: bool,
    pub mode_ref_delta_update: bool,
}

impl AV1EncLoopFilterFlags {
    /// Makes the record from its fields, in their order.
    pub fn new(
        sharpness_level: u8,
        mode_ref_delta_enabled: bool,
        mode_ref_delta_update: bool,
    ) -> (fields: Self)
        ensures
            fields == (AV1EncLoopFilterFlags {
                sharpness_level,
                mode_ref_delta_enabled,
                mode_ref_delta_update,
            }),
    {
        AV1EncLoopFilterFlags {
            sharpness_level,
            mode_ref_delta_enabled,
            mode_ref_delta_update,
        }
    }
}

/// The `qmatrix_flags` flags of `VAEncPictureParameterBufferAV1`.
#[derive(Clone, Copy, Debug, PartialEq, Eq, Default)]
pub struct AV1EncQMatrixFlags {
    pub using_qmatrix: bool,
    pub qm_y: u16,
    pub qm_u: u16,
    pub qm_v: u16,
}

impl AV1EncQMatrixFlags {
    /// Makes the record from its fields, in their order.
    pub fn new(
        using_qmatrix: bool,
        qm_y: u16,
        qm_u: u16,
        qm_v: u16,
    ) -> (fields: Self)
        ensures
            fields == (AV1EncQMatrixFlags {
                using_qmatrix,
                qm_y,
                qm_u,
                qm_v,
            }),
    {
        AV1EncQMatrixFlags {
            using_qmatrix,
            qm_y,
            qm_u,
            qm_v,
        }
    }
}

/// The `mode_control_flags` flags of `VAEncPictureParameterBufferAV1`.
#[derive(Clone, Copy, Debug, PartialEq, Eq, Default)]
pub struct AV1EncModeControlFlags {
    pub delta_q_present: bool,
    pub delta_q_res: u32,
    pub delta_lf_present: bool,
    pub delta_lf_res: u32,
    pub delta_lf_multi: bool,
    pub tx_mode: u32,
    pub reference_mode: u32,
    pub skip_mode_present: bool,
}

impl AV1EncModeControlFlags {
    /// Makes the record from its fields, in their order.
    pub fn new(
        delta_q_present: bool,
        delta_q_res: u32,
        delta_lf_present: bool,
        delta_lf_res: u32,
        delta_lf_multi: bool,
        tx_mode: u32,
        reference_mode: u32,
        skip_mode_present: bool,
    ) -> (fields: Self)
        ensures
            fields == (AV1EncModeControlFlags {
                delta_q_present,
                delta_q_res,
                delta_lf_present,
                delta_lf_res,
                delta_lf_multi,
                tx_mode,
                reference_mode,
                skip_mode_present,
            }),
    {
        AV1EncModeControlFlags {
            delta_q_present,
            delta_q_res,
            delta_lf_present,
            delta_lf_res,
            delta_lf_multi,
            tx_mode,
            reference_mode,
            skip_mode_present,
        }
    }
}

/// The `seg_flags` flags of `VAEncSegParamAV1`.
#[derive(Clone, Copy, Debug, PartialEq, Eq, Default)]
pub struct EncSegParamFlagsAV1 {
    pub segmentation_enabled: bool,
    pub segmentation_update_map: bool,
    pub segmentation_temporal_update: bool,
}

impl EncSegParamFlagsAV1 {
    /// Makes the record from its fields, in their order.
    pub fn new(
        segmentation_enabled: bool,
        segmentation_update_map: bool,
        segmentation_temporal_update: bool,
    ) -> (fields: Self)
        ensures
            fields == (EncSegParamFlagsAV1 {
                segmentation_enabled,
                segmentation_update_map,
                segmentation_temporal_update,
            }),
    {
        EncSegParamFlagsAV1 {
            segmentation_enabled,
            segmentation_update_map,
            segmentation_temporal_update,
        }
    }
}

/// The `VAEncSegParamAV1` record of the driver.
#[derive(Clone, Copy, Debug, PartialEq, Eq, Default)]
pub struct EncSegParamAV1 {
    pub seg_flags: EncSegParamFlagsAV1,
    pub segment_number: u8,
    pub feature_data: [[i16; 8]; 8],
    pub feature_mask: [u8; 8],
}

impl EncSegParamAV1 {
    /// Makes the record from its fields, in their order.
    pub fn new(
        seg_flags: &EncSegParamFlagsAV1,
        segment_number: u8,
        feature_data: [[i16; 8]; 8],
        feature_mask: [u8; 8],
    ) -> (fields: Self)
        ensures
            fields == (EncSegParamAV1 {
                seg_flags: *seg_flags,
                segment_number,
                feature_data,
                feature_mask,
            }),
    {
        EncSegParamAV1 {
            seg_flags: *seg_flags,
            segment_number,
            feature_data,
            feature_mask,
        }
    }
}

/// The `loop_restoration_flags` flags of `VAEncPictureParameterBufferAV1`.
#[derive(Clone, Copy, Debug, PartialEq, Eq)]
pub struct AV1EncLoopRestorationFlags {
    pub yframe_restoration_type: u16,
    pub cbframe_restoration_type: u16,
    pub crframe_restoration_type: u16,
    pub lr_unit_shift: u16,
    pub lr_uv_shift: bool,
}

impl AV1EncLoopRestorationFlags {
    /// Makes the record from its fields, in their order.
    pub fn new(
        yframe_restoration_type: u16,
        cbframe_restoration_type: u16,
        crframe_restoration_type: u16,
        lr_unit_shift: u16,
        lr_uv_shift: bool,
    ) -> (fields: Self)
        ensures
            fields == (AV1EncLoopRestorationFlags {
                yframe_restoration_type,
                cbframe_restoration_type,
                crframe_restoration_type,
                lr_unit_shift,
                lr_uv_shift,
            }),
    {
        AV1EncLoopRestorationFlags {
            yframe_restoration_type,
            cbframe_restoration_type,
            crframe_restoration_type,
            lr_unit_shift,
            lr_uv_shift,
        }
    }
}

/// The `VAEncWarpedMotionParamsAV1` record of the driver.
#[derive(Clone, Copy, Debug, PartialEq, Eq, Default)]
pub struct EncWarpedMotionParamsAV1 {
    pub wmtype: u32,
    pub wmmat: [i32; 8],
    pub invalid: u8,
}

impl EncWarpedMotionParamsAV1 {
    /// Makes the record from its fields, in their order.
    pub fn new(
        wmtype: u32,
        wmmat: [i32; 8],
        invalid: u8,
    ) -> (fields: Self)
        ensures
            fields == (EncWarpedMotionParamsAV1 {
                wmtype,
                wmmat,
                invalid,
            }),
    {
        EncWarpedMotionParamsAV1 {
            wmtype,
            wmmat,
            invalid,
        }
    }
}

/// The `tile_group_obu_hdr_info` flags of `VAEncPictureParameterBufferAV1`.
#[derive(Clone, Copy, Debug, PartialEq, Eq)]
pub struct AV1EncTileGroupObuHdrInfo {
    pub obu_extension_flag: bool,
    pub obu_has_size_field: bool,
    pub temporal_id: u8,
    pub spatial_id: u8,
}

impl AV1EncTileGroupObuHdrInfo {
    /// Makes the record from its fields, in their order.
    pub fn new(
        obu_extension_flag: bool,
        obu_has_size_field: bool,
        temporal_id: u8,
        spatial_id: u8,
    ) -> (fields: Self)
        ensures
            fields == (AV1EncTileGroupObuHdrInfo {
                obu_extension_flag,
                obu_has_size_field,
                temporal_id,
                spatial_id,
            }),
    {
        AV1EncTileGroupObuHdrInfo {
            obu_extension_flag,
            obu_has_size_field,
            temporal_id,
            spatial_id,
        }
    }
}

/// The `VAEncPictureParameterBufferAV1` record of the driver.
#[derive(Clone, Copy, Debug, PartialEq, Eq)]
pub struct EncPictureParameterBufferAV1 {
    pub frame_width_minus_1: u16,
    pub frame_height_minus_1: u16,
    pub reconstructed_frame: VASurfaceID,
    pub coded_buf: VABufferID,
    pub reference_frames: [VASurfaceID; 8],
    pub ref_frame_idx: [u8; 7],
    pub hierarchical_level_plus1: u8,
    pub primary_ref_frame: u8,
    pub order_hint: u8,
    pub refresh_frame_flags: u8,
    pub ref_frame_ctrl_l0: RefFrameCtrlAV1,
    pub ref_frame_ctrl_l1: RefFrameCtrlAV1,
    pub picture_flags: AV1EncPictureFlags,
    pub seg_id_block_size: u8,
    pub num_tile_groups_minus1: u8,
    pub temporal_id: u8,
    pub filter_level: [u8; 2],
    pub filter_level_u: u8,
    pub filter_level_v: u8,
    pub loop_filter_flags: AV1EncLoopFilterFlags,
    pub superres_scale_denominator: u8,
    pub interpolation_filter: u8,
    pub ref_deltas: [i8; 8],
    pub mode_deltas: [i8; 2],
    pub base_qindex: u8,
    pub y_dc_delta_q: i8,
    pub u_dc_delta_q: i8,
    pub u_ac_delta_q: i8,
    pub v_dc_delta_q: i8,
    pub v_ac_delta_q: i8,
    pub min_base_qindex: u8,
    pub max_base_qindex: u8,
    pub qmatrix_flags: AV1EncQMatrixFlags,
    pub mode_control_flags: AV1EncModeControlFlags,
    pub segments: EncSegParamAV1,
    pub tile_cols: u8,
    pub tile_rows: u8,
    pub width_in_sbs_minus_1: [u16; 63],
    pub height_in_sbs_minus_1: [u16; 63],
    pub context_update_tile_id: u16,
    pub cdef_damping_minus_3: u8,
    pub cdef_bits: u8,
    pub cdef_y_strengths: [u8; 8],
    pub cdef_uv_strengths: [u8; 8],
    pub loop_restoration_flags: AV1EncLoopRestorationFlags,
    pub wm: [EncWarpedMotionParamsAV1; 7],
    pub bit_offset_qindex: u32,
    pub bit_offset_segmentation: u32,
    pub bit_offset_loopfilter_params: u32,
    pub bit_offset_cdef_params: u32,
    pub size_in_bits_cdef_params: u32,
    pub byte_offset_frame_hdr_obu_size: u32,
    pub size_in_bits_frame_hdr_obu: u32,
    pub tile_group_obu_hdr_info: AV1EncTileGroupObuHdrInfo,
    pub number_skip_frames: u8,
    pub skip_frames_reduced_size: i32,
}

impl EncPictureParameterBufferAV1 {
    /// Makes the record from its fields, in their order.
    pub fn new(
        frame_width_minus_1: u16,
        frame_height_minus_1: u16,
        reconstructed_frame: VASurfaceID,
        coded_buf: VABufferID,
        reference_frames: [VASurfaceID; 8],
        ref_frame_idx: [u8; 7],
        hierarchical_level_plus1: u8,
        primary_ref_frame: u8,
        order_hint: u8,
        refresh_frame_flags: u8,
        ref_frame_ctrl_l0: &RefFrameCtrlAV1,
        ref_frame_ctrl_l1: &RefFrameCtrlAV1,
        picture_flags: &AV1EncPictureFlags,
        seg_id_block_size: u8,
        num_tile_groups_minus1: u8,
        temporal_id: u8,
        filter_level: [u8; 2],
        filter_level_u: u8,
        filter_level_v: u8,
        loop_filter_flags: &AV1EncLoopFilterFlags,
        superres_scale_denominator: u8,
        interpolation_filter: u8,
        ref_deltas: [i8; 8],
        mode_deltas: [i8; 2],
        base_qindex: u8,
        y_dc_delta_q: i8,
        u_dc_delta_q: i8,
        u_ac_delta_q: i8,
        v_dc_delta_q: i8,
        v_ac_delta_q: i8,
        min_base_qindex: u8,
        max_base_qindex: u8,
        qmatrix_flags: &AV1EncQMatrixFlags,
        mode_control_flags: &AV1EncModeControlFlags,
        segments: &EncSegParamAV1,
        tile_cols: u8,
        tile_rows: u8,
        width_in_sbs_minus_1: [u16; 63],
        height_in_sbs_minus_1: [u16; 63],
        context_update_tile_id: u16,
        cdef_damping_minus_3: u8,
        cdef_bits: u8,
        cdef_y_strengths: [u8; 8],
        cdef_uv_strengths: [u8; 8],
        loop_restoration_flags: &AV1EncLoopRestorationFlags,
        wm: [EncWarpedMotionParamsAV1; 7],
        bit_offset_qindex: u32,
        bit_offset_segmentation: u32,
        bit_offset_loopfilter_params: u32,
        bit_offset_cdef_params: u32,
        size_in_bits_cdef_params: u32,
        byte_offset_frame_hdr_obu_size: u32,
        size_in_bits_frame_hdr_obu: u32,
        tile_group_obu_hdr_info: &AV1EncTileGroupObuHdrInfo,
        number_skip_frames: u8,
        skip_frames_reduced_size: i32,
    ) -> (fields: Self)
        ensures
            fields == (EncPictureParameterBufferAV1 {
                frame_width_minus_1,
                frame_height_minus_1,
                reconstructed_frame,
                coded_buf,
                reference_frames,
                ref_frame_idx,
                hierarchical_level_plus1,
                primary_ref_frame,
                order_hint,
                refresh_frame_flags,
                ref_frame_ctrl_l0: *ref_frame_ctrl_l0,
                ref_frame_ctrl_l1: *ref_frame_ctrl_l1,
                picture_flags: *picture_flags,
                seg_id_block_size,
                num_tile_groups_minus1,
                temporal_id,
                filter_level,
                filter_level_u,
                filter_level_v,
                loop_filter_flags: *loop_filter_flags,
                superres_scale_denominator,
                interpolation_filter,
                ref_deltas,
                mode_deltas,
                base_qindex,
                y_dc_delta_q,
                u_dc_delta_q,
                u_ac_delta_q,
                v_dc_delta_q,
                v_ac_delta_q,
                min_base_qindex,
                max_base_qindex,
                qmatrix_flags: *qmatrix_flags,
                mode_control_flags: *mode_control_flags,
                segments: *segments,
                tile_cols,
                tile_rows,
                width_in_sbs_minus_1,
                height_in_sbs_minus_1,
                context_update_tile_id,
                cdef_damping_minus_3,
                cdef_bits,
                cdef_y_strengths,
                cdef_uv_strengths,
                loop_restoration_flags: *loop_restoration_flags,
                wm,
                bit_offset_qindex,
                bit_offset_segmentation,
                bit_offset_loopfilter_params,
                bit_offset_cdef_params,
                size_in_bits_cdef_params,
                byte_offset_frame_hdr_obu_size,
                size_in_bits_frame_hdr_obu,
                tile_group_obu_hdr_info: *tile_group_obu_hdr_info,
                number_skip_frames,
                skip_frames_reduced_size,
            }),
    {
        EncPictureParameterBufferAV1 {
            frame_width_minus_1,
            frame_height_minus_1,
            reconstructed_frame,
            coded_buf,
            reference_frames,
            ref_frame_idx,
            hierarchical_level_plus1,
            primary_ref_frame,
            order_hint,
            refresh_frame_flags,
            ref_frame_ctrl_l0: *ref_frame_ctrl_l0,
            ref_frame_ctrl_l1: *ref_frame_ctrl_l1,
            picture_flags: *picture_flags,
            seg_id_block_size,
            num_tile_groups_minus1,
            temporal_id,
            filter_level,
            filter_level_u,
            filter_level_v,
            loop_filter_flags: *loop_filter_flags,
            superres_scale_denominator,
            interpolation_filter,
            ref_deltas,
            mode_deltas,
            base_qindex,
            y_dc_delta_q,
            u_dc_delta_q,
            u_ac_delta_q,
            v_dc_delta_q,
            v_ac_delta_q,
            min_base_qindex,
            max_base_qindex,
            qmatrix_flags: *qmatrix_flags,
            mode_control_flags: *mode_control_flags,
            segments: *segments,
            tile_cols,
            tile_rows,
            width_in_sbs_minus_1,
            height_in_sbs_minus_1,
            context_update_tile_id,
            cdef_damping_minus_3,
            cdef_bits,
            cdef_y_strengths,
            cdef_uv_strengths,
            loop_restoration_flags: *loop_restoration_flags,
            wm,
            bit_offset_qindex,
            bit_offset_segmentation,
            bit_offset_loopfilter_params,
            bit_offset_cdef_params,
            size_in_bits_cdef_params,
            byte_offset_frame_hdr_obu_size,
            size_in_bits_frame_hdr_obu,
            tile_group_obu_hdr_info: *tile_group_obu_hdr_info,
            number_skip_frames,
            skip_frames_reduced_size,
        }
    }
}

/// The `VAEncTileGroupBufferAV1` record of the driver.
#[derive(Clone, Copy, Debug, PartialEq, Eq)]
pub struct EncTileGroupBufferAV1 {
    pub tg_start: u8,
    pub tg_end: u8,
}

impl EncTileGroupBufferAV1 {
    /// Makes the record from its fields, in their order.
    pub fn new(
        tg_start: u8,
        tg_end: u8,
    ) -> (fields: Self)
        ensures
            fields == (EncTileGroupBufferAV1 {
                tg_start,
                tg_end,
            }),
    {
        EncTileGroupBufferAV1 {
            tg_start,
            tg_end,
        }
    }
}

} // verus!
