use libva::buffer::av1::AV1SeqFields;
use libva::buffer::av1::AV1EncSeqFields;
use libva::buffer::enc_misc::MiscEncParamBuffer;
use libva::buffer::h264::EncSequenceParameterBufferH264;
use libva::buffer::h264::H264EncFrameCropOffsets;
use libva::buffer::h264::H264EncMacroblockInfo;
use libva::buffer::h264::H264EncSeqFields;
use libva::buffer::h264::H264VuiFields;
use libva::buffer::h264::PictureH264;
use libva::buffer::hevc::HevcLongSliceFlags;
use libva::buffer::hevc::PictureHEVC;
use libva::buffer::mpeg2::IQMatrixBufferMPEG2;
use libva::buffer::mpeg2::MPEG2PictureCodingExtension;
use libva::buffer::mpeg2::PictureParameterBufferMPEG2;
use libva::buffer::mpeg2::SliceParameterBufferMPEG2;
use libva::buffer::proc_pipeline::BlendState;
use libva::buffer::proc_pipeline::HdrMetaData;
use libva::buffer::proc_pipeline::ProcColorProperties;
use libva::buffer::proc_pipeline::ProcPipelineParameterBuffer;
use libva::constants::VA_INVALID_ID;
use libva::constants::VA_INVALID_SURFACE;
use libva::EncMacroblockParameterBufferH264;
use libva::EncMiscParameterBufferMaxFrameSize;
use libva::EncMiscParameterFrameRate;
use libva::EncMiscParameterHRD;
use libva::EncMiscParameterBufferQualityLevel;
use libva::EncMiscParameterMaxSliceSize;
use libva::EncMiscParameterQuantization;
use libva::EncMiscParameterRateControl;
use libva::EncMiscParameterSkipFrame;
use libva::RcFlags;
use libva::bindings::VARectangle;

#[test]
fn mpeg2_records_hold_what_they_were_made_from() {
    let extension = MPEG2PictureCodingExtension::new(0, 3, 0, 1, 0, 0, 0, 0, 0, 1, 1);
    assert_eq!(extension.intra_dc_precision, 0);
    assert_eq!(extension.picture_structure, 3);
    assert_eq!(extension.frame_pred_frame_dct, 1);
    assert_eq!(extension.progressive_frame, 1);
    assert_eq!(extension.is_first_field, 1);
    assert_eq!(extension.inner(), &extension);

    let picture = PictureParameterBufferMPEG2::new(16, 16, 0xffffffff, 0xffffffff, 1, 0xffff, &extension);
    assert_eq!(picture.horizontal_size, 16);
    assert_eq!(picture.vertical_size, 16);
    assert_eq!(picture.forward_reference_picture, VA_INVALID_SURFACE);
    assert_eq!(picture.backward_reference_picture, VA_INVALID_SURFACE);
    assert_eq!(picture.picture_coding_type, 1);
    assert_eq!(picture.f_code, 0xffff);
    assert_eq!(picture.picture_coding_extension, extension);
    assert_eq!(picture.inner().f_code, 0xffff);

    let slice = SliceParameterBufferMPEG2::new(150, 0, 0, 38, 0, 0, 2, 0);
    assert_eq!(slice.slice_data_size, 150);
    assert_eq!(slice.macroblock_offset, 38);
    assert_eq!(slice.quantiser_scale_code, 2);
    assert_eq!(slice.inner().intra_slice_flag, 0);

    let mut intra = [0u8; 64];
    intra[0] = 8;
    intra[63] = 83;
    let matrix = IQMatrixBufferMPEG2::new(1, 1, 0, 0, intra, [16; 64], [0; 64], [0; 64]);
    assert_eq!(matrix.load_intra_quantiser_matrix, 1);
    assert_eq!(matrix.load_chroma_intra_quantiser_matrix, 0);
    assert_eq!(matrix.intra_quantiser_matrix[63], 83);
    assert_eq!(matrix.non_intra_quantiser_matrix, [16; 64]);
}

#[test]
fn fields_are_taken_in_the_order_of_the_arguments() {
    let fields = H264EncSeqFields::new(1, 2, 3, 4, 5, 6, 7, 8, 9);
    assert_eq!(fields.chroma_format_idc, 1);
    assert_eq!(fields.frame_mbs_only_flag, 2);
    assert_eq!(fields.mb_adaptive_frame_field_flag, 3);
    assert_eq!(fields.seq_scaling_matrix_present_flag, 4);
    assert_eq!(fields.direct_8x8_inference_flag, 5);
    assert_eq!(fields.log2_max_frame_num_minus4, 6);
    assert_eq!(fields.pic_order_cnt_type, 7);
    assert_eq!(fields.log2_max_pic_order_cnt_lsb_minus4, 8);
    assert_eq!(fields.delta_pic_order_always_zero_flag, 9);

    let fields = AV1SeqFields::new(1, 2, 3, 4, 5, 6, 7, 8, 9, 10, 11, 12, 13, 14, 15, 16);
    assert_eq!(fields.still_picture, 1);
    assert_eq!(fields.enable_cdef, 10);
    assert_eq!(fields.film_grain_params_present, 16);

    let picture = PictureH264::new(VA_INVALID_ID, 1, 2, -3, 4);
    assert_eq!(picture.picture_id, VA_INVALID_ID);
    assert_eq!(picture.frame_idx, 1);
    assert_eq!(picture.flags, 2);
    assert_eq!(picture.top_field_order_cnt, -3);
    assert_eq!(picture.bottom_field_order_cnt, 4);

    let picture = PictureHEVC::new(9, -8, 7);
    assert_eq!(picture.picture_id(), 9);
    assert_eq!(picture.pic_order_cnt(), -8);
    assert_eq!(picture.flags(), 7);
}

#[test]
fn flags_of_the_av1_encoder_stay_flags() {
    let fields = AV1EncSeqFields::new(
        true, false, true, false, false, false, false, true, false, false, false, false, true, false, 2, true,
        false, true,
    );
    assert!(fields.still_picture);
    assert!(!fields.use_128x128_superblock);
    assert!(fields.enable_filter_intra);
    assert!(fields.enable_dual_filter);
    assert!(fields.enable_cdef);
    assert_eq!(fields.bit_depth_minus8, 2);
    assert!(fields.subsampling_x);
    assert!(!fields.subsampling_y);
    assert!(fields.mono_chrome);
}

fn h264_sequence(
    crop: Option<H264EncFrameCropOffsets>,
    vui: Option<H264VuiFields>,
) -> EncSequenceParameterBufferH264 {
    let seq_fields = H264EncSeqFields::new(1, 1, 0, 0, 0, 1, 0, 2, 0);
    EncSequenceParameterBufferH264::new(
        0, 10, 10, 30, 1, 0, 1, 4, 4, &seq_fields, 0, 0, 0, 0, 0, [0; 256], crop, vui, 255, 1, 1, 1, 60,
    )
}

#[test]
fn h264_sequence_without_cropping_and_usability_information() {
    let sequence = h264_sequence(None, None);
    assert_eq!(sequence.level_idc, 10);
    assert_eq!(sequence.intra_idr_period, 30);
    assert_eq!(sequence.picture_width_in_mbs, 4);
    assert_eq!(sequence.frame_cropping_flag, 0);
    assert_eq!(
        (
            sequence.frame_crop_left_offset,
            sequence.frame_crop_right_offset,
            sequence.frame_crop_top_offset,
            sequence.frame_crop_bottom_offset
        ),
        (0, 0, 0, 0)
    );
    assert_eq!(sequence.vui_parameters_present_flag, 0);
    assert_eq!(sequence.vui_fields, H264VuiFields::new(0, 0, 0, 0, 0, 0, 0, 0));
    assert_eq!(sequence.aspect_ratio_idc, 255);
    assert_eq!(sequence.time_scale, 60);
}

#[test]
fn h264_sequence_with_cropping_and_usability_information() {
    let vui = H264VuiFields::new(1, 1, 0, 0, 0, 1, 0, 0);
    let sequence = h264_sequence(Some(H264EncFrameCropOffsets::new(1, 2, 3, 4)), Some(vui));
    assert_eq!(sequence.frame_cropping_flag, 1);
    assert_eq!(sequence.frame_crop_left_offset, 1);
    assert_eq!(sequence.frame_crop_right_offset, 2);
    assert_eq!(sequence.frame_crop_top_offset, 3);
    assert_eq!(sequence.frame_crop_bottom_offset, 4);
    assert_eq!(sequence.vui_parameters_present_flag, 1);
    assert_eq!(sequence.vui_fields, vui);
    // Offsets that are all zero still count as cropping.
    let sequence = h264_sequence(Some(H264EncFrameCropOffsets::new(0, 0, 0, 0)), None);
    assert_eq!(sequence.frame_cropping_flag, 1);
    assert_eq!(sequence.vui_parameters_present_flag, 0);
}

#[test]
fn h264_macroblock_info_is_intra_or_inter() {
    let intra = H264EncMacroblockInfo::new_intra(1, 0xf);
    assert_eq!(intra, H264EncMacroblockInfo::Intra { pred_avail_override_flag: 1, pred_avail_flags: 0xf });
    assert_eq!(H264EncMacroblockInfo::new_inter(), H264EncMacroblockInfo::Inter);
    let buffer = EncMacroblockParameterBufferH264::new(26, &intra);
    assert_eq!(buffer.qp, 26);
    assert_eq!(buffer.info, intra);
}

#[test]
fn hevc_slice_can_be_marked_as_the_last_one() {
    let flags = HevcLongSliceFlags::new(0, 1, 2, 3, 4, 5, 6, 7, 8, 9, 10, 11);
    assert_eq!(flags.last_slice_of_pic, 0);
    let mut marked = flags;
    marked.last_slice_of_pic = 1;
    let mut slice = libva::SliceParameterBufferHEVC::new(
        100,
        0,
        0,
        8,
        0,
        [[0; 15]; 2],
        &flags,
        0,
        0,
        0,
        -26,
        0,
        0,
        0,
        0,
        0,
        0,
        [0; 15],
        [0; 15],
        [[0; 2]; 15],
        [[0; 2]; 15],
        [0; 15],
        [0; 15],
        [[0; 2]; 15],
        [[0; 2]; 15],
        5,
        0,
        0,
        0,
    );
    let before = slice;
    slice.set_as_last();
    assert_eq!(slice.long_slice_flags, marked);
    assert_eq!(slice.slice_data_size, before.slice_data_size);
    assert_eq!(slice.slice_qp_delta, before.slice_qp_delta);
    slice.set_as_last();
    assert_eq!(slice.long_slice_flags, marked);
}

#[test]
fn misc_parameters_carry_the_header_of_their_kind() {
    let rate = EncMiscParameterFrameRate::new(30, 1);
    assert_eq!(rate.inner().type_, 0);
    assert_eq!(rate.inner().value.framerate, 30);
    assert_eq!(rate.inner().value.temporal_id, 1);

    let flags = RcFlags::new(1, 0, 0, 2, 0, 0, 0, 0, 0);
    let control = EncMiscParameterRateControl::new(5_000_000, 90, 1500, 26, 1, 0, flags, 0, 51, 0, 0);
    assert_eq!(control.inner().type_, 1);
    assert_eq!(control.inner().value.bits_per_second, 5_000_000);
    assert_eq!(control.inner().value.rc_flags, flags);
    assert_eq!(control.inner().value.max_qp, 51);

    let slice = EncMiscParameterMaxSliceSize::new(1400);
    assert_eq!(slice.inner().type_, 2);
    assert_eq!(slice.inner().value.max_slice_size, 1400);

    let frame = EncMiscParameterBufferMaxFrameSize::new(65536);
    assert_eq!(frame.inner().type_, 4);
    assert_eq!(frame.inner().value.type_, 4);
    assert_eq!(frame.inner().value.max_frame_size, 65536);

    let skip = EncMiscParameterSkipFrame::new(1, 2, 300);
    assert_eq!(skip.inner().type_, 9);
    assert_eq!(skip.inner().value.num_skip_frames, 2);

    let hrd = EncMiscParameterHRD::new(1000, 2000);
    assert_eq!(hrd.inner().type_, 5);
    assert_eq!(hrd.inner().value.buffer_size, 2000);

    let quality = EncMiscParameterBufferQualityLevel::new(4);
    assert_eq!(quality.inner().type_, 6);
    assert_eq!(quality.inner().value.quality_level, 4);

    let quantization = EncMiscParameterQuantization::new(true, false, true, false);
    assert_eq!(quantization.inner().type_, 8);
    assert!(quantization.inner().value.disable_trellis);
    assert!(quantization.inner().value.enable_trellis_p);
    assert!(!quantization.inner().value.enable_trellis_b);

    let boxed = MiscEncParamBuffer::new_boxed(3, 5u8);
    assert_eq!(*boxed, MiscEncParamBuffer::new(3, 5u8));
}

#[test]
fn pipeline_counts_follow_the_lists() {
    let metadata = [1u8, 2, 3];
    let hdr = HdrMetaData::new(1, Some(&metadata), 3);
    assert_eq!(hdr.metadata, Some(&metadata[..]));
    let params = ProcPipelineParameterBuffer::new(
        7,
        Some(VARectangle { x: 0, y: 0, width: 64, height: 48 }),
        2,
        None,
        0xff00_0000,
        3,
        0,
        0,
        Some(vec![11, 12]),
        Some(vec![1]),
        None,
        0,
        Some(vec![BlendState::new(1, 0.5f32.to_bits(), 0, 1.0f32.to_bits())]),
        0,
        Some(vec![]),
        0,
        0,
        ProcColorProperties::new(1, 2, 3, 4, 5),
        ProcColorProperties::default(),
        0,
        Some(vec![hdr]),
    );
    let inner = params.inner();
    assert_eq!(inner.surface, 7);
    assert_eq!(inner.surface_region, Some(VARectangle { x: 0, y: 0, width: 64, height: 48 }));
    assert_eq!(inner.output_region, None);
    assert_eq!(inner.surface_color_standard, 2);
    assert_eq!(inner.output_color_standard, 3);
    assert_eq!(inner.num_filters, 2);
    assert_eq!(inner.filters, Some(vec![11, 12]));
    assert_eq!(inner.num_forward_references, 1);
    assert_eq!(inner.num_backward_references, 0);
    assert_eq!(inner.backward_references, None);
    assert_eq!(inner.num_additional_outputs, 0);
    assert_eq!(inner.additional_outputs, Some(vec![]));
    assert_eq!(f32::from_bits(inner.blend_state.as_ref().unwrap()[0].global_alpha), 0.5);
    assert_eq!(inner.input_color_properties.matrix_coefficients, 5);
    assert_eq!(inner.output_color_properties, ProcColorProperties::new(0, 0, 0, 0, 0));
    assert_eq!(inner.output_hdr_metadata.as_ref().unwrap()[0].metadata_size, 3);
}
