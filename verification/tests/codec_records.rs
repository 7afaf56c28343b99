use libva::AV1EncLoopFilterFlags;
use libva::AV1LoopRestorationFields;
use libva::AV1SegmentInfoFields;
use libva::AV1Segmentation;
use libva::AV1WarpedMotionParams;
use libva::BoolCoderContextVPX;
use libva::CodedBufferVP9Status;
use libva::EncSegParamAV1;
use libva::EncSegParamFlagsAV1;
use libva::EncSliceParameterBufferJPEG;
use libva::EncSliceParameterBufferJPEGComponent;
use libva::EncTileGroupBufferAV1;
use libva::HevcEncPicSccFields;
use libva::HevcEncSeqSccFields;
use libva::HevcSliceExtFlags;
use libva::HuffmanTableBufferJPEGBaseline;
use libva::HuffmanTableBufferJPEGBaselineHuffmanTable;
use libva::IQMatrixBufferJPEGBaseline;
use libva::IQMatrixBufferVP8;
use libva::PicFlags;
use libva::PictureHEVC;
use libva::PictureParameterBufferJPEGBaselineComponent;
use libva::ProbabilityDataBufferVP8;
use libva::QMatrixBufferJPEG;
use libva::SegmentParameterVP9;
use libva::SliceParameterBufferVP9;
use libva::VASliceParameterBufferJPEGBaselineComponent;
use libva::VP9SegmentFlags;

#[test]
fn vp8_records() {
    let context = BoolCoderContextVPX::new(255, 1, 7);
    assert_eq!((context.range, context.value, context.count), (255, 1, 7));
    let mut index = [[0u16; 6]; 4];
    index[3][5] = 127;
    let matrix = IQMatrixBufferVP8::new(index);
    assert_eq!(matrix.quantization_index[3][5], 127);
    assert_eq!(matrix.inner().quantization_index, index);
    let mut probs = [[[[0u8; 11]; 3]; 8]; 4];
    probs[1][2][0][10] = 200;
    let data = ProbabilityDataBufferVP8::new(probs);
    assert_eq!(data.dct_coeff_probs[1][2][0][10], 200);
    assert_eq!(data.inner(), &data);
}

#[test]
fn vp9_records() {
    let flags = VP9SegmentFlags::new(1, 2, 0);
    assert_eq!(
        (flags.segment_reference_enabled, flags.segment_reference, flags.segment_reference_skipped),
        (1, 2, 0)
    );
    let segment = SegmentParameterVP9::new(&flags, [[1; 2]; 4], 10, 20, 11, 21);
    assert_eq!(segment.segment_flags, flags);
    assert_eq!(segment.filter_level, [[1; 2]; 4]);
    assert_eq!((segment.luma_ac_quant_scale, segment.luma_dc_quant_scale), (10, 20));
    assert_eq!((segment.chroma_ac_quant_scale, segment.chroma_dc_quant_scale), (11, 21));
    let slice = SliceParameterBufferVP9::new(1000, 4, 0, [segment; 8]);
    assert_eq!((slice.slice_data_size, slice.slice_data_offset, slice.slice_data_flag), (1000, 4, 0));
    assert_eq!(slice.seg_param[7], segment);
    let status = CodedBufferVP9Status::new(60, 10, 1, 1280, 720);
    assert_eq!(status.base_qp_index, 60);
    assert_eq!((status.next_frame_width, status.next_frame_height), (1280, 720));
}

#[test]
fn jpeg_decoding_records() {
    let component = PictureParameterBufferJPEGBaselineComponent::new(1, 2, 2, 0);
    assert_eq!(component.component_id, 1);
    assert_eq!((component.h_sampling_factor, component.v_sampling_factor), (2, 2));
    assert_eq!(component.inner().quantiser_table_selector, 0);
    let selector = VASliceParameterBufferJPEGBaselineComponent::new(3, 1, 0);
    assert_eq!((selector.component_selector, selector.dc_table_selector, selector.ac_table_selector), (3, 1, 0));
    let matrix = IQMatrixBufferJPEGBaseline::new([1, 1, 0, 0], [[9; 64]; 4]);
    assert_eq!(matrix.load_quantiser_table, [1, 1, 0, 0]);
    assert_eq!(matrix.quantiser_table[3][63], 9);
    let table = HuffmanTableBufferJPEGBaselineHuffmanTable::new([1; 16], [2; 12], [3; 16], [4; 162], [0; 2]);
    assert_eq!(table.dc_values, [2; 12]);
    assert_eq!(table.ac_values[161], 4);
    let tables = HuffmanTableBufferJPEGBaseline::new([1, 0], [table; 2]);
    assert_eq!(tables.load_huffman_table, [1, 0]);
    assert_eq!(tables.huffman_table[1], table);
}

#[test]
fn jpeg_encoding_records() {
    let flags = PicFlags::new(0, 0, 1, 0, 0);
    assert_eq!((flags.profile, flags.progressive, flags.huffman), (0, 0, 1));
    let component = EncSliceParameterBufferJPEGComponent::new(1, 0, 0);
    let slice = EncSliceParameterBufferJPEG::new(0, 3, [component; 4]);
    assert_eq!((slice.restart_interval, slice.num_components), (0, 3));
    assert_eq!(slice.components[2], component);
    assert_eq!(slice.inner().num_components, 3);
    let matrix = QMatrixBufferJPEG::new(1, 1, [16; 64], [17; 64]);
    assert_eq!((matrix.load_lum_quantiser_matrix, matrix.load_chroma_quantiser_matrix), (1, 1));
    assert_eq!(matrix.lum_quantiser_matrix[0], 16);
    assert_eq!(matrix.chroma_quantiser_matrix[63], 17);
}

#[test]
fn av1_records() {
    let info = AV1SegmentInfoFields::new(1, 0, 1, 0);
    assert_eq!((info.enabled, info.update_map, info.temporal_update, info.update_data), (1, 0, 1, 0));
    let mut data = [[0i16; 8]; 8];
    data[7][0] = -5;
    let segmentation = AV1Segmentation::new(&info, data, [0xff; 8]);
    assert_eq!(segmentation.segment_info_fields, info);
    assert_eq!(segmentation.feature_data[7][0], -5);
    assert_eq!(segmentation.feature_mask, [0xff; 8]);
    let restoration = AV1LoopRestorationFields::new(1, 2, 3, 1, 0);
    assert_eq!(restoration.crframe_restoration_type, 3);
    let motion = AV1WarpedMotionParams::new(2, [1, 2, 3, 4, 5, 6, 7, 8], 0);
    assert_eq!(motion.wmtype, 2);
    assert_eq!(motion.wmmat[7], 8);
    let flags = AV1EncLoopFilterFlags::new(3, true, false);
    assert_eq!(flags.sharpness_level, 3);
    assert!(flags.mode_ref_delta_enabled);
    assert!(!flags.mode_ref_delta_update);
    let seg_flags = EncSegParamFlagsAV1::new(true, true, false);
    let segments = EncSegParamAV1::new(&seg_flags, 4, data, [1; 8]);
    assert_eq!(segments.seg_flags, seg_flags);
    assert_eq!(segments.segment_number, 4);
    let group = EncTileGroupBufferAV1::new(0, 3);
    assert_eq!((group.tg_start, group.tg_end), (0, 3));
}

#[test]
fn hevc_records() {
    let flags = HevcSliceExtFlags::new(1, 0);
    assert_eq!((flags.cu_chroma_qp_offset_enabled_flag, flags.use_integer_mv_flag), (1, 0));
    assert_eq!(flags.inner(), &flags);
    assert_eq!(HevcEncSeqSccFields::new(1).palette_mode_enabled_flag, 1);
    assert_eq!(HevcEncPicSccFields::new(1).pps_curr_pic_ref_enabled_flag, 1);
    assert_eq!(PictureHEVC::default(), PictureHEVC::new(0, 0, 0));
}
