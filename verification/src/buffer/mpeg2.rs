//! Parameter records of MPEG-2 decoding.

use vstd::prelude::*;
use crate::bindings::VASurfaceID;

verus! {

/// The `picture_coding_extension` flags of `VAPictureParameterBufferMPEG2`.
#[derive(Clone, Copy, Debug, PartialEq, Eq)]
pub struct MPEG2PictureCodingExtension {
    pub intra_dc_precision: u32,
    pub picture_structure: u32,
    pub top_field_first: u32,
    pub frame_pred_frame_dct: u32,
    pub concealment_motion_vectors: u32,
    pub q_scale_type: u32,
    pub intra_vlc_format: u32,
    pub alternate_scan: u32,
    pub repeat_first_field: u32,
    pub progressive_frame: u32,
    pub is_first_field: u32,
}

impl MPEG2PictureCodingExtension {
    /// Makes the record from its fields, in their order.
    pub fn new(
        intra_dc_precision: u32,
        picture_structure: u32,
        top_field_first: u32,
        frame_pred_frame_dct: u32,
        concealment_motion_vectors: u32,
        q_scale_type: u32,
        intra_vlc_format: u32,
        alternate_scan: u32,
        repeat_first_field: u32,
        progressive_frame: u32,
        is_first_field: u32,
    ) -> (fields: Self)
        ensures
            fields == (MPEG2PictureCodingExtension {
                intra_dc_precision,
                picture_structure,
                top_field_first,
                frame_pred_frame_dct,
                concealment_motion_vectors,
                q_scale_type,
                intra_vlc_format,
                alternate_scan,
                repeat_first_field,
                progressive_frame,
                is_first_field,
            }),
    {
        MPEG2PictureCodingExtension {
            intra_dc_precision,
            picture_structure,
            top_field_first,
            frame_pred_frame_dct,
            concealment_motion_vectors,
            q_scale_type,
            intra_vlc_format,
            alternate_scan,
            repeat_first_field,
            progressive_frame,
            is_first_field,
        }
    }

    /// Returns the record as the driver is handed it.
    pub fn inner(&self) -> (inner: &Self)
        ensures
            inner == self,
    {
        self
    }
}

/// The `VAPictureParameterBufferMPEG2` record of the driver.
#[derive(Clone, Copy, Debug, PartialEq, Eq)]
pub struct PictureParameterBufferMPEG2 {
    pub horizontal_size: u16,
    pub vertical_size: u16,
    pub forward_reference_picture: VASurfaceID,
    pub backward_reference_picture: VASurfaceID,
    pub picture_coding_type: i32,
    pub f_code: i32,
    pub picture_coding_extension: MPEG2PictureCodingExtension,
}

impl PictureParameterBufferMPEG2 {
    /// Makes the record from its fields, in their order.
    pub fn new(
        horizontal_size: u16,
        vertical_size: u16,
        forward_reference_picture: VASurfaceID,
        backward_reference_picture: VASurfaceID,
        picture_coding_type: i32,
        f_code: i32,
        picture_coding_extension: &MPEG2PictureCodingExtension,
    ) -> (fields: Self)
        ensures
            fields == (PictureParameterBufferMPEG2 {
                horizontal_size,
                vertical_size,
                forward_reference_picture,
                backward_reference_picture,
                picture_coding_type,
                f_code,
                picture_coding_extension: *picture_coding_extension,
            }),
    {
        PictureParameterBufferMPEG2 {
            horizontal_size,
            vertical_size,
            forward_reference_picture,
            backward_reference_picture,
            picture_coding_type,
            f_code,
            picture_coding_extension: *picture_coding_extension,
        }
    }

    /// Returns the record as the driver is handed it.
    pub fn inner(&self) -> (inner: &Self)
        ensures
            inner == self,
    {
        self
    }
}

/// The `VASliceParameterBufferMPEG2` record of the driver.
#[derive(Clone, Copy, Debug, PartialEq, Eq)]
pub struct SliceParameterBufferMPEG2 {
    pub slice_data_size: u32,
    pub slice_data_offset: u32,
    pub slice_data_flag: u32,
    pub macroblock_offset: u32,
    pub slice_horizontal_position: u32,
    pub slice_vertical_position: u32,
    pub quantiser_scale_code: i32,
    pub intra_slice_flag: i32,
}

impl SliceParameterBufferMPEG2 {
    /// Makes the record from its fields, in their order.
    pub fn new(
        slice_data_size: u32,
        slice_data_offset: u32,
        slice_data_flag: u32,
        macroblock_offset: u32,
        slice_horizontal_position: u32,
        slice_vertical_position: u32,
        quantiser_scale_code: i32,
        intra_slice_flag: i32,
    ) -> (fields: Self)
        ensures
            fields == (SliceParameterBufferMPEG2 {
                slice_data_size,
                slice_data_offset,
                slice_data_flag,
                macroblock_offset,
                slice_horizontal_position,
                slice_vertical_position,
                quantiser_scale_code,
                intra_slice_flag,
            }),
    {
        SliceParameterBufferMPEG2 {
            slice_data_size,
            slice_data_offset,
            slice_data_flag,
            macroblock_offset,
            slice_horizontal_position,
            slice_vertical_position,
            quantiser_scale_code,
            intra_slice_flag,
        }
    }

    /// Returns the record as the driver is handed it.
    pub fn inner(&self) -> (inner: &Self)
        ensures
            inner == self,
    {
        self
    }
}

/// The `VAIQMatrixBufferMPEG2` record of the driver.
#[derive(Clone, Copy, Debug, PartialEq, Eq)]
pub struct IQMatrixBufferMPEG2 {
    pub load_intra_quantiser_matrix: i32,
    pub load_non_intra_quantiser_matrix: i32,
    pub load_chroma_intra_quantiser_matrix: i32,
    pub load_chroma_non_intra_quantiser_matrix: i32,
    pub intra_quantiser_matrix: [u8; 64],
    pub non_intra_quantiser_matrix: [u8; 64],
    pub chroma_intra_quantiser_matrix: [u8; 64],
    pub chroma_non_intra_quantiser_matrix: [u8; 64],
}

impl IQMatrixBufferMPEG2 {
    /// Makes the record from its fields, in their order.
    pub fn new(
        load_intra_quantiser_matrix: i32,
        load_non_intra_quantiser_matrix: i32,
        load_chroma_intra_quantiser_matrix: i32,
        load_chroma_non_intra_quantiser_matrix: i32,
        intra_quantiser_matrix: [u8; 64],
        non_intra_quantiser_matrix: [u8; 64],
        chroma_intra_quantiser_matrix: [u8; 64],
        chroma_non_intra_quantiser_matrix: [u8; 64],
    ) -> (fields: Self)
        ensures
            fields == (IQMatrixBufferMPEG2 {
                load_intra_quantiser_matrix,
                load_non_intra_quantiser_matrix,
                load_chroma_intra_quantiser_matrix,
                load_chroma_non_intra_quantiser_matrix,
                intra_quantiser_matrix,
                non_intra_quantiser_matrix,
                chroma_intra_quantiser_matrix,
                chroma_non_intra_quantiser_matrix,
            }),
    {
        IQMatrixBufferMPEG2 {
            load_intra_quantiser_matrix,
            load_non_intra_quantiser_matrix,
            load_chroma_intra_quantiser_matrix,
            load_chroma_non_intra_quantiser_matrix,
            intra_quantiser_matrix,
            non_intra_quantiser_matrix,
            chroma_intra_quantiser_matrix,
            chroma_non_intra_quantiser_matrix,
        }
    }

    /// Returns the record as the driver is handed it.
    pub fn inner(&self) -> (inner: &Self)
        ensures
            inner == self,
    {
        self
    }
}

} // verus!
