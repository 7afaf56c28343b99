//! Parameter records of JPEG encoding.

use vstd::prelude::*;
use crate::bindings::VABufferID;
use crate::bindings::VASurfaceID;

verus! {

/// The `pic_flags` flags of `VAEncPictureParameterBufferJPEG`.
#[derive(Clone, Copy, Debug, PartialEq, Eq)]
pub struct PicFlags {
    pub profile: u32,
    pub progressive: u32,
    pub huffman: u32,
    pub interleaved: u32,
    pub differential: u32,
}

impl PicFlags {
    /// Makes the record from its fields, in their order.
    pub fn new(
        profile: u32,
        progressive: u32,
        huffman: u32,
        interleaved: u32,
        differential: u32,
    ) -> (fields: Self)
        ensures
            fields == (PicFlags {
                profile,
                progressive,
                huffman,
                interleaved,
                differential,
            }),
    {
        PicFlags {
            profile,
            progressive,
            huffman,
            interleaved,
            differential,
        }
    }
}

/// The `VAEncPictureParameterBufferJPEG` record of the driver.
#[derive(Clone, Copy, Debug, PartialEq, Eq)]
pub struct EncPictureParameterBufferJPEG {
    pub reconstructed_picture: VASurfaceID,
    pub picture_width: u16,
    pub picture_height: u16,
    pub coded_buf: VABufferID,
    pub pic_flags: PicFlags,
    pub sample_bit_depth: u8,
    pub num_scan: u8,
    pub num_components: u16,
    pub component_id: [u8; 4],
    pub quantiser_table_selector: [u8; 4],
    pub quality: u8,
}

impl EncPictureParameterBufferJPEG {
    /// Makes the record from its fields, in their order.
    pub fn new(
        reconstructed_picture: VASurfaceID,
        picture_width: u16,
        picture_height: u16,
        coded_buf: VABufferID,
        pic_flags: PicFlags,
        sample_bit_depth: u8,
        num_scan: u8,
        num_components: u16,
        component_id: [u8; 4],
        quantiser_table_selector: [u8; 4],
        quality: u8,
    ) -> (fields: Self)
        ensures
            fields == (EncPictureParameterBufferJPEG {
                reconstructed_picture,
                picture_width,
                picture_height,
                coded_buf,
                pic_flags,
                sample_bit_depth,
                num_scan,
                num_components,
                component_id,
                quantiser_table_selector,
                quality,
            }),
    {
        EncPictureParameterBufferJPEG {
            reconstructed_picture,
            picture_width,
            picture_height,
            coded_buf,
            pic_flags,
            sample_bit_depth,
            num_scan,
            num_components,
            component_id,
            quantiser_table_selector,
            quality,
        }
    }

    /// Returns the record as the driver is handed it.
    pub fn inner(&self) -> (inner: &Self)
        ensures
            inner == self,
    {
        self
    }
}

/// One entry of the `components` list of `VAEncSliceParameterBufferJPEG`.
#[derive(Clone, Copy, Debug, PartialEq, Eq)]
pub struct EncSliceParameterBufferJPEGComponent {
    pub component_selector: u8,
    pub dc_table_selector: u8,
    pub ac_table_selector: u8,
}

impl EncSliceParameterBufferJPEGComponent {
    /// Makes the record from its fields, in their order.
    pub fn new(
        component_selector: u8,
        dc_table_selector: u8,
        ac_table_selector: u8,
    ) -> (fields: Self)
        ensures
            fields == (EncSliceParameterBufferJPEGComponent {
                component_selector,
                dc_table_selector,
                ac_table_selector,
            }),
    {
        EncSliceParameterBufferJPEGComponent {
            component_selector,
            dc_table_selector,
            ac_table_selector,
        }
    }

    /// Returns the record as the driver is handed it.
    pub fn inner(&self) -> (inner: &Self)
        ensures
            inner == self,
    {
        self
    }
}

/// The `VAEncSliceParameterBufferJPEG` record of the driver.
#[derive(Clone, Copy, Debug, PartialEq, Eq)]
pub struct EncSliceParameterBufferJPEG {
    pub restart_interval: u16,
    pub num_components: u16,
    pub components: [EncSliceParameterBufferJPEGComponent; 4],
}

impl EncSliceParameterBufferJPEG {
    /// Makes the record from its fields, in their order.
    pub fn new(
        restart_interval: u16,
        num_components: u16,
        components: [EncSliceParameterBufferJPEGComponent; 4],
    ) -> (fields: Self)
        ensures
            fields == (EncSliceParameterBufferJPEG {
                restart_interval,
                num_components,
                components,
            }),
    {
        EncSliceParameterBufferJPEG {
            restart_interval,
            num_components,
            components,
        }
    }

    /// Returns the record as the driver is handed it.
    pub fn inner(&self) -> (inner: &Self)
        ensures
            inner == self,
    {
        self
    }
}

/// The `VAQMatrixBufferJPEG` record of the driver.
#[derive(Clone, Copy, Debug, PartialEq, Eq)]
pub struct QMatrixBufferJPEG {
    pub load_lum_quantiser_matrix: i32,
    pub load_chroma_quantiser_matrix: i32,
    pub lum_quantiser_matrix: [u8; 64],
    pub chroma_quantiser_matrix: [u8; 64],
}

impl QMatrixBufferJPEG {
    /// Makes the record from its fields, in their order.
    pub fn new(
        load_lum_quantiser_matrix: i32,
        load_chroma_quantiser_matrix: i32,
        lum_quantiser_matrix: [u8; 64],
        chroma_quantiser_matrix: [u8; 64],
    ) -> (fields: Self)
        ensures
            fields == (QMatrixBufferJPEG {
                load_lum_quantiser_matrix,
                load_chroma_quantiser_matrix,
                lum_quantiser_matrix,
                chroma_quantiser_matrix,
            }),
    {
        QMatrixBufferJPEG {
            load_lum_quantiser_matrix,
            load_chroma_quantiser_matrix,
            lum_quantiser_matrix,
            chroma_quantiser_matrix,
        }
    }

    /// Returns the record as the driver is handed it.
    pub fn inner(&self) -> (inner: &Self)
        ensures
            inner == self,
    {
        self
    }
}

} // verus!
