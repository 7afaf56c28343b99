//! Parameter records of baseline JPEG decoding.

use vstd::prelude::*;
use crate::bindings::VARectangle;

verus! {

/// One entry of the `components` list of `VAPictureParameterBufferJPEGBaseline`.
#[derive(Clone, Copy, Debug, PartialEq, Eq)]
pub struct PictureParameterBufferJPEGBaselineComponent {
    pub component_id: u8,
    pub h_sampling_factor: u8,
    pub v_sampling_factor: u8,
    pub quantiser_table_selector: u8,
}

impl PictureParameterBufferJPEGBaselineComponent {
    /// Makes the record from its fields, in their order.
    pub fn new(
        component_id: u8,
        h_sampling_factor: u8,
        v_sampling_factor: u8,
        quantiser_table_selector: u8,
    ) -> (fields: Self)
        ensures
            fields == (PictureParameterBufferJPEGBaselineComponent {
                component_id,
                h_sampling_factor,
                v_sampling_factor,
                quantiser_table_selector,
            }),
    {
        PictureParameterBufferJPEGBaselineComponent {
            component_id,
            h_sampling_factor,
            v_sampling_factor,
            quantiser_table_selector,
        }
    }

    /// Returns the record as the driver is handed it.
    pub fn inner(&self) -> (inner: &Self)
        ensures
            inner == self,
    {
        self
    }
}

/// The `VAPictureParameterBufferJPEGBaseline` record of the driver.
#[derive(Clone, Copy, Debug, PartialEq, Eq)]
pub struct PictureParameterBufferJPEGBaseline {
    pub picture_width: u16,
    pub picture_height: u16,
    pub components: [PictureParameterBufferJPEGBaselineComponent; 255],
    pub num_components: u8,
    pub color_space: u8,
    pub rotation: u32,
    pub crop_rectangle: VARectangle,
}

impl PictureParameterBufferJPEGBaseline {
    /// Makes the record from its fields, in their order.
    pub fn new(
        picture_width: u16,
        picture_height: u16,
        components: [PictureParameterBufferJPEGBaselineComponent; 255],
        num_components: u8,
        color_space: u8,
        rotation: u32,
        crop_rectangle: VARectangle,
    ) -> (fields: Self)
        ensures
            fields == (PictureParameterBufferJPEGBaseline {
                picture_width,
                picture_height,
                components,
                num_components,
                color_space,
                rotation,
                crop_rectangle,
            }),
    {
        PictureParameterBufferJPEGBaseline {
            picture_width,
            picture_height,
            components,
            num_components,
            color_space,
            rotation,
            crop_rectangle,
        }
    }

    /// Returns the record as the driver is handed it.
    pub fn inner(&self) -> (inner: &Self)
        ensures
            inner == self,
    {
        self
    }
}

/// One entry of the `components` list of `VASliceParameterBufferJPEGBaseline`.
#[derive(Clone, Copy, Debug, PartialEq, Eq)]
pub struct VASliceParameterBufferJPEGBaselineComponent {
    pub component_selector: u8,
    pub dc_table_selector: u8,
    pub ac_table_selector: u8,
}

impl VASliceParameterBufferJPEGBaselineComponent {
    /// Makes the record from its fields, in their order.
    pub fn new(
        component_selector: u8,
        dc_table_selector: u8,
        ac_table_selector: u8,
    ) -> (fields: Self)
        ensures
            fields == (VASliceParameterBufferJPEGBaselineComponent {
                component_selector,
                dc_table_selector,
                ac_table_selector,
            }),
    {
        VASliceParameterBufferJPEGBaselineComponent {
            component_selector,
            dc_table_selector,
            ac_table_selector,
        }
    }

    /// Returns the record as the driver is handed it.
    pub fn inner(&self) -> (inner: &Self)
        ensures
            inner == self,
    {
        self
    }
}

/// The `VASliceParameterBufferJPEGBaseline` record of the driver.
#[derive(Clone, Copy, Debug, PartialEq, Eq)]
pub struct SliceParameterBufferJPEGBaseline {
    pub slice_data_size: u32,
    pub slice_data_offset: u32,
    pub slice_data_flag: u32,
    pub slice_horizontal_position: u32,
    pub slice_vertical_position: u32,
    pub components: [VASliceParameterBufferJPEGBaselineComponent; 4],
    pub num_components: u8,
    pub restart_interval: u16,
    pub num_mcus: u32,
}

impl SliceParameterBufferJPEGBaseline {
    /// Makes the record from its fields, in their order.
    pub fn new(
        slice_data_size: u32,
        slice_data_offset: u32,
        slice_data_flag: u32,
        slice_horizontal_position: u32,
        slice_vertical_position: u32,
        components: [VASliceParameterBufferJPEGBaselineComponent; 4],
        num_components: u8,
        restart_interval: u16,
        num_mcus: u32,
    ) -> (fields: Self)
        ensures
            fields == (SliceParameterBufferJPEGBaseline {
                slice_data_size,
                slice_data_offset,
                slice_data_flag,
                slice_horizontal_position,
                slice_vertical_position,
                components,
                num_components,
                restart_interval,
                num_mcus,
            }),
    {
        SliceParameterBufferJPEGBaseline {
            slice_data_size,
            slice_data_offset,
            slice_data_flag,
            slice_horizontal_position,
            slice_vertical_position,
            components,
            num_components,
            restart_interval,
            num_mcus,
        }
    }

    /// Returns the record as the driver is handed it.
    pub fn inner(&self) -> (inner: &Self)
        ensures
            inner == self,
    {
        self
    }
}

/// The `VAIQMatrixBufferJPEGBaseline` record of the driver.
#[derive(Clone, Copy, Debug, PartialEq, Eq)]
pub struct IQMatrixBufferJPEGBaseline {
    pub load_quantiser_table: [u8; 4],
    pub quantiser_table: [[u8; 64]; 4],
}

impl IQMatrixBufferJPEGBaseline {
    /// Makes the record from its fields, in their order.
    pub fn new(
        load_quantiser_table: [u8; 4],
        quantiser_table: [[u8; 64]; 4],
    ) -> (fields: Self)
        ensures
            fields == (IQMatrixBufferJPEGBaseline {
                load_quantiser_table,
                quantiser_table,
            }),
    {
        IQMatrixBufferJPEGBaseline {
            load_quantiser_table,
            quantiser_table,
        }
    }

    /// Returns the record as the driver is handed it.
    pub fn inner(&self) -> (inner: &Self)
        ensures
            inner == self,
    {
        self
    }
}

/// One entry of the `huffman_table` list of `VAHuffmanTableBufferJPEGBaseline`.
#[derive(Clone, Copy, Debug, PartialEq, Eq)]
pub struct HuffmanTableBufferJPEGBaselineHuffmanTable {
    pub num_dc_codes: [u8; 16],
    pub dc_values: [u8; 12],
    pub num_ac_codes: [u8; 16],
    pub ac_values: [u8; 162],
    pub pad: [u8; 2],
}

impl HuffmanTableBufferJPEGBaselineHuffmanTable {
    /// Makes the record from its fields, in their order.
    pub fn new(
        num_dc_codes: [u8; 16],
        dc_values: [u8; 12],
        num_ac_codes: [u8; 16],
        ac_values: [u8; 162],
        pad: [u8; 2],
    ) -> (fields: Self)
        ensures
            fields == (HuffmanTableBufferJPEGBaselineHuffmanTable {
                num_dc_codes,
                dc_values,
                num_ac_codes,
                ac_values,
                pad,
            }),
    {
        HuffmanTableBufferJPEGBaselineHuffmanTable {
            num_dc_codes,
            dc_values,
            num_ac_codes,
            ac_values,
            pad,
        }
    }

    /// Returns the record as the driver is handed it.
    pub fn inner(&self) -> (inner: &Self)
        ensures
            inner == self,
    {
        self
    }
}

/// The `VAHuffmanTableBufferJPEGBaseline` record of the driver.
#[derive(Clone, Copy, Debug, PartialEq, Eq)]
pub struct HuffmanTableBufferJPEGBaseline {
    pub load_huffman_table: [u8; 2],
    pub huffman_table: [HuffmanTableBufferJPEGBaselineHuffmanTable; 2],
}

impl HuffmanTableBufferJPEGBaseline {
    /// Makes the record from its fields, in their order.
    pub fn new(
        load_huffman_table: [u8; 2],
        huffman_table: [HuffmanTableBufferJPEGBaselineHuffmanTable; 2],
    ) -> (fields: Self)
        ensures
            fields == (HuffmanTableBufferJPEGBaseline {
                load_huffman_table,
                huffman_table,
            }),
    {
        HuffmanTableBufferJPEGBaseline {
            load_huffman_table,
            huffman_table,
        }
    }

    /// Returns the record as the driver is handed it.
    pub fn inner(&self) -> (inner: &Self)
        ensures
            inner == self,
    {
        self
    }
}

} // verus!
