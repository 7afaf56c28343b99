//! Numeric constants of the driver interface.

use vstd::prelude::*;

verus! {

/// Status of a call that succeeded.
pub const VA_STATUS_SUCCESS: u32 = 0x0000_0000;

/// Status that selects the decode error list when querying surface errors.
pub const VA_STATUS_ERROR_DECODING_ERROR: u32 = 0x0000_0017;

/// Value of an attribute that the driver does not support.
pub const VA_ATTRIB_NOT_SUPPORTED: u32 = 0x8000_0000;

/// Identifier that names no object.
pub const VA_INVALID_ID: u32 = 0xffff_ffff;

/// Surface identifier that names no surface.
pub const VA_INVALID_SURFACE: u32 = 0xffff_ffff;

/// Context flag: only progressive frames are present in the sequence.
pub const VA_PROGRESSIVE: u32 = 0x1;

/// Surface attribute flag: the attribute can be read.
pub const VA_SURFACE_ATTRIB_GETTABLE: u32 = 0x0000_0001;

/// Surface attribute flag: the attribute can be set at creation.
pub const VA_SURFACE_ATTRIB_SETTABLE: u32 = 0x0000_0002;

/// Memory type: allocated by the driver.
pub const VA_SURFACE_ATTRIB_MEM_TYPE_VA: u32 = 0x0000_0001;

/// Memory type: V4L2 buffer.
pub const VA_SURFACE_ATTRIB_MEM_TYPE_V4L2: u32 = 0x0000_0002;

/// Memory type: user pointer.
pub const VA_SURFACE_ATTRIB_MEM_TYPE_USER_PTR: u32 = 0x0000_0004;

/// Memory type: DRM PRIME file descriptors with an explicit layout.
pub const VA_SURFACE_ATTRIB_MEM_TYPE_DRM_PRIME_2: u32 = 0x4000_0000;

/// Usage hint: surface used by a video decoder.
pub const VA_SURFACE_ATTRIB_USAGE_HINT_DECODER: u32 = 0x0000_0001;

/// Usage hint: surface used by a video encoder.
pub const VA_SURFACE_ATTRIB_USAGE_HINT_ENCODER: u32 = 0x0000_0002;

/// Usage hint: surface read by video post-processing.
pub const VA_SURFACE_ATTRIB_USAGE_HINT_VPP_READ: u32 = 0x0000_0004;

/// Usage hint: surface written by video post-processing.
pub const VA_SURFACE_ATTRIB_USAGE_HINT_VPP_WRITE: u32 = 0x0000_0008;

/// Usage hint: surface used for display.
pub const VA_SURFACE_ATTRIB_USAGE_HINT_DISPLAY: u32 = 0x0000_0010;

/// Usage hint: surface exported to another API.
pub const VA_SURFACE_ATTRIB_USAGE_HINT_EXPORT: u32 = 0x0000_0020;

/// Export flag: the exported handles will only be read.
pub const VA_EXPORT_SURFACE_READ_ONLY: u32 = 0x0001;

/// Export flag: all planes are described by a single composed layer.
pub const VA_EXPORT_SURFACE_COMPOSED_LAYERS: u32 = 0x0008;

/// Pixel format code of two-plane 4:2:0 video.
pub const VA_FOURCC_NV12: u32 = 0x3231_564e;

/// Render target format: 8-bit 4:2:0.
pub const VA_RT_FORMAT_YUV420: u32 = 0x0000_0001;

/// Generic value discriminant: 32-bit signed integer.
pub const VA_GENERIC_VALUE_TYPE_INTEGER: u32 = 1;

/// Generic value discriminant: 32-bit float.
pub const VA_GENERIC_VALUE_TYPE_FLOAT: u32 = 2;

/// Generic value discriminant: address.
pub const VA_GENERIC_VALUE_TYPE_POINTER: u32 = 3;

/// Generic value discriminant: function address.
pub const VA_GENERIC_VALUE_TYPE_FUNC: u32 = 4;

/// Surface attribute: pixel format.
pub const VA_SURFACE_ATTRIB_PIXEL_FORMAT: u32 = 1;

/// Surface attribute: memory type.
pub const VA_SURFACE_ATTRIB_MEMORY_TYPE: u32 = 6;

/// Surface attribute: external buffer descriptor.
pub const VA_SURFACE_ATTRIB_EXTERNAL_BUFFER_DESCRIPTOR: u32 = 7;

/// Surface attribute: usage hint.
pub const VA_SURFACE_ATTRIB_USAGE_HINT: u32 = 8;

/// Decode error kind: a slice is missing.
pub const VA_DECODE_SLICE_MISSING: u32 = 0;

/// Decode error kind: macroblock error.
pub const VA_DECODE_MB_ERROR: u32 = 1;

/// Decode error kind: the decoder was reset.
pub const VA_DECODE_RESET: u32 = 2;

/// Buffer kind: picture parameters.
pub const VA_PICTURE_PARAMETER_BUFFER_TYPE: u32 = 0;

/// Buffer kind: inverse quantisation matrix.
pub const VA_IQ_MATRIX_BUFFER_TYPE: u32 = 1;

/// Buffer kind: slice parameters.
pub const VA_SLICE_PARAMETER_BUFFER_TYPE: u32 = 4;

/// Buffer kind: slice data.
pub const VA_SLICE_DATA_BUFFER_TYPE: u32 = 5;

/// Buffer kind: probability data.
pub const VA_PROBABILITY_BUFFER_TYPE: u32 = 13;

/// Buffer kind: coded output of an encoder.
pub const VA_ENC_CODED_BUFFER_TYPE: u32 = 21;

/// Buffer kind: encoder sequence parameters.
pub const VA_ENC_SEQUENCE_PARAMETER_BUFFER_TYPE: u32 = 22;

/// Buffer kind: encoder picture parameters.
pub const VA_ENC_PICTURE_PARAMETER_BUFFER_TYPE: u32 = 23;

/// Buffer kind: encoder slice parameters.
pub const VA_ENC_SLICE_PARAMETER_BUFFER_TYPE: u32 = 24;

/// Buffer kind: miscellaneous encoder parameters.
pub const VA_ENC_MISC_PARAMETER_BUFFER_TYPE: u32 = 27;

/// Buffer kind: encoder macroblock map.
pub const VA_ENC_MACROBLOCK_MAP_BUFFER_TYPE: u32 = 29;

/// Miscellaneous encoder parameter: frame rate.
pub const VA_ENC_MISC_PARAMETER_TYPE_FRAME_RATE: u32 = 0;

/// Miscellaneous encoder parameter: rate control.
pub const VA_ENC_MISC_PARAMETER_TYPE_RATE_CONTROL: u32 = 1;

/// Miscellaneous encoder parameter: maximum slice size.
pub const VA_ENC_MISC_PARAMETER_TYPE_MAX_SLICE_SIZE: u32 = 2;

/// Miscellaneous encoder parameter: maximum frame size.
pub const VA_ENC_MISC_PARAMETER_TYPE_MAX_FRAME_SIZE: u32 = 4;

/// Miscellaneous encoder parameter: hypothetical reference decoder.
pub const VA_ENC_MISC_PARAMETER_TYPE_HRD: u32 = 5;

/// Miscellaneous encoder parameter: quality level.
pub const VA_ENC_MISC_PARAMETER_TYPE_QUALITY_LEVEL: u32 = 6;

/// Miscellaneous encoder parameter: quantization.
pub const VA_ENC_MISC_PARAMETER_TYPE_QUANTIZATION: u32 = 8;

/// Miscellaneous encoder parameter: skipped frames.
pub const VA_ENC_MISC_PARAMETER_TYPE_SKIP_FRAME: u32 = 9;

} // verus!
