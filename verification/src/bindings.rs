//! Plain-value images of the records and handles that cross the driver
//! boundary.

use vstd::prelude::*;

verus! {

/// Status word returned by every driver entry point.
pub type VAStatus = i32;

/// Opaque token standing for the driver's display connection.
pub type VADisplay = usize;

/// Identifier of a driver-side object of any kind.
pub type VAGenericID = u32;

/// Identifier of a config object.
pub type VAConfigID = VAGenericID;

/// Identifier of a context object.
pub type VAContextID = VAGenericID;

/// Identifier of a surface object.
pub type VASurfaceID = VAGenericID;

/// Identifier of a buffer object.
pub type VABufferID = VAGenericID;

/// Identifier of an image object.
pub type VAImageID = VAGenericID;

/// Codec profile selector.
pub type VAProfile = i32;

/// Entrypoint selector.
pub type VAEntrypoint = u32;

/// Kind tag of a buffer object.
pub type VABufferType = u32;

/// Kind tag of a config attribute.
pub type VAConfigAttribType = u32;

/// Kind tag of a surface attribute.
pub type VASurfaceAttribType = u32;

/// Discriminant of a [`VAGenericValue`].
pub type VAGenericValueType = u32;

/// Snapshot of the pending-operation state of a surface.
pub type VASurfaceStatus = u32;

/// Kind tag of a decode error record.
pub type VADecodeErrorType = u32;

/// A rectangle within a picture.
#[derive(Clone, Copy, Debug, PartialEq, Eq)]
pub struct VARectangle {
    pub x: i16,
    pub y: i16,
    pub width: u16,
    pub height: u16,
}

/// One key/value pair of a config.
#[derive(Clone, Copy, Debug)]
pub struct VAConfigAttrib {
    pub type_: VAConfigAttribType,
    pub value: u32,
}

/// Description of a pixel format that images can be created in.
#[derive(Clone, Copy, Debug)]
pub struct VAImageFormat {
    pub fourcc: u32,
    pub byte_order: u32,
    pub bits_per_pixel: u32,
    pub depth: u32,
    pub red_mask: u32,
    pub green_mask: u32,
    pub blue_mask: u32,
    pub alpha_mask: u32,
}

/// Description of an image object: its format, geometry and backing buffer.
#[derive(Clone, Copy, Debug)]
pub struct VAImage {
    pub image_id: VAImageID,
    pub format: VAImageFormat,
    pub buf: VABufferID,
    pub width: u16,
    pub height: u16,
    pub data_size: u32,
    pub num_planes: u32,
    pub pitches: [u32; 3],
    pub offsets: [u32; 3],
    pub num_palette_entries: i32,
    pub entry_bytes: i32,
    pub component_order: [i8; 4],
}

/// The four readings of the payload of a [`VAGenericValue`]. Only the reading
/// selected by the discriminant is meaningful.
#[derive(Clone, Copy, Debug)]
pub struct VAGenericValuePayload {
    /// Reading as a 32-bit signed integer.
    pub i: i32,
    /// Reading as the bit pattern of a 32-bit float.
    pub f: u32,
    /// Reading as an address.
    pub p: usize,
    /// Reading as the address of a function.
    pub func: usize,
}

/// A dynamically typed value: a discriminant and an untyped payload.
#[derive(Clone, Copy, Debug)]
pub struct VAGenericValue {
    pub type_: VAGenericValueType,
    pub value: VAGenericValuePayload,
}

/// One attribute of a surface.
#[derive(Clone, Copy, Debug)]
pub struct VASurfaceAttrib {
    pub type_: VASurfaceAttribType,
    pub flags: u32,
    pub value: VAGenericValue,
}

/// One record of the decode error list of a surface.
#[derive(Clone, Copy, Debug)]
pub struct VASurfaceDecodeMBErrors {
    pub status: i32,
    pub start_mb: u32,
    pub end_mb: u32,
    pub decode_error_type: VADecodeErrorType,
    pub num_mb: u32,
}

/// One memory object of an exported surface.
#[derive(Clone, Copy, Debug)]
pub struct VADRMPRIMESurfaceDescriptorObject {
    pub fd: i32,
    pub size: u32,
    pub drm_format_modifier: u64,
}

/// One layer of an exported surface.
#[derive(Clone, Copy, Debug)]
pub struct VADRMPRIMESurfaceDescriptorLayer {
    pub drm_format: u32,
    pub num_planes: u32,
    pub object_index: [u32; 4],
    pub offset: [u32; 4],
    pub pitch: [u32; 4],
}

/// Description of an exported surface, as filled in by the driver.
#[derive(Clone, Copy, Debug)]
pub struct VADRMPRIMESurfaceDescriptor {
    pub fourcc: u32,
    pub width: u32,
    pub height: u32,
    pub num_objects: u32,
    pub objects: [VADRMPRIMESurfaceDescriptorObject; 4],
    pub num_layers: u32,
    pub layers: [VADRMPRIMESurfaceDescriptorLayer; 4],
}

/// Description of externally allocated memory that backs a surface.
#[derive(Clone, Debug)]
pub struct VASurfaceAttribExternalBuffers {
    pub pixel_format: u32,
    pub width: u32,
    pub height: u32,
    pub data_size: u32,
    pub num_planes: u32,
    pub pitches: [u32; 4],
    pub offsets: [u32; 4],
    pub buffers: Vec<usize>,
    pub flags: u32,
}

/// One segment of a mapped coded buffer. The bytes belong to the driver and
/// are valid only while the buffer remains mapped.
#[derive(Clone, Copy, Debug)]
pub struct VACodedBufferSegment<'a> {
    /// Offset of the first valid bit.
    pub bit_offset: u32,
    /// Status bits of the segment.
    pub status: u32,
    /// The coded bytes of the segment.
    pub buf: &'a [u8],
}

} // verus!
