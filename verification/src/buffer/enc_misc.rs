//! Miscellaneous encoder parameters: a header that names the kind of
//! parameter, followed by the parameter itself.

use vstd::prelude::*;
use crate::constants::VA_ENC_MISC_PARAMETER_TYPE_FRAME_RATE;
use crate::constants::VA_ENC_MISC_PARAMETER_TYPE_HRD;
use crate::constants::VA_ENC_MISC_PARAMETER_TYPE_MAX_FRAME_SIZE;
use crate::constants::VA_ENC_MISC_PARAMETER_TYPE_MAX_SLICE_SIZE;
use crate::constants::VA_ENC_MISC_PARAMETER_TYPE_QUALITY_LEVEL;
use crate::constants::VA_ENC_MISC_PARAMETER_TYPE_QUANTIZATION;
use crate::constants::VA_ENC_MISC_PARAMETER_TYPE_RATE_CONTROL;
use crate::constants::VA_ENC_MISC_PARAMETER_TYPE_SKIP_FRAME;

verus! {

/// Kind tag of a miscellaneous encoder parameter.
pub type VAEncMiscParameterType = u32;

/// A miscellaneous encoder parameter with its header.
#[derive(Clone, Copy, Debug, PartialEq, Eq, Default)]
pub struct MiscEncParamBuffer<T> {
    /// The kind of parameter that `value` is, as the header tells the driver.
    pub type_: VAEncMiscParameterType,
    /// The parameter.
    pub value: T,
}

impl<T> MiscEncParamBuffer<T> {
    /// Puts the header of kind `type_` in front of `value`.
    pub fn new(type_: VAEncMiscParameterType, value: T) -> (buffer: Self)
        ensures
            buffer == (MiscEncParamBuffer { type_, value }),
    {
        MiscEncParamBuffer { type_, value }
    }

    /// Puts the header of kind `type_` in front of `value`, on the heap.
    pub fn new_boxed(type_: VAEncMiscParameterType, value: T) -> (buffer: Box<Self>)
        ensures
            *buffer == (MiscEncParamBuffer { type_, value }),
    {
        Box::new(Self::new(type_, value))
    }
}

/// The `VAEncMiscParameterFrameRate` record of the driver.
#[derive(Clone, Copy, Debug, PartialEq, Eq, Default)]
pub struct VAEncMiscParameterFrameRate {
    pub framerate: u32,
    pub temporal_id: u32,
}

/// The frame rate parameter of an encoder, with its header.
#[derive(Clone, Debug, PartialEq, Eq, Default)]
pub struct EncMiscParameterFrameRate(Box<MiscEncParamBuffer<VAEncMiscParameterFrameRate>>);

impl View for EncMiscParameterFrameRate {
    type V = MiscEncParamBuffer<VAEncMiscParameterFrameRate>;

    closed spec fn view(&self) -> MiscEncParamBuffer<VAEncMiscParameterFrameRate> {
        *self.0
    }
}

impl EncMiscParameterFrameRate {
    /// Makes the parameter from its fields, under the header of its kind.
    pub fn new(framerate: u32, temporal_id: u32) -> (param: Self)
        ensures
            param@ == (MiscEncParamBuffer {
                type_: VA_ENC_MISC_PARAMETER_TYPE_FRAME_RATE,
                value: VAEncMiscParameterFrameRate {
                    framerate,
                    temporal_id,
                },
            }),
    {
        EncMiscParameterFrameRate(
            MiscEncParamBuffer::new_boxed(
                VA_ENC_MISC_PARAMETER_TYPE_FRAME_RATE,
                VAEncMiscParameterFrameRate {
                    framerate,
                    temporal_id,
                },
            ),
        )
    }

    /// Returns the parameter with its header.
    pub fn inner(&self) -> (inner: &MiscEncParamBuffer<VAEncMiscParameterFrameRate>)
        ensures
            *inner == self@,
    {
        &self.0
    }
}

/// The `rc_flags` flags of `VAEncMiscParameterRateControl`.
#[derive(Clone, Copy, Debug, PartialEq, Eq, Default)]
pub struct RcFlags {
    pub reset: u32,
    pub disable_frame_skip: u32,
    pub disable_bit_stuffing: u32,
    pub mb_rate_control: u32,
    pub temporal_id: u32,
    pub cfs_i_frames: u32,
    pub enable_parallel_brc: u32,
    pub enable_dynamic_scaling: u32,
    pub frame_tolerance_mode: u32,
}

impl RcFlags {
    /// Makes the record from its fields, in their order.
    pub fn new(
        reset: u32,
        disable_frame_skip: u32,
        disable_bit_stuffing: u32,
        mb_rate_control: u32,
        temporal_id: u32,
        cfs_i_frames: u32,
        enable_parallel_brc: u32,
        enable_dynamic_scaling: u32,
        frame_tolerance_mode: u32,
    ) -> (fields: Self)
        ensures
            fields == (RcFlags {
                reset,
                disable_frame_skip,
                disable_bit_stuffing,
                mb_rate_control,
                temporal_id,
                cfs_i_frames,
                enable_parallel_brc,
                enable_dynamic_scaling,
                frame_tolerance_mode,
            }),
    {
        RcFlags {
            reset,
            disable_frame_skip,
            disable_bit_stuffing,
            mb_rate_control,
            temporal_id,
            cfs_i_frames,
            enable_parallel_brc,
            enable_dynamic_scaling,
            frame_tolerance_mode,
        }
    }
}

/// The `VAEncMiscParameterRateControl` record of the driver.
#[derive(Clone, Copy, Debug, PartialEq, Eq, Default)]
pub struct VAEncMiscParameterRateControl {
    pub bits_per_second: u32,
    pub target_percentage: u32,
    pub window_size: u32,
    pub initial_qp: u32,
    pub min_qp: u32,
    pub basic_unit_size: u32,
    pub rc_flags: RcFlags,
    pub icq_quality_factor: u32,
    pub max_qp: u32,
    pub quality_factor: u32,
    pub target_frame_size: u32,
}

/// The rate control parameter of an encoder, with its header.
#[derive(Clone, Debug, PartialEq, Eq, Default)]
pub struct EncMiscParameterRateControl(Box<MiscEncParamBuffer<VAEncMiscParameterRateControl>>);

impl View for EncMiscParameterRateControl {
    type V = MiscEncParamBuffer<VAEncMiscParameterRateControl>;

    closed spec fn view(&self) -> MiscEncParamBuffer<VAEncMiscParameterRateControl> {
        *self.0
    }
}

impl EncMiscParameterRateControl {
    /// Makes the parameter from its fields, under the header of its kind.
    pub fn new(bits_per_second: u32, target_percentage: u32, window_size: u32, initial_qp: u32, min_qp: u32, basic_unit_size: u32, rc_flags: RcFlags, icq_quality_factor: u32, max_qp: u32, quality_factor: u32, target_frame_size: u32) -> (param: Self)
        ensures
            param@ == (MiscEncParamBuffer {
                type_: VA_ENC_MISC_PARAMETER_TYPE_RATE_CONTROL,
                value: VAEncMiscParameterRateControl {
                    bits_per_second,
                    target_percentage,
                    window_size,
                    initial_qp,
                    min_qp,
                    basic_unit_size,
                    rc_flags,
                    icq_quality_factor,
                    max_qp,
                    quality_factor,
                    target_frame_size,
                },
            }),
    {
        EncMiscParameterRateControl(
            MiscEncParamBuffer::new_boxed(
                VA_ENC_MISC_PARAMETER_TYPE_RATE_CONTROL,
                VAEncMiscParameterRateControl {
                    bits_per_second,
                    target_percentage,
                    window_size,
                    initial_qp,
                    min_qp,
                    basic_unit_size,
                    rc_flags,
                    icq_quality_factor,
                    max_qp,
                    quality_factor,
                    target_frame_size,
                },
            ),
        )
    }

    /// Returns the parameter with its header.
    pub fn inner(&self) -> (inner: &MiscEncParamBuffer<VAEncMiscParameterRateControl>)
        ensures
            *inner == self@,
    {
        &self.0
    }
}

/// The `VAEncMiscParameterMaxSliceSize` record of the driver.
#[derive(Clone, Copy, Debug, PartialEq, Eq, Default)]
pub struct VAEncMiscParameterMaxSliceSize {
    pub max_slice_size: u32,
}

/// The maximum slice size parameter of an encoder, with its header.
#[derive(Clone, Debug, PartialEq, Eq, Default)]
pub struct EncMiscParameterMaxSliceSize(Box<MiscEncParamBuffer<VAEncMiscParameterMaxSliceSize>>);

impl View for EncMiscParameterMaxSliceSize {
    type V = MiscEncParamBuffer<VAEncMiscParameterMaxSliceSize>;

    closed spec fn view(&self) -> MiscEncParamBuffer<VAEncMiscParameterMaxSliceSize> {
        *self.0
    }
}

impl EncMiscParameterMaxSliceSize {
    /// Makes the parameter from its fields, under the header of its kind.
    pub fn new(max_slice_size: u32) -> (param: Self)
        ensures
            param@ == (MiscEncParamBuffer {
                type_: VA_ENC_MISC_PARAMETER_TYPE_MAX_SLICE_SIZE,
                value: VAEncMiscParameterMaxSliceSize {
                    max_slice_size,
                },
            }),
    {
        EncMiscParameterMaxSliceSize(
            MiscEncParamBuffer::new_boxed(
                VA_ENC_MISC_PARAMETER_TYPE_MAX_SLICE_SIZE,
                VAEncMiscParameterMaxSliceSize {
                    max_slice_size,
                },
            ),
        )
    }

    /// Returns the parameter with its header.
    pub fn inner(&self) -> (inner: &MiscEncParamBuffer<VAEncMiscParameterMaxSliceSize>)
        ensures
            *inner == self@,
    {
        &self.0
    }
}

/// The `VAEncMiscParameterBufferMaxFrameSize` record of the driver.
#[derive(Clone, Copy, Debug, PartialEq, Eq, Default)]
pub struct VAEncMiscParameterBufferMaxFrameSize {
    pub type_: VAEncMiscParameterType,
    pub max_frame_size: u32,
}

/// The maximum frame size parameter of an encoder, with its header.
#[derive(Clone, Debug, PartialEq, Eq, Default)]
pub struct EncMiscParameterBufferMaxFrameSize(Box<MiscEncParamBuffer<VAEncMiscParameterBufferMaxFrameSize>>);

impl View for EncMiscParameterBufferMaxFrameSize {
    type V = MiscEncParamBuffer<VAEncMiscParameterBufferMaxFrameSize>;

    closed spec fn view(&self) -> MiscEncParamBuffer<VAEncMiscParameterBufferMaxFrameSize> {
        *self.0
    }
}

impl EncMiscParameterBufferMaxFrameSize {
    /// Makes the parameter from its fields, under the header of its kind.
    pub fn new(max_frame_size: u32) -> (param: Self)
        ensures
            param@ == (MiscEncParamBuffer {
                type_: VA_ENC_MISC_PARAMETER_TYPE_MAX_FRAME_SIZE,
                value: VAEncMiscParameterBufferMaxFrameSize {
                    type_: VA_ENC_MISC_PARAMETER_TYPE_MAX_FRAME_SIZE,
                    max_frame_size,
                },
            }),
    {
        EncMiscParameterBufferMaxFrameSize(
            MiscEncParamBuffer::new_boxed(
                VA_ENC_MISC_PARAMETER_TYPE_MAX_FRAME_SIZE,
                VAEncMiscParameterBufferMaxFrameSize {
                    type_: VA_ENC_MISC_PARAMETER_TYPE_MAX_FRAME_SIZE,
                    max_frame_size,
                },
            ),
        )
    }

    /// Returns the parameter with its header.
    pub fn inner(&self) -> (inner: &MiscEncParamBuffer<VAEncMiscParameterBufferMaxFrameSize>)
        ensures
            *inner == self@,
    {
        &self.0
    }
}

/// The `VAEncMiscParameterSkipFrame` record of the driver.
#[derive(Clone, Copy, Debug, PartialEq, Eq, Default)]
pub struct VAEncMiscParameterSkipFrame {
    pub skip_frame_flag: u8,
    pub num_skip_frames: u8,
    pub size_skip_frames: u32,
}

/// The skipped frames parameter of an encoder, with its header.
#[derive(Clone, Debug, PartialEq, Eq, Default)]
pub struct EncMiscParameterSkipFrame(Box<MiscEncParamBuffer<VAEncMiscParameterSkipFrame>>);

impl View for EncMiscParameterSkipFrame {
    type V = MiscEncParamBuffer<VAEncMiscParameterSkipFrame>;

    closed spec fn view(&self) -> MiscEncParamBuffer<VAEncMiscParameterSkipFrame> {
        *self.0
    }
}

impl EncMiscParameterSkipFrame {
    /// Makes the parameter from its fields, under the header of its kind.
    pub fn new(skip_frame_flag: u8, num_skip_frames: u8, size_skip_frames: u32) -> (param: Self)
        ensures
            param@ == (MiscEncParamBuffer {
                type_: VA_ENC_MISC_PARAMETER_TYPE_SKIP_FRAME,
                value: VAEncMiscParameterSkipFrame {
                    skip_frame_flag,
                    num_skip_frames,
                    size_skip_frames,
                },
            }),
    {
        EncMiscParameterSkipFrame(
            MiscEncParamBuffer::new_boxed(
                VA_ENC_MISC_PARAMETER_TYPE_SKIP_FRAME,
                VAEncMiscParameterSkipFrame {
                    skip_frame_flag,
                    num_skip_frames,
                    size_skip_frames,
                },
            ),
        )
    }

    /// Returns the parameter with its header.
    pub fn inner(&self) -> (inner: &MiscEncParamBuffer<VAEncMiscParameterSkipFrame>)
        ensures
            *inner == self@,
    {
        &self.0
    }
}

/// The `VAEncMiscParameterHRD` record of the driver.
#[derive(Clone, Copy, Debug, PartialEq, Eq, Default)]
pub struct VAEncMiscParameterHRD {
    pub initial_buffer_fullness: u32,
    pub buffer_size: u32,
}

/// The hypothetical reference decoder parameter of an encoder, with its header.
#[derive(Clone, Debug, PartialEq, Eq, Default)]
pub struct EncMiscParameterHRD(Box<MiscEncParamBuffer<VAEncMiscParameterHRD>>);

impl View for EncMiscParameterHRD {
    type V = MiscEncParamBuffer<VAEncMiscParameterHRD>;

    closed spec fn view(&self) -> MiscEncParamBuffer<VAEncMiscParameterHRD> {
        *self.0
    }
}

impl EncMiscParameterHRD {
    /// Makes the parameter from its fields, under the header of its kind.
    pub fn new(initial_buffer_fullness: u32, buffer_size: u32) -> (param: Self)
        ensures
            param@ == (MiscEncParamBuffer {
                type_: VA_ENC_MISC_PARAMETER_TYPE_HRD,
                value: VAEncMiscParameterHRD {
                    initial_buffer_fullness,
                    buffer_size,
                },
            }),
    {
        EncMiscParameterHRD(
            MiscEncParamBuffer::new_boxed(
                VA_ENC_MISC_PARAMETER_TYPE_HRD,
                VAEncMiscParameterHRD {
                    initial_buffer_fullness,
                    buffer_size,
                },
            ),
        )
    }

    /// Returns the parameter with its header.
    pub fn inner(&self) -> (inner: &MiscEncParamBuffer<VAEncMiscParameterHRD>)
        ensures
            *inner == self@,
    {
        &self.0
    }
}

/// The `VAEncMiscParameterBufferQualityLevel` record of the driver.
#[derive(Clone, Copy, Debug, PartialEq, Eq, Default)]
pub struct VAEncMiscParameterBufferQualityLevel {
    pub quality_level: u32,
}

/// The quality level parameter of an encoder, with its header.
#[derive(Clone, Debug, PartialEq, Eq, Default)]
pub struct EncMiscParameterBufferQualityLevel(Box<MiscEncParamBuffer<VAEncMiscParameterBufferQualityLevel>>);

impl View for EncMiscParameterBufferQualityLevel {
    type V = MiscEncParamBuffer<VAEncMiscParameterBufferQualityLevel>;

    closed spec fn view(&self) -> MiscEncParamBuffer<VAEncMiscParameterBufferQualityLevel> {
        *self.0
    }
}

impl EncMiscParameterBufferQualityLevel {
    /// Makes the parameter from its fields, under the header of its kind.
    pub fn new(quality_level: u32) -> (param: Self)
        ensures
            param@ == (MiscEncParamBuffer {
                type_: VA_ENC_MISC_PARAMETER_TYPE_QUALITY_LEVEL,
                value: VAEncMiscParameterBufferQualityLevel {
                    quality_level,
                },
            }),
    {
        EncMiscParameterBufferQualityLevel(
            MiscEncParamBuffer::new_boxed(
                VA_ENC_MISC_PARAMETER_TYPE_QUALITY_LEVEL,
                VAEncMiscParameterBufferQualityLevel {
                    quality_level,
                },
            ),
        )
    }

    /// Returns the parameter with its header.
    pub fn inner(&self) -> (inner: &MiscEncParamBuffer<VAEncMiscParameterBufferQualityLevel>)
        ensures
            *inner == self@,
    {
        &self.0
    }
}

/// The `VAEncMiscParameterQuantization` record of the driver.
#[derive(Clone, Copy, Debug, PartialEq, Eq, Default)]
pub struct VAEncMiscParameterQuantization {
    pub disable_trellis: bool,
    pub enable_trellis_i: bool,
    pub enable_trellis_p: bool,
    pub enable_trellis_b: bool,
}

/// The quantization parameter of an encoder, with its header.
#[derive(Clone, Debug, PartialEq, Eq, Default)]
pub struct EncMiscParameterQuantization(Box<MiscEncParamBuffer<VAEncMiscParameterQuantization>>);

impl View for EncMiscParameterQuantization {
    type V = MiscEncParamBuffer<VAEncMiscParameterQuantization>;

    closed spec fn view(&self) -> MiscEncParamBuffer<VAEncMiscParameterQuantization> {
        *self.0
    }
}

impl EncMiscParameterQuantization {
    /// Makes the parameter from its fields, under the header of its kind.
    pub fn new(disable_trellis: bool, enable_trellis_i: bool, enable_trellis_p: bool, enable_trellis_b: bool) -> (param: Self)
        ensures
            param@ == (MiscEncParamBuffer {
                type_: VA_ENC_MISC_PARAMETER_TYPE_QUANTIZATION,
                value: VAEncMiscParameterQuantization {
                    disable_trellis,
                    enable_trellis_i,
                    enable_trellis_p,
                    enable_trellis_b,
                },
            }),
    {
        EncMiscParameterQuantization(
            MiscEncParamBuffer::new_boxed(
                VA_ENC_MISC_PARAMETER_TYPE_QUANTIZATION,
                VAEncMiscParameterQuantization {
                    disable_trellis,
                    enable_trellis_i,
                    enable_trellis_p,
                    enable_trellis_b,
                },
            ),
        )
    }

    /// Returns the parameter with its header.
    pub fn inner(&self) -> (inner: &MiscEncParamBuffer<VAEncMiscParameterQuantization>)
        ensures
            *inner == self@,
    {
        &self.0
    }
}

} // verus!
