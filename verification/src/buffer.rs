//! Buffers: the typed parameter and data blocks that are handed to the driver
//! for a picture.

use vstd::prelude::*;
use std::rc::Rc;
use crate::bindings::VABufferID;
use crate::bindings::VABufferType;
use crate::bindings::VACodedBufferSegment;
use crate::bindings::VAContextID;
use crate::bindings::VAStatus;
use crate::constants::VA_ENC_CODED_BUFFER_TYPE;
use crate::constants::VA_ENC_MACROBLOCK_MAP_BUFFER_TYPE;
use crate::constants::VA_ENC_MISC_PARAMETER_BUFFER_TYPE;
use crate::constants::VA_ENC_PICTURE_PARAMETER_BUFFER_TYPE;
use crate::constants::VA_ENC_SEQUENCE_PARAMETER_BUFFER_TYPE;
use crate::constants::VA_ENC_SLICE_PARAMETER_BUFFER_TYPE;
use crate::constants::VA_IQ_MATRIX_BUFFER_TYPE;
use crate::constants::VA_PICTURE_PARAMETER_BUFFER_TYPE;
use crate::constants::VA_PROBABILITY_BUFFER_TYPE;
use crate::constants::VA_SLICE_DATA_BUFFER_TYPE;
use crate::constants::VA_SLICE_PARAMETER_BUFFER_TYPE;
use crate::context::Context;
use crate::status::VaError;
use crate::status::va_check;

pub mod av1;
pub mod enc_jpeg;
pub mod enc_misc;
pub mod h264;
pub mod hevc;
pub mod jpeg_baseline;
pub mod mpeg2;
pub mod proc_pipeline;
pub mod vp8;
pub mod vp9;

pub use av1::AV1EncLoopFilterFlags;
pub use av1::AV1EncLoopRestorationFlags;
pub use av1::AV1EncModeControlFlags;
pub use av1::AV1EncPictureFlags;
pub use av1::AV1EncQMatrixFlags;
pub use av1::AV1EncSeqFields;
pub use av1::AV1EncTileGroupObuHdrInfo;
pub use av1::AV1FilmGrain;
pub use av1::AV1FilmGrainFields;
pub use av1::AV1LoopFilterFields;
pub use av1::AV1LoopRestorationFields;
pub use av1::AV1ModeControlFields;
pub use av1::AV1PicInfoFields;
pub use av1::AV1QMatrixFields;
pub use av1::AV1SegmentInfoFields;
pub use av1::AV1Segmentation;
pub use av1::AV1SeqFields;
pub use av1::AV1WarpedMotionParams;
pub use av1::EncPictureParameterBufferAV1;
pub use av1::EncSegParamAV1;
pub use av1::EncSegParamFlagsAV1;
pub use av1::EncSequenceParameterBufferAV1;
pub use av1::EncTileGroupBufferAV1;
pub use av1::EncWarpedMotionParamsAV1;
pub use av1::PictureParameterBufferAV1;
pub use av1::RefFrameCtrlAV1;
pub use av1::SliceParameterBufferAV1;
pub use av1::VASliceParameterBufferAV1;
pub use enc_jpeg::EncPictureParameterBufferJPEG;
pub use enc_jpeg::EncSliceParameterBufferJPEG;
pub use enc_jpeg::EncSliceParameterBufferJPEGComponent;
pub use enc_jpeg::PicFlags;
pub use enc_jpeg::QMatrixBufferJPEG;
pub use enc_misc::EncMiscParameterBufferMaxFrameSize;
pub use enc_misc::EncMiscParameterBufferQualityLevel;
pub use enc_misc::EncMiscParameterFrameRate;
pub use enc_misc::EncMiscParameterHRD;
pub use enc_misc::EncMiscParameterMaxSliceSize;
pub use enc_misc::EncMiscParameterQuantization;
pub use enc_misc::EncMiscParameterRateControl;
pub use enc_misc::EncMiscParameterSkipFrame;
pub use enc_misc::MiscEncParamBuffer;
pub use enc_misc::RcFlags;
pub use enc_misc::VAEncMiscParameterBufferMaxFrameSize;
pub use enc_misc::VAEncMiscParameterBufferQualityLevel;
pub use enc_misc::VAEncMiscParameterFrameRate;
pub use enc_misc::VAEncMiscParameterHRD;
pub use enc_misc::VAEncMiscParameterMaxSliceSize;
pub use enc_misc::VAEncMiscParameterQuantization;
pub use enc_misc::VAEncMiscParameterRateControl;
pub use enc_misc::VAEncMiscParameterSkipFrame;
pub use enc_misc::VAEncMiscParameterType;
pub use h264::EncMacroblockParameterBufferH264;
pub use h264::EncPictureParameterBufferH264;
pub use h264::EncSequenceParameterBufferH264;
pub use h264::EncSliceParameterBufferH264;
pub use h264::H264EncFrameCropOffsets;
pub use h264::H264EncMacroblockInfo;
pub use h264::H264EncPicFields;
pub use h264::H264EncSeqFields;
pub use h264::H264PicFields;
pub use h264::H264SeqFields;
pub use h264::H264VuiFields;
pub use h264::IQMatrixBufferH264;
pub use h264::PictureH264;
pub use h264::PictureParameterBufferH264;
pub use h264::SliceParameterBufferH264;
pub use hevc::EncPictureParameterBufferHEVC;
pub use hevc::EncSequenceParameterBufferHEVC;
pub use hevc::EncSliceParameterBufferHEVC;
pub use hevc::HEVCEncPicFields;
pub use hevc::HEVCEncSeqFields;
pub use hevc::HevcEncPicSccFields;
pub use hevc::HevcEncSeqSccFields;
pub use hevc::HevcEncSliceFields;
pub use hevc::HevcEncVuiFields;
pub use hevc::HevcLongSliceFlags;
pub use hevc::HevcPicFields;
pub use hevc::HevcRangeExtensionPicFields;
pub use hevc::HevcScreenContentPicFields;
pub use hevc::HevcSliceExtFlags;
pub use hevc::HevcSliceParsingFields;
pub use hevc::IQMatrixBufferHEVC;
pub use hevc::PictureHEVC;
pub use hevc::PictureParameterBufferHEVC;
pub use hevc::PictureParameterBufferHEVCRext;
pub use hevc::PictureParameterBufferHEVCScc;
pub use hevc::SliceParameterBufferHEVC;
pub use hevc::SliceParameterBufferHEVCRext;
pub use jpeg_baseline::HuffmanTableBufferJPEGBaseline;
pub use jpeg_baseline::HuffmanTableBufferJPEGBaselineHuffmanTable;
pub use jpeg_baseline::IQMatrixBufferJPEGBaseline;
pub use jpeg_baseline::PictureParameterBufferJPEGBaseline;
pub use jpeg_baseline::PictureParameterBufferJPEGBaselineComponent;
pub use jpeg_baseline::SliceParameterBufferJPEGBaseline;
pub use jpeg_baseline::VASliceParameterBufferJPEGBaselineComponent;
pub use mpeg2::IQMatrixBufferMPEG2;
pub use mpeg2::MPEG2PictureCodingExtension;
pub use mpeg2::PictureParameterBufferMPEG2;
pub use mpeg2::SliceParameterBufferMPEG2;
pub use proc_pipeline::BlendState;
pub use proc_pipeline::HdrMetaData;
pub use proc_pipeline::ProcColorProperties;
pub use proc_pipeline::ProcPipelineParameterBuffer;
pub use proc_pipeline::VAProcPipelineParameterBuffer;
pub use vp8::BoolCoderContextVPX;
pub use vp8::EncPictureParameterBufferVP8;
pub use vp8::EncSequenceParameterBufferVP8;
pub use vp8::IQMatrixBufferVP8;
pub use vp8::PictureParameterBufferVP8;
pub use vp8::ProbabilityDataBufferVP8;
pub use vp8::SliceParameterBufferVP8;
pub use vp8::VP8EncPicFlags;
pub use vp8::VP8EncRefFlags;
pub use vp8::VP8PicFields;
pub use vp9::CodedBufferVP9Status;
pub use vp9::EncPictureParameterBufferVP9;
pub use vp9::EncSequenceParameterBufferVP9;
pub use vp9::PictureParameterBufferVP9;
pub use vp9::SegmentParameterVP9;
pub use vp9::SliceParameterBufferVP9;
pub use vp9::VP9EncPicFlags;
pub use vp9::VP9EncRefFlags;
pub use vp9::VP9PicFields;
pub use vp9::VP9SegmentFlags;

verus! {

/// What kind of buffer to create, with its contents.
#[derive(Debug)]
pub enum BufferType {
    /// Picture parameters of a decoder.
    PictureParameter(PictureParameter),
    /// Slice parameters of a decoder.
    SliceParameter(SliceParameter),
    /// Inverse quantisation matrices.
    IQMatrix(IQMatrix),
    /// Probability data of VP8.
    Probability(vp8::ProbabilityDataBufferVP8),
    /// The bytes of a slice.
    SliceData(Vec<u8>),
    /// Sequence parameters of an encoder.
    EncSequenceParameter(EncSequenceParameter),
    /// Picture parameters of an encoder.
    EncPictureParameter(EncPictureParameter),
    /// Slice parameters of an encoder.
    EncSliceParameter(EncSliceParameter),
    /// Macroblock parameters of an encoder.
    EncMacroblockParameterBuffer(EncMacroblockParameterBuffer),
    /// Coded output of an encoder, of the given capacity in bytes.
    EncCodedBuffer(usize),
    /// A miscellaneous parameter of an encoder.
    EncMiscParameter(EncMiscParameter),
}

/// The picture parameters of each decoder.
#[derive(Debug)]
pub enum PictureParameter {
    MPEG2(mpeg2::PictureParameterBufferMPEG2),
    VP8(vp8::PictureParameterBufferVP8),
    VP9(vp9::PictureParameterBufferVP9),
    H264(h264::PictureParameterBufferH264),
    HEVC(hevc::PictureParameterBufferHEVC),
    HEVCRext(hevc::PictureParameterBufferHEVCRext),
    HEVCScc(hevc::PictureParameterBufferHEVCScc),
    AV1(av1::PictureParameterBufferAV1),
}

/// The slice parameters of each decoder.
#[derive(Debug)]
pub enum SliceParameter {
    MPEG2(mpeg2::SliceParameterBufferMPEG2),
    VP8(vp8::SliceParameterBufferVP8),
    VP9(vp9::SliceParameterBufferVP9),
    H264(h264::SliceParameterBufferH264),
    HEVC(hevc::SliceParameterBufferHEVC),
    HEVCRext(hevc::SliceParameterBufferHEVCRext),
    AV1(av1::SliceParameterBufferAV1),
}

/// The inverse quantisation matrices of each decoder.
#[derive(Debug)]
pub enum IQMatrix {
    MPEG2(mpeg2::IQMatrixBufferMPEG2),
    VP8(vp8::IQMatrixBufferVP8),
    H264(h264::IQMatrixBufferH264),
    HEVC(hevc::IQMatrixBufferHEVC),
}

/// The sequence parameters of each encoder.
#[derive(Debug)]
pub enum EncSequenceParameter {
    H264(h264::EncSequenceParameterBufferH264),
    HEVC(hevc::EncSequenceParameterBufferHEVC),
    VP8(vp8::EncSequenceParameterBufferVP8),
    VP9(vp9::EncSequenceParameterBufferVP9),
}

/// The picture parameters of each encoder.
#[derive(Debug)]
pub enum EncPictureParameter {
    H264(h264::EncPictureParameterBufferH264),
    HEVC(hevc::EncPictureParameterBufferHEVC),
    VP8(vp8::EncPictureParameterBufferVP8),
    VP9(vp9::EncPictureParameterBufferVP9),
}

/// The slice parameters of each encoder.
#[derive(Debug)]
pub enum EncSliceParameter {
    H264(h264::EncSliceParameterBufferH264),
    HEVC(hevc::EncSliceParameterBufferHEVC),
}

/// The macroblock parameters of each encoder.
#[derive(Debug)]
pub enum EncMacroblockParameterBuffer {
    H264(h264::EncMacroblockParameterBufferH264),
}

/// The miscellaneous parameters of an encoder.
#[derive(Debug)]
pub enum EncMiscParameter {
    FrameRate(enc_misc::EncMiscParameterFrameRate),
    RateControl(enc_misc::EncMiscParameterRateControl),
    MaxSliceSize(enc_misc::EncMiscParameterMaxSliceSize),
    MaxFrameSize(enc_misc::EncMiscParameterBufferMaxFrameSize),
    SkipFrame(enc_misc::EncMiscParameterSkipFrame),
    HRD(enc_misc::EncMiscParameterHRD),
    QualityLevel(enc_misc::EncMiscParameterBufferQualityLevel),
    Quantization(enc_misc::EncMiscParameterQuantization),
}

/// Where the contents of a new buffer come from.
#[derive(Clone, Copy, Debug, PartialEq, Eq, Structural)]
pub enum BufferData {
    /// From the parameter records of the buffer's kind, each laid out as the
    /// driver expects it.
    Parameters,
    /// From the given number of bytes of slice data.
    Bytes(usize),
    /// From nowhere: the driver allocates the given number of bytes itself.
    Unset(usize),
}

/// What the driver is asked for when a buffer is created.
#[derive(Clone, Copy, Debug, PartialEq, Eq, Structural)]
pub struct CreateBufferRequest {
    /// The context to create the buffer in.
    pub context: VAContextID,
    /// The kind of buffer.
    pub type_: VABufferType,
    /// How many elements the buffer holds.
    pub num_elements: u32,
    /// Where the contents come from.
    pub data: BufferData,
}

impl CreateBufferRequest {
    /// The size in bytes of one element of the buffer, as the driver is
    /// told it, when the parameter records have been laid out in
    /// `laid_out` bytes: the even share of each element in those bytes for
    /// parameter records, and otherwise the number of bytes that the request
    /// names. The size is cut to 32 bits.
    pub open spec fn size_of_element(&self, laid_out: usize) -> u32 {
        match self.data {
            BufferData::Parameters => if self.num_elements == 0 {
                laid_out as u32
            } else {
                (laid_out / self.num_elements as usize) as u32
            },
            BufferData::Bytes(len) => len as u32,
            BufferData::Unset(size) => size as u32,
        }
    }

    /// Returns the size in bytes of one element of the buffer; see
    /// [`Self::size_of_element`].
    pub fn element_size(&self, laid_out: usize) -> (size: u32)
        ensures
            size == self.size_of_element(laid_out),
    {
        match self.data {
            BufferData::Parameters => {
                if self.num_elements == 0 {
                    #[verifier::truncate]
                    (laid_out as u32)
                } else {
                    #[verifier::truncate]
                    ((laid_out / self.num_elements as usize) as u32)
                }
            },
            BufferData::Bytes(len) => #[verifier::truncate] (len as u32),
            BufferData::Unset(size) => #[verifier::truncate] (size as u32),
        }
    }
}

impl BufferType {
    /// The driver's code of the kind of this buffer.
    pub open spec fn code(&self) -> VABufferType {
        match self {
            BufferType::PictureParameter(_) => VA_PICTURE_PARAMETER_BUFFER_TYPE,
            BufferType::SliceParameter(_) => VA_SLICE_PARAMETER_BUFFER_TYPE,
            BufferType::IQMatrix(_) => VA_IQ_MATRIX_BUFFER_TYPE,
            BufferType::Probability(_) => VA_PROBABILITY_BUFFER_TYPE,
            BufferType::SliceData(_) => VA_SLICE_DATA_BUFFER_TYPE,
            BufferType::EncSequenceParameter(_) => VA_ENC_SEQUENCE_PARAMETER_BUFFER_TYPE,
            BufferType::EncPictureParameter(_) => VA_ENC_PICTURE_PARAMETER_BUFFER_TYPE,
            BufferType::EncSliceParameter(_) => VA_ENC_SLICE_PARAMETER_BUFFER_TYPE,
            BufferType::EncMacroblockParameterBuffer(_) => VA_ENC_MACROBLOCK_MAP_BUFFER_TYPE,
            BufferType::EncCodedBuffer(_) => VA_ENC_CODED_BUFFER_TYPE,
            BufferType::EncMiscParameter(_) => VA_ENC_MISC_PARAMETER_BUFFER_TYPE,
        }
    }

    /// How many elements this buffer holds: every tile of a list of AV1 tile
    /// parameters, and one for everything else.
    pub open spec fn elements(&self) -> nat {
        match self {
            BufferType::SliceParameter(SliceParameter::AV1(params)) => params@.len(),
            _ => 1,
        }
    }

    /// Where the contents of this buffer come from.
    pub open spec fn data(&self) -> BufferData {
        match self {
            BufferType::SliceData(data) => BufferData::Bytes(data@.len() as usize),
            BufferType::EncCodedBuffer(size) => BufferData::Unset(*size),
            _ => BufferData::Parameters,
        }
    }

    /// Returns the driver's code of the kind of this buffer.
    pub fn inner(&self) -> (code: VABufferType)
        ensures
            code == self.code(),
    {
        match self {
            BufferType::PictureParameter(_) => VA_PICTURE_PARAMETER_BUFFER_TYPE,
            BufferType::SliceParameter(_) => VA_SLICE_PARAMETER_BUFFER_TYPE,
            BufferType::IQMatrix(_) => VA_IQ_MATRIX_BUFFER_TYPE,
            BufferType::Probability(_) => VA_PROBABILITY_BUFFER_TYPE,
            BufferType::SliceData(_) => VA_SLICE_DATA_BUFFER_TYPE,
            BufferType::EncSequenceParameter(_) => VA_ENC_SEQUENCE_PARAMETER_BUFFER_TYPE,
            BufferType::EncPictureParameter(_) => VA_ENC_PICTURE_PARAMETER_BUFFER_TYPE,
            BufferType::EncSliceParameter(_) => VA_ENC_SLICE_PARAMETER_BUFFER_TYPE,
            BufferType::EncMacroblockParameterBuffer(_) => VA_ENC_MACROBLOCK_MAP_BUFFER_TYPE,
            BufferType::EncCodedBuffer(_) => VA_ENC_CODED_BUFFER_TYPE,
            BufferType::EncMiscParameter(_) => VA_ENC_MISC_PARAMETER_BUFFER_TYPE,
        }
    }
}

/// A buffer of the driver, tied to the context that it was created in.
#[derive(Clone, Debug)]
pub struct Buffer {
    context: Rc<Context>,
    id: VABufferID,
}

/// What a [`Buffer`] holds.
pub struct BufferView {
    /// Identifier of the context that the buffer was created in.
    pub context: VAContextID,
    /// Identifier of the buffer.
    pub id: VABufferID,
}

impl View for Buffer {
    type V = BufferView;

    closed spec fn view(&self) -> BufferView {
        BufferView { context: self.context@.id, id: self.id }
    }
}

/// The identifiers of `buffers`, in their order.
pub open spec fn buffer_ids(buffers: Seq<Buffer>) -> Seq<VABufferID> {
    Seq::new(buffers.len(), |i: int| buffers[i]@.id)
}

impl Buffer {
    /// What to ask the driver for to create a buffer of kind `type_` in
    /// `context`. All tiles of a list of AV1 tile parameters go into one
    /// buffer, as so many elements; every other buffer has one element. The
    /// coded output of an encoder is created without contents, with its
    /// capacity only.
    pub fn create_request(context: &Context, type_: &BufferType) -> (request: CreateBufferRequest)
        ensures
            request == (CreateBufferRequest {
                context: context@.id,
                type_: type_.code(),
                num_elements: type_.elements() as u32,
                data: type_.data(),
            }),
    {
        let num_elements: u32 = match type_ {
            BufferType::SliceParameter(SliceParameter::AV1(params)) => {
                #[verifier::truncate]
                (params.len() as u32)
            },
            _ => 1,
        };
        let data = match type_ {
            BufferType::SliceData(data) => BufferData::Bytes(data.len()),
            BufferType::EncCodedBuffer(size) => BufferData::Unset(*size),
            _ => BufferData::Parameters,
        };
        CreateBufferRequest { context: context.id(), type_: type_.inner(), num_elements, data }
    }

    /// Makes the buffer of `context` from what the driver returned when
    /// asked to create it: its status and the identifier of the new buffer.
    pub fn new(context: Rc<Context>, status: VAStatus, buffer_id: VABufferID) -> (r: Result<
        Self,
        VaError,
    >)
        ensures
            r is Ok <==> status == 0,
            r matches Ok(buffer) ==> buffer@ == (BufferView { context: context@.id, id: buffer_id }),
            r matches Err(e) ==> e.code() == status,
    {
        match va_check(status) {
            Ok(()) => Ok(Buffer { context, id: buffer_id }),
            Err(e) => Err(e),
        }
    }

    /// Returns the context that this buffer was created in.
    pub fn context(&self) -> (context: &Rc<Context>)
        ensures
            context@.id == self@.context,
    {
        &self.context
    }

    /// Returns the identifier of this buffer.
    pub fn id(&self) -> (id: VABufferID)
        ensures
            id == self@.id,
    {
        self.id
    }

    /// Returns the identifiers of `buffers`, in their order.
    pub fn as_id_vec(buffers: &[Self]) -> (ids: Vec<VABufferID>)
        ensures
            ids@ == buffer_ids(buffers@),
    {
        let mut ids: Vec<VABufferID> = Vec::new();
        let mut i: usize = 0;
        while i < buffers.len()
            invariant
                i <= buffers.len(),
                ids.len() == i,
                forall|j: int| 0 <= j < i ==> ids[j] == (#[trigger] buffers[j])@.id,
            decreases buffers.len() - i,
        {
            ids.push(buffers[i].id);
            i = i + 1;
        }
        assert(ids@ =~= buffer_ids(buffers@));
        ids
    }
}

/// A buffer for the coded output of an encoder.
#[derive(Debug)]
pub struct EncCodedBuffer(Buffer);

impl View for EncCodedBuffer {
    type V = BufferView;

    closed spec fn view(&self) -> BufferView {
        self.0@
    }
}

impl EncCodedBuffer {
    /// Makes the coded buffer of `context` from what the driver returned
    /// when asked to create it: its status and the identifier of the new
    /// buffer.
    pub fn new(context: Rc<Context>, status: VAStatus, buffer_id: VABufferID) -> (r: Result<
        Self,
        VaError,
    >)
        ensures
            r is Ok <==> status == 0,
            r matches Ok(buffer) ==> buffer@ == (BufferView { context: context@.id, id: buffer_id }),
            r matches Err(e) ==> e.code() == status,
    {
        match Buffer::new(context, status, buffer_id) {
            Ok(buffer) => Ok(EncCodedBuffer(buffer)),
            Err(e) => Err(e),
        }
    }

    /// Returns the identifier of this buffer.
    pub fn id(&self) -> (id: VABufferID)
        ensures
            id == self@.id,
    {
        self.0.id
    }
}

/// One segment of a mapped coded buffer.
#[derive(Clone, Copy, Debug)]
pub struct MappedCodedSegment<'s> {
    pub bit_offset: u32,
    pub status: u32,
    pub buf: &'s [u8],
}

/// The segments of a coded buffer, for as long as it remains mapped.
#[derive(Debug)]
pub struct MappedCodedBuffer<'p> {
    segments: Vec<MappedCodedSegment<'p>>,
    buffer: &'p EncCodedBuffer,
}

/// The segment that the driver's record `raw` describes.
pub open spec fn mapped_segment<'p>(raw: VACodedBufferSegment<'p>) -> MappedCodedSegment<'p> {
    MappedCodedSegment { bit_offset: raw.bit_offset, status: raw.status, buf: raw.buf }
}

impl<'p> MappedCodedBuffer<'p> {
    /// The segments of this mapping, in the order of the driver's list.
    pub closed spec fn segments_spec(&self) -> Seq<MappedCodedSegment<'p>> {
        self.segments@
    }

    /// The coded buffer that is mapped.
    pub closed spec fn buffer_spec(&self) -> &'p EncCodedBuffer {
        self.buffer
    }

    /// Makes the mapping of `buffer` from what the driver returned when
    /// asked to map it: `status` is the status of the call and `raw` the
    /// list of segments that it pointed at, walked to its end.
    pub fn new(
        buffer: &'p EncCodedBuffer,
        status: VAStatus,
        raw: &Vec<VACodedBufferSegment<'p>>,
    ) -> (r: Result<Self, VaError>)
        ensures
            r is Ok <==> status == 0,
            r matches Ok(mapped) ==> mapped.buffer_spec() == buffer && mapped.segments_spec()
                == raw@.map_values(|s: VACodedBufferSegment<'p>| mapped_segment(s)),
            r matches Err(e) ==> e.code() == status,
    {
        match va_check(status) {
            Err(e) => Err(e),
            Ok(()) => {
                let mut segments: Vec<MappedCodedSegment<'p>> = Vec::new();
                let mut i: usize = 0;
                while i < raw.len()
                    invariant
                        i <= raw.len(),
                        segments.len() == i,
                        forall|j: int| 0 <= j < i ==> segments[j] == mapped_segment(raw[j]),
                    decreases raw.len() - i,
                {
                    let segment = raw[i];
                    segments.push(
                        MappedCodedSegment {
                            bit_offset: segment.bit_offset,
                            status: segment.status,
                            buf: segment.buf,
                        },
                    );
                    i = i + 1;
                }
                assert(segments@ =~= raw@.map_values(
                    |s: VACodedBufferSegment<'p>| mapped_segment(s),
                ));
                Ok(MappedCodedBuffer { segments, buffer })
            },
        }
    }

    /// Returns an iterator over the segments of this mapping, in their
    /// order.
    pub fn iter(&self) -> (segments: core::slice::Iter<'_, MappedCodedSegment<'p>>)
        ensures
            vstd::std_specs::slice::into_iter_elts(segments) == self.segments_spec(),
    {
        broadcast use vstd::std_specs::slice::axiom_spec_slice_iter;

        let segments = self.segments.as_slice().iter();
        assert(vstd::std_specs::slice::into_iter_elts(segments) =~= self.segments@);
        segments
    }

    /// Returns the segments of this mapping.
    pub fn segments(&self) -> (segments: &Vec<MappedCodedSegment<'p>>)
        ensures
            segments@ == self.segments_spec(),
    {
        &self.segments
    }

    /// Returns the coded buffer that is mapped, which is the one to unmap
    /// when this mapping is let go.
    pub fn buffer(&self) -> (buffer: &'p EncCodedBuffer)
        ensures
            buffer == self.buffer_spec(),
    {
        self.buffer
    }
}

} // verus!
