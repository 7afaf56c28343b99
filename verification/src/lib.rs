//! A safe model of the video-acceleration driver interface.
//!
//! Every object that the driver hands out (display, config, context, surface,
//! buffer, image) is held here as a plain value, together with the rules that
//! decide what may be asked of the driver next and what a driver reply means.
//! The driver calls themselves are made by the caller: each function that
//! depends on a reply takes that reply as an argument.
//!
//! The starting point is a [`Display`], from which a [`Context`] and
//! [`Surface`]s are made; a [`Picture`] then takes one surface through the
//! render protocol.

pub mod bindings;
pub mod buffer;
pub mod config;
pub mod constants;
pub mod context;
pub mod display;
pub mod generic_value;
pub mod image;
pub mod picture;
pub mod query;
mod sealed;
pub mod status;
pub mod surface;
pub mod text;
pub mod usage_hint;

pub use bindings::VABufferID;
pub use bindings::VAConfigAttrib;
pub use bindings::VAConfigAttribType;
pub use bindings::VAConfigID;
pub use bindings::VAContextID;
pub use bindings::VADRMPRIMESurfaceDescriptor;
pub use bindings::VADRMPRIMESurfaceDescriptorLayer;
pub use bindings::VADRMPRIMESurfaceDescriptorObject;
pub use bindings::VAEntrypoint;
pub use bindings::VAGenericValue;
pub use bindings::VAImage;
pub use bindings::VAImageFormat;
pub use bindings::VAProfile;
pub use bindings::VAStatus;
pub use bindings::VASurfaceAttrib;
pub use bindings::VASurfaceAttribExternalBuffers;
pub use bindings::VASurfaceAttribType;
pub use bindings::VASurfaceID;
pub use bindings::VASurfaceStatus;
pub use buffer::AV1EncLoopFilterFlags;
pub use buffer::AV1EncLoopRestorationFlags;
pub use buffer::AV1EncModeControlFlags;
pub use buffer::AV1EncPictureFlags;
pub use buffer::AV1EncQMatrixFlags;
pub use buffer::AV1EncSeqFields;
pub use buffer::AV1EncTileGroupObuHdrInfo;
pub use buffer::AV1FilmGrain;
pub use buffer::AV1FilmGrainFields;
pub use buffer::AV1LoopFilterFields;
pub use buffer::AV1LoopRestorationFields;
pub use buffer::AV1ModeControlFields;
pub use buffer::AV1PicInfoFields;
pub use buffer::AV1QMatrixFields;
pub use buffer::AV1SegmentInfoFields;
pub use buffer::AV1Segmentation;
pub use buffer::AV1SeqFields;
pub use buffer::AV1WarpedMotionParams;
pub use buffer::BlendState;
pub use buffer::BoolCoderContextVPX;
pub use buffer::Buffer;
pub use buffer::BufferData;
pub use buffer::BufferType;
pub use buffer::BufferView;
pub use buffer::CodedBufferVP9Status;
pub use buffer::CreateBufferRequest;
pub use buffer::EncCodedBuffer;
pub use buffer::EncMacroblockParameterBuffer;
pub use buffer::EncMacroblockParameterBufferH264;
pub use buffer::EncMiscParameter;
pub use buffer::EncMiscParameterBufferMaxFrameSize;
pub use buffer::EncMiscParameterBufferQualityLevel;
pub use buffer::EncMiscParameterFrameRate;
pub use buffer::EncMiscParameterHRD;
pub use buffer::EncMiscParameterMaxSliceSize;
pub use buffer::EncMiscParameterQuantization;
pub use buffer::EncMiscParameterRateControl;
pub use buffer::EncMiscParameterSkipFrame;
pub use buffer::EncPictureParameter;
pub use buffer::EncPictureParameterBufferAV1;
pub use buffer::EncPictureParameterBufferH264;
pub use buffer::EncPictureParameterBufferHEVC;
pub use buffer::EncPictureParameterBufferJPEG;
pub use buffer::EncPictureParameterBufferVP8;
pub use buffer::EncPictureParameterBufferVP9;
pub use buffer::EncSegParamAV1;
pub use buffer::EncSegParamFlagsAV1;
pub use buffer::EncSequenceParameter;
pub use buffer::EncSequenceParameterBufferAV1;
pub use buffer::EncSequenceParameterBufferH264;
pub use buffer::EncSequenceParameterBufferHEVC;
pub use buffer::EncSequenceParameterBufferVP8;
pub use buffer::EncSequenceParameterBufferVP9;
pub use buffer::EncSliceParameter;
pub use buffer::EncSliceParameterBufferH264;
pub use buffer::EncSliceParameterBufferHEVC;
pub use buffer::EncSliceParameterBufferJPEG;
pub use buffer::EncSliceParameterBufferJPEGComponent;
pub use buffer::EncTileGroupBufferAV1;
pub use buffer::EncWarpedMotionParamsAV1;
pub use buffer::H264EncFrameCropOffsets;
pub use buffer::H264EncMacroblockInfo;
pub use buffer::H264EncPicFields;
pub use buffer::H264EncSeqFields;
pub use buffer::H264PicFields;
pub use buffer::H264SeqFields;
pub use buffer::H264VuiFields;
pub use buffer::HEVCEncPicFields;
pub use buffer::HEVCEncSeqFields;
pub use buffer::HdrMetaData;
pub use buffer::HevcEncPicSccFields;
pub use buffer::HevcEncSeqSccFields;
pub use buffer::HevcEncSliceFields;
pub use buffer::HevcEncVuiFields;
pub use buffer::HevcLongSliceFlags;
pub use buffer::HevcPicFields;
pub use buffer::HevcRangeExtensionPicFields;
pub use buffer::HevcScreenContentPicFields;
pub use buffer::HevcSliceExtFlags;
pub use buffer::HevcSliceParsingFields;
pub use buffer::HuffmanTableBufferJPEGBaseline;
pub use buffer::HuffmanTableBufferJPEGBaselineHuffmanTable;
pub use buffer::IQMatrix;
pub use buffer::IQMatrixBufferH264;
pub use buffer::IQMatrixBufferHEVC;
pub use buffer::IQMatrixBufferJPEGBaseline;
pub use buffer::IQMatrixBufferMPEG2;
pub use buffer::IQMatrixBufferVP8;
pub use buffer::MPEG2PictureCodingExtension;
pub use buffer::MappedCodedBuffer;
pub use buffer::MappedCodedSegment;
pub use buffer::MiscEncParamBuffer;
pub use buffer::PicFlags;
pub use buffer::PictureH264;
pub use buffer::PictureHEVC;
pub use buffer::PictureParameter;
pub use buffer::PictureParameterBufferAV1;
pub use buffer::PictureParameterBufferH264;
pub use buffer::PictureParameterBufferHEVC;
pub use buffer::PictureParameterBufferHEVCRext;
pub use buffer::PictureParameterBufferHEVCScc;
pub use buffer::PictureParameterBufferJPEGBaseline;
pub use buffer::PictureParameterBufferJPEGBaselineComponent;
pub use buffer::PictureParameterBufferMPEG2;
pub use buffer::PictureParameterBufferVP8;
pub use buffer::PictureParameterBufferVP9;
pub use buffer::ProbabilityDataBufferVP8;
pub use buffer::ProcColorProperties;
pub use buffer::ProcPipelineParameterBuffer;
pub use buffer::QMatrixBufferJPEG;
pub use buffer::RcFlags;
pub use buffer::RefFrameCtrlAV1;
pub use buffer::SegmentParameterVP9;
pub use buffer::SliceParameter;
pub use buffer::SliceParameterBufferAV1;
pub use buffer::SliceParameterBufferH264;
pub use buffer::SliceParameterBufferHEVC;
pub use buffer::SliceParameterBufferHEVCRext;
pub use buffer::SliceParameterBufferJPEGBaseline;
pub use buffer::SliceParameterBufferMPEG2;
pub use buffer::SliceParameterBufferVP8;
pub use buffer::SliceParameterBufferVP9;
pub use buffer::VAEncMiscParameterBufferMaxFrameSize;
pub use buffer::VAEncMiscParameterBufferQualityLevel;
pub use buffer::VAEncMiscParameterFrameRate;
pub use buffer::VAEncMiscParameterHRD;
pub use buffer::VAEncMiscParameterMaxSliceSize;
pub use buffer::VAEncMiscParameterQuantization;
pub use buffer::VAEncMiscParameterRateControl;
pub use buffer::VAEncMiscParameterSkipFrame;
pub use buffer::VAEncMiscParameterType;
pub use buffer::VAProcPipelineParameterBuffer;
pub use buffer::VASliceParameterBufferAV1;
pub use buffer::VASliceParameterBufferJPEGBaselineComponent;
pub use buffer::VP8EncPicFlags;
pub use buffer::VP8EncRefFlags;
pub use buffer::VP8PicFields;
pub use buffer::VP9EncPicFlags;
pub use buffer::VP9EncRefFlags;
pub use buffer::VP9PicFields;
pub use buffer::VP9SegmentFlags;
pub use config::Config;
pub use config::ConfigView;
pub use config::QuerySurfaceAttributesError;
pub use context::Context;
pub use context::ContextView;
pub use context::CreateContextRequest;
pub use display::Display;
pub use display::DisplaySearch;
pub use display::DrmDeviceIterator;
pub use display::OpenDrmDisplay;
pub use display::OpenDrmDisplayError;
pub use display::OpenReply;
pub use display::SearchReply;
pub use display::SearchRequest;
pub use generic_value::GenericValue;
pub use generic_value::GenericValueError;
pub use image::Image;
pub use image::ImageRelease;
pub use image::ImageReply;
pub use image::ImageRequest;
pub use image::ImageSetup;
pub use image::ImageView;
pub use image::PutImage;
pub use picture::BeginPicture;
pub use picture::EndPicture;
pub use picture::Picture;
pub use picture::PictureBegin;
pub use picture::PictureEnd;
pub use picture::PictureNew;
pub use picture::PictureReclaimableSurface;
pub use picture::PictureRender;
pub use picture::PictureStage;
pub use picture::PictureState;
pub use picture::PictureStep;
pub use picture::PictureSync;
pub use picture::PictureView;
pub use picture::RenderPicture;
pub use status::VaError;
pub use status::VaStatus;
pub use status::va_check;
pub use surface::CreateSurfaces;
pub use surface::DecodeErrorType;
pub use surface::DrmPrimeSurfaceDescriptor;
pub use surface::DrmPrimeSurfaceDescriptorLayer;
pub use surface::DrmPrimeSurfaceDescriptorObject;
pub use surface::ExportRequest;
pub use surface::ExternalBufferDescriptor;
pub use surface::MemoryType;
pub use surface::Surface;
pub use surface::SurfaceBatch;
pub use surface::SurfaceBatchStep;
pub use surface::SurfaceBatchView;
pub use surface::SurfaceDecodeMBError;
pub use surface::SurfaceExternalDescriptor;
pub use surface::SurfaceHolder;
pub use surface::SurfaceMemoryDescriptor;
pub use surface::SurfaceView;
pub use usage_hint::UsageHint;
