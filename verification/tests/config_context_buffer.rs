use std::rc::Rc;

use libva::bindings::VACodedBufferSegment;
use libva::buffer::av1::SliceParameterBufferAV1;
use libva::buffer::mpeg2::IQMatrixBufferMPEG2;
use libva::buffer::mpeg2::MPEG2PictureCodingExtension;
use libva::buffer::mpeg2::PictureParameterBufferMPEG2;
use libva::buffer::mpeg2::SliceParameterBufferMPEG2;
use libva::Buffer;
use libva::BufferData;
use libva::BufferType;
use libva::Config;
use libva::Context;
use libva::Display;
use libva::EncCodedBuffer;
use libva::EncMiscParameter;
use libva::EncMiscParameterHRD;
use libva::GenericValue;
use libva::GenericValueError;
use libva::IQMatrix;
use libva::MappedCodedBuffer;
use libva::OpenDrmDisplay;
use libva::OpenReply;
use libva::PictureParameter;
use libva::ProbabilityDataBufferVP8;
use libva::QuerySurfaceAttributesError;
use libva::SliceParameter;
use libva::Surface;
use libva::SurfaceBatchStep;
use libva::SurfaceMemoryDescriptor;
use libva::VAGenericValue;
use libva::VASurfaceAttrib;

fn display(handle: usize) -> Rc<Display> {
    let step = Display::open_drm_display(OpenDrmDisplay::OpenDevice, OpenReply::Device(Ok(())));
    let step = Display::open_drm_display(step, OpenReply::Display(handle));
    match Display::open_drm_display(step, OpenReply::Initialized(0)) {
        OpenDrmDisplay::Finished(Ok(display)) => display,
        other => panic!("unexpected {:?}", other),
    }
}

/// Creates one surface per descriptor with a driver that answers with
/// `replies`, one after the other.
fn create<D: SurfaceMemoryDescriptor>(
    display: Rc<Display>,
    width: u32,
    height: u32,
    descriptors: Vec<D>,
    replies: &[(i32, u32)],
) -> Result<Vec<Surface<D>>, i32> {
    let mut step = Surface::new(display, 1, None, width, height, None, descriptors);
    let mut replies = replies.iter();
    loop {
        step = match step {
            SurfaceBatchStep::Pending(mut batch) => {
                assert!(batch.request(0).is_some());
                let (status, id) = *replies.next().expect("the driver is asked once too often");
                batch.created(status, id)
            }
            SurfaceBatchStep::Done(surfaces) => return Ok(surfaces),
            SurfaceBatchStep::Failed { error, .. } => return Err(error.va_status()),
        }
    }
}

fn context(id: u32) -> Rc<Context> {
    display(0x10).create_context(0, id).map_err(|e| e.va_status()).unwrap()
}

fn attr(type_: u32, value: VAGenericValue) -> VASurfaceAttrib {
    VASurfaceAttrib { type_, flags: 1, value }
}

#[test]
fn config_is_made_from_a_successful_reply() {
    let display = display(0x10);
    let config = display.create_config(0, 33).map_err(|e| e.va_status()).unwrap();
    assert_eq!(config.id(), 33);
    assert_eq!(config.display().handle(), 0x10);
    let error = Config::new(display, 10, 33).unwrap_err();
    assert_eq!(error.va_status(), 10);
}

#[test]
fn surface_attributes_are_truncated_to_the_count() {
    let config = display(0x10).create_config(0, 33).map_err(|e| e.va_status()).unwrap();
    assert_eq!(config.surface_attributes_capacity(0, 3).map_err(|e| e.va_status()), Ok(3));
    assert_eq!(config.surface_attributes_capacity(4, 3).map_err(|e| e.va_status()), Err(4));
    let filled = vec![
        attr(1, VAGenericValue::from_i32(10)),
        attr(2, VAGenericValue::from_i32(20)),
        attr(1, VAGenericValue::from_i32(30)),
    ];
    let attrs = config.query_surface_attributes(0, filled.clone(), 2).map_err(|e| e.va_status()).unwrap();
    assert_eq!(attrs.len(), 2);
    assert_eq!(attrs[1].type_, 2);
    let attrs = config.query_surface_attributes(0, filled.clone(), 7).map_err(|e| e.va_status()).unwrap();
    assert_eq!(attrs.len(), 3);
    let error = config.query_surface_attributes(6, filled, 3).unwrap_err();
    assert_eq!(error.va_status(), 6);
}

#[test]
fn surface_attributes_of_one_kind_are_decoded_in_order() {
    let config = display(0x10).create_config(0, 33).map_err(|e| e.va_status()).unwrap();
    let attrs = vec![
        attr(1, VAGenericValue::from_i32(10)),
        attr(2, VAGenericValue::from_i32(20)),
        attr(1, VAGenericValue::from_pointer(0x30)),
        attr(3, VAGenericValue { type_: 99, ..VAGenericValue::from_i32(0) }),
        attr(1, VAGenericValue::from_f32_bits(0x4000_0000)),
    ];
    let values = config.query_surface_attributes_by_type(1, Ok(attrs.clone())).unwrap();
    assert_eq!(
        values,
        vec![GenericValue::Integer(10), GenericValue::Pointer(0x30), GenericValue::Float(0x4000_0000)]
    );
    let values = config.query_surface_attributes_by_type(2, Ok(attrs.clone())).unwrap();
    assert_eq!(values, vec![GenericValue::Integer(20)]);
    let values = config.query_surface_attributes_by_type(5, Ok(attrs)).unwrap();
    assert!(values.is_empty());
}

#[test]
fn a_value_that_cannot_be_decoded_fails_the_whole_list() {
    let config = display(0x10).create_config(0, 33).map_err(|e| e.va_status()).unwrap();
    let attrs = vec![
        attr(1, VAGenericValue::from_i32(10)),
        attr(1, VAGenericValue { type_: 99, ..VAGenericValue::from_i32(0) }),
        attr(1, VAGenericValue { type_: 77, ..VAGenericValue::from_i32(0) }),
    ];
    match config.query_surface_attributes_by_type(1, Ok(attrs.clone())) {
        Err(QuerySurfaceAttributesError::GenericValueError(e)) => {
            assert_eq!(e, GenericValueError::UnexpectedType(99))
        }
        other => panic!("unexpected {:?}", other),
    }
    // An attribute of another kind is never decoded.
    assert_eq!(config.query_surface_attributes_by_type(4, Ok(attrs)).unwrap(), vec![]);
}

#[test]
fn a_failed_query_is_passed_on() {
    let config = display(0x10).create_config(0, 33).map_err(|e| e.va_status()).unwrap();
    let failed = config.query_surface_attributes(9, vec![], 0);
    match config.query_surface_attributes_by_type(1, failed) {
        Err(QuerySurfaceAttributesError::VaError(e)) => assert_eq!(e.va_status(), 9),
        other => panic!("unexpected {:?}", other),
    }
}

#[test]
fn context_request_carries_the_flag_and_the_render_targets() {
    let display = display(0x10);
    let config = display.create_config(0, 33).map_err(|e| e.va_status()).unwrap();
    let surfaces = create(Rc::clone(&display), 16, 16, vec![(), ()], &[(0, 5), (0, 6)]).unwrap();
    let request = Context::create_request(&config, 16, 32, Some(&surfaces), true);
    assert_eq!(request.config, 33);
    assert_eq!(request.picture_width, 16);
    assert_eq!(request.picture_height, 32);
    assert_eq!(request.flag, 1);
    assert_eq!(request.render_targets, vec![5, 6]);

    let request = Context::create_request::<(), Surface<()>>(&config, 1920, 1088, None, false);
    assert_eq!(request.flag, 0);
    assert!(request.render_targets.is_empty());
    assert_eq!((request.picture_width, request.picture_height), (1920, 1088));
}

#[test]
fn context_is_made_from_a_successful_reply() {
    let display = display(0x10);
    let context = Context::new(Rc::clone(&display), 0, 44).map_err(|e| e.va_status()).unwrap();
    assert_eq!(context.id(), 44);
    assert_eq!(context.display().handle(), 0x10);
    let error = display.create_context(3, 44).unwrap_err();
    assert_eq!(error.va_status(), 3);
}

fn mpeg2_picture() -> PictureParameterBufferMPEG2 {
    let extension = MPEG2PictureCodingExtension::new(0, 3, 0, 1, 0, 0, 0, 0, 0, 1, 1);
    PictureParameterBufferMPEG2::new(16, 16, 0xffffffff, 0xffffffff, 1, 0xffff, &extension)
}

#[test]
fn buffer_kinds_map_to_the_codes_of_the_driver() {
    assert_eq!(BufferType::PictureParameter(PictureParameter::MPEG2(mpeg2_picture())).inner(), 0);
    assert_eq!(
        BufferType::IQMatrix(IQMatrix::MPEG2(IQMatrixBufferMPEG2::new(1, 1, 0, 0, [0; 64], [0; 64], [0; 64], [0; 64])))
            .inner(),
        1
    );
    assert_eq!(
        BufferType::SliceParameter(SliceParameter::MPEG2(SliceParameterBufferMPEG2::new(150, 0, 0, 38, 0, 0, 2, 0)))
            .inner(),
        4
    );
    assert_eq!(BufferType::SliceData(vec![1, 2, 3]).inner(), 5);
    assert_eq!(
        BufferType::Probability(ProbabilityDataBufferVP8::new([[[[0; 11]; 3]; 8]; 4])).inner(),
        13
    );
    assert_eq!(BufferType::EncCodedBuffer(4096).inner(), 21);
    assert_eq!(
        BufferType::EncMiscParameter(EncMiscParameter::HRD(EncMiscParameterHRD::new(1, 2))).inner(),
        27
    );
}

#[test]
fn buffer_request_has_one_element_but_for_av1_tiles() {
    let context = context(44);
    let request = Buffer::create_request(
        &context,
        &BufferType::PictureParameter(PictureParameter::MPEG2(mpeg2_picture())),
    );
    assert_eq!(request.context, 44);
    assert_eq!(request.type_, 0);
    assert_eq!(request.num_elements, 1);
    assert_eq!(request.data, BufferData::Parameters);
    assert_eq!(request.element_size(40), 40);

    let mut tiles = SliceParameterBufferAV1::new();
    assert_eq!(tiles.len(), 0);
    tiles.add_slice_parameter(10, 0, 0, 0, 0, 0, 2, 0, 0);
    tiles.add_slice_parameter(20, 10, 0, 0, 1, 0, 2, 0, 1);
    tiles.add_slice_parameter(30, 30, 0, 1, 0, 0, 2, 0, 2);
    assert_eq!(tiles.inner()[1].slice_data_size, 20);
    assert_eq!(tiles.inner()[2].tile_row, 1);
    let request = Buffer::create_request(&context, &BufferType::SliceParameter(SliceParameter::AV1(tiles)));
    assert_eq!(request.type_, 4);
    assert_eq!(request.num_elements, 3);
    assert_eq!(request.data, BufferData::Parameters);
    // Three tiles laid out in 72 bytes are 24 bytes each.
    assert_eq!(request.element_size(72), 24);
}

#[test]
fn slice_data_and_coded_output_give_their_size() {
    let context = context(44);
    let request = Buffer::create_request(&context, &BufferType::SliceData(vec![0; 110]));
    assert_eq!(request.type_, 5);
    assert_eq!(request.num_elements, 1);
    assert_eq!(request.data, BufferData::Bytes(110));
    assert_eq!(request.element_size(0), 110);
    // Coded output has no contents: the driver allocates what is asked for.
    let request = Buffer::create_request(&context, &BufferType::EncCodedBuffer(6144));
    assert_eq!(request.type_, 21);
    assert_eq!(request.num_elements, 1);
    assert_eq!(request.data, BufferData::Unset(6144));
    assert_eq!(request.element_size(0), 6144);
}

#[test]
fn buffers_are_made_from_a_successful_reply() {
    let context = context(44);
    let buffer = context.create_buffer(0, 7).map_err(|e| e.va_status()).unwrap();
    assert_eq!(buffer.id(), 7);
    assert_eq!(buffer.context().id(), 44);
    let other = Buffer::new(Rc::clone(&context), 0, 8).map_err(|e| e.va_status()).unwrap();
    assert_eq!(Buffer::as_id_vec(&[buffer, other]), vec![7, 8]);
    assert!(Buffer::as_id_vec(&[]).is_empty());
    assert_eq!(context.create_buffer(15, 7).unwrap_err().va_status(), 15);
    let coded = context.create_enc_coded(0, 9).map_err(|e| e.va_status()).unwrap();
    assert_eq!(coded.id(), 9);
    assert_eq!(EncCodedBuffer::new(context, 2, 9).unwrap_err().va_status(), 2);
}

#[test]
fn mapped_coded_buffer_keeps_every_segment() {
    let context = context(44);
    let coded = context.create_enc_coded(0, 9).map_err(|e| e.va_status()).unwrap();
    let first = [1u8, 2, 3];
    let second = [4u8];
    let raw = vec![
        VACodedBufferSegment { bit_offset: 0, status: 0x100, buf: &first },
        VACodedBufferSegment { bit_offset: 3, status: 0, buf: &second },
    ];
    let mapped = MappedCodedBuffer::new(&coded, 0, &raw).map_err(|e| e.va_status()).unwrap();
    assert_eq!(mapped.segments().len(), 2);
    assert_eq!(mapped.segments()[0].buf, &[1, 2, 3]);
    assert_eq!(mapped.segments()[0].status, 0x100);
    assert_eq!(mapped.segments()[1].bit_offset, 3);
    assert_eq!(mapped.segments()[1].buf, &[4]);
    assert_eq!(mapped.buffer().id(), 9);
    let empty = MappedCodedBuffer::new(&coded, 0, &vec![]).map_err(|e| e.va_status()).unwrap();
    assert!(empty.segments().is_empty());
    assert_eq!(MappedCodedBuffer::new(&coded, 8, &raw).err().map(|e| e.va_status()), Some(8));
}
