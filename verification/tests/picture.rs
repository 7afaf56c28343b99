use std::rc::Rc;

use libva::buffer::mpeg2::IQMatrixBufferMPEG2;
use libva::buffer::mpeg2::MPEG2PictureCodingExtension;
use libva::buffer::mpeg2::PictureParameterBufferMPEG2;
use libva::buffer::mpeg2::SliceParameterBufferMPEG2;
use libva::bindings::VACodedBufferSegment;
use libva::buffer::h264::EncPictureParameterBufferH264;
use libva::buffer::h264::EncSequenceParameterBufferH264;
use libva::buffer::h264::EncSliceParameterBufferH264;
use libva::buffer::h264::H264EncPicFields;
use libva::buffer::h264::H264EncSeqFields;
use libva::buffer::h264::H264VuiFields;
use libva::buffer::h264::PictureH264;
use libva::constants::VA_INVALID_ID;
use libva::constants::VA_INVALID_SURFACE;
use libva::Buffer;
use libva::EncPictureParameter;
use libva::EncSequenceParameter;
use libva::EncSliceParameter;
use libva::Image;
use libva::MappedCodedBuffer;
use libva::BufferData;
use libva::BufferType;
use libva::Context;
use libva::Display;
use libva::IQMatrix;
use libva::ImageReply;
use libva::ImageRequest;
use libva::ImageSetup;
use libva::OpenDrmDisplay;
use libva::OpenReply;
use libva::Picture;
use libva::PictureNew;
use libva::PictureParameter;
use libva::SliceParameter;
use libva::Surface;
use libva::SurfaceBatchStep;
use libva::SurfaceMemoryDescriptor;
use libva::UsageHint;
use libva::VAImage;
use libva::VAImageFormat;

fn display(handle: usize) -> Rc<Display> {
    let step = Display::open_drm_display(OpenDrmDisplay::OpenDevice, OpenReply::Device(Ok(())));
    let step = Display::open_drm_display(step, OpenReply::Display(handle));
    match Display::open_drm_display(step, OpenReply::Initialized(0)) {
        OpenDrmDisplay::Finished(Ok(display)) => display,
        other => panic!("unexpected {:?}", other),
    }
}

fn context(id: u32) -> Rc<Context> {
    display(0x10).create_context(0, id).map_err(|e| e.va_status()).unwrap()
}

/// Creates one surface per descriptor with a driver that answers with
/// `replies`, one after the other.
fn create<D: SurfaceMemoryDescriptor>(
    display: Rc<Display>,
    width: u32,
    height: u32,
    descriptors: Vec<D>,
    replies: &[(i32, u32)],
) -> Result<Vec<Surface<D>>, i32> {
    let mut step = Surface::new(display, 1, None, width, height, None, descriptors);
    let mut replies = replies.iter();
    loop {
        step = match step {
            SurfaceBatchStep::Pending(mut batch) => {
                assert!(batch.request(0).is_some());
                let (status, id) = *replies.next().expect("the driver is asked once too often");
                batch.created(status, id)
            }
            SurfaceBatchStep::Done(surfaces) => return Ok(surfaces),
            SurfaceBatchStep::Failed { error, .. } => return Err(error.va_status()),
        }
    }
}

fn surface(id: u32) -> Surface<()> {
    create(display(0x10), 16, 16, vec![()], &[(0, id)]).unwrap().remove(0)
}

fn buffer(context: &Rc<Context>, id: u32) -> Buffer {
    context.create_buffer(0, id).map_err(|e| e.va_status()).unwrap()
}

fn new_picture(timestamp: u64) -> Picture<PictureNew, Surface<()>> {
    Picture::new(timestamp, context(44), surface(5))
}

#[test]
fn a_picture_goes_through_the_protocol_in_order() {
    let context = context(44);
    let mut picture = Picture::new(9, Rc::clone(&context), surface(5));
    picture.add_buffer(buffer(&context, 1));
    picture.add_buffer(buffer(&context, 3));
    picture.add_buffer(buffer(&context, 2));
    assert_eq!(picture.timestamp(), 9);

    let request = picture.begin_request();
    assert_eq!(request.context, 44);
    assert_eq!(request.render_target, 5);
    let picture = picture.begin(0).map_err(|e| e.va_status()).unwrap();

    // All buffers are submitted at once, in the order in which they were added.
    let request = picture.render_request();
    assert_eq!(request.context, 44);
    assert_eq!(request.buffers, vec![1, 3, 2]);
    assert_eq!(request.num_buffers, 3);
    let picture = picture.render(0).map_err(|e| e.va_status()).unwrap();

    assert_eq!(picture.end_request().context, 44);
    let picture = picture.end(0).map_err(|e| e.va_status()).unwrap();

    assert_eq!(picture.surface().id(), 5);
    assert_eq!(picture.sync_request(), 5);
    let picture = picture.sync(0).map_err(|(e, _)| e.va_status()).unwrap();
    assert_eq!(picture.timestamp(), 9);
    assert_eq!(picture.context().id(), 44);
    assert_eq!(picture.as_ref().id(), 5);

    let surface = picture.take_surface().ok().unwrap();
    assert_eq!(surface.id(), 5);
    assert_eq!(surface.size(), (16, 16));
}

#[test]
fn a_picture_without_buffers_submits_none() {
    let picture = new_picture(1).begin(0).map_err(|e| e.va_status()).unwrap();
    let request = picture.render_request();
    assert!(request.buffers.is_empty());
    assert_eq!(request.num_buffers, 0);
}

#[test]
fn a_failing_step_gives_the_status_of_the_driver() {
    assert_eq!(new_picture(1).begin(11).err().map(|e| e.va_status()), Some(11));
    let begun = new_picture(1).begin(0).map_err(|e| e.va_status()).unwrap();
    assert_eq!(begun.render(12).err().map(|e| e.va_status()), Some(12));
    let rendered = new_picture(1).begin(0).ok().unwrap().render(0).ok().unwrap();
    assert_eq!(rendered.end(-13).err().map(|e| e.va_status()), Some(-13));
}

#[test]
fn a_failing_sync_hands_the_picture_back() {
    let context = context(44);
    let mut picture = Picture::new(77, Rc::clone(&context), surface(5));
    picture.add_buffer(buffer(&context, 1));
    let ended = picture.begin(0).ok().unwrap().render(0).ok().unwrap().end(0).ok().unwrap();
    let (error, ended) = match ended.sync(23) {
        Err(back) => back,
        Ok(_) => panic!("sync must fail"),
    };
    assert_eq!(error.va_status(), 23);
    assert_eq!(ended.timestamp(), 77);
    assert_eq!(ended.surface().id(), 5);
    // It can be tried again.
    let synced = ended.sync(0).map_err(|(e, _)| e.va_status()).unwrap();
    assert_eq!(synced.timestamp(), 77);
    assert_eq!(synced.take_surface().ok().unwrap().id(), 5);
}

#[test]
fn a_new_picture_gives_its_surface_back() {
    let surface = new_picture(3).take_surface().ok().unwrap();
    assert_eq!(surface.id(), 5);
}

#[test]
fn a_shared_surface_cannot_be_reclaimed() {
    let context = context(44);
    let mut first = Picture::new(100, Rc::clone(&context), surface(5));
    first.add_buffer(buffer(&context, 1));
    first.add_buffer(buffer(&context, 2));
    let second = Picture::new_from_same_surface(101, &first);
    assert_eq!(second.timestamp(), 101);
    assert_eq!(second.surface().id(), 5);
    assert_eq!(second.context().id(), 44);

    // The second field still holds the surface: the first picture comes back as it was.
    let first = match first.take_surface() {
        Err(picture) => picture,
        Ok(_) => panic!("the surface is shared"),
    };
    assert_eq!(first.timestamp(), 100);
    assert_eq!(first.surface().id(), 5);
    let begun = first.begin(0).ok().unwrap();
    assert_eq!(begun.render_request().buffers, vec![1, 2]);

    // The second picture starts without buffers.
    let second = second.begin(0).ok().unwrap();
    assert!(second.render_request().buffers.is_empty());
}

#[test]
fn the_last_holder_reclaims_the_surface() {
    let first = new_picture(100);
    let second = Picture::new_from_same_surface(101, &first);
    let second = match second.take_surface() {
        Err(picture) => picture,
        Ok(_) => panic!("the surface is shared"),
    };
    drop(first);
    let surface = second.take_surface().ok().unwrap();
    assert_eq!(surface.id(), 5);
}

#[test]
fn a_synced_picture_shares_its_surface_with_the_second_field() {
    let synced = new_picture(1)
        .begin(0)
        .ok()
        .unwrap()
        .render(0)
        .ok()
        .unwrap()
        .end(0)
        .ok()
        .unwrap()
        .sync(0)
        .ok()
        .unwrap();
    let second = Picture::new_from_same_surface(2, &synced);
    assert_eq!(second.surface().id(), 5);
    assert!(synced.take_surface().is_err());
}

#[test]
fn pictures_take_surfaces_in_boxes_and_shared_pointers() {
    let boxed = Picture::new(1, context(44), Box::new(surface(6)));
    assert_eq!(boxed.begin_request().render_target, 6);
    let shared = Rc::new(surface(7));
    let picture = Picture::new(1, context(44), Rc::clone(&shared));
    assert_eq!(picture.begin_request().render_target, 7);
    assert_eq!(picture.take_surface().ok().unwrap().id(), 7);
}

fn nv12() -> VAImageFormat {
    VAImageFormat {
        fourcc: 0x3231_564e,
        byte_order: 1,
        bits_per_pixel: 12,
        depth: 0,
        red_mask: 0,
        green_mask: 0,
        blue_mask: 0,
        alpha_mask: 0,
    }
}

/// The whole decode of one 16x16 picture, with a driver that always succeeds.
#[test]
fn decoding_one_mpeg2_picture_end_to_end() {
    let display = display(0x10);
    assert_eq!(display.query_vendor_string(Some("test".to_string())), Ok("test".to_string()));
    let profiles = display.query_config_profiles(0, vec![0, 1, 0], 2).map_err(|e| e.va_status()).unwrap();
    assert_eq!(profiles, vec![0, 1]);
    let config = display.create_config(0, 1).map_err(|e| e.va_status()).unwrap();

    let mut descriptor = ();
    let attrs = Surface::creation_attrs(None, Some(UsageHint::decoder()), &mut descriptor, 0);
    assert_eq!(attrs.len(), 1);
    let mut batch = match display.create_surfaces(1, None, 16, 16, Some(UsageHint::decoder()), vec![()]) {
        SurfaceBatchStep::Pending(batch) => batch,
        _ => panic!("a surface is to be created"),
    };
    let request = batch.request(0).unwrap();
    assert_eq!((request.format, request.width, request.height), (1, 16, 16));
    assert_eq!(request.attrs.len(), 1);
    let mut surfaces = match batch.created(0, 2) {
        SurfaceBatchStep::Done(surfaces) => surfaces,
        _ => panic!("the batch must be done"),
    };
    let request = Context::create_request(&config, 16, ((16 + 15) / 16) * 16, Some(&surfaces), true);
    assert_eq!(request.render_targets, vec![2]);
    let context = display.create_context(0, 3).map_err(|e| e.va_status()).unwrap();

    let clip_len = 197usize;
    let extension = MPEG2PictureCodingExtension::new(0, 3, 0, 1, 0, 0, 0, 0, 0, 1, 1);
    let pic_param = BufferType::PictureParameter(PictureParameter::MPEG2(PictureParameterBufferMPEG2::new(
        16, 16, 0xffffffff, 0xffffffff, 1, 0xffff, &extension,
    )));
    let iq_matrix = BufferType::IQMatrix(IQMatrix::MPEG2(IQMatrixBufferMPEG2::new(
        1, 1, 0, 0, [8; 64], [16; 64], [0; 64], [0; 64],
    )));
    let slice_param =
        BufferType::SliceParameter(SliceParameter::MPEG2(SliceParameterBufferMPEG2::new(150, 0, 0, 38, 0, 0, 2, 0)));
    let slice_data = BufferType::SliceData(vec![0u8; clip_len].drain(47..).collect());

    let mut picture = Picture::new(0, Rc::clone(&context), surfaces.remove(0));
    let mut next_id = 10;
    for type_ in [pic_param, slice_param, iq_matrix, slice_data] {
        let request = Buffer::create_request(&context, &type_);
        assert_eq!(request.context, 3);
        if request.type_ == 5 {
            assert_eq!(request.data, BufferData::Bytes(150));
        }
        picture.add_buffer(context.create_buffer(0, next_id).map_err(|e| e.va_status()).unwrap());
        next_id += 1;
    }

    let picture = picture.begin(0).map_err(|e| e.va_status()).unwrap();
    assert_eq!(picture.render_request().buffers, vec![10, 11, 12, 13]);
    let picture = picture.render(0).map_err(|e| e.va_status()).unwrap();
    let picture = picture.end(0).map_err(|e| e.va_status()).unwrap();
    let picture = picture.sync(0).map_err(|(e, _)| e.va_status()).unwrap();

    let formats = display.query_image_formats(0, vec![nv12(), nv12()], 1).map_err(|e| e.va_status()).unwrap();
    let format = formats.into_iter().find(|f| f.fourcc == 0x3231_564e).unwrap();
    let setup = picture.create_image(format, (16, 16), (16, 16));
    assert!(matches!(
        setup.request(),
        Some(ImageRequest::CreateImage { width: 16, height: 16, .. })
    ));
    let described = VAImage {
        image_id: 20,
        format,
        buf: 21,
        width: 16,
        height: 16,
        data_size: 384,
        num_planes: 2,
        pitches: [16, 16, 0],
        offsets: [0, 256, 0],
        num_palette_entries: 0,
        entry_bytes: 0,
        component_order: [0; 4],
    };
    let setup = setup.advance(ImageReply::Image(0, described));
    assert!(matches!(
        setup.request(),
        Some(ImageRequest::GetImage { surface: 2, x: 0, y: 0, width: 16, height: 16, image: 20 })
    ));
    let setup = setup.advance(ImageReply::Status(0));
    assert!(matches!(setup.request(), Some(ImageRequest::MapBuffer { buf: 21 })));
    let mut memory = vec![0x80u8; 384];
    let image = match setup.advance(ImageReply::Mapped(0, &mut memory)) {
        ImageSetup::Ready(image) => image,
        _ => panic!("the image must be ready"),
    };
    assert_eq!(image.coded_resolution(), (16, 16));
    assert_eq!(image.as_ref().len(), 384);
    assert!(!image.is_derived());
    let release = image.release();
    assert_eq!(release.write_back, None);
    assert_eq!((release.unmap, release.destroy), (21, 20));
}

/// The whole encode of one 64x64 picture, with a driver that always
/// succeeds and hands out one coded segment.
#[test]
fn encoding_one_h264_picture_end_to_end() {
    let frame: Vec<u8> = (0..64 * 64 * 3 / 2).map(|i| (i % 251) as u8).collect();
    let (width, height) = (64usize, 64usize);

    let display = display(0x10);
    let config = display.create_config(0, 1).map_err(|e| e.va_status()).unwrap();
    let mut surfaces = create(Rc::clone(&display), 64, 64, vec![()], &[(0, 2)]).unwrap();
    let request = Context::create_request(&config, 64, 64, Some(&surfaces), true);
    assert_eq!((request.picture_width, request.picture_height, request.flag), (64, 64, 1));
    let context = display.create_context(0, 3).map_err(|e| e.va_status()).unwrap();

    let surface = surfaces.pop().unwrap();
    let surface_id = surface.id();

    let request = Buffer::create_request(&context, &BufferType::EncCodedBuffer(frame.len()));
    assert_eq!(request.data, BufferData::Unset(6144));
    let coded_buffer = context.create_enc_coded(0, 30).map_err(|e| e.va_status()).unwrap();

    // The frame is written into a copy of the surface, line by line.
    let described = VAImage {
        image_id: 20,
        format: nv12(),
        buf: 21,
        width: 64,
        height: 64,
        data_size: 128 * 96,
        num_planes: 2,
        pitches: [128, 128, 0],
        offsets: [0, 128 * 64, 0],
        num_palette_entries: 0,
        entry_bytes: 0,
        component_order: [0; 4],
    };
    let mut memory = vec![0u8; 128 * 96];
    {
        let setup = Image::create_from(&surface, nv12(), (64, 64), (64, 64))
            .advance(ImageReply::Image(0, described))
            .advance(ImageReply::Status(0))
            .advance(ImageReply::Mapped(0, &mut memory));
        let mut image = match setup {
            ImageSetup::Ready(image) => image,
            _ => panic!("the image must be ready"),
        };
        let va_image = *image.image();
        let dest = image.as_mut();
        for plane in 0..2 {
            let rows = if plane == 0 { height } else { height / 2 };
            let src = &frame[plane * width * height..];
            for row in 0..rows {
                let at = va_image.offsets[plane] as usize + row * va_image.pitches[plane] as usize;
                dest[at..at + width].copy_from_slice(&src[row * width..(row + 1) * width]);
            }
        }
        // The copy was written to: it goes back to the surface in full.
        let release = image.release();
        let put = release.write_back.unwrap();
        assert_eq!((put.surface, put.image), (2, 20));
        assert_eq!((put.src_width, put.src_height, put.dest_width, put.dest_height), (64, 64, 64, 64));
        assert_eq!((release.unmap, release.destroy), (21, 20));
    }
    assert_eq!(memory[0], frame[0]);
    assert_eq!(memory[128], frame[64]);
    assert_eq!(memory[64], 0);
    assert_eq!(memory[128 * 64 + 128 * 31 + 63], frame[64 * 64 + 64 * 31 + 63]);

    let seq_fields = H264EncSeqFields::new(1, 1, 0, 0, 0, 1, 0, 2, 0);
    let sps = BufferType::EncSequenceParameter(EncSequenceParameter::H264(
        EncSequenceParameterBufferH264::new(
            0,
            10,
            10,
            30,
            1,
            0,
            1,
            (width / 16) as u16,
            (height / 16) as u16,
            &seq_fields,
            0,
            0,
            0,
            0,
            0,
            [0; 256],
            None,
            Some(H264VuiFields::new(1, 1, 0, 0, 0, 1, 0, 0)),
            255,
            1,
            1,
            1,
            60,
        ),
    ));
    assert_eq!(Buffer::create_request(&context, &sps).type_, 22);
    let sps = context.create_buffer(0, 31).map_err(|e| e.va_status()).unwrap();

    let no_picture = PictureH264::new(VA_INVALID_ID, 0, VA_INVALID_SURFACE, 0, 0);
    let pps = BufferType::EncPictureParameter(EncPictureParameter::H264(EncPictureParameterBufferH264::new(
        PictureH264::new(surface_id, 0, 0, 0, 0),
        [no_picture; 16],
        coded_buffer.id(),
        0,
        0,
        0,
        0,
        26,
        0,
        0,
        0,
        0,
        &H264EncPicFields::new(1, 1, 0, 0, 0, 0, 0, 1, 0, 0, 0),
    )));
    match &pps {
        BufferType::EncPictureParameter(EncPictureParameter::H264(pps)) => {
            assert_eq!(pps.coded_buf, 30);
            assert_eq!(pps.curr_pic.picture_id, 2);
            assert_eq!(pps.pic_init_qp, 26);
        }
        _ => panic!("picture parameters"),
    }
    assert_eq!(Buffer::create_request(&context, &pps).type_, 23);
    let pps = context.create_buffer(0, 32).map_err(|e| e.va_status()).unwrap();

    let slice = BufferType::EncSliceParameter(EncSliceParameter::H264(EncSliceParameterBufferH264::new(
        0,
        ((width / 16) * (height / 16)) as u32,
        VA_INVALID_ID,
        2,
        0,
        1,
        0,
        0,
        [0, 0],
        1,
        0,
        0,
        0,
        [no_picture; 32],
        [no_picture; 32],
        0,
        0,
        0,
        [0; 32],
        [0; 32],
        0,
        [[0; 2]; 32],
        [[0; 2]; 32],
        0,
        [0; 32],
        [0; 32],
        0,
        [[0; 2]; 32],
        [[0; 2]; 32],
        0,
        0,
        0,
        2,
        2,
    )));
    assert_eq!(Buffer::create_request(&context, &slice).type_, 24);
    let slice = context.create_buffer(0, 33).map_err(|e| e.va_status()).unwrap();

    let mut picture = Picture::new(0, Rc::clone(&context), surface);
    picture.add_buffer(pps);
    picture.add_buffer(sps);
    picture.add_buffer(slice);

    let picture = picture.begin(0).map_err(|e| e.va_status()).unwrap();
    assert_eq!(picture.render_request().buffers, vec![32, 31, 33]);
    let picture = picture.render(0).map_err(|e| e.va_status()).unwrap();
    let picture = picture.end(0).map_err(|e| e.va_status()).unwrap();
    let _ = picture.sync(0).map_err(|(e, _)| e.va_status()).unwrap();

    let coded = [0u8, 0, 0, 1, 0x65, 0x88];
    let raw = vec![VACodedBufferSegment { bit_offset: 0, status: 0, buf: &coded }];
    let coded_buf = MappedCodedBuffer::new(&coded_buffer, 0, &raw).map_err(|e| e.va_status()).unwrap();
    assert_ne!(coded_buf.segments().len(), 0);
    for segment in coded_buf.iter() {
        assert_ne!(segment.buf.len(), 0);
    }
}

#[test]
fn reclaiming_follows_what_the_shared_pointer_gave() {
    let context = context(44);
    let buffers = vec![buffer(&context, 1), buffer(&context, 2)];
    // The pointer gave up the surface: it is reclaimed.
    let reclaimed = Picture::<PictureNew, Surface<()>>::reclaimed(7, Rc::clone(&context), vec![], Ok(surface(5)));
    assert_eq!(reclaimed.ok().unwrap().id(), 5);
    // The pointer kept the surface: the picture is put together again.
    let shared = Rc::new(surface(6));
    let picture =
        match Picture::<PictureNew, Surface<()>>::reclaimed(7, Rc::clone(&context), buffers, Err(Rc::clone(&shared))) {
            Err(picture) => picture,
            Ok(_) => panic!("the surface is shared"),
        };
    assert_eq!(picture.timestamp(), 7);
    assert_eq!(picture.surface().id(), 6);
    assert_eq!(picture.context().id(), 44);
    assert_eq!(picture.begin(0).ok().unwrap().render_request().buffers, vec![1, 2]);
    assert_eq!(Rc::strong_count(&shared), 1);
}

#[test]
fn sync_waits_on_the_surface_that_the_picture_holds() {
    let ended = Picture::new(1, context(44), Box::new(surface(6)))
        .begin(0)
        .ok()
        .unwrap()
        .render(0)
        .ok()
        .unwrap()
        .end(0)
        .ok()
        .unwrap();
    assert_eq!(ended.sync_request(), 6);
    // A failed wait leaves the same surface to wait on.
    let (_, ended) = match ended.sync(9) {
        Err(back) => back,
        Ok(_) => panic!("sync must fail"),
    };
    assert_eq!(ended.sync_request(), 6);
}
