use std::rc::Rc;

use libva::Display;
use libva::Image;
use libva::ImageReply;
use libva::ImageRequest;
use libva::ImageSetup;
use libva::OpenDrmDisplay;
use libva::OpenReply;
use libva::PutImage;
use libva::Surface;
use libva::SurfaceBatchStep;
use libva::SurfaceMemoryDescriptor;
use libva::VAImage;
use libva::VAImageFormat;

fn display(handle: usize) -> Rc<Display> {
    let step = Display::open_drm_display(OpenDrmDisplay::OpenDevice, OpenReply::Device(Ok(())));
    let step = Display::open_drm_display(step, OpenReply::Display(handle));
    match Display::open_drm_display(step, OpenReply::Initialized(0)) {
        OpenDrmDisplay::Finished(Ok(display)) => display,
        other => panic!("unexpected {:?}", other),
    }
}

/// Creates one surface per descriptor with a driver that answers with
/// `replies`, one after the other.
fn create<D: SurfaceMemoryDescriptor>(
    display: Rc<Display>,
    width: u32,
    height: u32,
    descriptors: Vec<D>,
    replies: &[(i32, u32)],
) -> Result<Vec<Surface<D>>, i32> {
    let mut step = Surface::new(display, 1, None, width, height, None, descriptors);
    let mut replies = replies.iter();
    loop {
        step = match step {
            SurfaceBatchStep::Pending(mut batch) => {
                assert!(batch.request(0).is_some());
                let (status, id) = *replies.next().expect("the driver is asked once too often");
                batch.created(status, id)
            }
            SurfaceBatchStep::Done(surfaces) => return Ok(surfaces),
            SurfaceBatchStep::Failed { error, .. } => return Err(error.va_status()),
        }
    }
}

fn surface(id: u32) -> Surface<()> {
    create(display(0x10), 16, 16, vec![()], &[(0, id)]).unwrap().remove(0)
}

fn nv12() -> VAImageFormat {
    VAImageFormat {
        fourcc: 0x3231_564e,
        byte_order: 1,
        bits_per_pixel: 12,
        depth: 0,
        red_mask: 0,
        green_mask: 0,
        blue_mask: 0,
        alpha_mask: 0,
    }
}

fn described(width: u16, height: u16) -> VAImage {
    VAImage {
        image_id: 20,
        format: nv12(),
        buf: 21,
        width,
        height,
        data_size: 8,
        num_planes: 2,
        pitches: [32, 32, 0],
        offsets: [0, 512, 0],
        num_palette_entries: 0,
        entry_bytes: 0,
        component_order: [0; 4],
    }
}

#[test]
fn a_derived_image_is_mapped_right_after_it_is_derived() {
    let surface = surface(5);
    let setup = Image::derive_from(&surface, (16, 16));
    assert!(matches!(setup.request(), Some(ImageRequest::DeriveImage { surface: 5 })));
    let setup = setup.advance(ImageReply::Image(0, described(32, 16)));
    assert!(matches!(setup.request(), Some(ImageRequest::MapBuffer { buf: 21 })));
    let mut memory = [1u8, 2, 3, 4, 5, 6, 7, 8];
    let setup = setup.advance(ImageReply::Mapped(0, &mut memory));
    assert!(setup.request().is_none());
    let image = match setup {
        ImageSetup::Ready(image) => image,
        _ => panic!("the image must be ready"),
    };
    assert!(image.is_derived());
    assert!(!image.is_dirty());
    assert_eq!(image.as_ref(), &[1, 2, 3, 4, 5, 6, 7, 8]);
    assert_eq!(image.image().image_id, 20);
    assert_eq!(image.surface().id(), 5);
    assert_eq!(image.display_resolution(), (16, 16));
    assert_eq!(image.coded_resolution(), (32, 16));
}

#[test]
fn an_image_that_cannot_be_derived_fails_with_nothing_to_destroy() {
    let surface = surface(5);
    let setup = Image::derive_from(&surface, (16, 16)).advance(ImageReply::Image(30, described(16, 16)));
    assert!(setup.request().is_none());
    match setup {
        ImageSetup::Failed(e) => assert_eq!(e.va_status(), 30),
        _ => panic!("the setup must fail"),
    }
}

#[test]
fn an_image_that_cannot_be_created_fails_with_nothing_to_destroy() {
    let surface = surface(5);
    let setup = Image::create_from(&surface, nv12(), (16, 16), (16, 16));
    assert!(matches!(
        setup.request(),
        Some(ImageRequest::CreateImage { width: 16, height: 16, format }) if format.fourcc == 0x3231_564e
    ));
    match setup.advance(ImageReply::Image(31, described(16, 16))) {
        ImageSetup::Failed(e) => assert_eq!(e.va_status(), 31),
        _ => panic!("the setup must fail"),
    }
}

#[test]
fn an_image_that_cannot_be_filled_is_destroyed() {
    let surface = surface(5);
    let setup = Image::create_from(&surface, nv12(), (32, 16), (16, 16))
        .advance(ImageReply::Image(0, described(32, 16)));
    assert!(matches!(
        setup.request(),
        Some(ImageRequest::GetImage { surface: 5, x: 0, y: 0, width: 32, height: 16, image: 20 })
    ));
    let setup = setup.advance(ImageReply::Status(32));
    assert!(matches!(setup.request(), Some(ImageRequest::DestroyImage { image: 20 })));
    // Whatever the destruction returns, the error is that of the copy.
    match setup.advance(ImageReply::Status(99)) {
        ImageSetup::Failed(e) => assert_eq!(e.va_status(), 32),
        _ => panic!("the setup must fail"),
    }
}

#[test]
fn an_image_that_cannot_be_mapped_is_destroyed() {
    let surface = surface(5);
    let setup = Image::derive_from(&surface, (16, 16)).advance(ImageReply::Image(0, described(16, 16)));
    let mut nothing = [0u8; 0];
    let setup = setup.advance(ImageReply::Mapped(33, &mut nothing));
    assert!(matches!(setup.request(), Some(ImageRequest::DestroyImage { image: 20 })));
    match setup.advance(ImageReply::Status(0)) {
        ImageSetup::Failed(e) => assert_eq!(e.va_status(), 33),
        _ => panic!("the setup must fail"),
    }
}

#[test]
fn an_answer_to_another_request_changes_nothing() {
    let surface = surface(5);
    let setup = Image::derive_from(&surface, (16, 16)).advance(ImageReply::Status(0));
    assert!(matches!(setup.request(), Some(ImageRequest::DeriveImage { surface: 5 })));
    let setup = setup.advance(ImageReply::Image(0, described(16, 16)));
    let setup = setup.advance(ImageReply::Image(0, described(64, 64)));
    assert!(matches!(setup.request(), Some(ImageRequest::MapBuffer { buf: 21 })));
}

#[test]
fn a_copy_that_was_written_to_is_written_back_in_full() {
    let surface = surface(5);
    let mut memory = [0u8; 8];
    {
        let mut image = Image::new(&surface, described(32, 24), false, (16, 16), &mut memory);
        assert!(!image.is_dirty());
        image.as_mut()[3] = 0xaa;
        assert!(image.is_dirty());
        assert_eq!(image.as_ref()[3], 0xaa);
        let release = image.release();
        assert_eq!(release.display, 0x10);
        assert_eq!(
            release.write_back,
            Some(PutImage {
                surface: 5,
                image: 20,
                src_x: 0,
                src_y: 0,
                src_width: 32,
                src_height: 24,
                dest_x: 0,
                dest_y: 0,
                dest_width: 32,
                dest_height: 24,
            })
        );
        assert_eq!(release.unmap, 21);
        assert_eq!(release.destroy, 20);
    }
    // The mapped memory holds what was written.
    assert_eq!(memory[3], 0xaa);
}

#[test]
fn a_copy_that_was_only_read_is_not_written_back() {
    let surface = surface(5);
    let mut memory = [7u8; 8];
    let image = Image::new(&surface, described(16, 16), false, (16, 16), &mut memory);
    assert_eq!(image.as_ref()[0], 7);
    let release = image.release();
    assert_eq!(release.write_back, None);
    assert_eq!((release.unmap, release.destroy), (21, 20));
}

#[test]
fn a_derived_image_is_never_written_back() {
    let surface = surface(5);
    let mut memory = [0u8; 8];
    let mut image = Image::new(&surface, described(16, 16), true, (16, 16), &mut memory);
    image.as_mut()[0] = 1;
    assert!(image.is_dirty());
    let release = image.release();
    assert_eq!(release.write_back, None);
    assert_eq!((release.unmap, release.destroy), (21, 20));
}

#[test]
fn the_coded_resolution_covers_the_display_resolution() {
    let surface = surface(5);
    for (coded, display) in [((16u16, 16u16), (16u32, 16u32)), ((64, 48), (50, 40)), ((u16::MAX, 1), (0, 0))] {
        let mut memory = [0u8; 8];
        let image = Image::new(&surface, described(coded.0, coded.1), false, display, &mut memory);
        let (width, height) = image.coded_resolution();
        assert_eq!((width, height), (coded.0 as u32, coded.1 as u32));
        assert!(width >= image.display_resolution().0);
        assert!(height >= image.display_resolution().1);
    }
}

#[test]
fn an_image_smaller_than_what_was_asked_for_is_not_accepted() {
    let surface = surface(5);
    let setup = Image::derive_from(&surface, (32, 16)).advance(ImageReply::Image(0, described(16, 16)));
    let mut memory = [0u8; 8];
    assert!(!setup.is_accepted(&ImageReply::Mapped(0, &mut memory)));
    // A mapping that failed is accepted, whatever the size.
    assert!(setup.is_accepted(&ImageReply::Mapped(5, &mut memory)));
    assert!(setup.is_accepted(&ImageReply::Status(0)));
    let setup = Image::derive_from(&surface, (16, 17)).advance(ImageReply::Image(0, described(16, 16)));
    assert!(!setup.is_accepted(&ImageReply::Mapped(0, &mut memory)));
    let setup = Image::derive_from(&surface, (16, 16)).advance(ImageReply::Image(0, described(16, 16)));
    assert!(setup.is_accepted(&ImageReply::Mapped(0, &mut memory)));
}
