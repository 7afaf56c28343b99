use std::rc::Rc;

use libva::bindings::VADRMPRIMESurfaceDescriptorLayer as RawLayer;
use libva::bindings::VADRMPRIMESurfaceDescriptorObject as RawObject;
use libva::bindings::VASurfaceDecodeMBErrors;
use libva::DecodeErrorType;
use libva::Display;
use libva::ExternalBufferDescriptor;
use libva::GenericValue;
use libva::MemoryType;
use libva::OpenDrmDisplay;
use libva::OpenReply;
use libva::Surface;
use libva::SurfaceBatchStep;
use libva::SurfaceMemoryDescriptor;
use libva::UsageHint;
use libva::VADRMPRIMESurfaceDescriptor;
use libva::VASurfaceAttrib;

fn display(handle: usize) -> Rc<Display> {
    let step = Display::open_drm_display(OpenDrmDisplay::OpenDevice, OpenReply::Device(Ok(())));
    let step = Display::open_drm_display(step, OpenReply::Display(handle));
    match Display::open_drm_display(step, OpenReply::Initialized(0)) {
        OpenDrmDisplay::Finished(Ok(display)) => display,
        other => panic!("unexpected {:?}", other),
    }
}

/// Creates one surface per descriptor with a driver that answers with
/// `replies`, one after the other.
fn create<D: SurfaceMemoryDescriptor>(
    display: Rc<Display>,
    width: u32,
    height: u32,
    descriptors: Vec<D>,
    replies: &[(i32, u32)],
) -> Result<Vec<Surface<D>>, i32> {
    let mut step = Surface::new(display, 1, None, width, height, None, descriptors);
    let mut replies = replies.iter();
    loop {
        step = match step {
            SurfaceBatchStep::Pending(mut batch) => {
                assert!(batch.request(0).is_some());
                let (status, id) = *replies.next().expect("the driver is asked once too often");
                batch.created(status, id)
            }
            SurfaceBatchStep::Done(surfaces) => return Ok(surfaces),
            SurfaceBatchStep::Failed { error, .. } => return Err(error.va_status()),
        }
    }
}

/// A descriptor of memory that comes as PRIME file descriptors.
struct PrimeMemory {
    fourcc: u32,
}

impl ExternalBufferDescriptor for PrimeMemory {
    const MEMORY_TYPE: MemoryType = MemoryType::DrmPrime2;

    type DescriptorAttribute = VADRMPRIMESurfaceDescriptor;

    fn va_surface_attribute(&mut self) -> VADRMPRIMESurfaceDescriptor {
        raw_descriptor(self.fourcc, 1, 1)
    }
}

fn raw_descriptor(fourcc: u32, num_objects: u32, num_layers: u32) -> VADRMPRIMESurfaceDescriptor {
    let object = |i: i32| RawObject { fd: 10 + i, size: 4096 * (i as u32 + 1), drm_format_modifier: 7 };
    let layer = |i: u32| RawLayer {
        drm_format: 0x100 + i,
        num_planes: 2,
        object_index: [i, 0x101, 0x1ff, 3],
        offset: [0, 256, 0, 0],
        pitch: [16, 16, 0, 0],
    };
    VADRMPRIMESurfaceDescriptor {
        fourcc,
        width: 16,
        height: 16,
        num_objects,
        objects: [object(0), object(1), object(2), object(3)],
        num_layers,
        layers: [layer(0), layer(1), layer(2), layer(3)],
    }
}

/// A descriptor that counts how many of its kind are alive.
struct Counted(Rc<()>);

impl SurfaceMemoryDescriptor for Counted {
    type DescriptorAttribute = ();

    fn build_descriptor(&mut self) {
    }

    fn add_attrs(&mut self, _attrs: &mut Vec<VASurfaceAttrib>, _desc: usize) {
    }
}

#[test]
fn memory_type_codes() {
    assert_eq!(MemoryType::Va.value(), 0x1);
    assert_eq!(MemoryType::V4L2.value(), 0x2);
    assert_eq!(MemoryType::UserPtr.value(), 0x4);
    assert_eq!(MemoryType::DrmPrime2.value(), 0x4000_0000);
}

#[test]
fn attribute_helpers_build_settable_attributes() {
    let attr = VASurfaceAttrib::new_pixel_format(0x3231_564e);
    assert_eq!(attr.type_, 1);
    assert_eq!(attr.flags, 2);
    assert_eq!(GenericValue::try_from(attr.value), Ok(GenericValue::Integer(0x3231_564e)));

    let attr = VASurfaceAttrib::new_usage_hint(UsageHint::decoder().union(UsageHint::export()));
    assert_eq!(attr.type_, 8);
    assert_eq!(attr.flags, 2);
    assert_eq!(GenericValue::try_from(attr.value), Ok(GenericValue::Integer(0x21)));

    let attr = VASurfaceAttrib::new_memory_type(MemoryType::DrmPrime2);
    assert_eq!(attr.type_, 6);
    assert_eq!(attr.flags, 2);
    assert_eq!(GenericValue::try_from(attr.value), Ok(GenericValue::Integer(0x4000_0000)));

    let attr = VASurfaceAttrib::new_buffer_descriptor(0xbeef);
    assert_eq!(attr.type_, 7);
    assert_eq!(attr.flags, 2);
    assert_eq!(GenericValue::try_from(attr.value), Ok(GenericValue::Pointer(0xbeef)));
}

#[test]
fn pixel_format_above_the_signed_range_wraps() {
    let attr = VASurfaceAttrib::new_pixel_format(0xffff_fffe);
    assert_eq!(GenericValue::try_from(attr.value), Ok(GenericValue::Integer(-2)));
}

#[test]
fn driver_allocated_memory_adds_no_attribute() {
    let mut descriptor = ();
    let attrs = Surface::creation_attrs(None, None, &mut descriptor, 0);
    assert!(attrs.is_empty());

    let attrs = Surface::creation_attrs(Some(0x3231_564e), Some(UsageHint::decoder()), &mut descriptor, 0);
    assert_eq!(attrs.len(), 2);
    // The usage hint comes first, then the pixel format.
    assert_eq!(attrs[0].type_, 8);
    assert_eq!(GenericValue::try_from(attrs[0].value), Ok(GenericValue::Integer(1)));
    assert_eq!(attrs[1].type_, 1);
    assert_eq!(GenericValue::try_from(attrs[1].value), Ok(GenericValue::Integer(0x3231_564e)));
}

#[test]
fn external_memory_adds_its_type_and_its_descriptor() {
    let mut descriptor = PrimeMemory { fourcc: 0x3231_564e };
    let attrs = Surface::creation_attrs(None, Some(UsageHint::encoder()), &mut descriptor, 0x7000);
    assert_eq!(attrs.len(), 3);
    assert_eq!(attrs[0].type_, 8);
    assert_eq!(attrs[1].type_, 6);
    assert_eq!(GenericValue::try_from(attrs[1].value), Ok(GenericValue::Integer(0x4000_0000)));
    assert_eq!(attrs[2].type_, 7);
    assert_eq!(GenericValue::try_from(attrs[2].value), Ok(GenericValue::Pointer(0x7000)));
    assert_eq!(descriptor.va_surface_attribute().fourcc, 0x3231_564e);
}

#[test]
fn a_batch_makes_one_surface_per_descriptor() {
    let display = display(0x10);
    let surfaces = create(Rc::clone(&display), 16, 32, vec![(), (), ()], &[(0, 100), (0, 101), (0, 102)]).unwrap();
    assert_eq!(surfaces.len(), 3);
    assert_eq!(Surface::as_id_vec(&surfaces), vec![100, 101, 102]);
    for surface in &surfaces {
        assert_eq!(surface.size(), (16, 32));
        assert_eq!(surface.display().handle(), 0x10);
    }
    assert_eq!(surfaces[1].id(), 101);
}

#[test]
fn a_batch_of_no_descriptors_is_done_at_once() {
    let step = Surface::<()>::new(display(0x10), 1, None, 16, 16, None, vec![]);
    match step {
        SurfaceBatchStep::Done(surfaces) => assert!(surfaces.is_empty()),
        _ => panic!("the batch must be done"),
    }
    assert!(Surface::<()>::as_id_vec(&[]).is_empty());
}

#[test]
fn every_surface_of_a_batch_is_asked_for_in_the_same_way() {
    let step = display(0x10).create_surfaces(
        1,
        Some(0x3231_564e),
        64,
        48,
        Some(UsageHint::decoder()),
        vec![PrimeMemory { fourcc: 1 }, PrimeMemory { fourcc: 2 }],
    );
    let mut batch = match step {
        SurfaceBatchStep::Pending(batch) => batch,
        _ => panic!("a surface is to be created"),
    };
    assert_eq!(batch.build_descriptor().map(|d| d.fourcc), Some(1));
    let request = batch.request(0x9000).unwrap();
    assert_eq!((request.format, request.width, request.height, request.num_surfaces), (1, 64, 48, 1));
    assert_eq!(request.attrs.len(), 4);
    assert_eq!(request.attrs[0].type_, 8);
    assert_eq!(request.attrs[1].type_, 1);
    assert_eq!(request.attrs[2].type_, 6);
    assert_eq!(GenericValue::try_from(request.attrs[3].value), Ok(GenericValue::Pointer(0x9000)));
    let mut batch = match batch.created(0, 7) {
        SurfaceBatchStep::Pending(batch) => batch,
        _ => panic!("a second surface is to be created"),
    };
    assert_eq!(batch.build_descriptor().map(|d| d.fourcc), Some(2));
    let request = batch.request(0xa000).unwrap();
    assert_eq!((request.format, request.width, request.height, request.num_surfaces), (1, 64, 48, 1));
    assert_eq!(GenericValue::try_from(request.attrs[3].value), Ok(GenericValue::Pointer(0xa000)));
    match batch.created(0, 8) {
        SurfaceBatchStep::Done(surfaces) => {
            assert_eq!(Surface::as_id_vec(&surfaces), vec![7, 8]);
            assert_eq!(surfaces[0].as_ref().fourcc, 1);
            assert_eq!(surfaces[1].as_ref().fourcc, 2);
        }
        _ => panic!("the batch must be done"),
    }
}

#[test]
fn a_failing_batch_fails_as_a_whole_and_lets_every_descriptor_go() {
    let display = display(0x10);
    let alive = Rc::new(());
    let descriptors = vec![
        Counted(Rc::clone(&alive)),
        Counted(Rc::clone(&alive)),
        Counted(Rc::clone(&alive)),
    ];
    assert_eq!(Rc::strong_count(&alive), 4);
    let batch = match display.create_surfaces(1, None, 16, 16, None, descriptors) {
        SurfaceBatchStep::Pending(batch) => batch,
        _ => panic!("a surface is to be created"),
    };
    let batch = match batch.created(0, 100) {
        SurfaceBatchStep::Pending(batch) => batch,
        _ => panic!("a second surface is to be created"),
    };
    // The second surface fails: the third one is never asked for.
    match batch.created(7, 0) {
        SurfaceBatchStep::Failed { error, made } => {
            assert_eq!(error.va_status(), 7);
            // The surface that was made before is handed over to be destroyed.
            assert_eq!(Surface::as_id_vec(&made), vec![100]);
            // The descriptors without a surface are gone already.
            assert_eq!(Rc::strong_count(&alive), 2);
        }
        _ => panic!("the batch must fail as a whole"),
    }
    assert_eq!(Rc::strong_count(&alive), 1);
}

#[test]
fn a_batch_that_fails_at_once_has_made_nothing() {
    let batch = match Surface::new(display(0x10), 1, None, 16, 16, None, vec![(), ()]) {
        SurfaceBatchStep::Pending(batch) => batch,
        _ => panic!("a surface is to be created"),
    };
    match batch.created(3, 55) {
        SurfaceBatchStep::Failed { error, made } => {
            assert_eq!(error.va_status(), 3);
            assert!(made.is_empty());
        }
        _ => panic!("the batch must fail as a whole"),
    }
    assert_eq!(create(display(0x10), 16, 16, vec![(), (), ()], &[(0, 1), (0, 2), (4, 0)]).err(), Some(4));
}

#[test]
fn descriptors_stay_with_their_surfaces() {
    let mut surfaces = create(
        display(0x10),
        64,
        64,
        vec![PrimeMemory { fourcc: 1 }, PrimeMemory { fourcc: 2 }],
        &[(0, 1), (0, 2)],
    )
    .unwrap();
    assert_eq!(surfaces[0].as_ref().fourcc, 1);
    assert_eq!(surfaces[1].as_ref().fourcc, 2);
    surfaces[1].as_mut().fourcc = 9;
    assert_eq!(surfaces[1].as_ref().fourcc, 9);
    assert_eq!(surfaces[1].id(), 2);
    assert_eq!(surfaces[1].size(), (64, 64));
}

#[test]
fn sync_and_status_follow_the_driver() {
    let display = display(0x10);
    let surfaces = create(display, 16, 16, vec![()], &[(0, 9)]).unwrap();
    let surface = &surfaces[0];
    assert_eq!(surface.sync(0).map_err(|e| e.va_status()), Ok(()));
    assert_eq!(surface.sync(23).map_err(|e| e.va_status()), Err(23));
    assert_eq!(surface.query_status(0, 4).map_err(|e| e.va_status()), Ok(4));
    assert_eq!(surface.query_status(1, 4).map_err(|e| e.va_status()), Err(1));
}

fn record(status: i32, kind: u32, start: u32) -> VASurfaceDecodeMBErrors {
    VASurfaceDecodeMBErrors { status, start_mb: start, end_mb: start + 3, decode_error_type: kind, num_mb: 4 }
}

#[test]
fn decode_errors_end_at_the_sentinel() {
    let display = display(0x10);
    let surfaces = create(display, 16, 16, vec![()], &[(0, 9)]).unwrap();
    let raw = vec![record(1, 0, 0), record(1, 1, 10), record(-1, 0, 20), record(1, 2, 30)];
    let errors = surfaces[0].query_error(0, &raw).map_err(|e| e.va_status()).unwrap();
    assert_eq!(errors.len(), 2);
    assert_eq!(errors[0].decode_error_type, DecodeErrorType::SliceMissing);
    assert_eq!((errors[0].start_mb, errors[0].end_mb, errors[0].num_mb), (0, 3, 4));
    assert_eq!(errors[1].decode_error_type, DecodeErrorType::MBError);
    assert_eq!(errors[1].start_mb, 10);
}

#[test]
fn decode_errors_of_unknown_kind_are_passed_over() {
    let display = display(0x10);
    let surfaces = create(display, 16, 16, vec![()], &[(0, 9)]).unwrap();
    let raw = vec![record(1, 9, 0), record(1, 2, 10), record(1, 77, 20)];
    let errors = surfaces[0].query_error(0, &raw).map_err(|e| e.va_status()).unwrap();
    assert_eq!(errors.len(), 1);
    assert_eq!(errors[0].decode_error_type, DecodeErrorType::Reset);
    assert_eq!(errors[0].start_mb, 10);
    assert!(surfaces[0].query_error(0, &vec![]).map_err(|e| e.va_status()).unwrap().is_empty());
    assert_eq!(surfaces[0].query_error(5, &raw).map_err(|e| e.va_status()).err(), Some(5));
}

#[test]
fn export_asks_for_read_only_composed_prime_handles() {
    let display = display(0x10);
    let surfaces = create(display, 16, 16, vec![()], &[(0, 9)]).unwrap();
    let request = surfaces[0].export_request();
    assert_eq!(request.surface, 9);
    assert_eq!(request.mem_type, 0x4000_0000);
    assert_eq!(request.flags, 0x9);
}

#[test]
fn export_takes_the_objects_and_layers_that_are_counted() {
    let display = display(0x10);
    let surfaces = create(display, 16, 16, vec![()], &[(0, 9)]).unwrap();
    let exported = surfaces[0]
        .export_prime(0, &raw_descriptor(0x3231_564e, 2, 1))
        .map_err(|e| e.va_status())
        .unwrap();
    assert_eq!(exported.fourcc, 0x3231_564e);
    assert_eq!((exported.width, exported.height), (16, 16));
    assert_eq!(exported.objects.len(), 2);
    assert_eq!(exported.objects[0].fd, 10);
    assert_eq!(exported.objects[1].fd, 11);
    assert_eq!(exported.objects[1].size, 8192);
    assert_eq!(exported.objects[1].drm_format_modifier, 7);
    assert_eq!(exported.layers.len(), 1);
    assert_eq!(exported.layers[0].drm_format, 0x100);
    assert_eq!(exported.layers[0].num_planes, 2);
    // Each object index is narrowed to a byte.
    assert_eq!(exported.layers[0].object_index, [0, 0x01, 0xff, 3]);
    assert_eq!(exported.layers[0].offset, [0, 256, 0, 0]);
    assert_eq!(exported.layers[0].pitch, [16, 16, 0, 0]);
}

#[test]
fn export_never_takes_more_than_four_of_each() {
    let display = display(0x10);
    let surfaces = create(display, 16, 16, vec![()], &[(0, 9)]).unwrap();
    let exported = surfaces[0]
        .export_prime(0, &raw_descriptor(1, 200, u32::MAX))
        .map_err(|e| e.va_status())
        .unwrap();
    assert_eq!(exported.objects.len(), 4);
    assert_eq!(exported.layers.len(), 4);
    assert_eq!(exported.layers[3].drm_format, 0x103);
    let empty = surfaces[0].export_prime(0, &raw_descriptor(1, 0, 0)).map_err(|e| e.va_status()).unwrap();
    assert!(empty.objects.is_empty());
    assert!(empty.layers.is_empty());
    let error = surfaces[0].export_prime(20, &raw_descriptor(1, 1, 1)).err().unwrap();
    assert_eq!(error.va_status(), 20);
}

#[test]
fn the_attribute_list_holds_nothing_but_what_was_asked_for() {
    let mut unit = ();
    // Only a pixel format: no usage hint appears.
    let attrs = Surface::creation_attrs(Some(0x3231_564e), None, &mut unit, 0);
    assert_eq!(attrs.len(), 1);
    assert_eq!(attrs[0].type_, 1);
    // Only a usage hint: no pixel format appears.
    let attrs = Surface::creation_attrs(None, Some(UsageHint::encoder()), &mut unit, 0);
    assert_eq!(attrs.len(), 1);
    assert_eq!(attrs[0].type_, 8);
    // External memory adds exactly its memory type and its descriptor.
    let mut prime = PrimeMemory { fourcc: 3 };
    let attrs = Surface::creation_attrs(None, None, &mut prime, 0x40);
    assert_eq!(attrs.len(), 2);
    assert_eq!(attrs[0].type_, 6);
    assert_eq!(GenericValue::try_from(attrs[0].value), Ok(GenericValue::Integer(0x4000_0000)));
    assert_eq!(attrs[1].type_, 7);
    assert_eq!(GenericValue::try_from(attrs[1].value), Ok(GenericValue::Pointer(0x40)));
}
