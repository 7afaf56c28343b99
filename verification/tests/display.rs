use std::rc::Rc;

use libva::query::query_capacity;
use libva::query::query_result;
use libva::Display;
use libva::DisplaySearch;
use libva::DrmDeviceIterator;
use libva::OpenDrmDisplay;
use libva::OpenDrmDisplayError;
use libva::OpenReply;
use libva::SearchReply;
use libva::SearchRequest;
use libva::VAImageFormat;

fn open(handle: usize) -> Rc<Display> {
    let step = Display::open_drm_display(OpenDrmDisplay::OpenDevice, OpenReply::Device(Ok(())));
    let step = Display::open_drm_display(step, OpenReply::Display(handle));
    match Display::open_drm_display(step, OpenReply::Initialized(0)) {
        OpenDrmDisplay::Finished(Ok(display)) => display,
        other => panic!("unexpected {:?}", other),
    }
}

#[test]
fn device_walk_starts_at_the_first_render_node() {
    let mut devices = DrmDeviceIterator::default();
    assert_eq!(devices.candidate().as_deref(), Some("/dev/dri/renderD128"));
    assert_eq!(devices.next(true).as_deref(), Some("/dev/dri/renderD128"));
    assert_eq!(devices.candidate().as_deref(), Some("/dev/dri/renderD129"));
    assert_eq!(devices.next(true).as_deref(), Some("/dev/dri/renderD129"));
}

#[test]
fn device_walk_stops_at_a_missing_node() {
    let mut devices = DrmDeviceIterator::default();
    assert_eq!(devices.next(true).as_deref(), Some("/dev/dri/renderD128"));
    assert_eq!(devices.next(false), None);
    // It stays where it is: the same node is the candidate again.
    assert_eq!(devices.candidate().as_deref(), Some("/dev/dri/renderD129"));
    assert_eq!(devices.next(false), None);
}

#[test]
fn device_walk_ends_after_sixty_four_nodes() {
    let mut devices = DrmDeviceIterator::default();
    let mut seen = Vec::new();
    while let Some(path) = devices.next(true) {
        seen.push(path);
        assert!(seen.len() <= 64);
    }
    assert_eq!(seen.len(), 64);
    assert_eq!(seen[0], "/dev/dri/renderD128");
    assert_eq!(seen[63], "/dev/dri/renderD191");
    assert_eq!(devices.candidate(), None);
    assert_eq!(devices.next(true), None);
}

#[test]
fn opening_a_display_succeeds_through_all_three_steps() {
    let step = Display::open_drm_display(OpenDrmDisplay::OpenDevice, OpenReply::Device(Ok(())));
    assert!(matches!(step, OpenDrmDisplay::GetDisplay));
    let step = Display::open_drm_display(step, OpenReply::Display(0x5000));
    assert!(matches!(step, OpenDrmDisplay::Initialize { handle: 0x5000 }));
    match Display::open_drm_display(step, OpenReply::Initialized(0)) {
        OpenDrmDisplay::Finished(Ok(display)) => assert_eq!(display.handle(), 0x5000),
        other => panic!("unexpected {:?}", other),
    }
}

#[test]
fn opening_a_display_fails_when_the_device_cannot_be_opened() {
    let step = Display::open_drm_display(OpenDrmDisplay::OpenDevice, OpenReply::Device(Err(13)));
    assert!(matches!(
        step,
        OpenDrmDisplay::Finished(Err(OpenDrmDisplayError::DeviceOpen(13)))
    ));
}

#[test]
fn opening_a_display_fails_when_the_driver_returns_no_display() {
    let step = Display::open_drm_display(OpenDrmDisplay::GetDisplay, OpenReply::Display(0));
    assert!(matches!(
        step,
        OpenDrmDisplay::Finished(Err(OpenDrmDisplayError::VaGetDisplayDrm))
    ));
}

#[test]
fn opening_a_display_fails_when_the_initialisation_is_rejected() {
    let step = Display::open_drm_display(
        OpenDrmDisplay::Initialize { handle: 0x5000 },
        OpenReply::Initialized(2),
    );
    match step {
        OpenDrmDisplay::Finished(Err(OpenDrmDisplayError::VaInitialize(e))) => {
            assert_eq!(e.va_status(), 2)
        }
        other => panic!("unexpected {:?}", other),
    }
}

#[test]
fn a_reply_to_another_request_changes_nothing() {
    let step = Display::open_drm_display(OpenDrmDisplay::OpenDevice, OpenReply::Initialized(0));
    assert!(matches!(step, OpenDrmDisplay::OpenDevice));
    let step = Display::open_drm_display(OpenDrmDisplay::GetDisplay, OpenReply::Device(Err(2)));
    assert!(matches!(step, OpenDrmDisplay::GetDisplay));
    let done = OpenDrmDisplay::Finished(Err(OpenDrmDisplayError::VaGetDisplayDrm));
    let step = Display::open_drm_display(done, OpenReply::Initialized(0));
    assert!(matches!(
        step,
        OpenDrmDisplay::Finished(Err(OpenDrmDisplayError::VaGetDisplayDrm))
    ));
}

#[test]
fn search_takes_the_first_display_that_opens() {
    let search = Display::open();
    assert_eq!(search.request(), Some(SearchRequest::Exists("/dev/dri/renderD128".to_string())));
    let search = search.advance(SearchReply::Exists(true));
    assert_eq!(search.request(), Some(SearchRequest::OpenDevice("/dev/dri/renderD128".to_string())));
    // The first node cannot be opened: the search goes on to the second.
    let search = search.advance(SearchReply::Open(OpenReply::Device(Err(13))));
    assert_eq!(search.request(), Some(SearchRequest::Exists("/dev/dri/renderD129".to_string())));
    let search = search.advance(SearchReply::Exists(true));
    assert_eq!(search.request(), Some(SearchRequest::OpenDevice("/dev/dri/renderD129".to_string())));
    let search = search.advance(SearchReply::Open(OpenReply::Device(Ok(()))));
    assert_eq!(search.request(), Some(SearchRequest::GetDisplay));
    // The driver has no display for the second node.
    let search = search.advance(SearchReply::Open(OpenReply::Display(0)));
    assert_eq!(search.request(), Some(SearchRequest::Exists("/dev/dri/renderD130".to_string())));
    let search = search.advance(SearchReply::Exists(true));
    let search = search.advance(SearchReply::Open(OpenReply::Device(Ok(()))));
    let search = search.advance(SearchReply::Open(OpenReply::Display(0x30)));
    assert_eq!(search.request(), Some(SearchRequest::Initialize(0x30)));
    // The initialisation fails on the third node.
    let search = search.advance(SearchReply::Open(OpenReply::Initialized(1)));
    assert_eq!(search.request(), Some(SearchRequest::Exists("/dev/dri/renderD131".to_string())));
    let search = search.advance(SearchReply::Exists(true));
    let search = search.advance(SearchReply::Open(OpenReply::Device(Ok(()))));
    let search = search.advance(SearchReply::Open(OpenReply::Display(0x31)));
    let search = search.advance(SearchReply::Open(OpenReply::Initialized(0)));
    assert_eq!(search.request(), None);
    match search {
        DisplaySearch::Found(display) => assert_eq!(display.handle(), 0x31),
        other => panic!("unexpected {:?}", other),
    }
}

#[test]
fn search_ends_at_the_first_node_that_does_not_exist() {
    let search = Display::open().advance(SearchReply::Exists(false));
    assert!(matches!(search, DisplaySearch::NotFound));
    assert_eq!(search.request(), None);
    let search = search.advance(SearchReply::Exists(true));
    assert!(matches!(search, DisplaySearch::NotFound));
}

#[test]
fn search_ends_when_every_node_has_failed() {
    let mut search = Display::open();
    let mut tried = 0;
    while let Some(request) = search.request() {
        search = match request {
            SearchRequest::Exists(_) => search.advance(SearchReply::Exists(true)),
            SearchRequest::OpenDevice(_) => {
                tried += 1;
                search.advance(SearchReply::Open(OpenReply::Device(Err(2))))
            }
            other => panic!("unexpected {:?}", other),
        };
        assert!(tried <= 64);
    }
    assert_eq!(tried, 64);
    assert!(matches!(search, DisplaySearch::NotFound));
}

#[test]
fn search_ignores_an_answer_that_was_not_asked_for() {
    let search = Display::open().advance(SearchReply::Open(OpenReply::Initialized(0)));
    assert_eq!(search.request(), Some(SearchRequest::Exists("/dev/dri/renderD128".to_string())));
    let search = search.advance(SearchReply::Exists(true)).advance(SearchReply::Exists(true));
    assert_eq!(search.request(), Some(SearchRequest::OpenDevice("/dev/dri/renderD128".to_string())));
    let search = search.advance(SearchReply::Open(OpenReply::Display(5)));
    assert_eq!(search.request(), Some(SearchRequest::OpenDevice("/dev/dri/renderD128".to_string())));
}

#[test]
fn query_returns_as_many_entries_as_the_driver_reported() {
    let display = open(1);
    let capacity = query_capacity(5);
    assert_eq!(capacity, 5);
    let profiles = display.query_config_profiles(0, vec![3, 1, 4, 1, 5], 3).unwrap();
    assert_eq!(profiles, vec![3, 1, 4]);
    let all = display.query_config_profiles(0, vec![3, 1, 4, 1, 5], 5).unwrap();
    assert_eq!(all, vec![3, 1, 4, 1, 5]);
    let none = display.query_config_entrypoints(0, vec![7, 8], 0).unwrap();
    assert!(none.is_empty());
}

#[test]
fn query_never_returns_more_than_the_capacity() {
    let display = open(1);
    let entrypoints = display.query_config_entrypoints(0, vec![7, 8], 9).unwrap();
    assert_eq!(entrypoints, vec![7, 8]);
    let negative = display.query_config_entrypoints(0, vec![7, 8], -1).unwrap();
    assert!(negative.is_empty());
    assert_eq!(query_capacity(-3), 0);
    assert_eq!(query_capacity(0), 0);
    assert_eq!(query_result(0, vec![1u8, 2, 3], i32::MAX).unwrap(), vec![1, 2, 3]);
}

#[test]
fn query_fails_with_the_status_of_the_driver() {
    let display = open(1);
    let error = display.query_config_profiles(18, vec![3, 1], 2).unwrap_err();
    assert_eq!(error.va_status(), 18);
    let format = VAImageFormat {
        fourcc: 0x3231_564e,
        byte_order: 1,
        bits_per_pixel: 12,
        depth: 0,
        red_mask: 0,
        green_mask: 0,
        blue_mask: 0,
        alpha_mask: 0,
    };
    let error = display.query_image_formats(-5, vec![format], 1).unwrap_err();
    assert_eq!(error.va_status(), -5);
    let formats = display.query_image_formats(0, vec![format, format], 1).unwrap();
    assert_eq!(formats.len(), 1);
    assert_eq!(formats[0].fourcc, 0x3231_564e);
    assert_eq!(display.get_config_attributes(0).map_err(|e| e.va_status()), Ok(()));
    assert_eq!(display.get_config_attributes(12).map_err(|e| e.va_status()), Err(12));
}

#[test]
fn vendor_string_is_passed_on_or_reported_missing() {
    let display = open(1);
    assert_eq!(
        display.query_vendor_string(Some("Intel iHD driver".to_string())),
        Ok("Intel iHD driver".to_string())
    );
    assert_eq!(
        display.query_vendor_string(None),
        Err("vaQueryVendorString() returned NULL")
    );
}
