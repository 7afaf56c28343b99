//! The display: the root object of a driver connection, device discovery, and
//! the capability queries.

use vstd::prelude::*;
use vstd::string::StringExecFns;
use std::rc::Rc;
use crate::bindings::VAConfigID;
use crate::bindings::VAContextID;
use crate::bindings::VADisplay;
use crate::bindings::VAEntrypoint;
use crate::bindings::VAImageFormat;
use crate::bindings::VAProfile;
use crate::bindings::VAStatus;
use crate::config::Config;
use crate::config::ConfigView;
use crate::context::Context;
use crate::context::ContextView;
use crate::query::query_result;
use crate::query::reported;
use crate::status::VaError;
use crate::status::va_check;
use crate::surface::Surface;
use crate::surface::SurfaceBatchStep;
use crate::surface::SurfaceBatchView;
use crate::surface::SurfaceMemoryDescriptor;
use crate::surface::batch_stands;
use crate::text::decimal;
use crate::text::decimal_digits;
use crate::usage_hint::UsageHint;

verus! {

/// Number of the first render node.
pub const DRM_RENDER_NODE_START: usize = 128;

/// How many render nodes are looked for.
pub const DRM_NUM_NODES: usize = 64;

/// The path of the render node with number `idx`.
pub open spec fn drm_node_path(idx: nat) -> Seq<char> {
    "/dev/dri/renderD"@ + decimal_digits(idx)
}

/// Walks over the render nodes of the system, in the order of their numbers,
/// up to the first one that does not exist.
///
/// Whether a node exists is for the caller to find out: [`Self::candidate`]
/// names the node to look for, and [`Self::next`] takes the answer.
#[derive(Debug)]
pub struct DrmDeviceIterator {
    cur_idx: usize,
}

impl View for DrmDeviceIterator {
    type V = nat;

    /// The number of the node that comes next.
    closed spec fn view(&self) -> nat {
        self.cur_idx as nat
    }
}

impl Default for DrmDeviceIterator {
    /// The walk that starts at the first render node.
    fn default() -> (devices: Self)
        ensures
            devices@ == DRM_RENDER_NODE_START,
    {
        DrmDeviceIterator { cur_idx: DRM_RENDER_NODE_START }
    }
}

impl DrmDeviceIterator {
    #[verifier::type_invariant]
    spec fn in_range(&self) -> bool {
        DRM_RENDER_NODE_START <= self.cur_idx <= DRM_RENDER_NODE_START + DRM_NUM_NODES
    }

    /// Whether every node number has been handed out.
    pub open spec fn exhausted(&self) -> bool {
        self@ >= DRM_RENDER_NODE_START + DRM_NUM_NODES
    }

    /// Returns whether every node number has been handed out.
    pub fn is_exhausted(&self) -> (exhausted: bool)
        ensures
            exhausted == self.exhausted(),
    {
        self.cur_idx >= DRM_RENDER_NODE_START + DRM_NUM_NODES
    }

    /// The path of the node that comes next, or `None` when every node number
    /// has been handed out.
    pub fn candidate(&self) -> (path: Option<String>)
        ensures
            path is None <==> self.exhausted(),
            path matches Some(p) ==> p@ == drm_node_path(self@),
    {
        proof {
            use_type_invariant(self);
        }
        if self.cur_idx >= DRM_RENDER_NODE_START + DRM_NUM_NODES {
            None
        } else {
            let path = String::from_str("/dev/dri/renderD");
            let number = decimal(self.cur_idx);
            Some(path.concat(number.as_str()))
        }
    }

    /// Steps to the next node. `exists` says whether the node named by
    /// [`Self::candidate`] exists. The walk yields that node's path and moves
    /// on if it does; it yields `None` and stays where it is if the node does
    /// not exist or every node number has been handed out.
    pub fn next(&mut self, exists: bool) -> (path: Option<String>)
        ensures
            path is Some <==> exists && !old(self).exhausted(),
            path matches Some(p) ==> p@ == drm_node_path(old(self)@) && final(self)@ == old(self)@ + 1,
            path is None ==> final(self)@ == old(self)@,
    {
        proof {
            use_type_invariant(&*self);
        }
        let candidate = self.candidate();
        match candidate {
            None => None,
            Some(path) => {
                if !exists {
                    None
                } else {
                    self.cur_idx = self.cur_idx + 1;
                    Some(path)
                }
            },
        }
    }
}

/// The root object of a driver connection. Surfaces, configs and contexts
/// are made from it and share it.
#[derive(Debug)]
pub struct Display {
    /// Token of the driver's display connection.
    handle: VADisplay,
}

impl View for Display {
    type V = VADisplay;

    closed spec fn view(&self) -> VADisplay {
        self.handle
    }
}

/// Why a display could not be opened.
#[derive(Debug)]
pub enum OpenDrmDisplayError {
    /// The device node could not be opened; carries the system's error code.
    DeviceOpen(i32),
    /// The driver returned no display for the device.
    VaGetDisplayDrm,
    /// The driver rejected the initialisation.
    VaInitialize(VaError),
}

/// How far the opening of a display has got: the request that is pending, or
/// the result.
#[derive(Debug)]
pub enum OpenDrmDisplay {
    /// Pending: open the device node for reading and writing.
    OpenDevice,
    /// Pending: ask the driver for a display on the opened device.
    GetDisplay,
    /// Pending: initialise the driver on the display `handle`.
    Initialize { handle: VADisplay },
    /// Finished: the display, or why there is none.
    Finished(Result<Rc<Display>, OpenDrmDisplayError>),
}

/// The answer to a pending request of [`OpenDrmDisplay`].
#[derive(Clone, Copy, Debug)]
pub enum OpenReply {
    /// The device node was opened, or the system's error code.
    Device(Result<(), i32>),
    /// The display that the driver returned; zero stands for none.
    Display(VADisplay),
    /// The status of the initialisation.
    Initialized(VAStatus),
}

impl OpenDrmDisplay {
    /// Whether `self` is finished with a display whose handle is `handle`.
    pub open spec fn opened(&self, handle: VADisplay) -> bool {
        self matches OpenDrmDisplay::Finished(Ok(display)) && display@ == handle
    }

    /// Whether `self` is finished with the error of a failed device open.
    pub open spec fn failed_device_open(&self, code: i32) -> bool {
        self matches OpenDrmDisplay::Finished(Err(OpenDrmDisplayError::DeviceOpen(c))) && c == code
    }

    /// Whether `self` is finished because the driver returned no display.
    pub open spec fn failed_no_display(&self) -> bool {
        self matches OpenDrmDisplay::Finished(Err(OpenDrmDisplayError::VaGetDisplayDrm))
    }

    /// Whether `self` is finished with the error of a failed initialisation.
    pub open spec fn failed_initialize(&self, status: VAStatus) -> bool {
        self matches OpenDrmDisplay::Finished(Err(OpenDrmDisplayError::VaInitialize(e)))
            && e.code() == status
    }
}

/// How far the search for a display has got.
#[derive(Debug)]
pub enum DisplaySearch {
    /// About to look whether the next render node exists.
    Probing(DrmDeviceIterator),
    /// Opening a display on the render node at `path`; `pending` says how
    /// far that has got.
    Opening { devices: DrmDeviceIterator, path: String, pending: OpenDrmDisplay },
    /// Done: a display opened.
    Found(Rc<Display>),
    /// Done: no render node is left to try.
    NotFound,
}

/// What the search for a display needs to know or to have done next.
#[derive(Clone, Debug, PartialEq, Eq)]
pub enum SearchRequest {
    /// Whether the device node at this path exists.
    Exists(String),
    /// The device node at this path, opened for reading and writing.
    OpenDevice(String),
    /// A display of the driver on the device that was opened.
    GetDisplay,
    /// The driver initialised on the display with this handle.
    Initialize(VADisplay),
}

/// The answer to a [`SearchRequest`].
#[derive(Clone, Copy, Debug)]
pub enum SearchReply {
    /// Whether the device node exists.
    Exists(bool),
    /// The answer to a request of the opening of a display.
    Open(OpenReply),
}

impl DisplaySearch {
    /// Where the search goes once the node before those of `devices` has
    /// been dealt with: on to the next node, if there is one.
    pub open spec fn onward(devices: DrmDeviceIterator) -> DisplaySearch {
        if devices.exhausted() {
            DisplaySearch::NotFound
        } else {
            DisplaySearch::Probing(devices)
        }
    }

    /// Whether the search has ended.
    pub open spec fn finished(&self) -> bool {
        self is Found || self is NotFound
    }

    /// How many render nodes the search may still look at.
    pub open spec fn nodes_left(&self) -> nat {
        match self {
            DisplaySearch::Probing(devices) => (DRM_RENDER_NODE_START + DRM_NUM_NODES
                - devices@) as nat,
            DisplaySearch::Opening { devices, .. } => (DRM_RENDER_NODE_START + DRM_NUM_NODES
                - devices@) as nat,
            _ => 0,
        }
    }

    /// Returns what the search needs next, or `None` once it has ended or
    /// has no node left to look at.
    pub fn request(&self) -> (request: Option<SearchRequest>)
        ensures
            match self {
                DisplaySearch::Probing(devices) => if devices.exhausted() {
                    request is None
                } else {
                    request matches Some(SearchRequest::Exists(path)) && path@ == drm_node_path(
                        devices@,
                    )
                },
                DisplaySearch::Opening { path, pending, .. } => match pending {
                    OpenDrmDisplay::OpenDevice => request matches Some(
                        SearchRequest::OpenDevice(p),
                    ) && p@ == path@,
                    OpenDrmDisplay::GetDisplay => request == Some(SearchRequest::GetDisplay),
                    OpenDrmDisplay::Initialize { handle } => request == Some(
                        SearchRequest::Initialize(*handle),
                    ),
                    OpenDrmDisplay::Finished(_) => request is None,
                },
                DisplaySearch::Found(_) => request is None,
                DisplaySearch::NotFound => request is None,
            },
    {
        match self {
            DisplaySearch::Probing(devices) => match devices.candidate() {
                Some(path) => Some(SearchRequest::Exists(path)),
                None => None,
            },
            DisplaySearch::Opening { path, pending, .. } => match pending {
                OpenDrmDisplay::OpenDevice => Some(SearchRequest::OpenDevice(path.clone())),
                OpenDrmDisplay::GetDisplay => Some(SearchRequest::GetDisplay),
                OpenDrmDisplay::Initialize { handle } => Some(SearchRequest::Initialize(*handle)),
                OpenDrmDisplay::Finished(_) => None,
            },
            DisplaySearch::Found(_) => None,
            DisplaySearch::NotFound => None,
        }
    }

    /// Takes the search one step further, by the answer to what it needed.
    ///
    /// A node that exists is opened; at the first node that does not exist
    /// the search ends without a display. A display that opens ends the
    /// search; a node on which none opens is passed over, whatever the
    /// reason, and the search goes on to the next node, or ends without a
    /// display if that was the last one. An answer to something that was not
    /// asked changes nothing.
    pub fn advance(self, reply: SearchReply) -> (next: Self)
        ensures
            match (self, reply) {
                (DisplaySearch::Probing(devices), SearchReply::Exists(exists)) => if exists
                    && !devices.exhausted() {
                    next matches DisplaySearch::Opening { devices: rest, path, pending }
                        && rest@ == devices@ + 1 && path@ == drm_node_path(devices@)
                        && pending == OpenDrmDisplay::OpenDevice
                } else {
                    next == DisplaySearch::NotFound
                },
                (
                    DisplaySearch::Opening { devices, path, pending },
                    SearchReply::Open(reply),
                ) => match (pending, reply) {
                    (OpenDrmDisplay::OpenDevice, OpenReply::Device(Ok(()))) => next
                        == (DisplaySearch::Opening {
                        devices,
                        path,
                        pending: OpenDrmDisplay::GetDisplay,
                    }),
                    (OpenDrmDisplay::OpenDevice, OpenReply::Device(Err(_))) => next
                        == Self::onward(devices),
                    (OpenDrmDisplay::GetDisplay, OpenReply::Display(handle)) => if handle == 0 {
                        next == Self::onward(devices)
                    } else {
                        next == (DisplaySearch::Opening {
                            devices,
                            path,
                            pending: OpenDrmDisplay::Initialize { handle },
                        })
                    },
                    (OpenDrmDisplay::Initialize { handle }, OpenReply::Initialized(status)) => if status
                        == 0 {
                        next matches DisplaySearch::Found(display) && display@ == handle
                    } else {
                        next == Self::onward(devices)
                    },
                    (OpenDrmDisplay::Finished(Ok(display)), _) => next == DisplaySearch::Found(
                        display,
                    ),
                    (OpenDrmDisplay::Finished(Err(_)), _) => next == Self::onward(devices),
                    _ => next == self,
                },
                _ => next == self,
            },
            next.nodes_left() <= self.nodes_left(),
    {
        match (self, reply) {
            (DisplaySearch::Probing(devices), SearchReply::Exists(exists)) => {
                let mut devices = devices;
                match devices.next(exists) {
                    Some(path) => DisplaySearch::Opening {
                        devices,
                        path,
                        pending: OpenDrmDisplay::OpenDevice,
                    },
                    None => DisplaySearch::NotFound,
                }
            },
            (DisplaySearch::Opening { devices, path, pending }, SearchReply::Open(reply)) => {
                match Display::open_drm_display(pending, reply) {
                    OpenDrmDisplay::Finished(Ok(display)) => DisplaySearch::Found(display),
                    OpenDrmDisplay::Finished(Err(_)) => {
                        if devices.is_exhausted() {
                            DisplaySearch::NotFound
                        } else {
                            DisplaySearch::Probing(devices)
                        }
                    },
                    pending => DisplaySearch::Opening { devices, path, pending },
                }
            },
            (search, _) => search,
        }
    }
}

impl Display {
    /// Returns the handle of this display.
    pub fn handle(&self) -> (handle: VADisplay)
        ensures
            handle == self@,
    {
        self.handle
    }

    /// Advances the opening of a display by one reply.
    ///
    /// The opening starts at [`OpenDrmDisplay::OpenDevice`]. A failed device
    /// open ends it with `DeviceOpen`, a null display with `VaGetDisplayDrm`,
    /// a failing initialisation status with `VaInitialize`; a successful
    /// initialisation ends it with the display. A reply that does not answer
    /// the pending request, or any reply once finished, changes nothing.
    pub fn open_drm_display(pending: OpenDrmDisplay, reply: OpenReply) -> (next: OpenDrmDisplay)
        ensures
            match (pending, reply) {
                (OpenDrmDisplay::OpenDevice, OpenReply::Device(Ok(()))) => next
                    == OpenDrmDisplay::GetDisplay,
                (OpenDrmDisplay::OpenDevice, OpenReply::Device(Err(code))) => next.failed_device_open(code),
                (OpenDrmDisplay::GetDisplay, OpenReply::Display(handle)) => if handle == 0 {
                    next.failed_no_display()
                } else {
                    next == (OpenDrmDisplay::Initialize { handle })
                },
                (OpenDrmDisplay::Initialize { handle }, OpenReply::Initialized(status)) => if status
                    == 0 {
                    next.opened(handle)
                } else {
                    next.failed_initialize(status)
                },
                _ => next == pending,
            },
    {
        match (pending, reply) {
            (OpenDrmDisplay::OpenDevice, OpenReply::Device(Ok(()))) => OpenDrmDisplay::GetDisplay,
            (OpenDrmDisplay::OpenDevice, OpenReply::Device(Err(code))) => OpenDrmDisplay::Finished(
                Err(OpenDrmDisplayError::DeviceOpen(code)),
            ),
            (OpenDrmDisplay::GetDisplay, OpenReply::Display(handle)) => {
                if handle == 0 {
                    OpenDrmDisplay::Finished(Err(OpenDrmDisplayError::VaGetDisplayDrm))
                } else {
                    OpenDrmDisplay::Initialize { handle }
                }
            },
            (OpenDrmDisplay::Initialize { handle }, OpenReply::Initialized(status)) => {
                match va_check(status) {
                    Ok(()) => OpenDrmDisplay::Finished(Ok(Rc::new(Display { handle }))),
                    Err(e) => OpenDrmDisplay::Finished(Err(OpenDrmDisplayError::VaInitialize(e))),
                }
            },
            (pending, _) => pending,
        }
    }

    /// The profiles that this display supports, from what the driver
    /// returned: `profiles` is the list that it was given to fill, of the
    /// capacity that it had announced, `status` the status of the call and
    /// `count` the number of profiles that it reported.
    pub fn query_config_profiles(&self, status: VAStatus, profiles: Vec<VAProfile>, count: i32) -> (r:
        Result<Vec<VAProfile>, VaError>)
        ensures
            r is Ok <==> status == 0,
            r matches Ok(v) ==> v@ == reported(profiles@, count as int),
            r matches Err(e) ==> e.code() == status,
    {
        query_result(status, profiles, count)
    }

    /// The description of the driver on this display, from what the driver
    /// returned: its text, or `None` if it returned no text. The format of the
    /// text is at the discretion of the driver's vendor.
    pub fn query_vendor_string(&self, vendor_string: Option<String>) -> (r: Result<
        String,
        &'static str,
    >)
        ensures
            match vendor_string {
                Some(text) => r == Ok::<String, &'static str>(text),
                None => r matches Err(message) && message@
                    == "vaQueryVendorString() returned NULL"@,
            },
    {
        match vendor_string {
            Some(text) => Ok(text),
            None => Err("vaQueryVendorString() returned NULL"),
        }
    }

    /// The entrypoints that this display supports for one profile, from what
    /// the driver returned: `entrypoints` is the list that it was given to
    /// fill, of the capacity that it had announced, `status` the status of the
    /// call and `count` the number of entrypoints that it reported.
    pub fn query_config_entrypoints(
        &self,
        status: VAStatus,
        entrypoints: Vec<VAEntrypoint>,
        count: i32,
    ) -> (r: Result<Vec<VAEntrypoint>, VaError>)
        ensures
            r is Ok <==> status == 0,
            r matches Ok(v) ==> v@ == reported(entrypoints@, count as int),
            r matches Err(e) ==> e.code() == status,
    {
        query_result(status, entrypoints, count)
    }

    /// Makes a `Result` of the status with which the driver returned from
    /// filling in the values of the attributes that it was given. The entries
    /// handed to the driver must have their kind set to the attribute to
    /// retrieve.
    pub fn get_config_attributes(&self, status: VAStatus) -> (r: Result<(), VaError>)
        ensures
            r is Ok <==> status == 0,
            r matches Err(e) ==> e.code() == status,
    {
        va_check(status)
    }

    /// The image formats that this display supports, from what the driver
    /// returned: `image_formats` is the list that it was given to fill, of the
    /// capacity that it had announced, `status` the status of the call and
    /// `count` the number of formats that it reported.
    pub fn query_image_formats(
        &self,
        status: VAStatus,
        image_formats: Vec<VAImageFormat>,
        count: i32,
    ) -> (r: Result<Vec<VAImageFormat>, VaError>)
        ensures
            r is Ok <==> status == 0,
            r matches Ok(v) ==> v@ == reported(image_formats@, count as int),
            r matches Err(e) ==> e.code() == status,
    {
        query_result(status, image_formats, count)
    }

    /// Starts the creation of a batch of surfaces on this display; see
    /// [`Surface::new`]. As many surfaces are made as there are descriptors.
    /// The descriptors are given to the surfaces for good: if the batch fails
    /// they are let go with it.
    pub fn create_surfaces<D: SurfaceMemoryDescriptor>(
        self: &Rc<Self>,
        rt_format: u32,
        va_fourcc: Option<u32>,
        width: u32,
        height: u32,
        usage_hint: Option<UsageHint>,
        descriptors: Vec<D>,
    ) -> (step: SurfaceBatchStep<D>)
        ensures
            batch_stands(
                step,
                SurfaceBatchView {
                    display: self@,
                    rt_format,
                    va_fourcc,
                    width,
                    height,
                    usage_hint,
                    pending: descriptors@,
                    made: Seq::empty(),
                },
            ),
    {
        Surface::new(Rc::clone(self), rt_format, va_fourcc, width, height, usage_hint, descriptors)
    }

    /// Makes a context on this display from what the driver returned when
    /// asked to create it: its status and the identifier of the new context.
    /// What to ask for is told by [`Context::create_request`].
    pub fn create_context(self: &Rc<Self>, status: VAStatus, context_id: VAContextID) -> (r: Result<
        Rc<Context>,
        VaError,
    >)
        ensures
            r is Ok <==> status == 0,
            r matches Ok(context) ==> context@ == (ContextView { display: self@, id: context_id }),
            r matches Err(e) ==> e.code() == status,
    {
        Context::new(Rc::clone(self), status, context_id)
    }

    /// Makes a config on this display from what the driver returned when
    /// asked to create it for a profile, an entrypoint and a list of
    /// attributes: its status and the identifier of the new config. The
    /// attributes that are not in the list take their default values, so
    /// that an empty list asks for a default configuration.
    pub fn create_config(self: &Rc<Self>, status: VAStatus, config_id: VAConfigID) -> (r: Result<
        Config,
        VaError,
    >)
        ensures
            r is Ok <==> status == 0,
            r matches Ok(config) ==> config@ == (ConfigView { display: self@, id: config_id }),
            r matches Err(e) ==> e.code() == status,
    {
        Config::new(Rc::clone(self), status, config_id)
    }

    /// Starts the search for a display among the render nodes of the
    /// system: each node that exists is tried in the order of the node
    /// numbers, and the first one on which a display opens gives the result.
    pub fn open() -> (search: DisplaySearch)
        ensures
            search matches DisplaySearch::Probing(devices) && devices@ == DRM_RENDER_NODE_START,
    {
        DisplaySearch::Probing(DrmDeviceIterator::default())
    }

}

} // verus!
