//! Images: mapped views of the pixel data of a surface.

use vstd::prelude::*;
use std::rc::Rc;
use crate::bindings::VABufferID;
use crate::bindings::VADisplay;
use crate::bindings::VAImage;
use crate::bindings::VAImageFormat;
use crate::bindings::VAImageID;
use crate::bindings::VAStatus;
use crate::bindings::VASurfaceID;
use crate::display::Display;
use crate::status::VaError;
use crate::status::va_check;
use crate::surface::Surface;
use crate::surface::SurfaceMemoryDescriptor;
use crate::surface::SurfaceView;

verus! {

/// A mapped view of the pixel data of a surface. An image is used either to
/// get the data of the surface into the caller's memory, or to put data from
/// there into the surface.
///
/// An image is either derived, a direct view of the memory of the surface,
/// or a copy in a pixel format of the caller's choice. A copy that may have
/// been written to is written back to the surface when the image is let go.
pub struct Image<'a, D: SurfaceMemoryDescriptor> {
    /// The display that the image was made on, where it is unmapped and
    /// destroyed.
    display: Rc<Display>,
    /// The size of the image, as the driver made it and as the caller asked
    /// for it.
    geometry: Geometry,
    /// The mapped pixel data.
    data: &'a mut [u8],
    /// Whether the image is a direct view of the surface rather than a copy.
    derived: bool,
    /// Whether the data may have been written to.
    dirty: bool,
    /// The surface that the image is of.
    surface: &'a Surface<D>,
}

/// The driver's description of an image together with the resolution that
/// the caller asked for, which the image is known to cover.
struct Geometry {
    /// The driver's description of the image.
    image: VAImage,
    /// The resolution that the caller asked for. The driver may enlarge it.
    display_resolution: (u32, u32),
}

impl Geometry {
    #[verifier::type_invariant]
    spec fn large_enough(&self) -> bool {
        covers(self.image, self.display_resolution)
    }

    /// The driver's description of the image.
    closed spec fn image_spec(&self) -> VAImage {
        self.image
    }

    /// The resolution that the caller asked for.
    closed spec fn display_spec(&self) -> (u32, u32) {
        self.display_resolution
    }

    fn new(image: VAImage, display_resolution: (u32, u32)) -> (geometry: Self)
        requires
            covers(image, display_resolution),
        ensures
            geometry.image_spec() == image,
            geometry.display_spec() == display_resolution,
    {
        Geometry { image, display_resolution }
    }

    fn image(&self) -> (image: &VAImage)
        ensures
            *image == self.image_spec(),
            covers(*image, self.display_spec()),
    {
        proof {
            use_type_invariant(self);
        }
        &self.image
    }

    fn display_resolution(&self) -> (resolution: (u32, u32))
        ensures
            resolution == self.display_spec(),
            covers(self.image_spec(), resolution),
    {
        proof {
            use_type_invariant(self);
        }
        self.display_resolution
    }
}

/// What an [`Image`] holds.
pub struct ImageView<D> {
    /// Handle of the display that the image was made on.
    pub display: VADisplay,
    /// The driver's description of the image.
    pub image: VAImage,
    /// The mapped pixel data.
    pub data: Seq<u8>,
    /// Whether the image is a direct view of the surface rather than a copy.
    pub derived: bool,
    /// The resolution that the caller asked for.
    pub display_resolution: (u32, u32),
    /// Whether the data may have been written to.
    pub dirty: bool,
    /// The surface that the image is of.
    pub surface: SurfaceView<D>,
}

impl<'a, D: SurfaceMemoryDescriptor> View for Image<'a, D> {
    type V = ImageView<D>;

    closed spec fn view(&self) -> ImageView<D> {
        ImageView {
            display: self.display@,
            image: self.geometry.image_spec(),
            data: self.data@,
            derived: self.derived,
            display_resolution: self.geometry.display_spec(),
            dirty: self.dirty,
            surface: self.surface@,
        }
    }
}

/// Whether an image of the coded size that `image` reports is at least as
/// large as `display_resolution`, in both dimensions.
pub open spec fn covers(image: VAImage, display_resolution: (u32, u32)) -> bool {
    image.width >= display_resolution.0 && image.height >= display_resolution.1
}

/// What the driver is asked for to write an image back to its surface.
#[derive(Clone, Copy, Debug, PartialEq, Eq, Structural)]
pub struct PutImage {
    pub surface: VASurfaceID,
    pub image: VAImageID,
    pub src_x: i32,
    pub src_y: i32,
    pub src_width: u32,
    pub src_height: u32,
    pub dest_x: i32,
    pub dest_y: i32,
    pub dest_width: u32,
    pub dest_height: u32,
}

/// What the driver is asked for when an image is let go, in this order: to
/// write the image back, if at all, to unmap its buffer, and to destroy it.
#[derive(Clone, Copy, Debug, PartialEq, Eq, Structural)]
pub struct ImageRelease {
    /// Handle of the display to ask.
    pub display: VADisplay,
    /// The write-back to make first, if any.
    pub write_back: Option<PutImage>,
    /// The buffer to unmap.
    pub unmap: VABufferID,
    /// The image to destroy.
    pub destroy: VAImageID,
}

/// The write-back of the whole coded rectangle of `image` to `surface`.
pub open spec fn full_write_back(surface: VASurfaceID, image: VAImage) -> PutImage {
    PutImage {
        surface,
        image: image.image_id,
        src_x: 0,
        src_y: 0,
        src_width: image.width as u32,
        src_height: image.height as u32,
        dest_x: 0,
        dest_y: 0,
        dest_width: image.width as u32,
        dest_height: image.height as u32,
    }
}

/// What is asked of the driver when an image that holds `image` is let go:
/// a copy that may have been written to is written back in full before it
/// is unmapped; a derived image never is, since its memory is that of the
/// surface.
pub open spec fn release_of<D>(image: ImageView<D>) -> ImageRelease {
    ImageRelease {
        display: image.display,
        write_back: if !image.derived && image.dirty {
            Some(full_write_back(image.surface.id, image.image))
        } else {
            None
        },
        unmap: image.image.buf,
        destroy: image.image.image_id,
    }
}

/// What the driver is asked for next while an image is being set up.
#[derive(Clone, Copy, Debug)]
#[allow(inconsistent_fields)]
pub enum ImageRequest {
    /// Derive an image from the surface.
    DeriveImage { surface: VASurfaceID },
    /// Create an image of the given format and size.
    CreateImage { format: VAImageFormat, width: i32, height: i32 },
    /// Copy the given rectangle of the surface into the image.
    GetImage { surface: VASurfaceID, x: i32, y: i32, width: u32, height: u32, image: VAImageID },
    /// Map the buffer of the image.
    MapBuffer { buf: VABufferID },
    /// Destroy the image.
    DestroyImage { image: VAImageID },
}

/// What the driver answered to an [`ImageRequest`].
pub enum ImageReply<'a> {
    /// The status of deriving or creating an image, and its description.
    Image(VAStatus, VAImage),
    /// The status of copying the surface into the image, or of destroying
    /// the image.
    Status(VAStatus),
    /// The status of mapping the buffer, and the mapped memory: as many
    /// bytes as the description of the image gives as its data size.
    Mapped(VAStatus, &'a mut [u8]),
}

/// How far the setting up of an image has got.
#[allow(inconsistent_fields)]
pub enum ImageSetup<'a, D: SurfaceMemoryDescriptor> {
    /// About to derive an image from the surface.
    Deriving { surface: &'a Surface<D>, display_resolution: (u32, u32) },
    /// About to create an image to copy the surface into.
    Creating {
        surface: &'a Surface<D>,
        format: VAImageFormat,
        coded_resolution: (u32, u32),
        display_resolution: (u32, u32),
    },
    /// About to copy the surface into the image that was created.
    Fetching {
        surface: &'a Surface<D>,
        image: VAImage,
        coded_resolution: (u32, u32),
        display_resolution: (u32, u32),
    },
    /// About to map the buffer of the image.
    Mapping { surface: &'a Surface<D>, image: VAImage, derived: bool, display_resolution: (u32, u32) },
    /// About to destroy the image, after `error`.
    Destroying { image: VAImageID, error: VaError },
    /// Done: the image is mapped.
    Ready(Image<'a, D>),
    /// Done: there is no image, and none is left with the driver.
    Failed(VaError),
}

impl<'a, D: SurfaceMemoryDescriptor> ImageSetup<'a, D> {
    /// What to ask the driver for at this point, if anything.
    pub open spec fn pending(&self) -> Option<ImageRequest> {
        match self {
            ImageSetup::Deriving { surface, .. } => Some(
                ImageRequest::DeriveImage { surface: surface@.id },
            ),
            ImageSetup::Creating { format, coded_resolution, .. } => Some(
                ImageRequest::CreateImage {
                    format: *format,
                    width: coded_resolution.0 as i32,
                    height: coded_resolution.1 as i32,
                },
            ),
            ImageSetup::Fetching { surface, image, coded_resolution, .. } => Some(
                ImageRequest::GetImage {
                    surface: surface@.id,
                    x: 0,
                    y: 0,
                    width: coded_resolution.0,
                    height: coded_resolution.1,
                    image: image.image_id,
                },
            ),
            ImageSetup::Mapping { image, .. } => Some(ImageRequest::MapBuffer { buf: image.buf }),
            ImageSetup::Destroying { image, .. } => Some(ImageRequest::DestroyImage { image: *image }),
            ImageSetup::Ready(_) => None,
            ImageSetup::Failed(_) => None,
        }
    }

    /// Whether this is the point at which the image is destroyed after the
    /// error with the status `status`.
    pub open spec fn destroys(&self, id: VAImageID, status: VAStatus) -> bool {
        self matches ImageSetup::Destroying { image, error } && image == id && error.code() == status
    }

    /// Whether this is the end without an image, with the status `status`.
    pub open spec fn failed_with(&self, status: VAStatus) -> bool {
        self matches ImageSetup::Failed(error) && error.code() == status
    }

    /// Whether this is the end with an image that holds `image`.
    pub open spec fn ready_with(&self, image: ImageView<D>) -> bool {
        self matches ImageSetup::Ready(ready) && ready@ == image
    }

    /// Whether this is the point at which the buffer of `image` is mapped.
    pub open spec fn maps(
        &self,
        on: SurfaceView<D>,
        image: VAImage,
        derived: bool,
        display_resolution: (u32, u32),
    ) -> bool {
        self matches ImageSetup::Mapping {
            surface: s,
            image: i,
            derived: d,
            display_resolution: r,
        } && s@ == on && i == image && d == derived && r == display_resolution
    }

    /// Whether this is the point at which the surface is copied into
    /// `image`.
    pub open spec fn fetches(
        &self,
        on: SurfaceView<D>,
        image: VAImage,
        coded_resolution: (u32, u32),
        display_resolution: (u32, u32),
    ) -> bool {
        self matches ImageSetup::Fetching {
            surface: s,
            image: i,
            coded_resolution: c,
            display_resolution: r,
        } && s@ == on && i == image && c == coded_resolution && r == display_resolution
    }

    /// Returns what to ask the driver for at this point, if anything.
    pub fn request(&self) -> (request: Option<ImageRequest>)
        ensures
            request == self.pending(),
    {
        match self {
            ImageSetup::Deriving { surface, .. } => Some(
                ImageRequest::DeriveImage { surface: surface.id() },
            ),
            ImageSetup::Creating { format, coded_resolution, .. } => Some(
                ImageRequest::CreateImage {
                    format: *format,
                    width: #[verifier::truncate] (coded_resolution.0 as i32),
                    height: #[verifier::truncate] (coded_resolution.1 as i32),
                },
            ),
            ImageSetup::Fetching { surface, image, coded_resolution, .. } => Some(
                ImageRequest::GetImage {
                    surface: surface.id(),
                    x: 0,
                    y: 0,
                    width: coded_resolution.0,
                    height: coded_resolution.1,
                    image: image.image_id,
                },
            ),
            ImageSetup::Mapping { image, .. } => Some(ImageRequest::MapBuffer { buf: image.buf }),
            ImageSetup::Destroying { image, .. } => Some(ImageRequest::DestroyImage { image: *image }),
            ImageSetup::Ready(_) => None,
            ImageSetup::Failed(_) => None,
        }
    }

    /// Whether `reply` may be handed to [`Self::advance`] at this point: if
    /// it is the successful mapping of the buffer, the image that the driver
    /// made must be at least as large as the resolution that the caller
    /// asked for.
    pub open spec fn accepts(&self, reply: &ImageReply<'a>) -> bool {
        match (self, reply) {
            (
                ImageSetup::Mapping { image, display_resolution, .. },
                ImageReply::Mapped(status, _),
            ) => *status == 0 ==> covers(*image, *display_resolution),
            _ => true,
        }
    }

    /// Returns whether `reply` may be handed to [`Self::advance`] at this
    /// point.
    pub fn is_accepted(&self, reply: &ImageReply<'a>) -> (accepted: bool)
        ensures
            accepted == self.accepts(reply),
    {
        match (self, reply) {
            (
                ImageSetup::Mapping { image, display_resolution, .. },
                ImageReply::Mapped(status, _),
            ) => *status != 0 || (image.width as u32 >= display_resolution.0 && image.height as u32
                >= display_resolution.1),
            _ => true,
        }
    }

    /// Takes the setting up of an image one step further, by what the driver
    /// answered to the pending request.
    ///
    /// A failure to derive or create the image ends the setup with the
    /// error. A failure to copy the surface or to map the buffer also ends it
    /// with the error, once the image has been destroyed. Mapping the buffer
    /// ends the setup with the image, which is not written to yet. An answer
    /// to another request than the pending one changes nothing.
    pub fn advance(self, reply: ImageReply<'a>) -> (next: Self)
        requires
            self.accepts(&reply),
        ensures
            match (self, reply) {
                (
                    ImageSetup::Deriving { surface, display_resolution },
                    ImageReply::Image(status, image),
                ) => if status == 0 {
                    next.maps(surface@, image, true, display_resolution)
                } else {
                    next.failed_with(status)
                },
                (
                    ImageSetup::Creating { surface, format, coded_resolution, display_resolution },
                    ImageReply::Image(status, image),
                ) => if status == 0 {
                    next.fetches(surface@, image, coded_resolution, display_resolution)
                } else {
                    next.failed_with(status)
                },
                (
                    ImageSetup::Fetching { surface, image, coded_resolution, display_resolution },
                    ImageReply::Status(status),
                ) => if status == 0 {
                    next.maps(surface@, image, false, display_resolution)
                } else {
                    next.destroys(image.image_id, status)
                },
                (
                    ImageSetup::Mapping { surface, image, derived, display_resolution },
                    ImageReply::Mapped(status, data),
                ) => if status == 0 {
                    next.ready_with(
                        ImageView {
                            display: surface@.display,
                            image,
                            data: data@,
                            derived,
                            display_resolution,
                            dirty: false,
                            surface: surface@,
                        },
                    )
                } else {
                    next.destroys(image.image_id, status)
                },
                (ImageSetup::Destroying { image, error }, ImageReply::Status(_)) => next
                    == ImageSetup::<'a, D>::Failed(error),
                _ => next == self,
            },
    {
        match (self, reply) {
            (ImageSetup::Deriving { surface, display_resolution }, ImageReply::Image(status, image)) => {
                match va_check(status) {
                    Ok(()) => ImageSetup::Mapping { surface, image, derived: true, display_resolution },
                    Err(e) => ImageSetup::Failed(e),
                }
            },
            (
                ImageSetup::Creating { surface, format, coded_resolution, display_resolution },
                ImageReply::Image(status, image),
            ) => {
                match va_check(status) {
                    Ok(()) => ImageSetup::Fetching {
                        surface,
                        image,
                        coded_resolution,
                        display_resolution,
                    },
                    Err(e) => ImageSetup::Failed(e),
                }
            },
            (
                ImageSetup::Fetching { surface, image, coded_resolution, display_resolution },
                ImageReply::Status(status),
            ) => {
                match va_check(status) {
                    Ok(()) => ImageSetup::Mapping { surface, image, derived: false, display_resolution },
                    Err(e) => ImageSetup::Destroying { image: image.image_id, error: e },
                }
            },
            (
                ImageSetup::Mapping { surface, image, derived, display_resolution },
                ImageReply::Mapped(status, data),
            ) => {
                match va_check(status) {
                    Ok(()) => ImageSetup::Ready(
                        Image::new(surface, image, derived, display_resolution, data),
                    ),
                    Err(e) => ImageSetup::Destroying { image: image.image_id, error: e },
                }
            },
            (ImageSetup::Destroying { image, error }, ImageReply::Status(_)) => {
                ImageSetup::Failed(error)
            },
            (setup, _) => setup,
        }
    }
}

impl<'a, D: SurfaceMemoryDescriptor> Image<'a, D> {
    /// Makes the image of `surface` that the driver described as `image` and
    /// whose buffer it mapped as `data`. The image is not written to yet.
    pub fn new(
        surface: &'a Surface<D>,
        image: VAImage,
        derived: bool,
        display_resolution: (u32, u32),
        data: &'a mut [u8],
    ) -> (made: Self)
        requires
            covers(image, display_resolution),
        ensures
            made@ == (ImageView {
                display: surface@.display,
                image,
                data: old(data)@,
                derived,
                display_resolution,
                dirty: false,
                surface: surface@,
            }),
    {
        Image {
            display: Rc::clone(surface.display()),
            geometry: Geometry::new(image, display_resolution),
            data,
            derived,
            dirty: false,
            surface,
        }
    }

    /// Starts the setting up of a derived image of `surface`: a direct view
    /// of its memory, without any copy. Not every surface can be derived
    /// from.
    pub fn derive_from(surface: &'a Surface<D>, display_resolution: (u32, u32)) -> (setup:
        ImageSetup<'a, D>)
        ensures
            setup == (ImageSetup::Deriving { surface, display_resolution }),
    {
        ImageSetup::Deriving { surface, display_resolution }
    }

    /// Starts the setting up of an image that holds a copy of `surface` in
    /// the given `format` and `coded_resolution`.
    pub fn create_from(
        surface: &'a Surface<D>,
        format: VAImageFormat,
        coded_resolution: (u32, u32),
        display_resolution: (u32, u32),
    ) -> (setup: ImageSetup<'a, D>)
        ensures
            setup == (ImageSetup::Creating { surface, format, coded_resolution, display_resolution }),
    {
        ImageSetup::Creating { surface, format, coded_resolution, display_resolution }
    }

    /// Returns the driver's description of this image.
    pub fn image(&self) -> (image: &VAImage)
        ensures
            *image == self@.image,
    {
        self.geometry.image()
    }

    /// Returns the surface that this image is of.
    pub fn surface(&self) -> (surface: &Surface<D>)
        ensures
            surface@ == self@.surface,
    {
        self.surface
    }

    /// Returns whether this image is a direct view of its surface, as
    /// opposed to a copy in a pixel format of the caller's choice.
    pub fn is_derived(&self) -> (derived: bool)
        ensures
            derived == self@.derived,
    {
        self.derived
    }

    /// Returns the resolution that the caller asked for. It is at most the
    /// coded resolution.
    pub fn display_resolution(&self) -> (resolution: (u32, u32))
        ensures
            resolution == self@.display_resolution,
            resolution.0 <= self@.image.width,
            resolution.1 <= self@.image.height,
    {
        let image = self.geometry.image();
        self.geometry.display_resolution()
    }

    /// Returns the coded resolution. It can be larger than what was asked
    /// for when the image was made, if the driver needs that; it is never
    /// smaller than the display resolution.
    pub fn coded_resolution(&self) -> (resolution: (u32, u32))
        ensures
            resolution == (self@.image.width as u32, self@.image.height as u32),
            resolution.0 >= self@.display_resolution.0,
            resolution.1 >= self@.display_resolution.1,
    {
        let image = self.geometry.image();
        (image.width as u32, image.height as u32)
    }

    /// Returns whether the data of this image may have been written to.
    pub fn is_dirty(&self) -> (dirty: bool)
        ensures
            dirty == self@.dirty,
    {
        self.dirty
    }

    /// Returns the mapped pixel data, for reading.
    pub fn as_ref(&self) -> (data: &[u8])
        ensures
            data@ == self@.data,
    {
        self.data
    }

    /// Returns the mapped pixel data, for writing. From now on the data
    /// counts as written to.
    pub fn as_mut(&mut self) -> (data: &mut [u8])
        ensures
            data@ == old(self)@.data,
            final(self)@ == (ImageView { dirty: true, data: final(data)@, ..old(self)@ }),
    {
        self.dirty = true;
        self.data
    }

    /// Lets the image go, and says what to ask the driver for on that
    /// account: a copy that may have been written to is written back to its
    /// surface, the whole coded rectangle of it, before the buffer is
    /// unmapped and the image destroyed; a derived image is not written
    /// back.
    pub fn release(self) -> (release: ImageRelease)
        ensures
            release == release_of(self@),
    {
        let image = *self.geometry.image();
        let write_back = if !self.derived && self.dirty {
            Some(
                PutImage {
                    surface: self.surface.id(),
                    image: image.image_id,
                    src_x: 0,
                    src_y: 0,
                    src_width: image.width as u32,
                    src_height: image.height as u32,
                    dest_x: 0,
                    dest_y: 0,
                    dest_width: image.width as u32,
                    dest_height: image.height as u32,
                },
            )
        } else {
            None
        };
        ImageRelease {
            display: self.display.handle(),
            write_back,
            unmap: image.buf,
            destroy: image.image_id,
        }
    }
}

/// An image that is a copy and has been handed out for writing is written
/// back in full when it is let go; a derived image never is, written to or
/// not; and an image that was never handed out for writing is not written
/// back either.
pub proof fn lemma_write_back<D>(image: ImageView<D>)
    ensures
        release_of(ImageView { dirty: true, ..image }).write_back == if image.derived {
            None
        } else {
            Some(full_write_back(image.surface.id, image.image))
        },
        release_of(ImageView { dirty: false, ..image }).write_back is None,
        image.derived ==> release_of(image).write_back is None,
        release_of(image).write_back matches Some(put) ==> put.src_width == image.image.width
            && put.src_height == image.image.height && put.src_x == 0 && put.src_y == 0,
{
}

} // verus!
