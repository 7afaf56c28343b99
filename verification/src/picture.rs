//! Pictures: one frame, or one field, of work on a surface, taken through the
//! render protocol of the driver in the only order that it allows.
//!
//! A picture is created, then begun, rendered, ended and synced. Each step is
//! a method of the picture in the state before it and returns the picture in
//! the state after it, so that no other order can be written down. The driver
//! call of a step is made by the caller, who hands in the status that it
//! returned.

use vstd::prelude::*;
use std::marker::PhantomData;
use std::rc::Rc;
use crate::bindings::VABufferID;
use crate::bindings::VAContextID;
use crate::bindings::VAImageFormat;
use crate::bindings::VAStatus;
use crate::bindings::VASurfaceID;
use crate::buffer::Buffer;
use crate::buffer::buffer_ids;
use crate::context::Context;
use crate::image::Image;
use crate::image::ImageSetup;
use crate::sealed::Sealed;
use crate::status::VaError;
use crate::status::va_check;
use crate::surface::Surface;
use crate::surface::SurfaceHolder;
use crate::surface::SurfaceMemoryDescriptor;
use crate::surface::holds;
use crate::surface::holds_id;

verus! {

/// The stages of the render protocol.
#[derive(Clone, Copy, Debug, PartialEq, Eq, Structural)]
pub enum PictureStage {
    /// Just created: nothing has been asked of the driver.
    New,
    /// The frame has been started.
    Begun,
    /// The buffers have been submitted.
    Rendered,
    /// The frame has been finished; the work may still be in flight.
    Ended,
    /// The driver has reported the work on the surface complete.
    Synced,
}

/// The steps of the render protocol.
#[derive(Clone, Copy, Debug, PartialEq, Eq, Structural)]
pub enum PictureStep {
    Begin,
    Render,
    End,
    Sync,
}

/// The stage that `step` leads to from `stage`, if it may be taken there.
pub open spec fn stage_after(stage: PictureStage, step: PictureStep) -> Option<PictureStage> {
    match (stage, step) {
        (PictureStage::New, PictureStep::Begin) => Some(PictureStage::Begun),
        (PictureStage::Begun, PictureStep::Render) => Some(PictureStage::Rendered),
        (PictureStage::Rendered, PictureStep::End) => Some(PictureStage::Ended),
        (PictureStage::Ended, PictureStep::Sync) => Some(PictureStage::Synced),
        _ => None,
    }
}

/// The stage that `steps`, taken one after the other, lead to from `stage`,
/// if each of them may be taken where it stands.
pub open spec fn stage_after_all(stage: PictureStage, steps: Seq<PictureStep>) -> Option<
    PictureStage,
>
    decreases steps.len(),
{
    if steps.len() == 0 {
        Some(stage)
    } else {
        match stage_after(stage, steps[0]) {
            Some(next) => stage_after_all(next, steps.skip(1)),
            None => None,
        }
    }
}

/// The four steps in the order of the protocol.
pub open spec fn render_order() -> Seq<PictureStep> {
    seq![PictureStep::Begin, PictureStep::Render, PictureStep::End, PictureStep::Sync]
}

/// Whether the surface of a picture may be reclaimed at `stage`: before
/// anything has been submitted, or after the driver has reported completion.
pub open spec fn reclaimable(stage: PictureStage) -> bool {
    stage == PictureStage::New || stage == PictureStage::Synced
}

/// The states of a picture. A state is a type, so that the operations of a
/// picture depend on its state: the protocol is checked when the caller's
/// code is compiled.
pub trait PictureState: Sealed {
    /// The stage of the protocol that this state stands for.
    spec fn stage() -> PictureStage;
}

/// The state of a picture that has just been created.
#[derive(Debug)]
pub struct PictureNew;

impl Sealed for PictureNew {

}

impl PictureState for PictureNew {
    open spec fn stage() -> PictureStage {
        PictureStage::New
    }
}

/// The state of a picture whose frame has been started.
#[derive(Debug)]
pub struct PictureBegin;

impl Sealed for PictureBegin {

}

impl PictureState for PictureBegin {
    open spec fn stage() -> PictureStage {
        PictureStage::Begun
    }
}

/// The state of a picture whose buffers have been submitted.
#[derive(Debug)]
pub struct PictureRender;

impl Sealed for PictureRender {

}

impl PictureState for PictureRender {
    open spec fn stage() -> PictureStage {
        PictureStage::Rendered
    }
}

/// The state of a picture whose frame has been finished.
#[derive(Debug)]
pub struct PictureEnd;

impl Sealed for PictureEnd {

}

impl PictureState for PictureEnd {
    open spec fn stage() -> PictureStage {
        PictureStage::Ended
    }
}

/// The state of a picture whose surface the driver has reported complete.
#[derive(Debug)]
pub struct PictureSync;

impl Sealed for PictureSync {

}

impl PictureState for PictureSync {
    open spec fn stage() -> PictureStage {
        PictureStage::Synced
    }
}

/// The states in which the surface of a picture can be reclaimed: either no
/// operation has been started on it, or the operation is known to have
/// completed.
pub trait PictureReclaimableSurface: PictureState + Sealed {
    /// The stage of such a state is one at which the surface may be
    /// reclaimed.
    proof fn lemma_reclaimable()
        ensures
            reclaimable(Self::stage()),
    ;
}

impl PictureReclaimableSurface for PictureNew {
    proof fn lemma_reclaimable() {
    }
}

impl PictureReclaimableSurface for PictureSync {
    proof fn lemma_reclaimable() {
    }
}

/// The part of a [`Picture`] that exists in all states.
struct PictureInner<T> {
    /// Timestamp of the picture.
    timestamp: u64,
    /// The context that the picture is rendered in.
    context: Rc<Context>,
    /// The buffers to submit, in the order in which they were added.
    buffers: Vec<Buffer>,
    /// The surface that is rendered into. It may be shared with the picture
    /// of the other field of an interlaced frame.
    surface: Rc<T>,
}

/// A surface that is being rendered into, in the state `S` of the render
/// protocol. `T` is what holds the surface.
pub struct Picture<S: PictureState, T> {
    inner: Box<PictureInner<T>>,
    phantom: PhantomData<S>,
}

/// What a [`Picture`] holds.
pub struct PictureView<T> {
    /// The stage of the protocol that the picture is at.
    pub stage: PictureStage,
    /// Timestamp of the picture.
    pub timestamp: u64,
    /// Identifier of the context that the picture is rendered in.
    pub context: VAContextID,
    /// Identifiers of the buffers to submit, in the order of submission.
    pub buffers: Seq<VABufferID>,
    /// What holds the surface that is rendered into.
    pub surface: T,
}

impl<S: PictureState, T> View for Picture<S, T> {
    type V = PictureView<T>;

    closed spec fn view(&self) -> PictureView<T> {
        PictureView {
            stage: S::stage(),
            timestamp: self.inner.timestamp,
            context: self.inner.context@.id,
            buffers: buffer_ids(self.inner.buffers@),
            surface: *self.inner.surface,
        }
    }
}

/// What the driver is asked for to start a frame.
#[derive(Clone, Copy, Debug, PartialEq, Eq, Structural)]
pub struct BeginPicture {
    pub context: VAContextID,
    pub render_target: VASurfaceID,
}

/// What the driver is asked for to submit the buffers of a frame: all of
/// them, in one call.
#[derive(Clone, Debug, PartialEq, Eq)]
pub struct RenderPicture {
    pub context: VAContextID,
    pub buffers: Vec<VABufferID>,
    pub num_buffers: i32,
}

/// What the driver is asked for to finish a frame.
#[derive(Clone, Copy, Debug, PartialEq, Eq, Structural)]
pub struct EndPicture {
    pub context: VAContextID,
}

impl<T> Picture<PictureNew, T> {
    /// Creates a picture with the given `timestamp`, to be rendered in
    /// `context` into `surface`. It has no buffers yet.
    pub fn new(timestamp: u64, context: Rc<Context>, surface: T) -> (picture: Self)
        ensures
            picture@ == (PictureView {
                stage: PictureStage::New,
                timestamp,
                context: context@.id,
                buffers: Seq::<VABufferID>::empty(),
                surface,
            }),
    {
        let picture = Picture::<PictureNew, T> {
            inner: Box::new(
                PictureInner { timestamp, context, buffers: Vec::new(), surface: Rc::new(surface) },
            ),
            phantom: PhantomData,
        };
        assert(picture@.buffers =~= Seq::<VABufferID>::empty());
        picture
    }

    /// Creates a picture with the given `timestamp` that shares the surface
    /// and the context of `picture`. It has no buffers of its own yet. Both
    /// fields of an interlaced frame can be rendered into one surface in this
    /// way.
    pub fn new_from_same_surface<S: PictureReclaimableSurface>(
        timestamp: u64,
        picture: &Picture<S, T>,
    ) -> (second: Self)
        ensures
            second@ == (PictureView {
                stage: PictureStage::New,
                timestamp,
                context: picture@.context,
                buffers: Seq::<VABufferID>::empty(),
                surface: picture@.surface,
            }),
    {
        let context = Rc::clone(&picture.inner.context);
        let second = Picture::<PictureNew, T> {
            inner: Box::new(
                PictureInner {
                    timestamp,
                    context,
                    buffers: Vec::new(),
                    surface: Rc::clone(&picture.inner.surface),
                },
            ),
            phantom: PhantomData,
        };
        assert(second@.buffers =~= Seq::<VABufferID>::empty());
        second
    }

    /// Adds `buffer` to the picture, behind the buffers that it has already.
    pub fn add_buffer(&mut self, buffer: Buffer)
        ensures
            final(self)@ == (PictureView {
                buffers: old(self)@.buffers.push(buffer@.id),
                ..old(self)@
            }),
    {
        self.inner.buffers.push(buffer);
        assert(self@.buffers =~= old(self)@.buffers.push(buffer@.id));
    }

    /// What to ask the driver for to start the frame: the context of this
    /// picture and the surface that it holds.
    pub fn begin_request<D: SurfaceMemoryDescriptor>(&self) -> (request: BeginPicture) where
        T: SurfaceHolder<D>,

        ensures
            request.context == self@.context,
            holds_id::<D, T>(self@.surface, request.render_target),
    {
        let surface = self.inner.surface.surface();
        assert(holds(self@.surface, surface@));
        BeginPicture { context: self.inner.context.id(), render_target: surface.id() }
    }

    /// Takes the picture to the next state after the driver was asked to
    /// start the frame and returned `status`. If that is not success, the
    /// picture is let go and the error carries the status.
    pub fn begin(self, status: VAStatus) -> (r: Result<Picture<PictureBegin, T>, VaError>)
        ensures
            r is Ok <==> status == 0,
            r matches Ok(picture) ==> picture@ == (PictureView {
                stage: PictureStage::Begun,
                ..self@
            }) && stage_after(self@.stage, PictureStep::Begin) == Some(picture@.stage),
            r matches Err(e) ==> e.code() == status,
    {
        match va_check(status) {
            Ok(()) => Ok(Picture { inner: self.inner, phantom: PhantomData }),
            Err(e) => Err(e),
        }
    }
}

impl<T> Picture<PictureBegin, T> {
    /// What to ask the driver for to submit the buffers of the frame: every
    /// buffer of this picture, in the order in which they were added, in a
    /// single call.
    pub fn render_request(&self) -> (request: RenderPicture)
        ensures
            request.context == self@.context,
            request.buffers@ == self@.buffers,
            request.num_buffers == self@.buffers.len() as i32,
    {
        let buffers = Buffer::as_id_vec(self.inner.buffers.as_slice());
        let num_buffers = #[verifier::truncate] (self.inner.buffers.len() as i32);
        RenderPicture { context: self.inner.context.id(), buffers, num_buffers }
    }

    /// Takes the picture to the next state after the driver was asked to
    /// take the buffers and returned `status`. If that is not success, the
    /// picture is let go and the error carries the status.
    pub fn render(self, status: VAStatus) -> (r: Result<Picture<PictureRender, T>, VaError>)
        ensures
            r is Ok <==> status == 0,
            r matches Ok(picture) ==> picture@ == (PictureView {
                stage: PictureStage::Rendered,
                ..self@
            }) && stage_after(self@.stage, PictureStep::Render) == Some(picture@.stage),
            r matches Err(e) ==> e.code() == status,
    {
        match va_check(status) {
            Ok(()) => Ok(Picture { inner: self.inner, phantom: PhantomData }),
            Err(e) => Err(e),
        }
    }
}

impl<T> Picture<PictureRender, T> {
    /// What to ask the driver for to finish the frame: the context of this
    /// picture.
    pub fn end_request(&self) -> (request: EndPicture)
        ensures
            request == (EndPicture { context: self@.context }),
    {
        EndPicture { context: self.inner.context.id() }
    }

    /// Takes the picture to the next state after the driver was told that no
    /// more buffers will come for the frame and returned `status`. If that is
    /// not success, the picture is let go and the error carries the status.
    /// Success does not mean that the work has completed.
    pub fn end(self, status: VAStatus) -> (r: Result<Picture<PictureEnd, T>, VaError>)
        ensures
            r is Ok <==> status == 0,
            r matches Ok(picture) ==> picture@ == (PictureView {
                stage: PictureStage::Ended,
                ..self@
            }) && stage_after(self@.stage, PictureStep::End) == Some(picture@.stage),
            r matches Err(e) ==> e.code() == status,
    {
        match va_check(status) {
            Ok(()) => Ok(Picture { inner: self.inner, phantom: PhantomData }),
            Err(e) => Err(e),
        }
    }
}

impl<T> Picture<PictureEnd, T> {
    /// What to ask the driver for to wait for the frame: the surface that
    /// this picture holds, on which all pending work is to complete.
    pub fn sync_request<D: SurfaceMemoryDescriptor>(&self) -> (render_target: VASurfaceID) where
        T: SurfaceHolder<D>,

        ensures
            holds_id::<D, T>(self@.surface, render_target),
    {
        let surface = self.inner.surface.surface();
        assert(holds(self@.surface, surface@));
        surface.id()
    }

    /// Takes the picture to the last state after the driver was asked to
    /// wait until all work on the surface of this picture has completed, and
    /// returned `status`. If that is not success, the error carries the
    /// status and comes with the picture as it was, so that the caller can
    /// look at it or try again.
    pub fn sync(self, status: VAStatus) -> (r: Result<Picture<PictureSync, T>, (VaError, Self)>)
        ensures
            r is Ok <==> status == 0,
            r matches Ok(picture) ==> picture@ == (PictureView {
                stage: PictureStage::Synced,
                ..self@
            }) && stage_after(self@.stage, PictureStep::Sync) == Some(picture@.stage),
            r matches Err((e, picture)) ==> e.code() == status && picture == self,
    {
        match va_check(status) {
            Ok(()) => Ok(Picture { inner: self.inner, phantom: PhantomData }),
            Err(e) => Err((e, self)),
        }
    }
}

impl<S: PictureState, T> Picture<S, T> {
    /// The stage that a picture is at is the one that its state stands for.
    pub proof fn lemma_stage(&self)
        ensures
            self@.stage == S::stage(),
    {
    }

    /// Returns the timestamp of this picture.
    pub fn timestamp(&self) -> (timestamp: u64)
        ensures
            timestamp == self@.timestamp,
    {
        self.inner.timestamp
    }

    /// Returns the context that this picture is rendered in.
    pub fn context(&self) -> (context: &Rc<Context>)
        ensures
            context@.id == self@.context,
    {
        &self.inner.context
    }

    /// Returns the surface of this picture. To get at what holds the surface,
    /// use [`Self::as_ref`].
    pub fn surface<D: SurfaceMemoryDescriptor>(&self) -> (surface: &Surface<D>) where
        T: SurfaceHolder<D>,

        ensures
            holds(self@.surface, surface@),
    {
        self.inner.surface.surface()
    }

    /// Returns what holds the surface of this picture.
    pub fn as_ref(&self) -> (holder: &T)
        ensures
            *holder == self@.surface,
    {
        &self.inner.surface
    }
}

impl<S: PictureReclaimableSurface, T> Picture<S, T> {
    /// Reclaims what holds the surface of this picture, and lets the picture
    /// go. This is of use if the surface is part of a pool.
    ///
    /// It fails if another picture shares the surface, and then returns this
    /// picture as it was.
    pub fn take_surface(self) -> (r: Result<T, Self>)
        ensures
            reclaimable(self@.stage),
            match r {
                Ok(surface) => surface == self@.surface,
                Err(picture) => picture == self,
            },
    {
        proof {
            S::lemma_reclaimable();
        }
        let Picture { inner, phantom } = self;
        let PictureInner { timestamp, context, buffers, surface } = *inner;
        let unshared = Rc::try_unwrap(surface);
        Self::put_back(timestamp, context, buffers, unshared)
    }

    /// Ends the attempt to reclaim the surface of a picture with the given
    /// parts. `unshared` is what the shared pointer to the surface gave when
    /// it was asked to give up what it holds: the holder of the surface if no
    /// other picture shares it, and the pointer itself otherwise. The
    /// attempt succeeds exactly in the first case; in the second the picture
    /// is put together again from its parts.
    pub fn reclaimed(
        timestamp: u64,
        context: Rc<Context>,
        buffers: Vec<Buffer>,
        unshared: Result<T, Rc<T>>,
    ) -> (r: Result<T, Self>)
        ensures
            match unshared {
                Ok(surface) => r == Ok::<T, Self>(surface),
                Err(shared) => r matches Err(picture) && picture@ == (PictureView {
                    stage: S::stage(),
                    timestamp,
                    context: context@.id,
                    buffers: buffer_ids(buffers@),
                    surface: *shared,
                }),
            },
    {
        Self::put_back(timestamp, context, buffers, unshared)
    }

    fn put_back(
        timestamp: u64,
        context: Rc<Context>,
        buffers: Vec<Buffer>,
        unshared: Result<T, Rc<T>>,
    ) -> (r: Result<T, Self>)
        ensures
            match unshared {
                Ok(surface) => r == Ok::<T, Self>(surface),
                Err(shared) => r matches Err(picture) && *picture.inner == (PictureInner {
                    timestamp,
                    context,
                    buffers,
                    surface: shared,
                }),
            },
    {
        match unshared {
            Ok(surface) => Ok(surface),
            Err(surface) => Err(
                Picture {
                    inner: Box::new(PictureInner { timestamp, context, buffers, surface }),
                    phantom: PhantomData,
                },
            ),
        }
    }
}

impl<S: PictureReclaimableSurface, T> Picture<S, T> {
    /// Starts the setting up of a derived image of the surface of this
    /// picture: a direct view of its memory, without any copy. Not every
    /// surface can be derived from.
    pub fn derive_image<'a, D: SurfaceMemoryDescriptor>(&'a self, visible_rect: (u32, u32)) -> (setup:
        ImageSetup<'a, D>) where T: SurfaceHolder<D>
        ensures
            reclaimable(self@.stage),
            setup matches ImageSetup::Deriving { surface, display_resolution } && holds(
                self@.surface,
                surface@,
            ) && display_resolution == visible_rect,
    {
        proof {
            S::lemma_reclaimable();
        }
        Image::derive_from(self.surface(), visible_rect)
    }

    /// Starts the setting up of an image that holds a copy of the surface of
    /// this picture in the given `format` and `coded_resolution`.
    pub fn create_image<'a, D: SurfaceMemoryDescriptor>(
        &'a self,
        format: VAImageFormat,
        coded_resolution: (u32, u32),
        visible_rect: (u32, u32),
    ) -> (setup: ImageSetup<'a, D>) where T: SurfaceHolder<D>
        ensures
            reclaimable(self@.stage),
            setup matches ImageSetup::Creating {
                surface,
                format: f,
                coded_resolution: c,
                display_resolution,
            } && holds(self@.surface, surface@) && f == format && c == coded_resolution
                && display_resolution == visible_rect,
    {
        proof {
            S::lemma_reclaimable();
        }
        Image::create_from(self.surface(), format, coded_resolution, visible_rect)
    }
}

/// Of all sequences of steps, only begin, render, end, sync in that order
/// takes a new picture to the stage at which the driver has reported
/// completion; and whatever steps are taken from a new picture one after the
/// other are the first steps of that order.
pub proof fn lemma_render_order(steps: Seq<PictureStep>)
    ensures
        stage_after_all(PictureStage::New, steps) == Some(PictureStage::Synced) <==> steps
            == render_order(),
        stage_after_all(PictureStage::New, steps) is Some ==> steps.is_prefix_of(render_order()),
{
    reveal_with_fuel(stage_after_all, 6);
    let order = render_order();
    if steps.len() >= 1 {
        assert(steps.skip(1).len() == steps.len() - 1);
        if steps.len() >= 2 {
            assert(steps.skip(1)[0] == steps[1]);
            assert(steps.skip(1).skip(1).len() == steps.len() - 2);
            if steps.len() >= 3 {
                assert(steps.skip(1).skip(1)[0] == steps[2]);
                assert(steps.skip(1).skip(1).skip(1).len() == steps.len() - 3);
                if steps.len() >= 4 {
                    assert(steps.skip(1).skip(1).skip(1)[0] == steps[3]);
                    assert(steps.skip(1).skip(1).skip(1).skip(1).len() == steps.len() - 4);
                    if steps.len() >= 5 {
                        assert(steps.skip(1).skip(1).skip(1).skip(1)[0] == steps[4]);
                    }
                }
            }
        }
    }
    if stage_after_all(PictureStage::New, steps) is Some {
        assert(steps.len() <= 4);
        assert(forall|i: int| 0 <= i < steps.len() ==> steps[i] == order[i]);
        assert(steps.is_prefix_of(order));
        if stage_after_all(PictureStage::New, steps) == Some(PictureStage::Synced) {
            assert(steps.len() == 4);
            assert(steps =~= order);
        }
    }
    if steps == order {
        assert(stage_after_all(PictureStage::New, steps) == Some(PictureStage::Synced));
    }
}

} // verus!
