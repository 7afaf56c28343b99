//! Contexts: the scope in which pictures are rendered.

use vstd::prelude::*;
use std::rc::Rc;
use crate::bindings::VABufferID;
use crate::bindings::VAConfigID;
use crate::bindings::VAContextID;
use crate::bindings::VAStatus;
use crate::bindings::VASurfaceID;
use crate::buffer::Buffer;
use crate::buffer::BufferView;
use crate::buffer::EncCodedBuffer;
use crate::config::Config;
use crate::constants::VA_PROGRESSIVE;
use crate::display::Display;
use crate::status::VaError;
use crate::status::va_check;
use crate::surface::SurfaceHolder;
use crate::surface::SurfaceMemoryDescriptor;
use crate::surface::held_by;
use crate::surface::held_ids;

verus! {

/// A context for a particular display.
#[derive(Debug)]
pub struct Context {
    display: Rc<Display>,
    id: VAContextID,
}

/// What a [`Context`] holds.
pub struct ContextView {
    /// Handle of the display that the context belongs to.
    pub display: crate::bindings::VADisplay,
    /// Identifier of the context.
    pub id: VAContextID,
}

impl View for Context {
    type V = ContextView;

    closed spec fn view(&self) -> ContextView {
        ContextView { display: self.display@, id: self.id }
    }
}

/// What the driver is asked for when a context is created.
#[derive(Debug)]
pub struct CreateContextRequest {
    /// The config that the context is bound to.
    pub config: VAConfigID,
    /// The coded picture width.
    pub picture_width: i32,
    /// The coded picture height.
    pub picture_height: i32,
    /// The context flags.
    pub flag: i32,
    /// The surfaces that the context may render into.
    pub render_targets: Vec<VASurfaceID>,
}

/// The context flags for a sequence that is, or is not, progressive.
pub open spec fn context_flags(progressive: bool) -> i32 {
    if progressive {
        VA_PROGRESSIVE as i32
    } else {
        0
    }
}

/// Whether `targets` are the render targets that a list of surface
/// holders, if any, stands for: the identifiers of the surfaces that they
/// hand out, or none without a list.
pub open spec fn render_targets<D: SurfaceMemoryDescriptor, T: SurfaceHolder<D>>(
    surfaces: Option<&Vec<T>>,
    targets: Seq<VASurfaceID>,
) -> bool {
    match surfaces {
        Some(surfaces) => held_by(surfaces@, targets),
        None => targets.len() == 0,
    }
}

impl Context {
    /// What to ask the driver for to create a context for `config` with the
    /// given coded size: the progressive flag if only progressive frames are
    /// present in the sequence, and the identifiers of the surfaces that
    /// `surfaces` hold, if any, as render targets.
    pub fn create_request<D: SurfaceMemoryDescriptor, T: SurfaceHolder<D>>(
        config: &Config,
        coded_width: u32,
        coded_height: u32,
        surfaces: Option<&Vec<T>>,
        progressive: bool,
    ) -> (request: CreateContextRequest)
        ensures
            request.config == config@.id,
            request.picture_width == coded_width as i32,
            request.picture_height == coded_height as i32,
            request.flag == context_flags(progressive),
            render_targets(surfaces, request.render_targets@),
    {
        let flag: i32 = if progressive {
            VA_PROGRESSIVE as i32
        } else {
            0
        };
        let render_targets: Vec<VASurfaceID> = match surfaces {
            Some(surfaces) => held_ids(surfaces.as_slice()),
            None => Vec::new(),
        };
        CreateContextRequest {
            config: config.id(),
            picture_width: #[verifier::truncate] (coded_width as i32),
            picture_height: #[verifier::truncate] (coded_height as i32),
            flag,
            render_targets,
        }
    }

    /// Makes the context of `display` from what the driver returned when
    /// asked to create it: its status and the identifier of the new context.
    pub fn new(display: Rc<Display>, status: VAStatus, context_id: VAContextID) -> (r: Result<
        Rc<Self>,
        VaError,
    >)
        ensures
            r is Ok <==> status == 0,
            r matches Ok(context) ==> context@ == (ContextView { display: display@, id: context_id }),
            r matches Err(e) ==> e.code() == status,
    {
        match va_check(status) {
            Ok(()) => Ok(Rc::new(Context { display, id: context_id })),
            Err(e) => Err(e),
        }
    }

    /// Makes a buffer of `self` from what the driver returned when asked to
    /// create it there: its status and the identifier of the new buffer. What
    /// to ask for is told by [`Buffer::create_request`].
    pub fn create_buffer(self: &Rc<Self>, status: VAStatus, buffer_id: VABufferID) -> (r: Result<
        Buffer,
        VaError,
    >)
        ensures
            r is Ok <==> status == 0,
            r matches Ok(buffer) ==> buffer@ == (BufferView { context: self@.id, id: buffer_id }),
            r matches Err(e) ==> e.code() == status,
    {
        Buffer::new(Rc::clone(self), status, buffer_id)
    }

    /// Makes a buffer for the coded output of an encoder from what the
    /// driver returned when asked to create it in `self`: its status and the
    /// identifier of the new buffer.
    pub fn create_enc_coded(self: &Rc<Self>, status: VAStatus, buffer_id: VABufferID) -> (r: Result<
        EncCodedBuffer,
        VaError,
    >)
        ensures
            r is Ok <==> status == 0,
            r matches Ok(buffer) ==> buffer@ == (BufferView { context: self@.id, id: buffer_id }),
            r matches Err(e) ==> e.code() == status,
    {
        EncCodedBuffer::new(Rc::clone(self), status, buffer_id)
    }

    /// Returns the display that this context belongs to.
    pub fn display(&self) -> (display: &Rc<Display>)
        ensures
            display@ == self@.display,
    {
        &self.display
    }

    /// Returns the identifier of this context.
    pub fn id(&self) -> (id: VAContextID)
        ensures
            id == self@.id,
    {
        self.id
    }
}

} // verus!
