//! Surfaces: the pixel buffers that the driver renders into, their creation
//! attributes, and what the driver reports about them.

use vstd::prelude::*;
use std::rc::Rc;
use crate::bindings::VADRMPRIMESurfaceDescriptor;
use crate::bindings::VAGenericValue;
use crate::bindings::VAStatus;
use crate::bindings::VASurfaceAttrib;
use crate::bindings::VASurfaceAttribExternalBuffers;
use crate::bindings::VASurfaceDecodeMBErrors;
use crate::bindings::VASurfaceID;
use crate::bindings::VASurfaceStatus;
use crate::constants::VA_DECODE_MB_ERROR;
use crate::constants::VA_DECODE_RESET;
use crate::constants::VA_DECODE_SLICE_MISSING;
use crate::constants::VA_SURFACE_ATTRIB_EXTERNAL_BUFFER_DESCRIPTOR;
use crate::constants::VA_SURFACE_ATTRIB_MEMORY_TYPE;
use crate::constants::VA_SURFACE_ATTRIB_MEM_TYPE_DRM_PRIME_2;
use crate::constants::VA_SURFACE_ATTRIB_MEM_TYPE_USER_PTR;
use crate::constants::VA_SURFACE_ATTRIB_MEM_TYPE_V4L2;
use crate::constants::VA_SURFACE_ATTRIB_MEM_TYPE_VA;
use crate::constants::VA_SURFACE_ATTRIB_PIXEL_FORMAT;
use crate::constants::VA_SURFACE_ATTRIB_SETTABLE;
use crate::constants::VA_SURFACE_ATTRIB_USAGE_HINT;
use crate::display::Display;
use crate::sealed::Sealed;
use crate::status::VaError;
use crate::status::va_check;
use crate::usage_hint::UsageHint;

verus! {

/// The kinds of memory that can back a surface.
#[derive(Clone, Copy, Debug, PartialEq, Eq, Structural)]
pub enum MemoryType {
    Va,
    V4L2,
    UserPtr,
    DrmPrime2,
}

impl MemoryType {
    /// The driver's code of this memory type.
    pub open spec fn code(self) -> u32 {
        match self {
            MemoryType::Va => VA_SURFACE_ATTRIB_MEM_TYPE_VA,
            MemoryType::V4L2 => VA_SURFACE_ATTRIB_MEM_TYPE_V4L2,
            MemoryType::UserPtr => VA_SURFACE_ATTRIB_MEM_TYPE_USER_PTR,
            MemoryType::DrmPrime2 => VA_SURFACE_ATTRIB_MEM_TYPE_DRM_PRIME_2,
        }
    }

    /// Returns the driver's code of this memory type.
    pub fn value(self) -> (code: u32)
        ensures
            code == self.code(),
    {
        match self {
            MemoryType::Va => VA_SURFACE_ATTRIB_MEM_TYPE_VA,
            MemoryType::V4L2 => VA_SURFACE_ATTRIB_MEM_TYPE_V4L2,
            MemoryType::UserPtr => VA_SURFACE_ATTRIB_MEM_TYPE_USER_PTR,
            MemoryType::DrmPrime2 => VA_SURFACE_ATTRIB_MEM_TYPE_DRM_PRIME_2,
        }
    }
}

/// The settable attribute of kind `type_` with the value `value`.
pub open spec fn settable_attrib(type_: u32, value: VAGenericValue) -> VASurfaceAttrib {
    VASurfaceAttrib { type_, flags: VA_SURFACE_ATTRIB_SETTABLE, value }
}

/// Helpers to build valid surface attributes.
impl VASurfaceAttrib {
    /// The attribute that asks for the pixel format `fourcc`.
    pub fn new_pixel_format(fourcc: u32) -> (attr: Self)
        ensures
            attr == settable_attrib(
                VA_SURFACE_ATTRIB_PIXEL_FORMAT,
                VAGenericValue::integer(fourcc as i32),
            ),
    {
        VASurfaceAttrib {
            type_: VA_SURFACE_ATTRIB_PIXEL_FORMAT,
            flags: VA_SURFACE_ATTRIB_SETTABLE,
            value: VAGenericValue::from_i32(#[verifier::truncate] (fourcc as i32)),
        }
    }

    /// The attribute that passes the usage hint.
    pub fn new_usage_hint(usage_hint: UsageHint) -> (attr: Self)
        ensures
            attr == settable_attrib(
                VA_SURFACE_ATTRIB_USAGE_HINT,
                VAGenericValue::integer(usage_hint@ as i32),
            ),
    {
        VASurfaceAttrib {
            type_: VA_SURFACE_ATTRIB_USAGE_HINT,
            flags: VA_SURFACE_ATTRIB_SETTABLE,
            value: VAGenericValue::from_i32(#[verifier::truncate] (usage_hint.bits() as i32)),
        }
    }

    /// The attribute that names the kind of memory behind the surface.
    pub fn new_memory_type(mem_type: MemoryType) -> (attr: Self)
        ensures
            attr == settable_attrib(
                VA_SURFACE_ATTRIB_MEMORY_TYPE,
                VAGenericValue::integer(mem_type.code() as i32),
            ),
    {
        VASurfaceAttrib {
            type_: VA_SURFACE_ATTRIB_MEMORY_TYPE,
            flags: VA_SURFACE_ATTRIB_SETTABLE,
            value: VAGenericValue::from_i32(#[verifier::truncate] (mem_type.value() as i32)),
        }
    }

    /// The attribute that points at an external buffer descriptor. `desc` is
    /// the address at which the descriptor stays until the surface is made.
    pub fn new_buffer_descriptor(desc: usize) -> (attr: Self)
        ensures
            attr == settable_attrib(
                VA_SURFACE_ATTRIB_EXTERNAL_BUFFER_DESCRIPTOR,
                VAGenericValue::pointer(desc),
            ),
    {
        VASurfaceAttrib {
            type_: VA_SURFACE_ATTRIB_EXTERNAL_BUFFER_DESCRIPTOR,
            flags: VA_SURFACE_ATTRIB_SETTABLE,
            value: VAGenericValue::from_pointer(desc),
        }
    }
}

/// A memory backing for surfaces.
///
/// Using external memory for backing a surface is done in two steps: the
/// descriptor specific to the memory is built and put where it will stay until
/// the surface has been made, and the attributes that refer to it are added to
/// those of the surface.
pub trait SurfaceMemoryDescriptor {
    /// The descriptor that the attributes refer to.
    type DescriptorAttribute;

    /// Builds the descriptor that the attributes will refer to.
    fn build_descriptor(&mut self) -> Self::DescriptorAttribute;

    /// Adds to `attrs` the attributes that attach the memory of this
    /// descriptor to the surface when it is created. `desc` is the address at
    /// which the descriptor attribute stays until then. The attributes that
    /// are in `attrs` already stay as they are.
    fn add_attrs(&mut self, attrs: &mut Vec<VASurfaceAttrib>, desc: usize)
        ensures
            old(attrs)@.is_prefix_of(final(attrs)@),
    ;
}

/// Used when the driver is to allocate the surface memory itself: no
/// attribute is needed for that.
impl SurfaceMemoryDescriptor for () {
    type DescriptorAttribute = ();

    fn build_descriptor(&mut self) -> Self::DescriptorAttribute {
    }

    fn add_attrs(&mut self, attrs: &mut Vec<VASurfaceAttrib>, desc: usize)
        ensures
            final(attrs)@ == old(attrs)@,
    {
    }
}

/// The types that can be handed to the driver as an external buffer
/// descriptor.
pub trait SurfaceExternalDescriptor: Sealed {

}

impl Sealed for VASurfaceAttribExternalBuffers {

}

impl SurfaceExternalDescriptor for VASurfaceAttribExternalBuffers {

}

impl Sealed for VADRMPRIMESurfaceDescriptor {

}

impl SurfaceExternalDescriptor for VADRMPRIMESurfaceDescriptor {

}

/// An external memory source that can back a surface. It is imported by the
/// memory type attribute and the external buffer descriptor attribute.
pub trait ExternalBufferDescriptor {
    /// Memory type to set in the memory type attribute.
    const MEMORY_TYPE: MemoryType;

    /// Type of the descriptor that the external buffer attribute points at.
    type DescriptorAttribute: SurfaceExternalDescriptor;

    /// Returns the descriptor that allows this memory to be imported.
    fn va_surface_attribute(&mut self) -> Self::DescriptorAttribute;
}

/// The attributes that import external memory of kind `mem_type` whose
/// descriptor stays at the address `desc`.
pub open spec fn external_attrs(mem_type: MemoryType, desc: usize) -> Seq<VASurfaceAttrib> {
    seq![
        settable_attrib(VA_SURFACE_ATTRIB_MEMORY_TYPE, VAGenericValue::integer(mem_type.code() as i32)),
        settable_attrib(VA_SURFACE_ATTRIB_EXTERNAL_BUFFER_DESCRIPTOR, VAGenericValue::pointer(desc)),
    ]
}

/// Every external memory source is a memory backing: its descriptor is the
/// one that it hands out as an external buffer descriptor, and it adds its
/// memory type, then the pointer to its descriptor.
impl<T: ExternalBufferDescriptor> SurfaceMemoryDescriptor for T {
    type DescriptorAttribute = <T as ExternalBufferDescriptor>::DescriptorAttribute;

    /// Builds the descriptor by asking the source for its external buffer
    /// descriptor: what comes back is what
    /// [`ExternalBufferDescriptor::va_surface_attribute`] hands out for the
    /// source as it was, and the source is left as that call leaves it.
    fn build_descriptor(&mut self) -> (descriptor: Self::DescriptorAttribute)
        ensures
            exists|source: &mut T|
                #![trigger call_ensures(T::va_surface_attribute, (source,), descriptor)]
                *source == *old(self) && *final(source) == *final(self) && call_ensures(
                    T::va_surface_attribute,
                    (source,),
                    descriptor,
                ),
    {
        self.va_surface_attribute()
    }

    fn add_attrs(&mut self, attrs: &mut Vec<VASurfaceAttrib>, desc: usize)
        ensures
            final(attrs)@ == old(attrs)@ + external_attrs(T::MEMORY_TYPE, desc),
    {
        attrs.push(VASurfaceAttrib::new_memory_type(T::MEMORY_TYPE));
        attrs.push(VASurfaceAttrib::new_buffer_descriptor(desc));
        assert(attrs@ =~= old(attrs)@ + external_attrs(T::MEMORY_TYPE, desc));
    }
}

/// The kinds of decode error that a surface can report.
#[derive(Clone, Copy, Debug, PartialEq, Eq, Structural)]
pub enum DecodeErrorType {
    SliceMissing,
    MBError,
    Reset,
}

/// Details of one decode error of a surface.
#[derive(Clone, Copy, Debug, PartialEq, Eq, Structural)]
pub struct SurfaceDecodeMBError {
    /// Start macroblock address with errors.
    pub start_mb: u32,
    /// End macroblock address with errors.
    pub end_mb: u32,
    /// What went wrong.
    pub decode_error_type: DecodeErrorType,
    /// Number of macroblocks with errors.
    pub num_mb: u32,
}

/// The kind that the driver's code `code` stands for, if it is a known one.
pub open spec fn decode_error_kind(code: u32) -> Option<DecodeErrorType> {
    if code == VA_DECODE_SLICE_MISSING {
        Some(DecodeErrorType::SliceMissing)
    } else if code == VA_DECODE_MB_ERROR {
        Some(DecodeErrorType::MBError)
    } else if code == VA_DECODE_RESET {
        Some(DecodeErrorType::Reset)
    } else {
        None
    }
}

/// The errors that the driver's list `raw` reports. The list ends at the
/// first record whose status is -1, or where `raw` ends; a record of an
/// unknown kind is passed over.
pub open spec fn decode_errors(raw: Seq<VASurfaceDecodeMBErrors>) -> Seq<SurfaceDecodeMBError>
    decreases raw.len(),
{
    if raw.len() == 0 || raw[0].status == -1 {
        Seq::empty()
    } else {
        match decode_error_kind(raw[0].decode_error_type) {
            Some(kind) => seq![
                SurfaceDecodeMBError {
                    start_mb: raw[0].start_mb,
                    end_mb: raw[0].end_mb,
                    decode_error_type: kind,
                    num_mb: raw[0].num_mb,
                },
            ] + decode_errors(raw.skip(1)),
            None => decode_errors(raw.skip(1)),
        }
    }
}

/// One memory object of an exported surface.
#[derive(Clone, Copy, Debug, PartialEq, Eq, Structural)]
pub struct DrmPrimeSurfaceDescriptorObject {
    /// File descriptor of the object. Whoever holds this record owns it.
    pub fd: i32,
    pub size: u32,
    pub drm_format_modifier: u64,
}

/// One layer of an exported surface.
#[derive(Clone, Copy, Debug)]
pub struct DrmPrimeSurfaceDescriptorLayer {
    pub drm_format: u32,
    pub num_planes: u32,
    pub object_index: [u8; 4],
    pub offset: [u32; 4],
    pub pitch: [u32; 4],
}

/// Snapshot of the memory objects and plane geometry of an exported surface.
#[derive(Clone, Debug)]
pub struct DrmPrimeSurfaceDescriptor {
    pub fourcc: u32,
    pub width: u32,
    pub height: u32,
    pub objects: Vec<DrmPrimeSurfaceDescriptorObject>,
    pub layers: Vec<DrmPrimeSurfaceDescriptorLayer>,
}

/// How many entries of a list of four count, when the driver says `num`.
pub open spec fn exported_len(num: u32) -> nat {
    if num < 4 {
        num as nat
    } else {
        4
    }
}

/// Whether `layer` is the layer record `raw` with its object indices
/// narrowed to a byte each.
pub open spec fn exported_layer(
    layer: DrmPrimeSurfaceDescriptorLayer,
    raw: crate::bindings::VADRMPRIMESurfaceDescriptorLayer,
) -> bool {
    &&& layer.drm_format == raw.drm_format
    &&& layer.num_planes == raw.num_planes
    &&& forall|j: int| 0 <= j < 4 ==> #[trigger] layer.object_index[j] == raw.object_index[j] as u8
    &&& layer.offset == raw.offset
    &&& layer.pitch == raw.pitch
}

/// Whether `exported` is the snapshot of the driver's description `desc`:
/// the same format and size, the objects and layers that `desc` counts, at
/// most four of each, in their order.
pub open spec fn is_export_of(
    exported: DrmPrimeSurfaceDescriptor,
    desc: VADRMPRIMESurfaceDescriptor,
) -> bool {
    &&& exported.fourcc == desc.fourcc
    &&& exported.width == desc.width
    &&& exported.height == desc.height
    &&& exported.objects@.len() == exported_len(desc.num_objects)
    &&& forall|i: int|
        0 <= i < exported.objects@.len() ==> #[trigger] exported.objects@[i]
            == (DrmPrimeSurfaceDescriptorObject {
            fd: desc.objects[i].fd,
            size: desc.objects[i].size,
            drm_format_modifier: desc.objects[i].drm_format_modifier,
        })
    &&& exported.layers@.len() == exported_len(desc.num_layers)
    &&& forall|i: int|
        0 <= i < exported.layers@.len() ==> exported_layer(
            #[trigger] exported.layers@[i],
            desc.layers[i],
        )
}

/// What the driver is asked for when a surface is exported.
#[derive(Clone, Copy, Debug, PartialEq, Eq, Structural)]
pub struct ExportRequest {
    /// The surface to export.
    pub surface: VASurfaceID,
    /// The memory type of the handles asked for.
    pub mem_type: u32,
    /// The export flags.
    pub flags: u32,
}

/// An owned surface that is tied to a particular display.
pub struct Surface<D: SurfaceMemoryDescriptor> {
    display: Rc<Display>,
    id: VASurfaceID,
    descriptor: D,
    width: u32,
    height: u32,
}

/// What a [`Surface`] holds.
pub struct SurfaceView<D> {
    /// Handle of the display that the surface belongs to.
    pub display: crate::bindings::VADisplay,
    /// Identifier of the surface.
    pub id: VASurfaceID,
    /// The memory descriptor that the surface was made from.
    pub descriptor: D,
    pub width: u32,
    pub height: u32,
}

impl<D: SurfaceMemoryDescriptor> View for Surface<D> {
    type V = SurfaceView<D>;

    closed spec fn view(&self) -> SurfaceView<D> {
        SurfaceView {
            display: self.display@,
            id: self.id,
            descriptor: self.descriptor,
            width: self.width,
            height: self.height,
        }
    }
}

/// The identifiers of `surfaces`, in their order.
pub open spec fn surface_ids<D: SurfaceMemoryDescriptor>(surfaces: Seq<Surface<D>>) -> Seq<
    VASurfaceID,
> {
    Seq::new(surfaces.len(), |i: int| surfaces[i]@.id)
}

/// The attribute that a usage hint, if any, contributes to a surface.
pub open spec fn usage_hint_attrs(usage_hint: Option<UsageHint>) -> Seq<VASurfaceAttrib> {
    match usage_hint {
        Some(hint) => seq![
            settable_attrib(VA_SURFACE_ATTRIB_USAGE_HINT, VAGenericValue::integer(hint@ as i32)),
        ],
        None => Seq::empty(),
    }
}

/// The attribute that an explicit pixel format, if any, contributes to a
/// surface.
pub open spec fn pixel_format_attrs(va_fourcc: Option<u32>) -> Seq<VASurfaceAttrib> {
    match va_fourcc {
        Some(fourcc) => seq![
            settable_attrib(VA_SURFACE_ATTRIB_PIXEL_FORMAT, VAGenericValue::integer(fourcc as i32)),
        ],
        None => Seq::empty(),
    }
}

/// What the driver is asked for to create the next surface of a batch.
#[derive(Clone, Debug)]
pub struct CreateSurfaces {
    /// The render target format of the surface.
    pub format: u32,
    pub width: u32,
    pub height: u32,
    /// How many surfaces to create with this call: always one.
    pub num_surfaces: u32,
    /// The attributes to create the surface with.
    pub attrs: Vec<VASurfaceAttrib>,
}

/// A batch of surfaces while they are being created: one surface is asked
/// for per descriptor, in order, all of the same format and size.
pub struct SurfaceBatch<D: SurfaceMemoryDescriptor> {
    display: Rc<Display>,
    rt_format: u32,
    va_fourcc: Option<u32>,
    width: u32,
    height: u32,
    usage_hint: Option<UsageHint>,
    /// The descriptors that have no surface yet, the next one first.
    pending: Vec<D>,
    /// The surfaces that have been made, in the order of their descriptors.
    made: Vec<Surface<D>>,
}

/// What a [`SurfaceBatch`] holds.
pub struct SurfaceBatchView<D> {
    /// Handle of the display that the surfaces are made on.
    pub display: crate::bindings::VADisplay,
    /// The render target format of every surface.
    pub rt_format: u32,
    /// The explicit pixel format of every surface, if any.
    pub va_fourcc: Option<u32>,
    pub width: u32,
    pub height: u32,
    /// The usage hint of every surface, if any.
    pub usage_hint: Option<UsageHint>,
    /// The descriptors that have no surface yet, the next one first.
    pub pending: Seq<D>,
    /// The surfaces that have been made, in the order of their descriptors.
    pub made: Seq<SurfaceView<D>>,
}

impl<D: SurfaceMemoryDescriptor> View for SurfaceBatch<D> {
    type V = SurfaceBatchView<D>;

    closed spec fn view(&self) -> SurfaceBatchView<D> {
        SurfaceBatchView {
            display: self.display@,
            rt_format: self.rt_format,
            va_fourcc: self.va_fourcc,
            width: self.width,
            height: self.height,
            usage_hint: self.usage_hint,
            pending: self.pending@,
            made: surface_views(self.made@),
        }
    }
}

/// What `surfaces` hold, in their order.
pub open spec fn surface_views<D: SurfaceMemoryDescriptor>(surfaces: Seq<Surface<D>>) -> Seq<
    SurfaceView<D>,
> {
    Seq::new(surfaces.len(), |i: int| surfaces[i]@)
}

/// Where the creation of a batch of surfaces stands.
pub enum SurfaceBatchStep<D: SurfaceMemoryDescriptor> {
    /// A surface is to be created for the next descriptor of the batch.
    Pending(SurfaceBatch<D>),
    /// Every descriptor has its surface.
    Done(Vec<Surface<D>>),
    /// The driver failed to create a surface, and so the batch has failed as
    /// a whole. The descriptors that had no surface yet have been let go;
    /// `made` holds the surfaces that were made before, which are to be
    /// destroyed.
    Failed { error: VaError, made: Vec<Surface<D>> },
}

impl<D: SurfaceMemoryDescriptor> SurfaceBatchStep<D> {
    /// Whether the batch goes on from here as `batch`.
    pub open spec fn continues(&self, batch: SurfaceBatchView<D>) -> bool {
        self matches SurfaceBatchStep::Pending(b) && b@ == batch
    }

    /// Whether the batch is done with the surfaces `made`.
    pub open spec fn done(&self, made: Seq<SurfaceView<D>>) -> bool {
        self matches SurfaceBatchStep::Done(surfaces) && surface_views(surfaces@) == made
    }

    /// Whether the batch has failed with `status`, after `made` had been
    /// made.
    pub open spec fn failed(&self, status: VAStatus, made: Seq<SurfaceView<D>>) -> bool {
        self matches SurfaceBatchStep::Failed { error, made: surfaces } && error.code() == status
            && surface_views(surfaces@) == made
    }
}

/// Where a batch stands that holds `batch`: it goes on if a descriptor is
/// left, and is done otherwise.
pub open spec fn batch_stands<D: SurfaceMemoryDescriptor>(
    step: SurfaceBatchStep<D>,
    batch: SurfaceBatchView<D>,
) -> bool {
    if batch.pending.len() == 0 {
        step.done(batch.made)
    } else {
        step.continues(batch)
    }
}

/// Builds the descriptor of `descriptor`.
fn built_by<D: SurfaceMemoryDescriptor>(descriptor: &mut D) -> (built: D::DescriptorAttribute)
    ensures
        exists|d: &mut D|
            #![trigger call_ensures(D::build_descriptor, (d,), built)]
            *d == *old(descriptor) && *final(d) == *final(descriptor) && call_ensures(
                D::build_descriptor,
                (d,),
                built,
            ),
{
    descriptor.build_descriptor()
}

impl<D: SurfaceMemoryDescriptor> SurfaceBatch<D> {
    fn stand(self) -> (step: SurfaceBatchStep<D>)
        ensures
            batch_stands(step, self@),
    {
        if self.pending.len() == 0 {
            SurfaceBatchStep::Done(self.made)
        } else {
            SurfaceBatchStep::Pending(self)
        }
    }

    /// Builds the descriptor of the next surface, if a descriptor is left:
    /// it is what [`SurfaceMemoryDescriptor::build_descriptor`] of the next
    /// memory descriptor builds. It has to stay in one place until the
    /// surface has been created.
    /// Nothing of the batch changes but what the next memory descriptor
    /// changes of itself.
    pub fn build_descriptor(&mut self) -> (descriptor: Option<D::DescriptorAttribute>)
        ensures
            descriptor is Some <==> old(self)@.pending.len() > 0,
            descriptor is Some ==> exists|d: &mut D, built: D::DescriptorAttribute|
                #![trigger call_ensures(D::build_descriptor, (d,), built)]
                descriptor == Some(built) && *d == old(self)@.pending[0] && *final(d)
                    == final(self)@.pending[0] && call_ensures(D::build_descriptor, (d,), built),
            descriptor is None ==> final(self)@ == old(self)@,
            final(self)@.pending.len() == old(self)@.pending.len(),
            forall|i: int|
                1 <= i < old(self)@.pending.len() ==> final(self)@.pending[i] == old(
                    self,
                )@.pending[i],
            final(self)@ == (SurfaceBatchView { pending: final(self)@.pending, ..old(self)@ }),
    {
        if self.pending.len() == 0 {
            None
        } else {
            let ghost before = self.made@;
            let descriptor = built_by(&mut self.pending[0]);
            assert(self.made@ == before);
            Some(descriptor)
        }
    }

    /// What to ask the driver for to create the next surface, if a
    /// descriptor is left: one surface of the format and size of the batch,
    /// with the usage hint, if any, then the explicit pixel format, if any,
    /// then what the next memory descriptor adds for a descriptor that
    /// stays at the address `desc`: the list is what
    /// [`SurfaceMemoryDescriptor::add_attrs`] of that descriptor makes of the
    /// list of the first two. Nothing of the batch changes but what the next
    /// memory descriptor changes of itself.
    pub fn request(&mut self, desc: usize) -> (request: Option<CreateSurfaces>)
        ensures
            request is Some <==> old(self)@.pending.len() > 0,
            request matches Some(r) ==> {
                &&& r.format == old(self)@.rt_format
                &&& r.width == old(self)@.width
                &&& r.height == old(self)@.height
                &&& r.num_surfaces == 1
                &&& (usage_hint_attrs(old(self)@.usage_hint) + pixel_format_attrs(
                    old(self)@.va_fourcc,
                )).is_prefix_of(r.attrs@)
                &&& exists|d: &mut D, a: &mut Vec<VASurfaceAttrib>|
                    #![trigger call_ensures(D::add_attrs, (d, a, desc), ())]
                    *d == old(self)@.pending[0] && *final(d) == final(self)@.pending[0] && a@
                        == usage_hint_attrs(old(self)@.usage_hint) + pixel_format_attrs(
                        old(self)@.va_fourcc,
                    ) && final(a)@ == r.attrs@ && call_ensures(D::add_attrs, (d, a, desc), ())
            },
            request is None ==> final(self)@ == old(self)@,
            final(self)@.pending.len() == old(self)@.pending.len(),
            forall|i: int|
                1 <= i < old(self)@.pending.len() ==> final(self)@.pending[i] == old(
                    self,
                )@.pending[i],
            final(self)@ == (SurfaceBatchView { pending: final(self)@.pending, ..old(self)@ }),
    {
        if self.pending.len() == 0 {
            None
        } else {
            let ghost before = self.made@;
            let attrs = Surface::<D>::creation_attrs(
                self.va_fourcc,
                self.usage_hint,
                &mut self.pending[0],
                desc,
            );
            assert(self.made@ == before);
            Some(
                CreateSurfaces {
                    format: self.rt_format,
                    width: self.width,
                    height: self.height,
                    num_surfaces: 1,
                    attrs,
                },
            )
        }
    }

    /// Takes the batch one surface further, by what the driver returned
    /// when asked to create the next surface: its status and the identifier
    /// of the new surface.
    ///
    /// On success the next descriptor goes into the surface made for it, and
    /// the batch is done when that was the last one. On failure the batch
    /// fails as a whole with the status.
    pub fn created(self, status: VAStatus, surface_id: VASurfaceID) -> (step: SurfaceBatchStep<D>)
        ensures
            if self@.pending.len() == 0 {
                step.done(self@.made)
            } else if status != 0 {
                step.failed(status, self@.made)
            } else {
                batch_stands(
                    step,
                    SurfaceBatchView {
                        pending: self@.pending.skip(1),
                        made: self@.made.push(
                            SurfaceView {
                                display: self@.display,
                                id: surface_id,
                                descriptor: self@.pending[0],
                                width: self@.width,
                                height: self@.height,
                            },
                        ),
                        ..self@
                    },
                )
            },
    {
        let mut batch = self;
        if batch.pending.len() == 0 {
            return SurfaceBatchStep::Done(batch.made);
        }
        match va_check(status) {
            Err(error) => SurfaceBatchStep::Failed { error, made: batch.made },
            Ok(()) => {
                let descriptor = batch.pending.remove(0);
                let surface = Surface {
                    display: Rc::clone(&batch.display),
                    id: surface_id,
                    descriptor,
                    width: batch.width,
                    height: batch.height,
                };
                let ghost made = batch.made@;
                batch.made.push(surface);
                proof {
                    assert(batch.pending@ =~= self@.pending.skip(1));
                    assert(surface_views(batch.made@) =~= surface_views(made).push(surface@));
                }
                batch.stand()
            },
        }
    }
}

impl<D: SurfaceMemoryDescriptor> Surface<D> {
    /// The attributes to create a surface with: the usage hint, if any, then
    /// the explicit pixel format, if any, then what `descriptor` adds for a
    /// descriptor attribute that stays at the address `desc`. The list is
    /// what [`SurfaceMemoryDescriptor::add_attrs`] of `descriptor` makes of
    /// the list of the first two, and `descriptor` is left as that call
    /// leaves it.
    pub fn creation_attrs(
        va_fourcc: Option<u32>,
        usage_hint: Option<UsageHint>,
        descriptor: &mut D,
        desc: usize,
    ) -> (attrs: Vec<VASurfaceAttrib>)
        ensures
            (usage_hint_attrs(usage_hint) + pixel_format_attrs(va_fourcc)).is_prefix_of(attrs@),
            exists|d: &mut D, a: &mut Vec<VASurfaceAttrib>|
                #![trigger call_ensures(D::add_attrs, (d, a, desc), ())]
                *d == *old(descriptor) && *final(d) == *final(descriptor) && a@
                    == usage_hint_attrs(usage_hint) + pixel_format_attrs(va_fourcc) && final(a)@
                    == attrs@ && call_ensures(D::add_attrs, (d, a, desc), ()),
    {
        let mut attrs = Self::base_attrs(va_fourcc, usage_hint);
        descriptor.add_attrs(&mut attrs, desc);
        attrs
    }

    /// The attributes that every surface of a batch is created with, whatever
    /// its memory: the usage hint, if any, then the explicit pixel format, if
    /// any.
    pub fn base_attrs(va_fourcc: Option<u32>, usage_hint: Option<UsageHint>) -> (attrs: Vec<
        VASurfaceAttrib,
    >)
        ensures
            attrs@ == usage_hint_attrs(usage_hint) + pixel_format_attrs(va_fourcc),
    {
        let mut attrs: Vec<VASurfaceAttrib> = Vec::new();
        if let Some(usage_hint) = usage_hint {
            attrs.push(VASurfaceAttrib::new_usage_hint(usage_hint));
        }
        if let Some(fourcc) = va_fourcc {
            attrs.push(VASurfaceAttrib::new_pixel_format(fourcc));
        }
        assert(attrs@ =~= usage_hint_attrs(usage_hint) + pixel_format_attrs(va_fourcc));
        attrs
    }

    /// Starts the creation of a batch of surfaces on `display`: as many
    /// surfaces as there are `descriptors`, all of the format `rt_format`
    /// and of the given size. The descriptors are given to the surfaces for
    /// good. Without descriptors the batch is done at once.
    pub fn new(
        display: Rc<Display>,
        rt_format: u32,
        va_fourcc: Option<u32>,
        width: u32,
        height: u32,
        usage_hint: Option<UsageHint>,
        descriptors: Vec<D>,
    ) -> (step: SurfaceBatchStep<D>)
        ensures
            batch_stands(
                step,
                SurfaceBatchView {
                    display: display@,
                    rt_format,
                    va_fourcc,
                    width,
                    height,
                    usage_hint,
                    pending: descriptors@,
                    made: Seq::empty(),
                },
            ),
    {
        let batch = SurfaceBatch {
            display,
            rt_format,
            va_fourcc,
            width,
            height,
            usage_hint,
            pending: descriptors,
            made: Vec::new(),
        };
        assert(batch@.made =~= Seq::<SurfaceView<D>>::empty());
        batch.stand()
    }

    /// Returns the display that this surface belongs to.
    pub fn display(&self) -> (display: &Rc<Display>)
        ensures
            display@ == self@.display,
    {
        &self.display
    }

    /// Makes a `Result` of the status with which the driver returned from
    /// waiting for all pending operations on this surface. Once it has
    /// returned with success, the surface can be used for another picture.
    pub fn sync(&self, status: VAStatus) -> (r: Result<(), VaError>)
        ensures
            r is Ok <==> status == 0,
            r matches Err(e) ==> e.code() == status,
    {
        va_check(status)
    }

    /// Returns the identifiers of `surfaces`, in their order.
    pub fn as_id_vec(surfaces: &[Self]) -> (ids: Vec<VASurfaceID>)
        ensures
            ids@ == surface_ids(surfaces@),
    {
        let mut ids: Vec<VASurfaceID> = Vec::new();
        let mut i: usize = 0;
        while i < surfaces.len()
            invariant
                i <= surfaces.len(),
                ids.len() == i,
                forall|j: int| 0 <= j < i ==> ids[j] == (#[trigger] surfaces[j])@.id,
            decreases surfaces.len() - i,
        {
            ids.push(surfaces[i].id);
            i = i + 1;
        }
        assert(ids@ =~= surface_ids(surfaces@));
        ids
    }

    /// Makes a `Result` of what the driver returned when asked for the
    /// pending operations on this surface: the snapshot `surface_status` if
    /// the call succeeded.
    pub fn query_status(&self, status: VAStatus, surface_status: VASurfaceStatus) -> (r: Result<
        VASurfaceStatus,
        VaError,
    >)
        ensures
            r is Ok <==> status == 0,
            r matches Ok(s) ==> s == surface_status,
            r matches Err(e) ==> e.code() == status,
    {
        match va_check(status) {
            Ok(()) => Ok(surface_status),
            Err(e) => Err(e),
        }
    }

    /// Makes the list of decode errors of this surface from what the driver
    /// returned: `status` is the status of the call and `raw` the records
    /// that it pointed at (none for a null pointer).
    pub fn query_error(&self, status: VAStatus, raw: &Vec<VASurfaceDecodeMBErrors>) -> (r: Result<
        Vec<SurfaceDecodeMBError>,
        VaError,
    >)
        ensures
            r is Ok <==> status == 0,
            r matches Ok(errors) ==> errors@ == decode_errors(raw@),
            r matches Err(e) ==> e.code() == status,
    {
        match va_check(status) {
            Err(e) => Err(e),
            Ok(()) => {
                let mut errors: Vec<SurfaceDecodeMBError> = Vec::new();
                let mut i: usize = 0;
                proof {
                    assert(raw@.skip(0) =~= raw@);
                    assert(errors@ + decode_errors(raw@) =~= decode_errors(raw@));
                }
                while i < raw.len() && raw[i].status != -1
                    invariant
                        i <= raw.len(),
                        errors@ + decode_errors(raw@.skip(i as int)) == decode_errors(raw@),
                    decreases raw.len() - i,
                {
                    let error = raw[i];
                    proof {
                        assert(raw@.skip(i as int)[0] == raw@[i as int]);
                        assert(raw@.skip(i as int).skip(1) =~= raw@.skip(i + 1));
                    }
                    let ghost before = errors@;
                    if error.decode_error_type == VA_DECODE_SLICE_MISSING {
                        errors.push(
                            SurfaceDecodeMBError {
                                start_mb: error.start_mb,
                                end_mb: error.end_mb,
                                decode_error_type: DecodeErrorType::SliceMissing,
                                num_mb: error.num_mb,
                            },
                        );
                    } else if error.decode_error_type == VA_DECODE_MB_ERROR {
                        errors.push(
                            SurfaceDecodeMBError {
                                start_mb: error.start_mb,
                                end_mb: error.end_mb,
                                decode_error_type: DecodeErrorType::MBError,
                                num_mb: error.num_mb,
                            },
                        );
                    } else if error.decode_error_type == VA_DECODE_RESET {
                        errors.push(
                            SurfaceDecodeMBError {
                                start_mb: error.start_mb,
                                end_mb: error.end_mb,
                                decode_error_type: DecodeErrorType::Reset,
                                num_mb: error.num_mb,
                            },
                        );
                    }
                    proof {
                        let rest = decode_errors(raw@.skip(i + 1));
                        match decode_error_kind(error.decode_error_type) {
                            Some(kind) => {
                                let one = seq![
                                    SurfaceDecodeMBError {
                                        start_mb: error.start_mb,
                                        end_mb: error.end_mb,
                                        decode_error_type: kind,
                                        num_mb: error.num_mb,
                                    },
                                ];
                                assert(errors@ =~= before + one);
                                assert(errors@ + rest =~= before + (one + rest));
                            },
                            None => {},
                        }
                    }
                    i = i + 1;
                }
                proof {
                    if i < raw.len() {
                        assert(raw@.skip(i as int)[0] == raw@[i as int]);
                    }
                    assert(errors@ + Seq::<SurfaceDecodeMBError>::empty() =~= errors@);
                }
                Ok(errors)
            },
        }
    }

    /// Returns the identifier of this surface.
    pub fn id(&self) -> (id: VASurfaceID)
        ensures
            id == self@.id,
    {
        self.id
    }

    /// Returns the dimensions of this surface.
    pub fn size(&self) -> (size: (u32, u32))
        ensures
            size == (self@.width, self@.height),
    {
        (self.width, self.height)
    }

    /// What to ask the driver for to export this surface: handles of the
    /// PRIME kind, read-only, with all planes in one composed layer.
    pub fn export_request(&self) -> (request: ExportRequest)
        ensures
            request.surface == self@.id,
            request.mem_type == VA_SURFACE_ATTRIB_MEM_TYPE_DRM_PRIME_2,
            request.flags == crate::constants::VA_EXPORT_SURFACE_READ_ONLY
                | crate::constants::VA_EXPORT_SURFACE_COMPOSED_LAYERS,
    {
        ExportRequest {
            surface: self.id,
            mem_type: VA_SURFACE_ATTRIB_MEM_TYPE_DRM_PRIME_2,
            flags: crate::constants::VA_EXPORT_SURFACE_READ_ONLY
                | crate::constants::VA_EXPORT_SURFACE_COMPOSED_LAYERS,
        }
    }

    /// Makes the snapshot of this surface's memory from what the driver
    /// returned when asked to export it: it fails with `status` unless that
    /// is success, and otherwise takes from `desc` the objects and layers
    /// that it counts, at most four of each.
    pub fn export_prime(&self, status: VAStatus, desc: &VADRMPRIMESurfaceDescriptor) -> (r: Result<
        DrmPrimeSurfaceDescriptor,
        VaError,
    >)
        ensures
            r is Ok <==> status == 0,
            r matches Ok(exported) ==> is_export_of(exported, *desc),
            r matches Err(e) ==> e.code() == status,
    {
        match va_check(status) {
            Err(e) => Err(e),
            Ok(()) => {
                let num_objects: usize = if desc.num_objects < 4 {
                    desc.num_objects as usize
                } else {
                    4
                };
                let mut objects: Vec<DrmPrimeSurfaceDescriptorObject> = Vec::new();
                let mut i: usize = 0;
                while i < num_objects
                    invariant
                        i <= num_objects <= 4,
                        objects.len() == i,
                        forall|j: int|
                            0 <= j < i ==> #[trigger] objects@[j]
                                == (DrmPrimeSurfaceDescriptorObject {
                                fd: desc.objects[j].fd,
                                size: desc.objects[j].size,
                                drm_format_modifier: desc.objects[j].drm_format_modifier,
                            }),
                    decreases num_objects - i,
                {
                    let o = desc.objects[i];
                    objects.push(
                        DrmPrimeSurfaceDescriptorObject {
                            fd: o.fd,
                            size: o.size,
                            drm_format_modifier: o.drm_format_modifier,
                        },
                    );
                    i = i + 1;
                }
                let num_layers: usize = if desc.num_layers < 4 {
                    desc.num_layers as usize
                } else {
                    4
                };
                let mut layers: Vec<DrmPrimeSurfaceDescriptorLayer> = Vec::new();
                let mut i: usize = 0;
                while i < num_layers
                    invariant
                        i <= num_layers <= 4,
                        layers.len() == i,
                        forall|j: int|
                            0 <= j < i ==> exported_layer(#[trigger] layers@[j], desc.layers[j]),
                    decreases num_layers - i,
                {
                    let l = desc.layers[i];
                    let layer = DrmPrimeSurfaceDescriptorLayer {
                        drm_format: l.drm_format,
                        num_planes: l.num_planes,
                        object_index: [
                            #[verifier::truncate] (l.object_index[0] as u8),
                            #[verifier::truncate] (l.object_index[1] as u8),
                            #[verifier::truncate] (l.object_index[2] as u8),
                            #[verifier::truncate] (l.object_index[3] as u8),
                        ],
                        offset: l.offset,
                        pitch: l.pitch,
                    };
                    assert(exported_layer(layer, desc.layers[i as int]));
                    layers.push(layer);
                    i = i + 1;
                }
                Ok(
                    DrmPrimeSurfaceDescriptor {
                        fourcc: desc.fourcc,
                        width: desc.width,
                        height: desc.height,
                        objects,
                        layers,
                    },
                )
            },
        }
    }

    /// Returns the memory descriptor that this surface was made from.
    pub fn as_ref(&self) -> (descriptor: &D)
        ensures
            *descriptor == self@.descriptor,
    {
        &self.descriptor
    }

    /// Returns the memory descriptor that this surface was made from, for
    /// changing it. Nothing else of the surface changes.
    pub fn as_mut(&mut self) -> (descriptor: &mut D)
        ensures
            *descriptor == old(self)@.descriptor,
            final(self)@ == (SurfaceView { descriptor: *final(descriptor), ..old(self)@ }),
    {
        &mut self.descriptor
    }
}

/// Something that holds a surface: a surface itself, or a value that
/// contains one.
pub trait SurfaceHolder<D: SurfaceMemoryDescriptor> {
    /// Returns the surface that is held.
    fn surface(&self) -> &Surface<D>;
}

impl<D: SurfaceMemoryDescriptor> SurfaceHolder<D> for Surface<D> {
    fn surface(&self) -> (surface: &Surface<D>)
        ensures
            surface == self,
    {
        self
    }
}

impl<D: SurfaceMemoryDescriptor> SurfaceHolder<D> for Box<Surface<D>> {
    fn surface(&self) -> (surface: &Surface<D>)
        ensures
            *surface == **self,
    {
        &**self
    }
}

impl<D: SurfaceMemoryDescriptor> SurfaceHolder<D> for Rc<Surface<D>> {
    fn surface(&self) -> (surface: &Surface<D>)
        ensures
            *surface == **self,
    {
        &**self
    }
}

/// Whether `surface` is a surface that `holder` hands out.
pub open spec fn holds<D: SurfaceMemoryDescriptor, T: SurfaceHolder<D>>(
    holder: T,
    surface: SurfaceView<D>,
) -> bool {
    exists|held: &Surface<D>| call_ensures(T::surface, (&holder,), held) && held@ == surface
}

/// Whether `id` is the identifier of a surface that `holder` hands out.
pub open spec fn holds_id<D: SurfaceMemoryDescriptor, T: SurfaceHolder<D>>(
    holder: T,
    id: VASurfaceID,
) -> bool {
    exists|surface: SurfaceView<D>| holds(holder, surface) && surface.id == id
}

/// Whether `ids` are identifiers of surfaces that `holders` hand out, one
/// for each holder, in their order.
pub open spec fn held_by<D: SurfaceMemoryDescriptor, T: SurfaceHolder<D>>(
    holders: Seq<T>,
    ids: Seq<VASurfaceID>,
) -> bool {
    &&& ids.len() == holders.len()
    &&& forall|i: int| 0 <= i < holders.len() ==> #[trigger] holds_id::<D, T>(holders[i], ids[i])
}

/// Returns the identifiers of the surfaces that `holders` hand out, in
/// their order.
pub fn held_ids<D: SurfaceMemoryDescriptor, T: SurfaceHolder<D>>(holders: &[T]) -> (ids: Vec<
    VASurfaceID,
>)
    ensures
        held_by::<D, T>(holders@, ids@),
{
    let mut ids: Vec<VASurfaceID> = Vec::new();
    let mut i: usize = 0;
    while i < holders.len()
        invariant
            i <= holders.len(),
            ids.len() == i,
            forall|j: int| 0 <= j < i ==> #[trigger] holds_id::<D, T>(holders[j], ids[j]),
        decreases holders.len() - i,
    {
        let surface = holders[i].surface();
        let id = surface.id();
        assert(holds_id::<D, T>(holders[i as int], id)) by {
            assert(holds(holders[i as int], surface@));
        }
        ids.push(id);
        i = i + 1;
    }
    ids
}

/// A surface that is held directly hands out no other surface than itself.
pub proof fn lemma_surface_holds_itself<D: SurfaceMemoryDescriptor>(
    surface: Surface<D>,
    held: SurfaceView<D>,
)
    ensures
        holds(surface, held) ==> held == surface@,
{
}

/// The identifiers of surfaces that are held directly are those of the
/// surfaces themselves.
pub proof fn lemma_held_directly<D: SurfaceMemoryDescriptor>(
    surfaces: Seq<Surface<D>>,
    ids: Seq<VASurfaceID>,
)
    requires
        held_by(surfaces, ids),
    ensures
        ids == surface_ids(surfaces),
{
    assert forall|i: int| 0 <= i < surfaces.len() implies ids[i] == surfaces[i]@.id by {
        assert(holds_id::<D, Surface<D>>(surfaces[i], ids[i]));
        let surface = choose|surface: SurfaceView<D>|
            holds(surfaces[i], surface) && surface.id == ids[i];
        lemma_surface_holds_itself(surfaces[i], surface);
    }
    assert(ids =~= surface_ids(surfaces));
}

} // verus!
