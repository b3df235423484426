//! Typestate-governed GPU buffers.
//!
//! A [`Buffer`] is parameterized by its element type, a memory-locality
//! marker ([`HostVisible`] or [`DeviceLocal`]) and the backend that owns
//! the native allocation. Mapping is offered only on the host-visible
//! side of the type surface; the one-way promotion
//! [`Buffer::copy_to_device_local`] produces a device-local buffer with
//! identical contents and usage. Backends provide the native operations
//! by implementing [`HostVisibleBuffer`] and [`BufferApi`] for their own
//! buffer representation.

use vstd::prelude::*;

use crate::errors::{BufferError, MappingError};
use core::marker::PhantomData;

verus! {

/// Marker: buffer memory the CPU can map and write directly.
///
/// Used only as a phantom locality tag; values are never constructed.
pub enum HostVisible {
    Marker,
}

/// Marker: buffer memory optimized for GPU access only, never mapped.
///
/// Used only as a phantom locality tag; values are never constructed.
pub enum DeviceLocal {
    Marker,
}

/// One buffer-usage bit.
#[derive(Clone, Copy, Debug, PartialEq, Eq, Structural)]
pub enum BufferUsage {
    Vertex,
    Index,
    Uniform,
}

/// A set of [`BufferUsage`] bits; several may be set at once.
#[derive(Clone, Copy, Debug, PartialEq, Eq, Structural)]
pub struct BufferUsageFlags {
    pub vertex: bool,
    pub index: bool,
    pub uniform: bool,
}

impl BufferUsageFlags {
    /// Whether `usage` is in the set, as a spec-level predicate.
    pub open spec fn spec_contains(self, usage: BufferUsage) -> bool {
        match usage {
            BufferUsage::Vertex => self.vertex,
            BufferUsage::Index => self.index,
            BufferUsage::Uniform => self.uniform,
        }
    }

    /// The set with `usage` added, as a spec-level value.
    pub open spec fn spec_with(self, usage: BufferUsage) -> BufferUsageFlags {
        match usage {
            BufferUsage::Vertex => BufferUsageFlags { vertex: true, ..self },
            BufferUsage::Index => BufferUsageFlags { index: true, ..self },
            BufferUsage::Uniform => BufferUsageFlags { uniform: true, ..self },
        }
    }

    /// The empty usage set.
    pub fn empty() -> (r: BufferUsageFlags)
        ensures
            forall|u: BufferUsage| !r.spec_contains(u),
    {
        BufferUsageFlags { vertex: false, index: false, uniform: false }
    }

    /// The set holding exactly `usage`.
    pub fn just(usage: BufferUsage) -> (r: BufferUsageFlags)
        ensures
            forall|u: BufferUsage| r.spec_contains(u) <==> u == usage,
    {
        Self::empty().with(usage)
    }

    /// Adds `usage` to the set.
    pub fn with(self, usage: BufferUsage) -> (r: BufferUsageFlags)
        ensures
            r == self.spec_with(usage),
            forall|u: BufferUsage| r.spec_contains(u) <==> (self.spec_contains(u) || u == usage),
    {
        match usage {
            BufferUsage::Vertex => BufferUsageFlags { vertex: true, ..self },
            BufferUsage::Index => BufferUsageFlags { index: true, ..self },
            BufferUsage::Uniform => BufferUsageFlags { uniform: true, ..self },
        }
    }

    /// Whether `usage` is in the set.
    pub fn contains(self, usage: BufferUsage) -> (r: bool)
        ensures
            r == self.spec_contains(usage),
    {
        match usage {
            BufferUsage::Vertex => self.vertex,
            BufferUsage::Index => self.index,
            BufferUsage::Uniform => self.uniform,
        }
    }
}

/// The family of native types one backend uses for buffers.
pub trait BackendApi: Sized {
    /// The backend's device/instance handle, passed to creation calls.
    type Context;

    /// The backend's native buffer representation. One native type
    /// backs both memory classes; the locality marker on [`Buffer`]
    /// restores the distinction at the interface boundary.
    type Buffer;
}

/// Native buffer operations legal only on host-visible memory,
/// implemented by a backend for its own buffer type.
pub trait HostVisibleBuffer<T: Copy, Backend: BackendApi>: Sized {
    /// The element contents currently stored in the native allocation.
    open spec fn contents(&self) -> Seq<T> {
        vstd::pervasive::arbitrary()
    }

    /// The usage bits the native buffer was created with.
    open spec fn usage(&self) -> BufferUsageFlags {
        vstd::pervasive::arbitrary()
    }

    /// Creates a host-visible native buffer holding exactly `data`.
    /// Fails with an allocation error when the backend cannot satisfy
    /// the size/usage combination; success is the backend's decision.
    fn from_slice(context: &Backend::Context, usage: BufferUsageFlags, data: &[T]) -> (r: Result<
        Self,
        BufferError,
    >)
        ensures
            r matches Ok(b) ==> b.contents() == data@ && b.usage() == usage,
    ;

    /// Runs `f` on the mapped contents; the buffer afterwards holds the
    /// elements `f` returned. The mapping is released unconditionally
    /// before this returns. Fails with a mapping error when no
    /// CPU-visible mapping can be established, leaving the contents
    /// unchanged.
    fn map_memory<R, F: FnOnce(Vec<T>) -> (Vec<T>, R)>(&mut self, f: F) -> (r: Result<
        R,
        MappingError,
    >)
        requires
            forall|vin: Vec<T>| vin@ == old(self).contents() ==> #[trigger] call_requires(
                f,
                (vin,),
            ),
        ensures
            final(self).usage() == old(self).usage(),
            r is Err ==> final(self).contents() == old(self).contents(),
            r matches Ok(rv) ==> exists|vin: Vec<T>, vout: Vec<T>|
                vin@ == old(self).contents() && #[trigger] call_ensures(f, (vin,), (vout, rv))
                    && final(self).contents() == vout@,
    ;
}

/// The one-way promotion from host-visible to device-local memory,
/// implemented by a backend for its own buffer type.
pub trait BufferApi<T: Copy, Backend: BackendApi<Buffer = Self>>: HostVisibleBuffer<T, Backend> {
    /// Allocates a device-local buffer of identical size and usage and
    /// issues a backend copy from this buffer, which stays valid and
    /// unchanged. No reverse operation exists: device-local data cannot
    /// be read back through this path.
    fn copy_to_device_local(&self) -> (r: Result<
        ImplBuffer<T, DeviceLocal, Backend>,
        BufferError,
    >)
        ensures
            r matches Ok(b) ==> b.buffer.contents() == self.contents() && b.buffer.usage()
                == self.usage() && b.usage == self.usage(),
    ;
}

/// A native buffer handle paired with the usage bits it was created
/// with. The two phantom parameters record the element type and the
/// memory-locality marker.
pub struct ImplBuffer<T, Property, Backend: BackendApi> {
    pub buffer: Backend::Buffer,
    pub usage: BufferUsageFlags,
    pub _m: PhantomData<T>,
    pub _property: PhantomData<Property>,
}

/// A GPU buffer of `T` elements whose memory class is `Property`.
pub struct Buffer<T, Property, Backend: BackendApi> {
    pub impl_buffer: ImplBuffer<T, Property, Backend>,
}

impl<T: Copy, Property, Backend: BackendApi> Buffer<T, Property, Backend> where
    Backend::Buffer: HostVisibleBuffer<T, Backend>,
 {
    /// The usage bits recorded on this buffer.
    pub closed spec fn usage(&self) -> BufferUsageFlags {
        self.impl_buffer.usage
    }

    /// The recorded usage bits agree with the native buffer's.
    pub closed spec fn wf(&self) -> bool {
        self.impl_buffer.usage == self.impl_buffer.buffer.usage()
    }
}

impl<T: Copy, Property, Backend: BackendApi> View for Buffer<T, Property, Backend> where
    Backend::Buffer: HostVisibleBuffer<T, Backend>,
 {
    type V = Seq<T>;

    /// A buffer is viewed as the sequence of elements it holds.
    closed spec fn view(&self) -> Seq<T> {
        self.impl_buffer.buffer.contents()
    }
}

impl<T: Copy, Backend: BackendApi> Buffer<T, HostVisible, Backend> where
    Backend::Buffer: HostVisibleBuffer<T, Backend>,
 {
    /// Creates a host-visible buffer sized to `data`, holding a copy of
    /// it. Fails with an allocation error when the backend cannot
    /// satisfy the size/usage combination.
    pub fn from_slice(
        context: &Backend::Context,
        usage: BufferUsageFlags,
        data: &[T],
    ) -> (r: Result<Self, BufferError>)
        ensures
            r matches Ok(b) ==> b@ == data@ && b.usage() == usage && b.wf(),
    {
        match <Backend::Buffer as HostVisibleBuffer<T, Backend>>::from_slice(
            context,
            usage,
            data,
        ) {
            Ok(buffer) => Ok(
                Buffer {
                    impl_buffer: ImplBuffer {
                        buffer,
                        usage,
                        _m: PhantomData,
                        _property: PhantomData,
                    },
                },
            ),
            Err(e) => Err(e),
        }
    }

    /// Temporarily maps the buffer and runs `f` on its elements; the
    /// buffer afterwards holds the elements `f` returned, and `f`'s
    /// other result is handed back. The mapping is released
    /// unconditionally. Fails with a mapping error when the backend
    /// cannot establish a CPU-visible mapping, leaving the contents
    /// unchanged.
    pub fn map_memory<R, F: FnOnce(Vec<T>) -> (Vec<T>, R)>(&mut self, f: F) -> (r: Result<
        R,
        MappingError,
    >)
        requires
            forall|vin: Vec<T>| vin@ == old(self)@ ==> #[trigger] call_requires(f, (vin,)),
        ensures
            final(self).usage() == old(self).usage(),
            final(self).wf() == old(self).wf(),
            r is Err ==> final(self)@ == old(self)@,
            r matches Ok(rv) ==> exists|vin: Vec<T>, vout: Vec<T>|
                vin@ == old(self)@ && #[trigger] call_ensures(f, (vin,), (vout, rv))
                    && final(self)@ == vout@,
    {
        self.impl_buffer.buffer.map_memory(f)
    }
}

impl<T: Copy, Backend: BackendApi> Buffer<T, HostVisible, Backend> where
    Backend::Buffer: BufferApi<T, Backend>,
 {
    /// Promotes this buffer to device-local memory: a new buffer of
    /// identical contents and usage, filled by a backend copy. The
    /// source stays valid and unchanged.
    pub fn copy_to_device_local(&self) -> (r: Result<
        Buffer<T, DeviceLocal, Backend>,
        BufferError,
    >)
        requires
            self.wf(),
        ensures
            r matches Ok(b) ==> b@ == self@ && b.usage() == self.usage() && b.wf(),
    {
        match self.impl_buffer.buffer.copy_to_device_local() {
            Ok(impl_buffer) => Ok(Buffer { impl_buffer }),
            Err(e) => Err(e),
        }
    }
}

/// A type-erased reference to a native buffer, tagged with the backend
/// that created it. Draw recording resolves these tags and refuses a
/// handle created by a foreign backend.
#[derive(Clone, Copy, Debug, PartialEq, Eq, Structural)]
pub struct GenericBuffer {
    pub backend_id: u64,
    pub buffer: u64,
}

} // verus!
