//! Buffer typestate behaviour against an in-memory backend.

use core::marker::PhantomData;

use tephra::buffer::{
    BackendApi, Buffer, BufferApi, BufferUsage, BufferUsageFlags, DeviceLocal, HostVisible,
    HostVisibleBuffer, ImplBuffer,
};
use tephra::errors::{BufferError, MappingError};

/// A backend that keeps buffer contents in host RAM.
struct RamBackend<T>(PhantomData<T>);

#[derive(Clone)]
struct RamContext {
    fail_alloc: bool,
}

struct RamBuffer<T> {
    data: Vec<T>,
    usage: BufferUsageFlags,
    mappable: bool,
}

impl<T: Copy> BackendApi for RamBackend<T> {
    type Context = RamContext;
    type Buffer = RamBuffer<T>;
}

impl<T: Copy> HostVisibleBuffer<T, RamBackend<T>> for RamBuffer<T> {
    fn from_slice(
        context: &RamContext,
        usage: BufferUsageFlags,
        data: &[T],
    ) -> Result<Self, BufferError> {
        if context.fail_alloc {
            Err(BufferError::AllocationFailed)
        } else {
            Ok(RamBuffer { data: data.to_vec(), usage, mappable: true })
        }
    }

    fn map_memory<R, F: FnOnce(Vec<T>) -> (Vec<T>, R)>(
        &mut self,
        f: F,
    ) -> Result<R, MappingError> {
        if !self.mappable {
            return Err(MappingError::NotHostCoherent);
        }
        let contents = std::mem::take(&mut self.data);
        let (contents, result) = f(contents);
        self.data = contents;
        Ok(result)
    }
}

impl<T: Copy> BufferApi<T, RamBackend<T>> for RamBuffer<T> {
    fn copy_to_device_local(
        &self,
    ) -> Result<ImplBuffer<T, DeviceLocal, RamBackend<T>>, BufferError> {
        Ok(ImplBuffer {
            buffer: RamBuffer { data: self.data.clone(), usage: self.usage, mappable: false },
            usage: self.usage,
            _m: PhantomData,
            _property: PhantomData,
        })
    }
}

fn ram_context() -> RamContext {
    RamContext { fail_alloc: false }
}

fn vertex_usage() -> BufferUsageFlags {
    BufferUsageFlags::just(BufferUsage::Vertex)
}

#[test]
fn usage_flags_start_empty() {
    let flags = BufferUsageFlags::empty();
    assert!(!flags.contains(BufferUsage::Vertex));
    assert!(!flags.contains(BufferUsage::Index));
    assert!(!flags.contains(BufferUsage::Uniform));
}

#[test]
fn usage_flags_hold_exactly_what_was_added() {
    let flags = BufferUsageFlags::just(BufferUsage::Vertex).with(BufferUsage::Uniform);
    assert!(flags.contains(BufferUsage::Vertex));
    assert!(!flags.contains(BufferUsage::Index));
    assert!(flags.contains(BufferUsage::Uniform));
}

#[test]
fn from_slice_buffer_supports_map_memory() {
    let ctx = ram_context();
    let mut buffer: Buffer<f32, HostVisible, RamBackend<f32>> =
        Buffer::from_slice(&ctx, vertex_usage(), &[1.0, 2.0, 3.0]).unwrap();
    let seen = buffer.map_memory(|v| { let snapshot = v.clone(); (v, snapshot) }).unwrap();
    assert_eq!(seen, vec![1.0, 2.0, 3.0]);
}

#[test]
fn mapped_overwrite_is_observed_by_next_map() {
    let ctx = ram_context();
    let mut buffer: Buffer<f32, HostVisible, RamBackend<f32>> =
        Buffer::from_slice(&ctx, vertex_usage(), &[1.0, 2.0, 3.0]).unwrap();
    buffer
        .map_memory(|mut v| {
            v[1] = 9.0;
            (v, ())
        })
        .unwrap();
    let seen = buffer.map_memory(|v| { let snapshot = v.clone(); (v, snapshot) }).unwrap();
    assert_eq!(seen, vec![1.0, 9.0, 3.0]);
}

#[test]
fn copy_to_device_local_preserves_contents_and_source() {
    let ctx = ram_context();
    let mut host: Buffer<f32, HostVisible, RamBackend<f32>> =
        Buffer::from_slice(&ctx, vertex_usage(), &[4.0, 5.0, 6.0]).unwrap();
    let device = host.copy_to_device_local().unwrap();
    // Independent readback: look straight at the device copy's storage.
    assert_eq!(device.impl_buffer.buffer.data, vec![4.0, 5.0, 6.0]);
    assert_eq!(device.impl_buffer.usage, vertex_usage());
    // The source still maps to the original values.
    let seen = host.map_memory(|v| { let snapshot = v.clone(); (v, snapshot) }).unwrap();
    assert_eq!(seen, vec![4.0, 5.0, 6.0]);
}

#[test]
fn from_slice_surfaces_allocation_failure() {
    let ctx = RamContext { fail_alloc: true };
    let r: Result<Buffer<f32, HostVisible, RamBackend<f32>>, BufferError> =
        Buffer::from_slice(&ctx, vertex_usage(), &[1.0]);
    match r {
        Err(e) => assert_eq!(e, BufferError::AllocationFailed),
        Ok(_) => panic!("allocation should have failed"),
    }
}

#[test]
fn map_memory_surfaces_mapping_failure_and_keeps_contents() {
    let ctx = ram_context();
    let mut buffer: Buffer<u32, HostVisible, RamBackend<u32>> =
        Buffer::from_slice(&ctx, vertex_usage(), &[7, 8]).unwrap();
    // Force the backend to refuse the next mapping.
    buffer.impl_buffer.buffer.mappable = false;
    let r = buffer.map_memory(|v| (v, ()));
    assert_eq!(r.unwrap_err(), MappingError::NotHostCoherent);
    buffer.impl_buffer.buffer.mappable = true;
    let seen = buffer.map_memory(|v| { let snapshot = v.clone(); (v, snapshot) }).unwrap();
    assert_eq!(seen, vec![7, 8]);
}
