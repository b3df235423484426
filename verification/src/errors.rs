//! Typed failures surfaced by the library.
//!
//! Recoverable backend failures (allocation, mapping) propagate to the
//! immediate caller as one of these values; the library never retries
//! internally. Caller misuse that the type system cannot rule out
//! (missing shader stages, unsupported vertex widths, handles from a
//! foreign backend) is reported through `RenderError` so that every
//! fault class follows the same recoverable-error discipline.

use vstd::prelude::*;

verus! {

/// The backend refused to create a buffer: the requested size/usage
/// combination exceeds its limits.
#[derive(Clone, Copy, Debug, PartialEq, Eq, Structural)]
pub enum BufferError {
    AllocationFailed,
}

/// Host-visible memory could not be mapped for CPU access.
#[derive(Clone, Copy, Debug, PartialEq, Eq, Structural)]
pub enum MappingError {
    /// The memory backing the buffer is not host-coherent.
    NotHostCoherent,
    /// The buffer is already mapped elsewhere.
    AlreadyMapped,
}

/// The backend refused to create a descriptor pool, render pass or
/// framebuffer: a device limit was exceeded.
#[derive(Clone, Copy, Debug, PartialEq, Eq, Structural)]
pub enum AllocationError {
    /// Device descriptor-pool limits were exceeded.
    PoolLimitExceeded,
    /// The device refused to create a render pass or framebuffer.
    DeviceLimitExceeded,
}

/// A draw call could not be assembled.
#[derive(Clone, Copy, Debug, PartialEq, Eq, Structural)]
pub enum RenderError {
    /// The pipeline state names no vertex shader; this draw path needs one.
    MissingVertexShader,
    /// The pipeline state names no fragment shader; this draw path needs one.
    MissingFragmentShader,
    /// A handle was created by a different backend than the one drawing.
    BackendMismatch,
    /// A vertex attribute declares a component width outside 1..=4.
    UnsupportedVertexWidth,
}

} // verus!
