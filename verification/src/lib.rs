//! A backend-neutral GPU resource and rendering layer.
//!
//! The crate models three cooperating subsystems: a typestate-governed
//! buffer abstraction separating host-visible from device-local memory
//! (`buffer`), a descriptor-pool allocator with block growth and bulk
//! reset driven through exclusive allocation sessions (`descriptor`),
//! and a per-draw pipeline/render-pass constructor that synthesizes the
//! complete fixed-function state for one indexed draw (`render`).
//! Concrete backends plug in underneath by implementing the capability
//! traits of each module.

pub mod buffer;
pub mod descriptor;
pub mod errors;
pub mod render;
