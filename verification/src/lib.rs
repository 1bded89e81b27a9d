//! Direct3D 12 backend internals: descriptor heaps, pipeline layouts, pass
//! tracking, CPU/GPU rendezvous and the swap chain lifecycle.
//!
//! Everything here works on plain values. Native objects are named by
//! [`RawHandle`]; the caller performs the driver calls that the functions of
//! this crate decide on and reports their outcome back.

use vstd::prelude::*;

pub mod bounded;
pub mod command;
pub mod descriptor;
pub mod error;
pub mod layout;
pub mod resource;
pub mod surface;
pub mod sync;

verus! {

/// Largest number of bind groups a pipeline layout may hold.
pub const MAX_BIND_GROUPS: usize = 8;

/// Number of vertex buffer slots of a render pass.
pub const MAX_VERTEX_BUFFERS: usize = 16;

/// Largest number of colour targets, and so of resolves, of a render pass.
pub const MAX_COLOR_TARGETS: usize = 4;

/// Size in bytes of the buffer of zeros that the device keeps to clear
/// other buffers from.
pub const ZERO_BUFFER_SIZE: u64 = 256 << 10;

/// Marker type that selects this backend.
#[derive(Clone)]
pub struct Api;

/// Stand-in for shader modules and pipelines, which the backend hands
/// through without looking inside.
#[derive(Debug)]
pub struct Resource;

/// Address of a native object, used only to tell objects apart.
#[derive(Clone, Copy, Debug, PartialEq, Eq, Structural)]
pub struct RawHandle(pub u64);

} // verus!
