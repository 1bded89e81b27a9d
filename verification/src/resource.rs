//! Buffers, textures and the other objects that commands refer to.

use vstd::prelude::*;
use crate::descriptor::Handle;
use crate::RawHandle;

verus! {

/// `wgpu_types::TextureFormat`: the portable pixel formats. The library
/// carries a format from where it is configured to where it is used and
/// never looks inside.
#[verifier::external_type_specification]
#[verifier::external_body]
pub struct ExTextureFormat(wgpu_types::TextureFormat);

/// A buffer in GPU memory.
#[derive(Debug)]
pub struct Buffer {
    pub resource: RawHandle,
    /// GPU virtual address of the first byte.
    pub gpu_address: u64,
    /// Size in bytes.
    pub size: u64,
}

/// A range of a buffer, as it is bound.
#[derive(Debug)]
pub struct BufferBinding<'a> {
    pub buffer: &'a Buffer,
    /// Where the range starts in the buffer.
    pub offset: u64,
    /// Size of the range; without one the range goes to the buffer's end.
    pub size: Option<u64>,
}

impl<'a> BufferBinding<'a> {
    /// Size of the bound range in bytes.
    pub open spec fn spec_resolve_size(&self) -> int {
        match self.size {
            Some(size) => size as int,
            None => self.buffer.size - self.offset,
        }
    }

    /// GPU virtual address of the first byte of the bound range.
    pub open spec fn spec_resolve_address(&self) -> int {
        self.buffer.gpu_address + self.offset
    }

    /// Size of the bound range in bytes.
    pub fn resolve_size(&self) -> (size: u64)
        requires
            self.size is None ==> self.offset <= self.buffer.size,
        ensures
            size == self.spec_resolve_size(),
    {
        match self.size {
            Some(size) => size,
            None => self.buffer.size - self.offset,
        }
    }

    /// GPU virtual address of the first byte of the bound range.
    pub fn resolve_address(&self) -> (address: u64)
        requires
            self.buffer.gpu_address + self.offset <= u64::MAX,
        ensures
            address == self.spec_resolve_address(),
    {
        self.buffer.gpu_address + self.offset
    }
}

/// Number of dimensions of a texture.
#[derive(Clone, Copy, Debug, PartialEq, Eq, Structural)]
pub enum TextureDimension {
    D1,
    D2,
    D3,
}

/// Extent of a texture.
#[derive(Clone, Copy, Debug, PartialEq, Eq, Structural)]
pub struct Extent3d {
    pub width: u32,
    pub height: u32,
    pub depth_or_array_layers: u32,
}

/// Where a copy starts in a texture.
#[derive(Clone, Copy, Debug, PartialEq, Eq, Structural)]
pub struct TextureCopyBase {
    pub mip_level: u32,
    pub array_layer: u32,
}

/// A texture in GPU memory.
#[derive(Debug)]
pub struct Texture {
    pub resource: RawHandle,
    pub format: wgpu_types::TextureFormat,
    pub dimension: TextureDimension,
    pub size: Extent3d,
    pub mip_level_count: u32,
    pub sample_count: u32,
}

impl Texture {
    /// Number of array layers: a 3D texture has one.
    pub open spec fn spec_array_layer_count(&self) -> u32 {
        match self.dimension {
            TextureDimension::D1 => self.size.depth_or_array_layers,
            TextureDimension::D2 => self.size.depth_or_array_layers,
            TextureDimension::D3 => 1,
        }
    }

    /// Index of a subresource. Subresources are numbered plane by plane,
    /// within a plane layer by layer, within a layer by mip level.
    pub open spec fn spec_calc_subresource(&self, mip_level: u32, array_layer: u32, plane: u32) -> int {
        mip_level + (array_layer + plane * self.spec_array_layer_count()) * self.mip_level_count
    }

    /// Number of array layers: a 3D texture has one.
    pub fn array_layer_count(&self) -> (count: u32)
        ensures
            count == self.spec_array_layer_count(),
    {
        match self.dimension {
            TextureDimension::D1 | TextureDimension::D2 => self.size.depth_or_array_layers,
            TextureDimension::D3 => 1,
        }
    }

    /// Index of a subresource.
    pub fn calc_subresource(&self, mip_level: u32, array_layer: u32, plane: u32) -> (index: u32)
        requires
            array_layer + plane * self.spec_array_layer_count() <= u32::MAX,
            self.spec_calc_subresource(mip_level, array_layer, plane) <= u32::MAX,
        ensures
            index == self.spec_calc_subresource(mip_level, array_layer, plane),
    {
        let layers = self.array_layer_count();
        proof {
            let inner = array_layer + plane * layers;
            assert(0 <= plane * layers) by (nonlinear_arith)
                requires
                    plane >= 0,
                    layers >= 0,
            ;
            assert(0 <= inner * self.mip_level_count) by (nonlinear_arith)
                requires
                    inner >= 0,
                    self.mip_level_count >= 0,
            ;
        }
        mip_level + (array_layer + plane * layers) * self.mip_level_count
    }

    /// Index of the subresource at which a copy starts.
    pub fn calc_subresource_for_copy(&self, base: &TextureCopyBase) -> (index: u32)
        requires
            self.spec_calc_subresource(base.mip_level, base.array_layer, 0) <= u32::MAX,
        ensures
            index == self.spec_calc_subresource(base.mip_level, base.array_layer, 0),
    {
        self.calc_subresource(base.mip_level, base.array_layer, 0)
    }
}

/// A view of a texture, with the descriptors that were made for it.
#[derive(Debug)]
pub struct TextureView {
    /// Native pixel format.
    pub raw_format: u32,
    /// The texture and the first subresource that the view covers.
    pub target_base: (RawHandle, u32),
    pub handle_srv: Option<Handle>,
    pub handle_uav: Option<Handle>,
    pub handle_rtv: Option<Handle>,
    pub handle_dsv_ro: Option<Handle>,
    pub handle_dsv_rw: Option<Handle>,
}

/// A sampler, by its descriptor.
#[derive(Debug)]
pub struct Sampler {
    pub handle: Handle,
}

/// A set of queries.
#[derive(Debug)]
pub struct QuerySet {
    pub raw: RawHandle,
    /// Native query type.
    pub raw_ty: u32,
}

/// The resources of one bind group, ready to be bound.
#[derive(Debug)]
pub struct BindGroup {
    /// GPU address of the group's table of views, if it has one.
    pub gpu_views: Option<u64>,
    /// GPU address of the group's table of samplers, if it has one.
    pub gpu_samplers: Option<u64>,
    /// GPU address of each buffer with a dynamic offset, in the order of the
    /// layout's entries.
    pub dynamic_buffers: Vec<u64>,
}

} // verus!
