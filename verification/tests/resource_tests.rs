use dx12_hal::resource::{
    Buffer, BufferBinding, Extent3d, Texture, TextureCopyBase, TextureDimension,
};
use dx12_hal::RawHandle;

fn texture(dimension: TextureDimension, layers: u32, mips: u32) -> Texture {
    Texture {
        resource: RawHandle(3),
        format: wgpu_types::TextureFormat::Rgba8Unorm,
        dimension,
        size: Extent3d { width: 64, height: 64, depth_or_array_layers: layers },
        mip_level_count: mips,
        sample_count: 1,
    }
}

#[test]
fn a_binding_with_a_size_has_that_size() {
    let buffer = Buffer { resource: RawHandle(1), gpu_address: 0x10_0000, size: 1024 };
    let binding = BufferBinding { buffer: &buffer, offset: 256, size: Some(100) };
    assert_eq!(binding.resolve_size(), 100);
    assert_eq!(binding.resolve_address(), 0x10_0100);
}

#[test]
fn a_binding_without_a_size_goes_to_the_end() {
    let buffer = Buffer { resource: RawHandle(1), gpu_address: 0x10_0000, size: 1024 };
    assert_eq!(BufferBinding { buffer: &buffer, offset: 256, size: None }.resolve_size(), 768);
    assert_eq!(BufferBinding { buffer: &buffer, offset: 0, size: None }.resolve_size(), 1024);
    assert_eq!(BufferBinding { buffer: &buffer, offset: 1024, size: None }.resolve_size(), 0);
    assert_eq!(BufferBinding { buffer: &buffer, offset: 0, size: None }.resolve_address(), 0x10_0000);
}

#[test]
fn only_a_3d_texture_has_one_layer() {
    assert_eq!(texture(TextureDimension::D1, 5, 1).array_layer_count(), 5);
    assert_eq!(texture(TextureDimension::D2, 6, 1).array_layer_count(), 6);
    assert_eq!(texture(TextureDimension::D3, 7, 1).array_layer_count(), 1);
}

#[test]
fn subresources_are_numbered_by_plane_layer_and_level() {
    let t = texture(TextureDimension::D2, 6, 4);
    assert_eq!(t.calc_subresource(0, 0, 0), 0);
    assert_eq!(t.calc_subresource(3, 0, 0), 3);
    assert_eq!(t.calc_subresource(1, 2, 0), 9);
    assert_eq!(t.calc_subresource(1, 2, 1), 1 + (2 + 6) * 4);
    let volume = texture(TextureDimension::D3, 32, 5);
    assert_eq!(volume.calc_subresource(2, 0, 1), 2 + 5);
}

#[test]
fn a_copy_starts_in_plane_zero() {
    let t = texture(TextureDimension::D2, 6, 4);
    let base = TextureCopyBase { mip_level: 2, array_layer: 5 };
    assert_eq!(t.calc_subresource_for_copy(&base), 22);
    assert_eq!(t.calc_subresource_for_copy(&base), t.calc_subresource(2, 5, 0));
}

#[test]
fn the_zero_buffer_has_a_quarter_of_a_mebibyte() {
    assert_eq!(dx12_hal::ZERO_BUFFER_SIZE, 262_144);
}
