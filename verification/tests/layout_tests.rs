//! Structural layout checks: each descriptor is a plain aggregate of
//! exactly the documented fields, compared against a reference definition
//! written out field by field, and pinned to its packed size where the
//! field widths alone determine it.

use std::mem::align_of;
use std::mem::size_of;

use skia_types::vk::Alloc;
use skia_types::vk::AllocFlag;
use skia_types::vk::DrawableInfo;
use skia_types::vk::ImageInfo;
use skia_types::vk::Protected;
use skia_types::vk::YcbcrConversionInfo;

#[allow(dead_code)]
struct AllocReference {
    memory: u64,
    offset: u64,
    size: u64,
    flags: AllocFlag,
    backend_memory: u64,
    uses_system_heap: bool,
}

#[test]
fn test_vk_alloc_layout() {
    assert_eq!(size_of::<Alloc>(), size_of::<AllocReference>());
    assert_eq!(align_of::<Alloc>(), align_of::<AllocReference>());
    assert_eq!(align_of::<Alloc>(), align_of::<u64>());
}

#[allow(dead_code)]
struct YcbcrConversionInfoReference {
    format: u32,
    external_format: u64,
    ycrbcr_model: u32,
    ycbcr_range: u32,
    x_chroma_offset: u32,
    y_chroma_offset: u32,
    chroma_filter: u32,
    force_explicit_reconstruction: u32,
    format_features: u32,
}

#[test]
fn test_ycbcr_conversion_info_layout() {
    assert_eq!(size_of::<YcbcrConversionInfo>(), size_of::<YcbcrConversionInfoReference>());
    assert_eq!(align_of::<YcbcrConversionInfo>(), align_of::<YcbcrConversionInfoReference>());
    // One 64-bit tag and eight 32-bit words pack without a gap.
    assert_eq!(size_of::<YcbcrConversionInfo>(), 40);
    assert_eq!(align_of::<YcbcrConversionInfo>(), align_of::<u64>());
}

#[allow(dead_code)]
struct ImageInfoReference {
    image: u64,
    alloc: Alloc,
    tiling: u32,
    layout: u32,
    format: u32,
    level_count: u32,
    current_queue_family: u32,
    protected: Protected,
    ycbcr_conversion_info: YcbcrConversionInfo,
}

#[test]
fn test_image_info_layout() {
    assert_eq!(size_of::<ImageInfo>(), size_of::<ImageInfoReference>());
    assert_eq!(align_of::<ImageInfo>(), align_of::<ImageInfoReference>());
    assert_eq!(align_of::<ImageInfo>(), align_of::<u64>());
}

#[allow(dead_code)]
struct DrawableInfoReference {
    secondary_command_buffer: u64,
    color_attachment_index: u32,
    compatible_render_pass: u64,
    format: u32,
    draw_bounds: u64,
    image: u64,
}

#[test]
fn test_drawable_info_layout() {
    assert_eq!(size_of::<DrawableInfo>(), size_of::<DrawableInfoReference>());
    assert_eq!(align_of::<DrawableInfo>(), align_of::<DrawableInfoReference>());
    // Four 64-bit handles and two 32-bit words pack without a gap.
    assert_eq!(size_of::<DrawableInfo>(), 40);
    assert_eq!(align_of::<DrawableInfo>(), align_of::<u64>());
}
