//! Behavior of the Vulkan descriptors: inert defaults, constructor
//! defaulting, the allocation comparator, the flag set, and the
//! procedure-resolution request.

use skia_types::vk::Alloc;
use skia_types::vk::AllocFlag;
use skia_types::vk::DrawableInfo;
use skia_types::vk::GetProc;
use skia_types::vk::GetProcOf;
use skia_types::vk::GetProcResult;
use skia_types::vk::ImageInfo;
use skia_types::vk::Protected;
use skia_types::vk::YcbcrConversionInfo;
use skia_types::vk::QUEUE_FAMILY_IGNORED;

#[test]
fn alloc_default_is_inert() {
    let a = Alloc::default();
    assert_eq!(a.memory, 0);
    assert_eq!(a.offset, 0);
    assert_eq!(a.size, 0);
    assert!(a.flags.is_empty());
    assert_eq!(a.backend_memory, 0);
    assert!(!a.uses_system_heap);
}

#[test]
fn alloc_from_device_memory_keeps_fields() {
    let flags = AllocFlag { noncoherent: true, mappable: false };
    let a = Alloc::from_device_memory(0x1234, 256, 4096, flags);
    assert_eq!(a.memory, 0x1234);
    assert_eq!(a.offset, 256);
    assert_eq!(a.size, 4096);
    assert_eq!(a.flags, flags);
    assert_eq!(a.backend_memory, 0);
    assert!(!a.uses_system_heap);
}

#[test]
fn alloc_equality_covers_identity_fields_only() {
    let flags = AllocFlag { noncoherent: false, mappable: true };
    let mut a = Alloc::from_device_memory(7, 64, 1024, flags);
    let b = Alloc::from_device_memory(7, 64, 1024, flags);
    assert_eq!(a, b);
    a.backend_memory = 99;
    assert_eq!(a, b);
    a.size = 2048;
    assert_ne!(a, b);
}

#[test]
fn alloc_flag_words_round_trip() {
    assert_eq!(AllocFlag::empty().bits(), 0);
    assert!(AllocFlag::empty().is_empty());
    let nc = AllocFlag::from_bits(1).unwrap();
    assert!(nc.noncoherent && !nc.mappable);
    assert_eq!(nc.bits(), 1);
    let mp = AllocFlag::from_bits(2).unwrap();
    assert!(!mp.noncoherent && mp.mappable);
    assert_eq!(mp.bits(), 2);
    let both = AllocFlag::from_bits(3).unwrap();
    assert!(both.noncoherent && both.mappable);
    assert_eq!(both.bits(), 3);
    assert!(AllocFlag::from_bits(4).is_none());
    assert!(AllocFlag::from_bits(0xFFFF_FFFF).is_none());
}

#[test]
fn ycbcr_default_is_no_conversion() {
    let y = YcbcrConversionInfo::default();
    assert_eq!(y.format, 0);
    assert_eq!(y.external_format, 0);
    assert_eq!(y.ycrbcr_model, 0);
    assert_eq!(y.ycbcr_range, 0);
    assert_eq!(y.x_chroma_offset, 0);
    assert_eq!(y.y_chroma_offset, 0);
    assert_eq!(y.chroma_filter, 0);
    assert_eq!(y.force_explicit_reconstruction, 0);
    assert_eq!(y.format_features, 0);
    assert!(!y.is_valid());
}

#[test]
fn ycbcr_new_with_format_keeps_fields() {
    // A concrete format, so the external-format tag stays zero.
    let y = YcbcrConversionInfo::new_with_format(93, 0, 2, 1, 1, 0, 1, 1, 0x400);
    assert_eq!(y.format, 93);
    assert_eq!(y.external_format, 0);
    assert_eq!(y.ycrbcr_model, 2);
    assert_eq!(y.ycbcr_range, 1);
    assert_eq!(y.x_chroma_offset, 1);
    assert_eq!(y.y_chroma_offset, 0);
    assert_eq!(y.chroma_filter, 1);
    assert_eq!(y.force_explicit_reconstruction, 1);
    assert_eq!(y.format_features, 0x400);
    assert!(y.is_valid());
    // Exactly one source of the format is set: the concrete format here.
    assert!((y.format != 0) != (y.external_format != 0));
}

#[test]
fn ycbcr_new_tags_external_format() {
    let y = YcbcrConversionInfo::new(1, 0, 0, 1, 0, 0, 0xABCD_EF01_2345_6789, 0x20);
    assert_eq!(y.format, 0);
    assert_eq!(y.external_format, 0xABCD_EF01_2345_6789);
    assert_eq!(y.ycrbcr_model, 1);
    assert_eq!(y.format_features, 0x20);
    assert!(y.is_valid());
    // Exactly one source of the format is set: the external tag here.
    assert!((y.format != 0) != (y.external_format != 0));
}

#[test]
fn ycbcr_equality_is_field_for_field() {
    let a = YcbcrConversionInfo::new(1, 0, 0, 1, 0, 0, 5, 0);
    let b = YcbcrConversionInfo::new(1, 0, 0, 1, 0, 0, 5, 0);
    let c = YcbcrConversionInfo::new(1, 0, 0, 1, 0, 0, 6, 0);
    assert_eq!(a, b);
    assert_ne!(a, c);
}

#[test]
fn image_info_default_is_inert() {
    let i = ImageInfo::default();
    assert_eq!(i.image, 0);
    assert_eq!(i.alloc, Alloc::default());
    assert_eq!(i.tiling, 0);
    assert_eq!(i.layout, 0);
    assert_eq!(i.format, 0);
    assert_eq!(i.level_count, 0);
    assert_eq!(i.current_queue_family, QUEUE_FAMILY_IGNORED);
    assert_eq!(i.protected, Protected::No);
    assert!(!i.ycbcr_conversion_info.is_valid());
}

#[test]
fn image_info_new_defaults_absent_parameters() {
    let alloc = Alloc::from_device_memory(3, 0, 512, AllocFlag::empty());
    let i = ImageInfo::new(11, alloc, 1, 7, 44, 5, None, None, None);
    assert_eq!(i.image, 11);
    assert_eq!(i.alloc, alloc);
    assert_eq!(i.tiling, 1);
    assert_eq!(i.layout, 7);
    assert_eq!(i.format, 44);
    assert_eq!(i.level_count, 5);
    assert_eq!(i.current_queue_family, QUEUE_FAMILY_IGNORED);
    assert_eq!(i.protected, Protected::No);
    assert_eq!(i.ycbcr_conversion_info, YcbcrConversionInfo::default());
}

#[test]
fn image_info_new_keeps_given_parameters() {
    let conversion = YcbcrConversionInfo::new(1, 1, 0, 0, 1, 0, 9, 4);
    let i = ImageInfo::new(
        11,
        Alloc::default(),
        0,
        2,
        44,
        1,
        Some(2),
        Some(conversion),
        Some(Protected::Yes),
    );
    assert_eq!(i.current_queue_family, 2);
    assert_eq!(i.protected, Protected::Yes);
    assert_eq!(i.ycbcr_conversion_info, conversion);
}

#[test]
fn image_info_from_image_matches_new() {
    let a = ImageInfo::new(8, Alloc::default(), 1, 3, 20, 2, Some(4), None, None);
    let b = ImageInfo::from_image(8, Alloc::default(), 1, 3, 20, 2, Some(4), None, None);
    assert_eq!(a.image, b.image);
    assert_eq!(a.layout, b.layout);
    assert_eq!(a.current_queue_family, b.current_queue_family);
    assert_eq!(a.protected, b.protected);
}

#[test]
fn image_info_from_info_overrides_layout_only() {
    let base = ImageInfo::new(8, Alloc::default(), 1, 3, 20, 2, Some(4), None, Some(Protected::Yes));
    let copy = ImageInfo::from_info(&base, 6);
    assert_eq!(copy.layout, 6);
    assert_eq!(copy.image, base.image);
    assert_eq!(copy.tiling, base.tiling);
    assert_eq!(copy.format, base.format);
    assert_eq!(copy.level_count, base.level_count);
    assert_eq!(copy.current_queue_family, base.current_queue_family);
    assert_eq!(copy.protected, base.protected);
    assert_eq!(copy.ycbcr_conversion_info, base.ycbcr_conversion_info);
}

struct NullResolver;

impl GetProc for NullResolver {
    fn get_proc(&self, _of: GetProcOf) -> GetProcResult {
        0
    }
}

#[test]
fn get_proc_of_carries_its_name() {
    let instance_lookup = GetProcOf::Instance(21, String::from("vkCreateDevice"));
    assert_eq!(instance_lookup.name().as_str(), "vkCreateDevice");
    let device_lookup = GetProcOf::Device(9, String::from("vkCreateImage"));
    assert_eq!(device_lookup.name().as_str(), "vkCreateImage");
    let resolver = NullResolver;
    assert_eq!(resolver.get_proc(instance_lookup), 0);
}

#[test]
fn drawable_info_default_is_inert() {
    let d = DrawableInfo::default();
    assert_eq!(d.secondary_command_buffer, 0);
    assert_eq!(d.color_attachment_index, 0);
    assert_eq!(d.compatible_render_pass, 0);
    assert_eq!(d.format, 0);
    assert_eq!(d.draw_bounds, 0);
    assert_eq!(d.image, 0);
}
