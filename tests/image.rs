use std::sync::Arc;
use vkimage::device::{
    DeviceExtensions, DriverError, Extent3D, Features, FormatSupport, ImageFormatProperties,
    Limits, MemoryReport, SubresourceLayout, SubresourceReport,
};
use vkimage::format::FormatProperties;
use vkimage::native::{ImageLayout, USAGE_COLOR_ATTACHMENT, USAGE_SAMPLED, USAGE_TRANSIENT_ATTACHMENT};
use vkimage::sharing::SharingMode;
use vkimage::{
    Device, DeviceMemory, Format, FormatFeatures, ImageAspect, ImageCreateFlags,
    ImageCreationError, ImageDimensions, ImageUsage, MipmapsCount, ObjectTable, Ownership,
    Sharing, UnsafeImage,
};

fn all_features() -> FormatFeatures {
    FormatFeatures {
        sampled_image: true,
        storage_image: true,
        color_attachment: true,
        depth_stencil_attachment: false,
        transfer_src: true,
        transfer_dst: true,
    }
}

fn reported(max: u32, mips: u32) -> Result<ImageFormatProperties, DriverError> {
    Ok(ImageFormatProperties {
        max_extent: Extent3D { width: max, height: max, depth: max },
        max_mip_levels: mips,
        max_array_layers: 2048,
        sample_counts: 0x7f,
    })
}

fn support(format: Format, features: FormatFeatures) -> FormatSupport {
    FormatSupport {
        format,
        properties: FormatProperties {
            linear_tiling_features: features,
            optimal_tiling_features: features,
        },
        linear_limits: reported(16384, 15),
        optimal_limits: reported(16384, 15),
    }
}

fn device_with(formats: Vec<FormatSupport>, ext: DeviceExtensions, multisample_storage: bool) -> Device {
    Device {
        id: 7,
        limits: Limits {
            max_image_dimension_1d: 16384,
            max_image_dimension_2d: 16384,
            max_image_dimension_3d: 2048,
            max_image_dimension_cube: 16384,
            max_image_array_layers: 2048,
            sampled_image_color_sample_counts: 0x0f,
            sampled_image_integer_sample_counts: 0x01,
            sampled_image_depth_sample_counts: 0x0f,
            sampled_image_stencil_sample_counts: 0x0f,
            storage_image_sample_counts: 0x01,
            framebuffer_color_sample_counts: 0x0f,
            framebuffer_depth_sample_counts: 0x0f,
            framebuffer_stencil_sample_counts: 0x0f,
        },
        extensions: ext,
        features: Features { shader_storage_image_multisample: multisample_storage },
        formats,
        memory: MemoryReport {
            size: 4096,
            alignment: 256,
            memory_type_bits: 0b0110,
            prefers_dedicated_allocation: true,
        },
        layouts: vec![
            SubresourceReport { aspect: ImageAspect::Color, mip_level: 0, layout: layout_at(0) },
            SubresourceReport { aspect: ImageAspect::Color, mip_level: 1, layout: layout_at(4096) },
            SubresourceReport { aspect: ImageAspect::Depth, mip_level: 0, layout: layout_at(8) },
            SubresourceReport { aspect: ImageAspect::Stencil, mip_level: 0, layout: layout_at(16) },
            SubresourceReport { aspect: ImageAspect::Plane2, mip_level: 0, layout: layout_at(5120) },
        ],
    }
}

fn layout_at(offset: u64) -> SubresourceLayout {
    SubresourceLayout { offset, size: 4096, row_pitch: 128, array_pitch: 4096, depth_pitch: 4096 }
}

fn no_ext() -> DeviceExtensions {
    DeviceExtensions {
        khr_maintenance1: false,
        khr_get_memory_requirements2: false,
        khr_dedicated_allocation: false,
    }
}

fn gfx_device() -> Arc<Device> {
    let mut ds = all_features();
    ds.color_attachment = false;
    ds.storage_image = false;
    ds.depth_stencil_attachment = true;
    Arc::new(device_with(
        vec![
            support(Format::R8G8B8A8Unorm, all_features()),
            support(Format::R8G8B8A8Uint, all_features()),
            support(Format::D24Unorm_S8Uint, ds),
            support(Format::G8B8R8_3PLANE420Unorm, all_features()),
        ],
        no_ext(),
        false,
    ))
}

fn dim2d(width: u32, height: u32, array_layers: u32) -> ImageDimensions {
    ImageDimensions::Dim2d { width, height, array_layers }
}

fn usage_with(f: impl Fn(&mut ImageUsage)) -> ImageUsage {
    let mut u = ImageUsage::none();
    f(&mut u);
    u
}

fn sampled() -> ImageUsage {
    usage_with(|u| u.sampled = true)
}

fn create(
    device: &Arc<Device>,
    objects: &mut ObjectTable,
    usage: ImageUsage,
    format: Format,
    flags: ImageCreateFlags,
    dimensions: ImageDimensions,
    samples: u32,
    mipmaps: MipmapsCount,
) -> Result<(UnsafeImage, vkimage::MemoryRequirements), ImageCreationError> {
    UnsafeImage::new(
        device.clone(),
        objects,
        usage,
        format,
        flags,
        dimensions,
        samples,
        mipmaps,
        Sharing::Exclusive,
        false,
        false,
    )
}

#[test]
fn create_sampled() {
    let device = gfx_device();
    let mut objects = ObjectTable::new();
    let (_img, _) = create(
        &device,
        &mut objects,
        sampled(),
        Format::R8G8B8A8Unorm,
        ImageCreateFlags::none(),
        dim2d(32, 32, 1),
        1,
        MipmapsCount::Specific(1),
    )
    .unwrap();
}

#[test]
fn create_transient() {
    let device = gfx_device();
    let mut objects = ObjectTable::new();
    let usage = usage_with(|u| {
        u.transient_attachment = true;
        u.color_attachment = true;
    });
    let (_img, _) = create(
        &device,
        &mut objects,
        usage,
        Format::R8G8B8A8Unorm,
        ImageCreateFlags::none(),
        dim2d(32, 32, 1),
        1,
        MipmapsCount::Specific(1),
    )
    .unwrap();
}

#[test]
fn zero_sample() {
    let device = gfx_device();
    let mut objects = ObjectTable::new();
    let res = create(
        &device,
        &mut objects,
        sampled(),
        Format::R8G8B8A8Unorm,
        ImageCreateFlags::none(),
        dim2d(32, 32, 1),
        0,
        MipmapsCount::Specific(1),
    );
    match res {
        Err(ImageCreationError::UnsupportedSamplesCount { .. }) => (),
        _ => panic!(),
    };
}

#[test]
fn non_po2_sample() {
    let device = gfx_device();
    let mut objects = ObjectTable::new();
    let res = create(
        &device,
        &mut objects,
        sampled(),
        Format::R8G8B8A8Unorm,
        ImageCreateFlags::none(),
        dim2d(32, 32, 1),
        5,
        MipmapsCount::Specific(1),
    );
    match res {
        Err(ImageCreationError::UnsupportedSamplesCount { .. }) => (),
        _ => panic!(),
    };
}

#[test]
fn zero_mipmap() {
    let device = gfx_device();
    let mut objects = ObjectTable::new();
    let res = create(
        &device,
        &mut objects,
        sampled(),
        Format::R8G8B8A8Unorm,
        ImageCreateFlags::none(),
        dim2d(32, 32, 1),
        1,
        MipmapsCount::Specific(0),
    );
    match res {
        Err(ImageCreationError::InvalidMipmapsCount { .. }) => (),
        _ => panic!(),
    };
}

#[test]
fn mipmaps_too_high() {
    let device = gfx_device();
    let mut objects = ObjectTable::new();
    let res = create(
        &device,
        &mut objects,
        sampled(),
        Format::R8G8B8A8Unorm,
        ImageCreateFlags::none(),
        dim2d(32, 32, 1),
        1,
        MipmapsCount::Specific(u32::MAX),
    );
    match res {
        Err(ImageCreationError::InvalidMipmapsCount { obtained, valid_range }) => {
            assert_eq!(obtained, u32::MAX);
            assert_eq!(valid_range.start, 1);
        }
        _ => panic!(),
    };
}

#[test]
fn shader_storage_image_multisample() {
    let device = gfx_device();
    let mut objects = ObjectTable::new();
    let res = create(
        &device,
        &mut objects,
        usage_with(|u| u.storage = true),
        Format::R8G8B8A8Unorm,
        ImageCreateFlags::none(),
        dim2d(32, 32, 1),
        2,
        MipmapsCount::Specific(1),
    );
    match res {
        Err(ImageCreationError::ShaderStorageImageMultisampleFeatureNotEnabled) => (),
        Err(ImageCreationError::UnsupportedSamplesCount { .. }) => (),
        _ => panic!(),
    };
}

#[test]
fn compressed_not_color_attachment() {
    let device = gfx_device();
    let mut objects = ObjectTable::new();
    let res = create(
        &device,
        &mut objects,
        usage_with(|u| u.color_attachment = true),
        Format::ASTC_5x4UnormBlock,
        ImageCreateFlags::none(),
        dim2d(32, 32, 1),
        1,
        MipmapsCount::Specific(u32::MAX),
    );
    match res {
        Err(ImageCreationError::FormatNotSupported) => (),
        Err(ImageCreationError::UnsupportedUsage) => (),
        _ => panic!(),
    };
}

#[test]
fn transient_forbidden_with_some_usages() {
    let device = gfx_device();
    let mut objects = ObjectTable::new();
    let usage = usage_with(|u| {
        u.transient_attachment = true;
        u.sampled = true;
    });
    let res = create(
        &device,
        &mut objects,
        usage,
        Format::R8G8B8A8Unorm,
        ImageCreateFlags::none(),
        dim2d(32, 32, 1),
        1,
        MipmapsCount::Specific(1),
    );
    match res {
        Err(ImageCreationError::UnsupportedUsage) => (),
        _ => panic!(),
    };
}

#[test]
fn cubecompatible_dims_mismatch() {
    let device = gfx_device();
    let mut objects = ObjectTable::new();
    let mut flags = ImageCreateFlags::none();
    flags.cube_compatible = true;
    let res = create(
        &device,
        &mut objects,
        sampled(),
        Format::R8G8B8A8Unorm,
        flags,
        dim2d(32, 64, 1),
        1,
        MipmapsCount::Specific(1),
    );
    match res {
        Err(ImageCreationError::CreationFlagRequirementsNotMet) => (),
        _ => panic!(),
    };
}

fn image_usage_single(field: usize) -> ImageUsage {
    usage_with(|u| match field {
        0 => u.transfer_source = true,
        1 => u.transfer_destination = true,
        2 => u.sampled = true,
        3 => u.storage = true,
        4 => u.color_attachment = true,
        _ => u.input_attachment = true,
    })
}

#[test]
fn single_usage_reports_back_what_was_asked() {
    let device = gfx_device();
    let mut objects = ObjectTable::new();
    for field in 0..6 {
        let usage = image_usage_single(field);
        let dims = dim2d(64, 16, 3);
        let (img, _) = create(
            &device,
            &mut objects,
            usage,
            Format::R8G8B8A8Unorm,
            ImageCreateFlags::none(),
            dims,
            1,
            MipmapsCount::One,
        )
        .unwrap();
        assert_eq!(img.format(), Format::R8G8B8A8Unorm);
        assert_eq!(img.flags(), ImageCreateFlags::none());
        assert_eq!(img.create_flags(), ImageCreateFlags::none());
        assert_eq!(img.dimensions(), dims);
        assert_eq!(img.samples(), 1);
        assert_eq!(img.usage(), usage);
        assert_eq!(img.mipmap_levels(), 1);
        assert_eq!(img.format_features(), all_features());
        assert!(!img.preinitialized_layout());
        assert_eq!(img.ownership(), Ownership::Owned);
        assert_eq!(img.device().id, 7);
    }
    assert_eq!(objects.created_count(), 6);
}

#[test]
fn handles_are_handed_out_in_order() {
    let device = gfx_device();
    let mut objects = ObjectTable::new();
    let mut keys = Vec::new();
    for _ in 0..3 {
        let (img, _) = create(
            &device,
            &mut objects,
            sampled(),
            Format::R8G8B8A8Unorm,
            ImageCreateFlags::none(),
            dim2d(8, 8, 1),
            1,
            MipmapsCount::One,
        )
        .unwrap();
        assert_eq!(img.key(), img.internal_object());
        keys.push(img.key());
    }
    assert_eq!(keys, vec![1, 2, 3]);
}

#[test]
fn rejected_description_creates_nothing() {
    let device = gfx_device();
    let mut objects = ObjectTable::new();
    let res = create(
        &device,
        &mut objects,
        sampled(),
        Format::R8G8B8A8Unorm,
        ImageCreateFlags::none(),
        dim2d(32, 32, 1),
        3,
        MipmapsCount::One,
    );
    assert!(matches!(res, Err(ImageCreationError::UnsupportedSamplesCount { obtained: 3 })));
    assert_eq!(objects.created_count(), 0);
}

#[test]
fn bad_sample_counts_whatever_the_usage() {
    let device = gfx_device();
    let mut objects = ObjectTable::new();
    for field in 0..6 {
        for samples in [0u32, 3, 5, 6, 7, 12, 100] {
            let res = create(
                &device,
                &mut objects,
                image_usage_single(field),
                Format::R8G8B8A8Unorm,
                ImageCreateFlags::none(),
                dim2d(32, 32, 1),
                samples,
                MipmapsCount::One,
            );
            match res {
                Err(ImageCreationError::UnsupportedSamplesCount { obtained }) => {
                    assert_eq!(obtained, samples)
                }
                _ => panic!(),
            }
        }
    }
}

#[test]
fn zero_mipmap_range_starts_at_one() {
    let device = gfx_device();
    let mut objects = ObjectTable::new();
    let res = create(
        &device,
        &mut objects,
        sampled(),
        Format::R8G8B8A8Unorm,
        ImageCreateFlags::none(),
        dim2d(32, 32, 1),
        1,
        MipmapsCount::Specific(0),
    );
    match res {
        Err(ImageCreationError::InvalidMipmapsCount { obtained, valid_range }) => {
            assert_eq!(obtained, 0);
            assert_eq!(valid_range, 1..7);
        }
        _ => panic!(),
    }
}

#[test]
fn mipmaps_over_chain_admitted_by_detailed_query() {
    let device = gfx_device();
    let mut objects = ObjectTable::new();
    let (img, _) = create(
        &device,
        &mut objects,
        sampled(),
        Format::R8G8B8A8Unorm,
        ImageCreateFlags::none(),
        dim2d(32, 32, 1),
        1,
        MipmapsCount::Specific(9),
    )
    .unwrap();
    assert_eq!(img.mipmap_levels(), 9);
    let res = create(
        &device,
        &mut objects,
        sampled(),
        Format::R8G8B8A8Unorm,
        ImageCreateFlags::none(),
        dim2d(32, 32, 1),
        1,
        MipmapsCount::Specific(16),
    );
    match res {
        Err(ImageCreationError::InvalidMipmapsCount { obtained, valid_range }) => {
            assert_eq!(obtained, 16);
            assert_eq!(valid_range, 1..7);
        }
        _ => panic!(),
    }
}

#[test]
fn full_chain_mipmaps() {
    let device = gfx_device();
    let mut objects = ObjectTable::new();
    let (img, _) = create(
        &device,
        &mut objects,
        sampled(),
        Format::R8G8B8A8Unorm,
        ImageCreateFlags::none(),
        dim2d(33, 7, 1),
        1,
        MipmapsCount::Log2,
    )
    .unwrap();
    assert_eq!(img.mipmap_levels(), 6);
    assert_eq!(dim2d(1, 1, 1).max_mipmaps(), 1);
    assert_eq!(dim2d(1024, 1, 1).max_mipmaps(), 11);
    assert_eq!(ImageDimensions::Dim1d { width: u32::MAX, array_layers: 1 }.max_mipmaps(), 32);
    assert_eq!(ImageDimensions::Dim3d { width: 2, height: 3, depth: 300 }.max_mipmaps(), 9);
}

#[test]
fn transient_with_sampled_even_without_sampled_feature() {
    let mut features = all_features();
    features.sampled_image = false;
    let device = Arc::new(device_with(vec![support(Format::R8G8B8A8Unorm, features)], no_ext(), false));
    let mut objects = ObjectTable::new();
    let usage = usage_with(|u| {
        u.transient_attachment = true;
        u.sampled = true;
    });
    let res = create(
        &device,
        &mut objects,
        usage,
        Format::R8G8B8A8Unorm,
        ImageCreateFlags::none(),
        dim2d(32, 32, 1),
        1,
        MipmapsCount::One,
    );
    assert!(matches!(res, Err(ImageCreationError::UnsupportedUsage)));
}

#[test]
fn multisampled_storage_with_feature_enabled() {
    let device = Arc::new(device_with(vec![support(Format::R8G8B8A8Unorm, all_features())], no_ext(), true));
    let mut objects = ObjectTable::new();
    // the storage sample-count limit admits one sample only, and the detailed query admits all
    let (img, _) = create(
        &device,
        &mut objects,
        usage_with(|u| u.storage = true),
        Format::R8G8B8A8Unorm,
        ImageCreateFlags::none(),
        dim2d(32, 32, 1),
        2,
        MipmapsCount::One,
    )
    .unwrap();
    assert_eq!(img.samples(), 2);
}

#[test]
fn sample_count_refused_by_detailed_query() {
    let mut entry = support(Format::R8G8B8A8Unorm, all_features());
    entry.optimal_limits = Ok(ImageFormatProperties {
        max_extent: Extent3D { width: 16384, height: 16384, depth: 1 },
        max_mip_levels: 15,
        max_array_layers: 2048,
        sample_counts: 0x01,
    });
    let device = Arc::new(device_with(vec![entry], no_ext(), false));
    let mut objects = ObjectTable::new();
    let res = create(
        &device,
        &mut objects,
        sampled(),
        Format::R8G8B8A8Unorm,
        ImageCreateFlags::none(),
        dim2d(32, 32, 1),
        16,
        MipmapsCount::One,
    );
    assert!(matches!(res, Err(ImageCreationError::UnsupportedSamplesCount { obtained: 16 })));
}

#[test]
fn cube_compatible_square_with_six_layers() {
    let device = gfx_device();
    let mut objects = ObjectTable::new();
    let mut flags = ImageCreateFlags::none();
    flags.cube_compatible = true;
    let ok = create(&device, &mut objects, sampled(), Format::R8G8B8A8Unorm, flags, dim2d(64, 64, 6), 1, MipmapsCount::One);
    assert!(ok.is_ok());
    let few = create(&device, &mut objects, sampled(), Format::R8G8B8A8Unorm, flags, dim2d(64, 64, 5), 1, MipmapsCount::One);
    assert!(matches!(few, Err(ImageCreationError::CreationFlagRequirementsNotMet)));
}

#[test]
fn array_2d_compatible_needs_3d() {
    let device = gfx_device();
    let mut objects = ObjectTable::new();
    let mut flags = ImageCreateFlags::none();
    flags.array_2d_compatible = true;
    let res = create(&device, &mut objects, sampled(), Format::R8G8B8A8Unorm, flags, dim2d(64, 64, 1), 1, MipmapsCount::One);
    assert!(matches!(res, Err(ImageCreationError::CreationFlagRequirementsNotMet)));
    let dims = ImageDimensions::Dim3d { width: 8, height: 8, depth: 8 };
    let res = create(&device, &mut objects, sampled(), Format::R8G8B8A8Unorm, flags, dims, 1, MipmapsCount::One);
    assert!(res.is_ok());
}

#[test]
fn sparse_flags_not_implemented() {
    let device = gfx_device();
    let mut objects = ObjectTable::new();
    let mut flags = ImageCreateFlags::none();
    flags.sparse_binding = true;
    let res = create(&device, &mut objects, sampled(), Format::R8G8B8A8Unorm, flags, dim2d(64, 64, 1), 1, MipmapsCount::One);
    assert!(matches!(res, Err(ImageCreationError::FeatureNotImplemented)));
}

#[test]
fn unknown_format_not_supported() {
    let device = gfx_device();
    let mut objects = ObjectTable::new();
    let res = create(&device, &mut objects, sampled(), Format::BC1_RGBUnormBlock, ImageCreateFlags::none(), dim2d(64, 64, 1), 1, MipmapsCount::One);
    assert!(matches!(res, Err(ImageCreationError::FormatNotSupported)));
}

#[test]
fn empty_usage_refused() {
    let device = gfx_device();
    let mut objects = ObjectTable::new();
    let res = create(&device, &mut objects, ImageUsage::none(), Format::R8G8B8A8Unorm, ImageCreateFlags::none(), dim2d(64, 64, 1), 1, MipmapsCount::One);
    assert!(matches!(res, Err(ImageCreationError::UnsupportedUsage)));
}

#[test]
fn transfer_usage_checked_only_with_maintenance1() {
    let mut features = all_features();
    features.transfer_src = false;
    let mut ext = no_ext();
    let device = Arc::new(device_with(vec![support(Format::R8G8B8A8Unorm, features)], ext, false));
    let mut objects = ObjectTable::new();
    let usage = usage_with(|u| u.transfer_source = true);
    let res = create(&device, &mut objects, usage, Format::R8G8B8A8Unorm, ImageCreateFlags::none(), dim2d(8, 8, 1), 1, MipmapsCount::One);
    assert!(res.is_ok());
    ext.khr_maintenance1 = true;
    let device = Arc::new(device_with(vec![support(Format::R8G8B8A8Unorm, features)], ext, false));
    let res = create(&device, &mut objects, usage, Format::R8G8B8A8Unorm, ImageCreateFlags::none(), dim2d(8, 8, 1), 1, MipmapsCount::One);
    assert!(matches!(res, Err(ImageCreationError::UnsupportedUsage)));
}

#[test]
fn multiplanar_format_as_attachment_refused() {
    let device = gfx_device();
    let mut objects = ObjectTable::new();
    let usage = usage_with(|u| u.color_attachment = true);
    let res = create(&device, &mut objects, usage, Format::G8B8R8_3PLANE420Unorm, ImageCreateFlags::none(), dim2d(64, 64, 1), 1, MipmapsCount::One);
    assert!(matches!(res, Err(ImageCreationError::UnsupportedUsage)));
}

#[test]
fn zero_dimension_refused() {
    let device = gfx_device();
    let mut objects = ObjectTable::new();
    let dims = dim2d(64, 0, 1);
    let res = create(&device, &mut objects, sampled(), Format::R8G8B8A8Unorm, ImageCreateFlags::none(), dims, 1, MipmapsCount::One);
    match res {
        Err(ImageCreationError::UnsupportedDimensions { dimensions }) => assert_eq!(dimensions, dims),
        _ => panic!(),
    }
}

#[test]
fn dimensions_over_limits() {
    let device = gfx_device();
    let mut objects = ObjectTable::new();
    // over the 2D limit, and over what the detailed query reports
    let dims = dim2d(20000, 8, 1);
    let res = create(&device, &mut objects, sampled(), Format::R8G8B8A8Unorm, ImageCreateFlags::none(), dims, 1, MipmapsCount::One);
    match res {
        Err(ImageCreationError::UnsupportedDimensions { dimensions }) => assert_eq!(dimensions, dims),
        _ => panic!(),
    }
    // over the layer limit, but the detailed query fails for the format
    let mut entry = support(Format::R8G8B8A8Unorm, all_features());
    entry.optimal_limits = Err(DriverError::FormatNotSupported);
    let device = Arc::new(device_with(vec![entry], no_ext(), false));
    let res = create(&device, &mut objects, sampled(), Format::R8G8B8A8Unorm, ImageCreateFlags::none(), dim2d(8, 8, 4000), 1, MipmapsCount::One);
    assert!(matches!(res, Err(ImageCreationError::FormatNotSupported)));
}

#[test]
fn detailed_query_out_of_memory() {
    let mut entry = support(Format::R8G8B8A8Unorm, all_features());
    entry.optimal_limits = Err(DriverError::OutOfDeviceMemory);
    let device = Arc::new(device_with(vec![entry], no_ext(), false));
    let mut objects = ObjectTable::new();
    let res = create(&device, &mut objects, sampled(), Format::R8G8B8A8Unorm, ImageCreateFlags::none(), dim2d(8, 8, 4000), 1, MipmapsCount::One);
    assert!(matches!(
        res,
        Err(ImageCreationError::AllocError(vkimage::DeviceMemoryAllocError::OomError(
            vkimage::OomError::OutOfDeviceMemory
        )))
    ));
}

#[test]
fn requirements_are_stable() {
    let device = gfx_device();
    let mut objects = ObjectTable::new();
    let (img, reqs) = create(&device, &mut objects, sampled(), Format::R8G8B8A8Unorm, ImageCreateFlags::none(), dim2d(8, 8, 1), 1, MipmapsCount::One).unwrap();
    let a = img.get_requirements();
    let b = img.get_requirements();
    assert_eq!(a, b);
    assert_eq!(a, reqs);
    assert_eq!((a.size, a.alignment, a.memory_type_bits, a.prefer_dedicated), (4096, 256, 0b0110, false));
}

#[test]
fn dedicated_hint_needs_both_extensions() {
    let mut ext = no_ext();
    ext.khr_get_memory_requirements2 = true;
    let device = Arc::new(device_with(vec![support(Format::R8G8B8A8Unorm, all_features())], ext, false));
    let mut objects = ObjectTable::new();
    let (_, reqs) = create(&device, &mut objects, sampled(), Format::R8G8B8A8Unorm, ImageCreateFlags::none(), dim2d(8, 8, 1), 1, MipmapsCount::One).unwrap();
    assert!(!reqs.prefer_dedicated);
    ext.khr_dedicated_allocation = true;
    let device = Arc::new(device_with(vec![support(Format::R8G8B8A8Unorm, all_features())], ext, false));
    let (_, reqs) = create(&device, &mut objects, sampled(), Format::R8G8B8A8Unorm, ImageCreateFlags::none(), dim2d(8, 8, 1), 1, MipmapsCount::One).unwrap();
    assert!(reqs.prefer_dedicated);
}

#[test]
fn owned_image_destroyed_once() {
    let device = gfx_device();
    let mut objects = ObjectTable::new();
    let (mut img, _) = create(&device, &mut objects, sampled(), Format::R8G8B8A8Unorm, ImageCreateFlags::none(), dim2d(8, 8, 1), 1, MipmapsCount::One).unwrap();
    let key = img.key();
    assert_eq!(objects.destroy_calls(key), 0);
    img.destroy(&mut objects);
    assert_eq!(objects.destroy_calls(key), 1);
    assert_eq!(img.ownership(), Ownership::Released);
    img.destroy(&mut objects);
    assert_eq!(objects.destroy_calls(key), 1);
}

#[test]
fn imported_image_never_destroyed() {
    let device = gfx_device();
    let mut objects = ObjectTable::new();
    let mut img = UnsafeImage::from_raw(device.clone(), 42, sampled(), Format::R8G8B8A8Unorm, ImageCreateFlags::none(), dim2d(8, 8, 1), 1, 1);
    assert_eq!(img.ownership(), Ownership::Borrowed);
    assert_eq!(img.key(), 42);
    assert_eq!(img.format_features(), all_features());
    img.destroy(&mut objects);
    img.destroy(&mut objects);
    assert_eq!(objects.destroy_calls(42), 0);
    assert_eq!(img.ownership(), Ownership::Borrowed);
}

#[test]
fn bind_memory_records_binding() {
    let device = gfx_device();
    let mut objects = ObjectTable::new();
    let (img, reqs) = create(&device, &mut objects, sampled(), Format::R8G8B8A8Unorm, ImageCreateFlags::none(), dim2d(8, 8, 1), 1, MipmapsCount::One).unwrap();
    let memory = DeviceMemory { handle: 900, size: 8192, memory_type_id: 2 };
    assert!(reqs.memory_type_bits & (1 << memory.memory_type_id) != 0);
    img.bind_memory(&mut objects, &memory, 512).unwrap();
    assert_eq!(objects.binding_count(), 1);
    let b = objects.binding_at(0);
    assert_eq!((b.image, b.memory, b.offset), (img.key(), 900, 512));
}

#[test]
fn creation_record_keeps_sharing_and_layout() {
    let device = gfx_device();
    let mut objects = ObjectTable::new();
    let usage = usage_with(|u| {
        u.transient_attachment = true;
        u.color_attachment = true;
        u.sampled = false;
    });
    let ids: Vec<u32> = (0..11).collect();
    let (img, _) = UnsafeImage::new(device.clone(), &mut objects, usage, Format::R8G8B8A8Unorm, ImageCreateFlags::none(), dim2d(8, 8, 1), 1, MipmapsCount::One, Sharing::Concurrent(ids), false, true).unwrap();
    assert!(img.preinitialized_layout());
    let rec = objects.created_at(0);
    assert_eq!(rec.handle, img.key());
    assert_eq!(rec.sharing_mode, SharingMode::Concurrent);
    assert_eq!(rec.queue_family_count, 11);
    assert_eq!(rec.initial_layout, ImageLayout::Preinitialized);
    assert_eq!(rec.usage, USAGE_TRANSIENT_ATTACHMENT | USAGE_COLOR_ATTACHMENT);
    let (_, _) = create(&device, &mut objects, sampled(), Format::R8G8B8A8Unorm, ImageCreateFlags::none(), dim2d(8, 8, 1), 1, MipmapsCount::One).unwrap();
    let rec = objects.created_at(1);
    assert_eq!(rec.sharing_mode, SharingMode::Exclusive);
    assert_eq!(rec.queue_family_count, 0);
    assert_eq!(rec.initial_layout, ImageLayout::Undefined);
    assert_eq!(rec.usage, USAGE_SAMPLED);
}

#[test]
fn linear_layouts() {
    let device = gfx_device();
    let mut objects = ObjectTable::new();
    let (img, _) = UnsafeImage::new(device.clone(), &mut objects, sampled(), Format::R8G8B8A8Unorm, ImageCreateFlags::none(), dim2d(32, 32, 1), 1, MipmapsCount::Specific(2), Sharing::Exclusive, true, false).unwrap();
    let l = img.color_linear_layout(0);
    assert_eq!((l.offset, l.size, l.row_pitch, l.array_pitch, l.depth_pitch), (0, 4096, 128, 4096, 4096));
    assert_eq!(img.color_linear_layout(1).offset, 4096);
    let (single, _) = UnsafeImage::new(device.clone(), &mut objects, sampled(), Format::R8G8B8A8Unorm, ImageCreateFlags::none(), dim2d(32, 32, 1), 1, MipmapsCount::One, Sharing::Exclusive, true, false).unwrap();
    assert_eq!(single.multiplane_color_layout(ImageAspect::Color), l);
    let (ds, _) = UnsafeImage::new(device.clone(), &mut objects, sampled(), Format::D24Unorm_S8Uint, ImageCreateFlags::none(), dim2d(32, 32, 1), 1, MipmapsCount::One, Sharing::Exclusive, true, false).unwrap();
    assert_eq!(ds.depth_linear_layout(0).offset, 8);
    assert_eq!(ds.stencil_linear_layout(0).offset, 16);
    let (yuv, _) = UnsafeImage::new(device.clone(), &mut objects, sampled(), Format::G8B8R8_3PLANE420Unorm, ImageCreateFlags::none(), dim2d(32, 32, 1), 1, MipmapsCount::One, Sharing::Exclusive, true, false).unwrap();
    assert_eq!(yuv.multiplane_color_layout(ImageAspect::Plane2).offset, 5120);
    // a subresource that the device does not report has an all-zero layout
    assert_eq!(yuv.multiplane_color_layout(ImageAspect::Plane1).size, 0);
}

#[test]
fn images_equal_by_handle_and_device() {
    let device = gfx_device();
    let a = UnsafeImage::from_raw(device.clone(), 5, sampled(), Format::R8G8B8A8Unorm, ImageCreateFlags::none(), dim2d(8, 8, 1), 1, 1);
    let b = UnsafeImage::from_raw(device.clone(), 5, sampled(), Format::R8G8B8A8Uint, ImageCreateFlags::none(), dim2d(4, 4, 1), 1, 1);
    let c = UnsafeImage::from_raw(device.clone(), 6, sampled(), Format::R8G8B8A8Unorm, ImageCreateFlags::none(), dim2d(8, 8, 1), 1, 1);
    assert!(a == b);
    assert!(a != c);
}

#[test]
fn error_descriptions() {
    assert_eq!(ImageCreationError::UnsupportedUsage.description(), "the format is supported, but at least one of the requested usages is not supported");
    let e: ImageCreationError = vkimage::OomError::OutOfHostMemory.into();
    assert!(matches!(e, ImageCreationError::AllocError(vkimage::DeviceMemoryAllocError::OomError(vkimage::OomError::OutOfHostMemory))));
}
