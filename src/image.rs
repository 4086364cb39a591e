//! Images: creation against a device's capabilities, import of foreign handles, memory
//! requirements, memory binding, linear layouts and release.
use crate::desc::{ImageAspect, ImageCreateFlags, ImageDimensions, ImageUsage, MipmapsCount};
use crate::device::{Device, DriverError};
use crate::error::{driver_error, spec_driver_error, ImageCreationError, OomError};
use crate::format::{Format, FormatFeatures, FormatTy};
use crate::native::{create_info, Binding, ObjectTable};
use crate::sharing::Sharing;
use crate::validate::{check_descriptor, spec_check, ImageDescriptor, ImageParams};
use std::sync::Arc;
use vstd::prelude::*;

verus! {

/// Size, alignment and compatible memory types of an image's backing memory.
#[derive(Clone, Copy, Debug, PartialEq, Eq, Structural)]
pub struct MemoryRequirements {
    pub size: u64,
    pub alignment: u64,
    /// Bit `k` is set when memory type `k` can back the image.
    pub memory_type_bits: u32,
    /// The driver prefers a dedicated allocation for this image.
    pub prefer_dedicated: bool,
}

/// A block of device memory.
#[derive(Clone, Copy, Debug, PartialEq, Eq, Structural)]
pub struct DeviceMemory {
    pub handle: u64,
    pub size: u64,
    pub memory_type_id: u32,
}

/// Describes the memory layout of an image with linear tiling.
///
/// The address of a texel at `(x, y, z, layer)` is `layer * array_pitch + z * depth_pitch +
/// y * row_pitch + x * size_of_each_texel + offset`. `size_of_each_texel` must be determined
/// depending on the format. The same formula applies for compressed formats, except that the
/// coordinates must be in number of blocks.
#[derive(Clone, Copy, Debug, PartialEq, Eq, Structural)]
pub struct LinearLayout {
    /// Number of bytes from the start of the memory and the start of the queried subresource.
    pub offset: u64,
    /// Total number of bytes for the queried subresource.
    pub size: u64,
    /// Number of bytes between two texels or two blocks in adjacent rows.
    pub row_pitch: u64,
    /// Number of bytes between two texels or two blocks in adjacent array layers.
    pub array_pitch: u64,
    /// Number of bytes between two texels or two blocks in adjacent depth layers.
    pub depth_pitch: u64,
}

/// Who is responsible for the native object behind an image.
#[derive(Clone, Copy, Debug, PartialEq, Eq, Structural)]
pub enum Ownership {
    /// Created here; destroyed on release.
    Owned,
    /// Imported from elsewhere (for example a swapchain); never destroyed here.
    Borrowed,
    /// Owned, and already destroyed.
    Released,
}

/// A storage for pixels or arbitrary data, backed by a native image object.
///
/// Binding memory, keeping it alive, queue family ownership and layout transitions are the
/// caller's responsibility.
pub struct UnsafeImage {
    image: u64,
    device: Arc<Device>,
    usage: ImageUsage,
    format: Format,
    flags: ImageCreateFlags,
    dimensions: ImageDimensions,
    samples: u32,
    mipmaps: u32,
    format_features: FormatFeatures,
    linear_tiling: bool,
    ownership: Ownership,
    preinitialized_layout: bool,
}

/// Memory requirements that the device reports for its images: the extended query adds the
/// dedicated-allocation hint when the dedicated-allocation extension is loaded; the basic
/// query leaves it unset.
pub open spec fn spec_requirements(dev: &Device) -> MemoryRequirements {
    MemoryRequirements {
        size: dev.memory.size,
        alignment: dev.memory.alignment,
        memory_type_bits: dev.memory.memory_type_bits,
        prefer_dedicated: dev.extensions.khr_get_memory_requirements2
            && dev.extensions.khr_dedicated_allocation && dev.memory.prefers_dedicated_allocation,
    }
}

/// Queries the memory requirements of the device's images.
fn query_requirements(dev: &Device) -> (r: MemoryRequirements)
    ensures
        r == spec_requirements(dev),
{
    let mut out = MemoryRequirements {
        size: dev.memory.size,
        alignment: dev.memory.alignment,
        memory_type_bits: dev.memory.memory_type_bits,
        prefer_dedicated: false,
    };
    if dev.extensions.khr_get_memory_requirements2 && dev.extensions.khr_dedicated_allocation {
        out.prefer_dedicated = dev.memory.prefers_dedicated_allocation;
    }
    out
}

/// Layout of one aspect and mipmap level, as the device reports it.
pub open spec fn spec_layout(dev: &Device, aspect: ImageAspect, mip_level: u32) -> LinearLayout {
    let l = dev.spec_subresource_layout(aspect, mip_level);
    LinearLayout {
        offset: l.offset,
        size: l.size,
        row_pitch: l.row_pitch,
        array_pitch: l.array_pitch,
        depth_pitch: l.depth_pitch,
    }
}

impl UnsafeImage {
    pub closed spec fn spec_handle(&self) -> u64 {
        self.image
    }

    pub closed spec fn spec_device(&self) -> Arc<Device> {
        self.device
    }

    pub closed spec fn spec_usage(&self) -> ImageUsage {
        self.usage
    }

    pub closed spec fn spec_format(&self) -> Format {
        self.format
    }

    pub closed spec fn spec_flags(&self) -> ImageCreateFlags {
        self.flags
    }

    pub closed spec fn spec_dimensions(&self) -> ImageDimensions {
        self.dimensions
    }

    pub closed spec fn spec_samples(&self) -> u32 {
        self.samples
    }

    pub closed spec fn spec_mipmaps(&self) -> u32 {
        self.mipmaps
    }

    pub closed spec fn spec_format_features(&self) -> FormatFeatures {
        self.format_features
    }

    pub closed spec fn spec_linear_tiling(&self) -> bool {
        self.linear_tiling
    }

    pub closed spec fn spec_ownership(&self) -> Ownership {
        self.ownership
    }

    pub closed spec fn spec_preinitialized_layout(&self) -> bool {
        self.preinitialized_layout
    }

    /// Everything but the ownership is the same.
    pub open spec fn same_except_ownership(&self, o: UnsafeImage) -> bool {
        &&& self.spec_handle() == o.spec_handle()
        &&& self.spec_device() == o.spec_device()
        &&& self.spec_usage() == o.spec_usage()
        &&& self.spec_format() == o.spec_format()
        &&& self.spec_flags() == o.spec_flags()
        &&& self.spec_dimensions() == o.spec_dimensions()
        &&& self.spec_samples() == o.spec_samples()
        &&& self.spec_mipmaps() == o.spec_mipmaps()
        &&& self.spec_format_features() == o.spec_format_features()
        &&& self.spec_linear_tiling() == o.spec_linear_tiling()
        &&& self.spec_preinitialized_layout() == o.spec_preinitialized_layout()
    }

    /// The image that validated parameters describe, on a handle.
    pub open spec fn matches_params(&self, dev: Arc<Device>, h: u64, p: ImageParams) -> bool {
        &&& self.spec_handle() == h
        &&& self.spec_device() == dev
        &&& self.spec_usage() == p.desc.usage
        &&& self.spec_format() == p.desc.format
        &&& self.spec_flags() == p.desc.flags
        &&& self.spec_dimensions() == p.desc.dimensions
        &&& self.spec_samples() == p.desc.samples
        &&& self.spec_mipmaps() == p.mipmaps
        &&& self.spec_format_features() == p.format_features
        &&& self.spec_linear_tiling() == p.desc.linear_tiling
        &&& self.spec_preinitialized_layout() == p.desc.preinitialized_layout
        &&& self.spec_ownership() == Ownership::Owned
    }

    /// Creates a new image after checking the description against the device, and returns
    /// it with its memory requirements. Memory must then be bound with `bind_memory`.
    ///
    /// Fails with the error of the checks (see `spec_check`) and creates nothing; otherwise
    /// fails only when the driver cannot create the image. A concurrent sharing list holds at
    /// most `0x1000_0000` queue families.
    pub fn new(
        device: Arc<Device>,
        objects: &mut ObjectTable,
        usage: ImageUsage,
        format: Format,
        flags: ImageCreateFlags,
        dimensions: ImageDimensions,
        num_samples: u32,
        mipmaps: MipmapsCount,
        sharing: Sharing,
        linear_tiling: bool,
        preinitialized_layout: bool,
    ) -> (r: Result<(UnsafeImage, MemoryRequirements), ImageCreationError>)
        requires
            old(objects).wf(),
            sharing.spec_indices().len() <= 0x1000_0000,
        ensures
            final(objects).wf(),
            final(objects).spec_destroyed() == old(objects).spec_destroyed(),
            final(objects).spec_bindings() == old(objects).spec_bindings(),
            ({
                let d = ImageDescriptor {
                    usage,
                    format,
                    flags,
                    dimensions,
                    samples: num_samples,
                    mipmaps,
                    linear_tiling,
                    preinitialized_layout,
                };
                match spec_check(&*device, d) {
                    Err(e) => r == Err::<(UnsafeImage, MemoryRequirements), ImageCreationError>(e)
                        && *final(objects) == *old(objects),
                    Ok(p) => if old(objects).spec_next() == u64::MAX {
                        r == Err::<(UnsafeImage, MemoryRequirements), ImageCreationError>(
                            spec_driver_error(DriverError::OutOfHostMemory),
                        ) && *final(objects) == *old(objects)
                    } else {
                        &&& r is Ok
                        &&& r->Ok_0.0.matches_params(device, old(objects).spec_next(), p)
                        &&& r->Ok_0.1 == spec_requirements(&*device)
                        &&& !old(objects).spec_was_created(old(objects).spec_next())
                        &&& final(objects).spec_created().len() == old(objects).spec_created().len() + 1
                        &&& final(objects).spec_created().last().handle == old(objects).spec_next()
                    },
                }
            }),
    {
        let d = ImageDescriptor {
            usage,
            format,
            flags,
            dimensions,
            samples: num_samples,
            mipmaps,
            linear_tiling,
            preinitialized_layout,
        };
        let p = match check_descriptor(&*device, &d) {
            Ok(p) => p,
            Err(e) => return Err(e),
        };
        let info = create_info(&p, &sharing);
        let image = match objects.create_image(&info) {
            Ok(h) => h,
            Err(e) => return Err(driver_error(e)),
        };
        let reqs = query_requirements(&*device);
        let img = UnsafeImage {
            image,
            device,
            usage,
            format,
            flags,
            dimensions,
            samples: num_samples,
            mipmaps: p.mipmaps,
            format_features: p.format_features,
            linear_tiling,
            ownership: Ownership::Owned,
            preinitialized_layout,
        };
        Ok((img, reqs))
    }

    /// Wraps an image handle created elsewhere (for example by a swapchain). The image is
    /// never destroyed through this value.
    pub fn from_raw(
        device: Arc<Device>,
        handle: u64,
        usage: ImageUsage,
        format: Format,
        flags: ImageCreateFlags,
        dimensions: ImageDimensions,
        samples: u32,
        mipmaps: u32,
    ) -> (r: UnsafeImage)
        ensures
            r.spec_handle() == handle,
            r.spec_device() == device,
            r.spec_usage() == usage,
            r.spec_format() == format,
            r.spec_flags() == flags,
            r.spec_dimensions() == dimensions,
            r.spec_samples() == samples,
            r.spec_mipmaps() == mipmaps,
            r.spec_format_features() == device.spec_properties(format).optimal_tiling_features,
            !r.spec_linear_tiling(),
            !r.spec_preinitialized_layout(),
            r.spec_ownership() == Ownership::Borrowed,
    {
        let props = device.properties(format);
        UnsafeImage {
            image: handle,
            device,
            usage,
            format,
            flags,
            dimensions,
            samples,
            mipmaps,
            format_features: props.optimal_tiling_features,
            linear_tiling: false,
            ownership: Ownership::Borrowed,
            preinitialized_layout: false,
        }
    }

    /// Memory requirements of the image, as the device reports them.
    pub fn get_requirements(&self) -> (r: MemoryRequirements)
        ensures
            r == spec_requirements(&*self.spec_device()),
    {
        query_requirements(&*self.device)
    }

    /// Whether `memory` at `offset` meets the requirements that the basic query reports:
    /// large enough past the offset, aligned, and of a compatible memory type.
    pub open spec fn memory_fits(&self, memory: DeviceMemory, offset: u64) -> bool {
        let m = self.spec_device().memory;
        &&& offset <= memory.size
        &&& m.size <= memory.size - offset
        &&& m.alignment > 0
        &&& offset % m.alignment == 0
        &&& memory.memory_type_id < 32
        &&& m.memory_type_bits & (1u32 << memory.memory_type_id) != 0
    }

    /// Binds memory to the image at an offset.
    pub fn bind_memory(&self, objects: &mut ObjectTable, memory: &DeviceMemory, offset: u64) -> (r: Result<(), OomError>)
        requires
            old(objects).wf(),
            self.spec_ownership() != Ownership::Released,
            self.memory_fits(*memory, offset),
        ensures
            final(objects).wf(),
            r is Ok,
            final(objects).spec_next() == old(objects).spec_next(),
            final(objects).spec_created() == old(objects).spec_created(),
            final(objects).spec_destroyed() == old(objects).spec_destroyed(),
            final(objects).spec_bindings() == old(objects).spec_bindings().push(
                Binding { image: self.spec_handle(), memory: memory.handle, offset },
            ),
    {
        objects.bind_image_memory(self.image, memory.handle, offset);
        Ok(())
    }

    /// Releases the image: the native destroy call is made once for an owned image, and
    /// never for an imported one or one already released.
    pub fn destroy(&mut self, objects: &mut ObjectTable)
        requires
            old(objects).wf(),
        ensures
            final(objects).wf(),
            release_step(*old(self), *old(objects), *final(self), *final(objects)),
    {
        if self.ownership == Ownership::Owned {
            objects.destroy_image(self.image);
            self.ownership = Ownership::Released;
        }
    }
}

impl UnsafeImage {
    /// The device the image belongs to.
    pub fn device(&self) -> (r: &Arc<Device>)
        ensures
            *r == self.spec_device(),
    {
        &self.device
    }

    pub fn format(&self) -> (r: Format)
        ensures
            r == self.spec_format(),
    {
        self.format
    }

    pub fn create_flags(&self) -> (r: ImageCreateFlags)
        ensures
            r == self.spec_flags(),
    {
        self.flags
    }

    pub fn mipmap_levels(&self) -> (r: u32)
        ensures
            r == self.spec_mipmaps(),
    {
        self.mipmaps
    }

    pub fn dimensions(&self) -> (r: ImageDimensions)
        ensures
            r == self.spec_dimensions(),
    {
        self.dimensions
    }

    pub fn samples(&self) -> (r: u32)
        ensures
            r == self.spec_samples(),
    {
        self.samples
    }

    /// A key unique to each image of a device: its native handle.
    pub fn key(&self) -> (r: u64)
        ensures
            r == self.spec_handle(),
    {
        self.image
    }

    /// The native handle of the image.
    pub fn internal_object(&self) -> (r: u64)
        ensures
            r == self.spec_handle(),
    {
        self.image
    }

    /// Returns the flags the image was created with.
    pub fn flags(&self) -> (r: ImageCreateFlags)
        ensures
            r == self.spec_flags(),
    {
        self.flags
    }

    /// Returns the features supported by the image's format.
    pub fn format_features(&self) -> (r: FormatFeatures)
        ensures
            r == self.spec_format_features(),
    {
        self.format_features
    }

    /// Returns the usage the image was created with.
    pub fn usage(&self) -> (r: ImageUsage)
        ensures
            r == self.spec_usage(),
    {
        self.usage
    }

    pub fn preinitialized_layout(&self) -> (r: bool)
        ensures
            r == self.spec_preinitialized_layout(),
    {
        self.preinitialized_layout
    }

    /// Who is responsible for the native object.
    pub fn ownership(&self) -> (r: Ownership)
        ensures
            r == self.spec_ownership(),
    {
        self.ownership
    }

    /// Whether a layout query on a mipmap level of this image is allowed: the image is live,
    /// linearly tiled, and has that level.
    pub open spec fn layout_queryable(&self, mip_level: u32) -> bool {
        &&& self.spec_ownership() != Ownership::Released
        &&& self.spec_linear_tiling()
        &&& mip_level < self.spec_mipmaps()
    }

    /// Queries the layout of a color image in memory.
    pub fn color_linear_layout(&self, mip_level: u32) -> (r: LinearLayout)
        requires
            self.layout_queryable(mip_level),
            self.spec_format().spec_ty() != FormatTy::Depth,
            self.spec_format().spec_ty() != FormatTy::Stencil,
            self.spec_format().spec_ty() != FormatTy::DepthStencil,
        ensures
            r == spec_layout(&*self.spec_device(), ImageAspect::Color, mip_level),
    {
        self.linear_layout_impl(mip_level, ImageAspect::Color)
    }

    /// Queries the layout of the depth component of an image in memory.
    pub fn depth_linear_layout(&self, mip_level: u32) -> (r: LinearLayout)
        requires
            self.layout_queryable(mip_level),
            self.spec_format().spec_ty() == FormatTy::Depth || self.spec_format().spec_ty()
                == FormatTy::DepthStencil,
        ensures
            r == spec_layout(&*self.spec_device(), ImageAspect::Depth, mip_level),
    {
        self.linear_layout_impl(mip_level, ImageAspect::Depth)
    }

    /// Queries the layout of the stencil component of an image in memory.
    pub fn stencil_linear_layout(&self, mip_level: u32) -> (r: LinearLayout)
        requires
            self.layout_queryable(mip_level),
            self.spec_format().spec_ty() == FormatTy::Stencil || self.spec_format().spec_ty()
                == FormatTy::DepthStencil,
        ensures
            r == spec_layout(&*self.spec_device(), ImageAspect::Stencil, mip_level),
    {
        self.linear_layout_impl(mip_level, ImageAspect::Stencil)
    }

    /// Queries the layout of the color aspect or of one plane of a single-level image. Plane
    /// aspects need a multi-planar format, and the third plane the three-plane format.
    pub fn multiplane_color_layout(&self, aspect: ImageAspect) -> (r: LinearLayout)
        requires
            self.layout_queryable(0),
            self.spec_mipmaps() == 1,
            aspect == ImageAspect::Color || aspect == ImageAspect::Plane0 || aspect
                == ImageAspect::Plane1 || aspect == ImageAspect::Plane2,
            aspect != ImageAspect::Color ==> self.spec_format().spec_ty() == FormatTy::Ycbcr,
            aspect == ImageAspect::Plane2 ==> self.spec_format() == Format::G8B8R8_3PLANE420Unorm,
        ensures
            r == spec_layout(&*self.spec_device(), aspect, 0),
    {
        self.linear_layout_impl(0, aspect)
    }

    fn linear_layout_impl(&self, mip_level: u32, aspect: ImageAspect) -> (r: LinearLayout)
        requires
            self.layout_queryable(mip_level),
        ensures
            r == spec_layout(&*self.spec_device(), aspect, mip_level),
    {
        let out = self.device.subresource_layout(aspect, mip_level);
        LinearLayout {
            offset: out.offset,
            size: out.size,
            row_pitch: out.row_pitch,
            array_pitch: out.array_pitch,
            depth_pitch: out.depth_pitch,
        }
    }
}

impl PartialEq for UnsafeImage {
    /// Two images are the same when they have the same handle on the same device.
    fn eq(&self, other: &UnsafeImage) -> (r: bool) {
        self.image == other.image && self.device.id == other.device.id
    }
}

impl vstd::std_specs::cmp::PartialEqSpecImpl for UnsafeImage {
    open spec fn obeys_eq_spec() -> bool {
        true
    }

    open spec fn eq_spec(&self, other: &UnsafeImage) -> bool {
        self.spec_handle() == other.spec_handle() && self.spec_device().id
            == other.spec_device().id
    }
}

impl Eq for UnsafeImage {

}

/// One release of an image: an owned image makes the native destroy call on its handle
/// and becomes released; any other image, and the table, stay as they are.
pub open spec fn release_step(a: UnsafeImage, ta: ObjectTable, b: UnsafeImage, tb: ObjectTable) -> bool {
    if a.spec_ownership() == Ownership::Owned {
        &&& b.spec_ownership() == Ownership::Released
        &&& b.same_except_ownership(a)
        &&& tb.spec_destroyed() == ta.spec_destroyed().push(a.spec_handle())
        &&& tb.spec_created() == ta.spec_created()
        &&& tb.spec_bindings() == ta.spec_bindings()
        &&& tb.spec_next() == ta.spec_next()
    } else {
        b == a && tb == ta
    }
}

} // verus!
