//! What a device reports about itself: limits, per-format support, enabled extensions and
//! features, and the answers of its image queries.
use crate::desc::ImageAspect;
use crate::format::{Format, FormatFeatures, FormatProperties};
use vstd::prelude::*;

verus! {

/// Sample-count bit for a single sample.
pub const SAMPLE_COUNT_1_BIT: u32 = 1;

/// Every sample-count bit, from one sample up to sixty-four.
pub const ALL_SAMPLE_COUNTS: u32 = 0x7f;

/// Size of an image in texels along each axis.
#[derive(Clone, Copy, Debug, PartialEq, Eq, Structural)]
pub struct Extent3D {
    pub width: u32,
    pub height: u32,
    pub depth: u32,
}

/// Device limits that bound image creation. Sample counts are bitmasks with bit `k` standing
/// for `2^k` samples.
#[derive(Clone, Copy, Debug, PartialEq, Eq, Structural)]
pub struct Limits {
    pub max_image_dimension_1d: u32,
    pub max_image_dimension_2d: u32,
    pub max_image_dimension_3d: u32,
    pub max_image_dimension_cube: u32,
    pub max_image_array_layers: u32,
    pub sampled_image_color_sample_counts: u32,
    pub sampled_image_integer_sample_counts: u32,
    pub sampled_image_depth_sample_counts: u32,
    pub sampled_image_stencil_sample_counts: u32,
    pub storage_image_sample_counts: u32,
    pub framebuffer_color_sample_counts: u32,
    pub framebuffer_depth_sample_counts: u32,
    pub framebuffer_stencil_sample_counts: u32,
}

/// Optional device extensions that change how images are checked and queried.
#[derive(Clone, Copy, Debug, PartialEq, Eq, Structural)]
pub struct DeviceExtensions {
    /// Transfer usages are checked against the format's transfer features.
    pub khr_maintenance1: bool,
    /// Memory requirements are queried through the extended path.
    pub khr_get_memory_requirements2: bool,
    /// The extended memory query also reports the dedicated-allocation hint.
    pub khr_dedicated_allocation: bool,
}

/// Optional device features.
#[derive(Clone, Copy, Debug, PartialEq, Eq, Structural)]
pub struct Features {
    pub shader_storage_image_multisample: bool,
}

/// The most that the device supports for one format, type, tiling and usage.
#[derive(Clone, Copy, Debug, PartialEq, Eq, Structural)]
pub struct ImageFormatProperties {
    pub max_extent: Extent3D,
    pub max_mip_levels: u32,
    pub max_array_layers: u32,
    pub sample_counts: u32,
}

/// Failure status of a driver call.
#[derive(Clone, Copy, Debug, PartialEq, Eq, Structural)]
pub enum DriverError {
    OutOfHostMemory,
    OutOfDeviceMemory,
    FormatNotSupported,
}

/// Everything the device reports about one format.
#[derive(Clone, Copy, Debug)]
pub struct FormatSupport {
    pub format: Format,
    pub properties: FormatProperties,
    /// Answer of the detailed capability query for linear tiling.
    pub linear_limits: Result<ImageFormatProperties, DriverError>,
    /// Answer of the detailed capability query for optimal tiling.
    pub optimal_limits: Result<ImageFormatProperties, DriverError>,
}

/// Memory requirements as the driver reports them for an image.
#[derive(Clone, Copy, Debug, PartialEq, Eq, Structural)]
pub struct MemoryReport {
    pub size: u64,
    pub alignment: u64,
    pub memory_type_bits: u32,
    pub prefers_dedicated_allocation: bool,
}

/// Subresource layout as the driver reports it for a linear image.
#[derive(Clone, Copy, Debug, PartialEq, Eq, Structural)]
pub struct SubresourceLayout {
    pub offset: u64,
    pub size: u64,
    pub row_pitch: u64,
    pub array_pitch: u64,
    pub depth_pitch: u64,
}

/// The layout the driver reports for one aspect and mipmap level of linear images.
#[derive(Clone, Copy, Debug, PartialEq, Eq, Structural)]
pub struct SubresourceReport {
    pub aspect: ImageAspect,
    pub mip_level: u32,
    pub layout: SubresourceLayout,
}

/// The first layout report about `aspect` and `mip` at or after position `i`.
pub open spec fn lookup_layout(s: Seq<SubresourceReport>, aspect: ImageAspect, mip: u32, i: int) -> Option<
    SubresourceLayout,
>
    decreases s.len() - i,
{
    if i < 0 || i >= s.len() {
        None
    } else if s[i].aspect == aspect && s[i].mip_level == mip {
        Some(s[i].layout)
    } else {
        lookup_layout(s, aspect, mip, i + 1)
    }
}

/// A logical device, seen as a read-only source of capabilities and query answers.
pub struct Device {
    /// Identity of the device; two handles are the same image only on the same device.
    pub id: u64,
    pub limits: Limits,
    pub extensions: DeviceExtensions,
    pub features: Features,
    /// Per-format support; a format that is not listed supports nothing.
    pub formats: Vec<FormatSupport>,
    pub memory: MemoryReport,
    /// Subresource layouts of linear images; a subresource that is not listed has an
    /// all-zero layout.
    pub layouts: Vec<SubresourceReport>,
}

/// The first entry about `f` at or after position `i`.
pub open spec fn lookup(s: Seq<FormatSupport>, f: Format, i: int) -> Option<FormatSupport>
    decreases s.len() - i,
{
    if i < 0 || i >= s.len() {
        None
    } else if s[i].format == f {
        Some(s[i])
    } else {
        lookup(s, f, i + 1)
    }
}

impl Device {
    pub open spec fn spec_support(&self, f: Format) -> Option<FormatSupport> {
        lookup(self.formats@, f, 0)
    }

    pub open spec fn spec_properties(&self, f: Format) -> FormatProperties {
        match self.spec_support(f) {
            Some(s) => s.properties,
            None => FormatProperties {
                linear_tiling_features: empty_features(),
                optimal_tiling_features: empty_features(),
            },
        }
    }

    pub open spec fn spec_features(&self, f: Format, linear: bool) -> FormatFeatures {
        if linear {
            self.spec_properties(f).linear_tiling_features
        } else {
            self.spec_properties(f).optimal_tiling_features
        }
    }

    /// Answer of the detailed capability query for a format and tiling.
    pub open spec fn spec_image_format_properties(&self, f: Format, linear: bool) -> Result<
        ImageFormatProperties,
        DriverError,
    > {
        match self.spec_support(f) {
            Some(s) => if linear {
                s.linear_limits
            } else {
                s.optimal_limits
            },
            None => Err(DriverError::FormatNotSupported),
        }
    }

    pub open spec fn spec_subresource_layout(&self, aspect: ImageAspect, mip: u32) -> SubresourceLayout {
        match lookup_layout(self.layouts@, aspect, mip, 0) {
            Some(l) => l,
            None => SubresourceLayout { offset: 0, size: 0, row_pitch: 0, array_pitch: 0, depth_pitch: 0 },
        }
    }

    /// Layout of one aspect and mipmap level of a linear image.
    pub fn subresource_layout(&self, aspect: ImageAspect, mip: u32) -> (r: SubresourceLayout)
        ensures
            r == self.spec_subresource_layout(aspect, mip),
    {
        let mut i: usize = 0;
        while i < self.layouts.len()
            invariant
                i <= self.layouts@.len(),
                lookup_layout(self.layouts@, aspect, mip, i as int) == lookup_layout(self.layouts@, aspect, mip, 0),
            decreases self.layouts@.len() - i,
        {
            let entry = self.layouts[i];
            if entry.aspect == aspect && entry.mip_level == mip {
                return entry.layout;
            }
            i = i + 1;
        }
        SubresourceLayout { offset: 0, size: 0, row_pitch: 0, array_pitch: 0, depth_pitch: 0 }
    }

    fn support(&self, f: Format) -> (r: Option<FormatSupport>)
        ensures
            r == self.spec_support(f),
    {
        let mut i: usize = 0;
        while i < self.formats.len()
            invariant
                i <= self.formats@.len(),
                lookup(self.formats@, f, i as int) == lookup(self.formats@, f, 0),
            decreases self.formats@.len() - i,
        {
            if self.formats[i].format == f {
                return Some(self.formats[i]);
            }
            i = i + 1;
        }
        None
    }

    /// Features of a format under both tiling modes.
    pub fn properties(&self, f: Format) -> (r: FormatProperties)
        ensures
            r == self.spec_properties(f),
    {
        match self.support(f) {
            Some(s) => s.properties,
            None => FormatProperties {
                linear_tiling_features: FormatFeatures::none(),
                optimal_tiling_features: FormatFeatures::none(),
            },
        }
    }

    /// Detailed capability query for a format under one tiling mode.
    pub fn image_format_properties(&self, f: Format, linear: bool) -> (r: Result<
        ImageFormatProperties,
        DriverError,
    >)
        ensures
            r == self.spec_image_format_properties(f, linear),
    {
        match self.support(f) {
            Some(s) => if linear {
                s.linear_limits
            } else {
                s.optimal_limits
            },
            None => Err(DriverError::FormatNotSupported),
        }
    }
}

pub open spec fn empty_features() -> FormatFeatures {
    FormatFeatures {
        sampled_image: false,
        storage_image: false,
        color_attachment: false,
        depth_stencil_attachment: false,
        transfer_src: false,
        transfer_dst: false,
    }
}

} // verus!
