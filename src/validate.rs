//! Checking an image description against a device's capabilities.
//!
//! Checking happens in two phases. `validate` applies every rule that the static capability
//! tables decide; a few limits (mipmap count, sample count, dimensions) are only known to be
//! possibly exceeded, and such a failure is deferred. `resolve_deferred` then settles a
//! deferred failure with the answer of the detailed capability query.
use crate::desc::{ImageCreateFlags, ImageDimensions, ImageUsage, MipmapsCount};
use crate::device::{
    Device, DriverError, Extent3D, ImageFormatProperties, Limits, ALL_SAMPLE_COUNTS,
    SAMPLE_COUNT_1_BIT,
};
use crate::error::{driver_error, spec_driver_error, ImageCreationError};
use crate::format::{Format, FormatFeatures, FormatTy};
use vstd::prelude::*;

verus! {

/// Everything a caller states about an image to create.
#[derive(Clone, Copy, Debug, PartialEq, Eq, Structural)]
pub struct ImageDescriptor {
    pub usage: ImageUsage,
    pub format: Format,
    pub flags: ImageCreateFlags,
    pub dimensions: ImageDimensions,
    pub samples: u32,
    pub mipmaps: MipmapsCount,
    pub linear_tiling: bool,
    pub preinitialized_layout: bool,
}

/// Native image type.
#[derive(Clone, Copy, Debug, PartialEq, Eq, Structural)]
pub enum ImageType {
    Dim1d,
    Dim2d,
    Dim3d,
}

/// A description that passed the checks, with the mipmap policy resolved to a count and the
/// dimensions decoded into a native extent.
#[derive(Clone, Copy, Debug, PartialEq, Eq, Structural)]
pub struct ImageParams {
    pub desc: ImageDescriptor,
    pub ty: ImageType,
    pub extent: Extent3D,
    pub array_layers: u32,
    pub mipmaps: u32,
    pub format_features: FormatFeatures,
}

/// Outcome of the first checking phase.
#[derive(Debug)]
pub enum Validation {
    /// Every rule holds.
    Ready(ImageParams),
    /// Every fatal rule holds, but a limit may be exceeded: the error stands unless the
    /// detailed capability query admits the parameters.
    Deferred(ImageParams, ImageCreationError),
    /// A rule is broken.
    Fatal(ImageCreationError),
}

pub open spec fn flags_unimplemented(f: ImageCreateFlags) -> bool {
    f.sparse_binding || f.sparse_residency || f.sparse_aliased || f.mutable_format
}

/// Every requested usage has the format feature it needs; transfer usages are checked only
/// when `check_transfer` holds.
pub open spec fn usage_supported(u: ImageUsage, f: FormatFeatures, check_transfer: bool) -> bool {
    &&& u.sampled ==> f.sampled_image
    &&& u.storage ==> f.storage_image
    &&& u.color_attachment ==> f.color_attachment
    &&& u.depth_stencil_attachment ==> f.depth_stencil_attachment
    &&& u.input_attachment ==> (f.color_attachment || f.depth_stencil_attachment)
    &&& check_transfer ==> (u.transfer_source ==> f.transfer_src)
    &&& check_transfer ==> (u.transfer_destination ==> f.transfer_dst)
}

/// A transient attachment may only be combined with other attachment usages.
pub open spec fn transient_allowed(u: ImageUsage) -> bool {
    u.transient_attachment ==> (!u.transfer_source && !u.transfer_destination && !u.sampled
        && !u.storage)
}

pub open spec fn spec_resolved_mipmaps(m: MipmapsCount, d: ImageDimensions) -> u32 {
    match m {
        MipmapsCount::Specific(n) => n,
        MipmapsCount::Log2 => d.spec_max_mipmaps(),
        MipmapsCount::One => 1,
    }
}

pub open spec fn mip_range(d: ImageDimensions) -> std::ops::Range<u32> {
    std::ops::Range { start: 1, end: (d.spec_max_mipmaps() + 1) as u32 }
}

pub open spec fn mip_error(n: u32, d: ImageDimensions) -> ImageCreationError {
    ImageCreationError::InvalidMipmapsCount { obtained: n, valid_range: mip_range(d) }
}

pub open spec fn mip_exceeds(m: MipmapsCount, d: ImageDimensions) -> bool {
    match m {
        MipmapsCount::Specific(n) => n > d.spec_max_mipmaps(),
        _ => false,
    }
}

pub open spec fn is_power_of_two(n: u32) -> bool {
    n != 0 && n & ((n - 1) as u32) == 0
}

/// Sample counts that the device limits allow for this usage and format class.
pub open spec fn spec_sample_mask(l: Limits, u: ImageUsage, ty: FormatTy) -> u32 {
    let m0 = ALL_SAMPLE_COUNTS;
    let m1 = if u.sampled {
        match ty {
            FormatTy::Float | FormatTy::Compressed => m0 & l.sampled_image_color_sample_counts,
            FormatTy::Uint | FormatTy::Sint => m0 & l.sampled_image_integer_sample_counts,
            FormatTy::Depth => m0 & l.sampled_image_depth_sample_counts,
            FormatTy::Stencil => m0 & l.sampled_image_stencil_sample_counts,
            FormatTy::DepthStencil => m0 & l.sampled_image_depth_sample_counts
                & l.sampled_image_stencil_sample_counts,
            FormatTy::Ycbcr => m0 & SAMPLE_COUNT_1_BIT,
        }
    } else {
        m0
    };
    let m2 = if u.storage {
        m1 & l.storage_image_sample_counts
    } else {
        m1
    };
    if u.spec_any_attachment() {
        match ty {
            FormatTy::Depth => m2 & l.framebuffer_depth_sample_counts,
            FormatTy::Stencil => m2 & l.framebuffer_stencil_sample_counts,
            FormatTy::DepthStencil => m2 & l.framebuffer_depth_sample_counts
                & l.framebuffer_stencil_sample_counts,
            _ => m2 & l.framebuffer_color_sample_counts,
        }
    } else {
        m2
    }
}

/// Native type, extent and array-layer count of the dimensions.
pub open spec fn spec_decode(d: ImageDimensions) -> (ImageType, Extent3D, u32) {
    match d {
        ImageDimensions::Dim1d { width, array_layers } => (
            ImageType::Dim1d,
            Extent3D { width, height: 1, depth: 1 },
            array_layers,
        ),
        ImageDimensions::Dim2d { width, height, array_layers } => (
            ImageType::Dim2d,
            Extent3D { width, height, depth: 1 },
            array_layers,
        ),
        ImageDimensions::Dim3d { width, height, depth } => (
            ImageType::Dim3d,
            Extent3D { width, height, depth },
            1,
        ),
    }
}

pub open spec fn has_zero_dimension(d: ImageDimensions) -> bool {
    let (_, e, layers) = spec_decode(d);
    e.width == 0 || e.height == 0 || e.depth == 0 || layers == 0
}

/// Cube compatibility needs a square 2D image with at least six layers; 2D-array
/// compatibility needs a 3D image.
pub open spec fn flag_requirements_met(f: ImageCreateFlags, d: ImageDimensions) -> bool {
    let (ty, e, layers) = spec_decode(d);
    &&& f.cube_compatible ==> (ty == ImageType::Dim2d && e.width == e.height && layers >= 6)
    &&& f.array_2d_compatible ==> ty == ImageType::Dim3d
}

pub open spec fn exceeds_limits(l: Limits, f: ImageCreateFlags, d: ImageDimensions) -> bool {
    let (ty, e, layers) = spec_decode(d);
    ||| layers > l.max_image_array_layers
    ||| ty == ImageType::Dim1d && e.width > l.max_image_dimension_1d
    ||| ty == ImageType::Dim2d && (e.width > l.max_image_dimension_2d || e.height
        > l.max_image_dimension_2d)
    ||| ty == ImageType::Dim2d && f.cube_compatible && e.width > l.max_image_dimension_cube
    ||| ty == ImageType::Dim3d && (e.width > l.max_image_dimension_3d || e.height
        > l.max_image_dimension_3d || e.depth > l.max_image_dimension_3d)
}

pub open spec fn spec_params(dev: &Device, d: ImageDescriptor) -> ImageParams {
    let (ty, extent, layers) = spec_decode(d.dimensions);
    ImageParams {
        desc: d,
        ty,
        extent,
        array_layers: layers,
        mipmaps: spec_resolved_mipmaps(d.mipmaps, d.dimensions),
        format_features: dev.spec_features(d.format, d.linear_tiling),
    }
}

/// The fatal error of the first phase, if any, in the order in which the rules are applied.
pub open spec fn spec_fatal(dev: &Device, d: ImageDescriptor) -> Option<ImageCreationError> {
    let features = dev.spec_features(d.format, d.linear_tiling);
    let ty = d.format.spec_ty();
    if flags_unimplemented(d.flags) {
        Some(ImageCreationError::FeatureNotImplemented)
    } else if features.spec_is_empty() {
        Some(ImageCreationError::FormatNotSupported)
    } else if !usage_supported(d.usage, features, dev.extensions.khr_maintenance1) {
        Some(ImageCreationError::UnsupportedUsage)
    } else if d.usage.spec_is_none() {
        Some(ImageCreationError::UnsupportedUsage)
    } else if !transient_allowed(d.usage) {
        Some(ImageCreationError::UnsupportedUsage)
    } else if d.mipmaps == MipmapsCount::Specific(0) {
        Some(mip_error(0, d.dimensions))
    } else if !is_power_of_two(d.samples) {
        Some(ImageCreationError::UnsupportedSamplesCount { obtained: d.samples })
    } else if d.usage.spec_any_attachment() && ty == FormatTy::Ycbcr {
        Some(ImageCreationError::UnsupportedUsage)
    } else if d.usage.storage && d.samples > 1 && !dev.features.shader_storage_image_multisample {
        Some(ImageCreationError::ShaderStorageImageMultisampleFeatureNotEnabled)
    } else if has_zero_dimension(d.dimensions) {
        Some(ImageCreationError::UnsupportedDimensions { dimensions: d.dimensions })
    } else if !flag_requirements_met(d.flags, d.dimensions) {
        Some(ImageCreationError::CreationFlagRequirementsNotMet)
    } else {
        None
    }
}

/// The deferred error, if any: the last limit found exceeded, among mipmaps, samples and
/// dimensions in that order.
pub open spec fn spec_deferred(dev: &Device, d: ImageDescriptor) -> Option<ImageCreationError> {
    if exceeds_limits(dev.limits, d.flags, d.dimensions) {
        Some(ImageCreationError::UnsupportedDimensions { dimensions: d.dimensions })
    } else if d.samples & spec_sample_mask(dev.limits, d.usage, d.format.spec_ty()) == 0 {
        Some(ImageCreationError::UnsupportedSamplesCount { obtained: d.samples })
    } else if mip_exceeds(d.mipmaps, d.dimensions) {
        Some(mip_error(spec_resolved_mipmaps(d.mipmaps, d.dimensions), d.dimensions))
    } else {
        None
    }
}

pub open spec fn spec_validate(dev: &Device, d: ImageDescriptor) -> Validation {
    match spec_fatal(dev, d) {
        Some(e) => Validation::Fatal(e),
        None => match spec_deferred(dev, d) {
            Some(e) => Validation::Deferred(spec_params(dev, d), e),
            None => Validation::Ready(spec_params(dev, d)),
        },
    }
}

fn check_usage(u: &ImageUsage, f: &FormatFeatures, check_transfer: bool) -> (r: bool)
    ensures
        r == usage_supported(*u, *f, check_transfer),
{
    if u.sampled && !f.sampled_image {
        return false;
    }
    if u.storage && !f.storage_image {
        return false;
    }
    if u.color_attachment && !f.color_attachment {
        return false;
    }
    if u.depth_stencil_attachment && !f.depth_stencil_attachment {
        return false;
    }
    if u.input_attachment && !(f.color_attachment || f.depth_stencil_attachment) {
        return false;
    }
    if check_transfer {
        if u.transfer_source && !f.transfer_src {
            return false;
        }
        if u.transfer_destination && !f.transfer_dst {
            return false;
        }
    }
    true
}

/// Sample counts that the device limits allow for this usage and format class.
pub fn sample_mask(l: &Limits, u: &ImageUsage, ty: FormatTy) -> (r: u32)
    ensures
        r == spec_sample_mask(*l, *u, ty),
{
    let mut m: u32 = ALL_SAMPLE_COUNTS;
    if u.sampled {
        m = match ty {
            FormatTy::Float | FormatTy::Compressed => m & l.sampled_image_color_sample_counts,
            FormatTy::Uint | FormatTy::Sint => m & l.sampled_image_integer_sample_counts,
            FormatTy::Depth => m & l.sampled_image_depth_sample_counts,
            FormatTy::Stencil => m & l.sampled_image_stencil_sample_counts,
            FormatTy::DepthStencil => m & l.sampled_image_depth_sample_counts
                & l.sampled_image_stencil_sample_counts,
            FormatTy::Ycbcr => m & SAMPLE_COUNT_1_BIT,
        };
    }
    if u.storage {
        m = m & l.storage_image_sample_counts;
    }
    if u.color_attachment || u.depth_stencil_attachment || u.input_attachment
        || u.transient_attachment {
        m = match ty {
            FormatTy::Depth => m & l.framebuffer_depth_sample_counts,
            FormatTy::Stencil => m & l.framebuffer_stencil_sample_counts,
            FormatTy::DepthStencil => m & l.framebuffer_depth_sample_counts
                & l.framebuffer_stencil_sample_counts,
            _ => m & l.framebuffer_color_sample_counts,
        };
    }
    m
}

fn decode(d: &ImageDimensions) -> (r: (ImageType, Extent3D, u32))
    ensures
        r == spec_decode(*d),
{
    match *d {
        ImageDimensions::Dim1d { width, array_layers } => (
            ImageType::Dim1d,
            Extent3D { width, height: 1, depth: 1 },
            array_layers,
        ),
        ImageDimensions::Dim2d { width, height, array_layers } => (
            ImageType::Dim2d,
            Extent3D { width, height, depth: 1 },
            array_layers,
        ),
        ImageDimensions::Dim3d { width, height, depth } => (
            ImageType::Dim3d,
            Extent3D { width, height, depth },
            1,
        ),
    }
}

fn check_limits(l: &Limits, f: &ImageCreateFlags, d: &ImageDimensions) -> (r: bool)
    ensures
        r == exceeds_limits(*l, *f, *d),
{
    let (ty, e, layers) = decode(d);
    let mut exceeded = layers > l.max_image_array_layers;
    match ty {
        ImageType::Dim1d => {
            if e.width > l.max_image_dimension_1d {
                exceeded = true;
            }
        },
        ImageType::Dim2d => {
            if e.width > l.max_image_dimension_2d || e.height > l.max_image_dimension_2d {
                exceeded = true;
            }
            if f.cube_compatible && e.width > l.max_image_dimension_cube {
                exceeded = true;
            }
        },
        ImageType::Dim3d => {
            if e.width > l.max_image_dimension_3d || e.height > l.max_image_dimension_3d
                || e.depth > l.max_image_dimension_3d {
                exceeded = true;
            }
        },
    }
    exceeded
}

/// First checking phase: applies every rule that the device's static tables decide, in
/// order, and defers the limits that the detailed capability query may still admit.
pub fn validate(dev: &Device, d: &ImageDescriptor) -> (r: Validation)
    ensures
        r == spec_validate(dev, *d),
{
    if d.flags.sparse_binding || d.flags.sparse_residency || d.flags.sparse_aliased
        || d.flags.mutable_format {
        return Validation::Fatal(ImageCreationError::FeatureNotImplemented);
    }
    let props = dev.properties(d.format);
    let features = if d.linear_tiling {
        props.linear_tiling_features
    } else {
        props.optimal_tiling_features
    };
    if features.is_empty() {
        return Validation::Fatal(ImageCreationError::FormatNotSupported);
    }
    if !check_usage(&d.usage, &features, dev.extensions.khr_maintenance1) {
        return Validation::Fatal(ImageCreationError::UnsupportedUsage);
    }
    if d.usage.is_none() {
        return Validation::Fatal(ImageCreationError::UnsupportedUsage);
    }
    if d.usage.transient_attachment && (d.usage.transfer_source || d.usage.transfer_destination
        || d.usage.sampled || d.usage.storage) {
        return Validation::Fatal(ImageCreationError::UnsupportedUsage);
    }
    let max_mipmaps = d.dimensions.max_mipmaps();
    let mut mip_exceeded = false;
    let mipmaps: u32 = match d.mipmaps {
        MipmapsCount::Specific(n) => {
            if n < 1 {
                return Validation::Fatal(
                    ImageCreationError::InvalidMipmapsCount {
                        obtained: n,
                        valid_range: std::ops::Range { start: 1, end: max_mipmaps + 1 },
                    },
                );
            }
            mip_exceeded = n > max_mipmaps;
            n
        },
        MipmapsCount::Log2 => max_mipmaps,
        MipmapsCount::One => 1,
    };
    let samples = d.samples;
    if samples == 0 || samples & (samples - 1) != 0 {
        return Validation::Fatal(ImageCreationError::UnsupportedSamplesCount { obtained: samples });
    }
    let ty = d.format.ty();
    if (d.usage.color_attachment || d.usage.depth_stencil_attachment || d.usage.input_attachment
        || d.usage.transient_attachment) && ty == FormatTy::Ycbcr {
        return Validation::Fatal(ImageCreationError::UnsupportedUsage);
    }
    let samples_unsupported = samples & sample_mask(&dev.limits, &d.usage, ty) == 0;
    if d.usage.storage && samples > 1 && !dev.features.shader_storage_image_multisample {
        return Validation::Fatal(ImageCreationError::ShaderStorageImageMultisampleFeatureNotEnabled);
    }
    let (image_ty, extent, array_layers) = decode(&d.dimensions);
    if extent.width == 0 || extent.height == 0 || extent.depth == 0 || array_layers == 0 {
        return Validation::Fatal(ImageCreationError::UnsupportedDimensions { dimensions: d.dimensions });
    }
    if d.flags.cube_compatible && !(image_ty == ImageType::Dim2d && extent.width == extent.height
        && array_layers >= 6) {
        return Validation::Fatal(ImageCreationError::CreationFlagRequirementsNotMet);
    }
    if d.flags.array_2d_compatible && image_ty != ImageType::Dim3d {
        return Validation::Fatal(ImageCreationError::CreationFlagRequirementsNotMet);
    }
    let params = ImageParams {
        desc: *d,
        ty: image_ty,
        extent,
        array_layers,
        mipmaps,
        format_features: features,
    };
    if check_limits(&dev.limits, &d.flags, &d.dimensions) {
        Validation::Deferred(params, ImageCreationError::UnsupportedDimensions { dimensions: d.dimensions })
    } else if samples_unsupported {
        Validation::Deferred(params, ImageCreationError::UnsupportedSamplesCount { obtained: samples })
    } else if mip_exceeded {
        Validation::Deferred(
            params,
            ImageCreationError::InvalidMipmapsCount {
                obtained: mipmaps,
                valid_range: std::ops::Range { start: 1, end: max_mipmaps + 1 },
            },
        )
    } else {
        Validation::Ready(params)
    }
}

/// Whether the requested values fit within what the detailed capability query reported.
pub open spec fn within_reported(p: ImageParams, q: ImageFormatProperties) -> bool {
    &&& p.extent.width <= q.max_extent.width
    &&& p.extent.height <= q.max_extent.height
    &&& p.extent.depth <= q.max_extent.depth
    &&& p.mipmaps <= q.max_mip_levels
    &&& p.array_layers <= q.max_array_layers
    &&& p.desc.samples & q.sample_counts != 0
}

pub open spec fn spec_resolve(
    p: ImageParams,
    deferred: ImageCreationError,
    reply: Result<ImageFormatProperties, DriverError>,
) -> Result<ImageParams, ImageCreationError> {
    match reply {
        Err(e) => Err(spec_driver_error(e)),
        Ok(q) => if within_reported(p, q) {
            Ok(p)
        } else {
            Err(deferred)
        },
    }
}

/// Second checking phase: settles a deferred error with the answer of the detailed
/// capability query. A failed query supersedes the deferred error; otherwise the deferred
/// error stands exactly when a requested value exceeds what the query reported.
pub fn resolve_deferred(
    p: ImageParams,
    deferred: ImageCreationError,
    reply: Result<ImageFormatProperties, DriverError>,
) -> (r: Result<ImageParams, ImageCreationError>)
    ensures
        r == spec_resolve(p, deferred, reply),
{
    match reply {
        Err(e) => Err(driver_error(e)),
        Ok(q) => {
            if p.extent.width > q.max_extent.width || p.extent.height > q.max_extent.height
                || p.extent.depth > q.max_extent.depth || p.mipmaps > q.max_mip_levels
                || p.array_layers > q.max_array_layers || p.desc.samples & q.sample_counts == 0 {
                Err(deferred)
            } else {
                Ok(p)
            }
        },
    }
}

/// Outcome of both checking phases against a device.
pub open spec fn spec_check(dev: &Device, d: ImageDescriptor) -> Result<ImageParams, ImageCreationError> {
    match spec_validate(dev, d) {
        Validation::Fatal(e) => Err(e),
        Validation::Ready(p) => Ok(p),
        Validation::Deferred(p, e) => spec_resolve(
            p,
            e,
            dev.spec_image_format_properties(d.format, d.linear_tiling),
        ),
    }
}

/// Checks a description against a device, querying the detailed capabilities only when a
/// limit may be exceeded.
pub fn check_descriptor(dev: &Device, d: &ImageDescriptor) -> (r: Result<ImageParams, ImageCreationError>)
    ensures
        r == spec_check(dev, *d),
{
    match validate(dev, d) {
        Validation::Fatal(e) => Err(e),
        Validation::Ready(p) => Ok(p),
        Validation::Deferred(p, e) => {
            let reply = dev.image_format_properties(d.format, d.linear_tiling);
            resolve_deferred(p, e, reply)
        },
    }
}

} // verus!
