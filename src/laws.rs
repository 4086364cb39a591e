//! Properties that hold of image creation, requirements and release for every input.
use crate::desc::{ImageDimensions, MipmapsCount};
use crate::device::{Device, DriverError, ImageFormatProperties, Limits};
use crate::error::ImageCreationError;
use crate::format::FormatTy;
use crate::image::{release_step, spec_requirements, Ownership, UnsafeImage};
use crate::native::{occurrences, ObjectTable};
use crate::validate::{
    exceeds_limits, flags_unimplemented, has_zero_dimension, is_power_of_two, mip_error,
    spec_check, spec_fatal, spec_params, spec_sample_mask, transient_allowed, usage_supported,
    within_reported, ImageDescriptor, ImageParams,
};
use vstd::prelude::*;

verus! {

/// The rules on flags and usage that come before every other rule all hold.
pub open spec fn usage_rules_hold(dev: &Device, d: ImageDescriptor) -> bool {
    let features = dev.spec_features(d.format, d.linear_tiling);
    &&& !flags_unimplemented(d.flags)
    &&& !features.spec_is_empty()
    &&& usage_supported(d.usage, features, dev.extensions.khr_maintenance1)
    &&& !d.usage.spec_is_none()
    &&& transient_allowed(d.usage)
}

/// Every sample-count limit of the device admits a single sample.
pub open spec fn single_sample_admitted(l: Limits) -> bool {
    &&& l.sampled_image_color_sample_counts & 1 == 1
    &&& l.sampled_image_integer_sample_counts & 1 == 1
    &&& l.sampled_image_depth_sample_counts & 1 == 1
    &&& l.sampled_image_stencil_sample_counts & 1 == 1
    &&& l.storage_image_sample_counts & 1 == 1
    &&& l.framebuffer_color_sample_counts & 1 == 1
    &&& l.framebuffer_depth_sample_counts & 1 == 1
    &&& l.framebuffer_stencil_sample_counts & 1 == 1
}

proof fn lemma_and_bit0(a: u32, b: u32)
    requires
        a & 1 == 1,
        b & 1 == 1,
    ensures
        (a & b) & 1 == 1,
{
    assert((a & b) & 1 == 1) by (bit_vector)
        requires
            a & 1 == 1,
            b & 1 == 1,
    ;
}

proof fn lemma_sample_mask_bit0(l: Limits, d: ImageDescriptor)
    requires
        single_sample_admitted(l),
    ensures
        spec_sample_mask(l, d.usage, d.format.spec_ty()) & 1 == 1,
{
    assert(0x7fu32 & 1u32 == 1u32) by (bit_vector);
    assert(1u32 & 1u32 == 1u32) by (bit_vector);
    broadcast use lemma_and_bit0_auto;
    let m = spec_sample_mask(l, d.usage, d.format.spec_ty());
    assert(m & 1 == 1);
}

broadcast proof fn lemma_and_bit0_auto(a: u32, b: u32)
    requires
        a & 1 == 1,
        b & 1 == 1,
    ensures
        #[trigger] (a & b) & 1 == 1,
{
    lemma_and_bit0(a, b);
}

/// A valid description that asks for a single usage, other than a transient attachment,
/// whose format feature is present, passes every check: creation is owed, and the
/// parameters carry the exact format, flags, dimensions, sample count and usage asked for.
/// Valid here means no creation flag, one sample, one mipmap level, no zero dimension and
/// no dimension over the device limits, no multi-planar format as an attachment, on a
/// device whose sample-count limits admit one sample.
pub proof fn lemma_single_usage_accepted(dev: &Device, d: ImageDescriptor)
    requires
        d.usage.spec_single(),
        !d.usage.transient_attachment,
        usage_supported(
            d.usage,
            dev.spec_features(d.format, d.linear_tiling),
            true,
        ),
        !d.flags.sparse_binding && !d.flags.sparse_residency && !d.flags.sparse_aliased
            && !d.flags.mutable_format && !d.flags.cube_compatible && !d.flags.array_2d_compatible,
        d.samples == 1,
        d.mipmaps == MipmapsCount::One,
        !has_zero_dimension(d.dimensions),
        !exceeds_limits(dev.limits, d.flags, d.dimensions),
        !(d.usage.spec_any_attachment() && d.format.spec_ty() == FormatTy::Ycbcr),
        single_sample_admitted(dev.limits),
    ensures
        spec_check(dev, d) == Ok::<ImageParams, ImageCreationError>(spec_params(dev, d)),
        spec_params(dev, d).desc == d,
        spec_params(dev, d).mipmaps == 1,
{
    assert(1u32 & 0u32 == 0u32) by (bit_vector);
    lemma_sample_mask_bit0(dev.limits, d);
    assert(forall|m: u32| m & 1u32 == 1u32 ==> 1u32 & m != 0u32) by (bit_vector);
}

/// A sample count of zero or one that is not a power of two is refused with
/// `UnsupportedSamplesCount`, whatever the usage, once the flag and usage rules (which are
/// checked first) hold and the mipmap count is not zero.
pub proof fn lemma_bad_sample_count(dev: &Device, d: ImageDescriptor)
    requires
        usage_rules_hold(dev, d),
        d.mipmaps != MipmapsCount::Specific(0),
        !is_power_of_two(d.samples),
    ensures
        spec_check(dev, d) == Err::<ImageParams, ImageCreationError>(
            ImageCreationError::UnsupportedSamplesCount { obtained: d.samples },
        ),
{
}

/// A mipmap count of zero is refused with `InvalidMipmapsCount`, reporting zero and a valid
/// range that starts at one, once the flag and usage rules hold.
pub proof fn lemma_zero_mipmaps(dev: &Device, d: ImageDescriptor)
    requires
        usage_rules_hold(dev, d),
        d.mipmaps == MipmapsCount::Specific(0),
    ensures
        spec_check(dev, d) == Err::<ImageParams, ImageCreationError>(mip_error(0, d.dimensions)),
        mip_error(0, d.dimensions)->valid_range.start == 1,
{
}

/// A mipmap count over the full chain of the dimensions is refused with
/// `InvalidMipmapsCount`, reporting the count and a valid range that starts at one, unless
/// the detailed capability query reports that the device supports it (and the rest of the
/// parameters). This holds once every fatal rule holds and no other limit is exceeded.
pub proof fn lemma_too_many_mipmaps(dev: &Device, d: ImageDescriptor, n: u32, q: ImageFormatProperties)
    requires
        spec_fatal(dev, d).is_none(),
        d.mipmaps == MipmapsCount::Specific(n),
        n > d.dimensions.spec_max_mipmaps(),
        !exceeds_limits(dev.limits, d.flags, d.dimensions),
        d.samples & spec_sample_mask(dev.limits, d.usage, d.format.spec_ty()) != 0,
        dev.spec_image_format_properties(d.format, d.linear_tiling) == Ok::<ImageFormatProperties, DriverError>(q),
    ensures
        mip_error(n, d.dimensions)->valid_range.start == 1,
        within_reported(spec_params(dev, d), q) ==> spec_check(dev, d) == Ok::<
            ImageParams,
            ImageCreationError,
        >(spec_params(dev, d)),
        !within_reported(spec_params(dev, d), q) ==> spec_check(dev, d) == Err::<
            ImageParams,
            ImageCreationError,
        >(mip_error(n, d.dimensions)),
        q.max_mip_levels < n ==> spec_check(dev, d) == Err::<ImageParams, ImageCreationError>(
            mip_error(n, d.dimensions),
        ),
{
}

/// A transient attachment together with sampled usage is refused with `UnsupportedUsage`,
/// once the format supports anything under the tiling and no unimplemented flag is set.
pub proof fn lemma_transient_with_sampled(dev: &Device, d: ImageDescriptor)
    requires
        !flags_unimplemented(d.flags),
        !dev.spec_features(d.format, d.linear_tiling).spec_is_empty(),
        d.usage.transient_attachment,
        d.usage.sampled,
    ensures
        spec_check(dev, d) == Err::<ImageParams, ImageCreationError>(
            ImageCreationError::UnsupportedUsage,
        ),
{
}

/// Storage usage with more than one sample, on a device without the multisampled storage
/// feature, is refused with the dedicated feature error, once the earlier rules hold.
pub proof fn lemma_multisampled_storage(dev: &Device, d: ImageDescriptor)
    requires
        usage_rules_hold(dev, d),
        d.mipmaps != MipmapsCount::Specific(0),
        d.usage.storage,
        !(d.usage.spec_any_attachment() && d.format.spec_ty() == FormatTy::Ycbcr),
        is_power_of_two(d.samples),
        d.samples > 1,
        !dev.features.shader_storage_image_multisample,
    ensures
        spec_check(dev, d) == Err::<ImageParams, ImageCreationError>(
            ImageCreationError::ShaderStorageImageMultisampleFeatureNotEnabled,
        ),
{
}

/// A cube-compatible 2D image whose width and height differ is refused with
/// `CreationFlagRequirementsNotMet`, once the earlier rules hold.
pub proof fn lemma_cube_needs_square(dev: &Device, d: ImageDescriptor, w: u32, h: u32, layers: u32)
    requires
        usage_rules_hold(dev, d),
        d.mipmaps != MipmapsCount::Specific(0),
        is_power_of_two(d.samples),
        !(d.usage.spec_any_attachment() && d.format.spec_ty() == FormatTy::Ycbcr),
        !(d.usage.storage && d.samples > 1 && !dev.features.shader_storage_image_multisample),
        d.flags.cube_compatible,
        d.dimensions == (ImageDimensions::Dim2d { width: w, height: h, array_layers: layers }),
        w != 0 && h != 0 && layers != 0,
        w != h,
    ensures
        spec_check(dev, d) == Err::<ImageParams, ImageCreationError>(
            ImageCreationError::CreationFlagRequirementsNotMet,
        ),
{
}

/// Memory requirements depend on the image's device alone: a query gives the same size,
/// alignment and memory types each time it is made, also across a release of the image.
pub proof fn lemma_requirements_stable(a: UnsafeImage, ta: ObjectTable, b: UnsafeImage, tb: ObjectTable)
    requires
        release_step(a, ta, b, tb),
    ensures
        spec_requirements(&*a.spec_device()) == spec_requirements(&*b.spec_device()),
{
}

/// Releasing an image twice makes the native destroy call exactly once for an owned image
/// and never for an imported one; the second release changes nothing.
pub proof fn lemma_release_twice(
    a: UnsafeImage,
    ta: ObjectTable,
    b: UnsafeImage,
    tb: ObjectTable,
    c: UnsafeImage,
    tc: ObjectTable,
)
    requires
        a.spec_ownership() != Ownership::Released,
        release_step(a, ta, b, tb),
        release_step(b, tb, c, tc),
    ensures
        c == b && tc == tb,
        a.spec_ownership() == Ownership::Borrowed ==> tc == ta,
        a.spec_ownership() == Ownership::Owned ==> occurrences(tc.spec_destroyed(), a.spec_handle())
            == occurrences(ta.spec_destroyed(), a.spec_handle()) + 1,
        a.spec_ownership() == Ownership::Owned ==> tc.spec_destroyed().len() == ta.spec_destroyed().len() + 1,
{
    if a.spec_ownership() == Ownership::Owned {
        assert(tc.spec_destroyed().drop_last() =~= ta.spec_destroyed());
    }
}

} // verus!
