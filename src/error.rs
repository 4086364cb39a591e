//! Errors of image creation and of memory operations.
use crate::desc::ImageDimensions;
use crate::device::DriverError;
use std::ops::Range;
use vstd::prelude::*;

verus! {

/// The driver ran out of memory.
#[derive(Clone, Copy, Debug, PartialEq, Eq, Structural)]
pub enum OomError {
    OutOfHostMemory,
    OutOfDeviceMemory,
}

/// Failure to allocate device memory.
#[derive(Clone, Copy, Debug, PartialEq, Eq, Structural)]
pub enum DeviceMemoryAllocError {
    OomError(OomError),
    TooManyObjects,
    MemoryMapFailed,
}

/// Why an image could not be created.
#[derive(Debug, PartialEq, Eq)]
pub enum ImageCreationError {
    /// Allocating memory failed.
    AllocError(DeviceMemoryAllocError),
    /// The requested creation flags (sparse or mutable-format) are not implemented.
    FeatureNotImplemented,
    /// The specified creation flags have requirements (e.g. specific dimension) that were not met.
    CreationFlagRequirementsNotMet,
    /// The requested format is not supported.
    FormatNotSupported,
    /// A wrong number of mipmaps was provided.
    InvalidMipmapsCount { obtained: u32, valid_range: Range<u32> },
    /// The requested number of samples is not supported, or is 0.
    UnsupportedSamplesCount { obtained: u32 },
    /// The dimensions are too large, or one of the dimensions is 0.
    UnsupportedDimensions { dimensions: ImageDimensions },
    /// The format is supported, but at least one of the requested usages is not supported.
    UnsupportedUsage,
    /// The `shader_storage_image_multisample` feature must be enabled to create such an image.
    ShaderStorageImageMultisampleFeatureNotEnabled,
}

impl ImageCreationError {
    /// A short human-readable description of the error.
    pub fn description(&self) -> (r: &'static str) {
        match self {
            ImageCreationError::AllocError(_) => "allocating memory failed",
            ImageCreationError::FeatureNotImplemented => {
                "the requested creation flags are not implemented"
            },
            ImageCreationError::CreationFlagRequirementsNotMet => {
                "the requested creation flags have additional requirements that were not met"
            },
            ImageCreationError::FormatNotSupported => {
                "the requested format is not supported by the Vulkan implementation"
            },
            ImageCreationError::InvalidMipmapsCount { .. } => {
                "a wrong number of mipmaps was provided"
            },
            ImageCreationError::UnsupportedSamplesCount { .. } => {
                "the requested number of samples is not supported, or is 0"
            },
            ImageCreationError::UnsupportedDimensions { .. } => {
                "the dimensions are too large, or one of the dimensions is 0"
            },
            ImageCreationError::UnsupportedUsage => {
                "the format is supported, but at least one of the requested usages is not supported"
            },
            ImageCreationError::ShaderStorageImageMultisampleFeatureNotEnabled => {
                "the `shader_storage_image_multisample` feature must be enabled to create such an image"
            },
        }
    }
}

impl From<OomError> for ImageCreationError {
    fn from(err: OomError) -> (r: ImageCreationError) {
        ImageCreationError::AllocError(DeviceMemoryAllocError::OomError(err))
    }
}

impl vstd::std_specs::convert::FromSpecImpl<OomError> for ImageCreationError {
    open spec fn obeys_from_spec() -> bool {
        true
    }

    open spec fn from_spec(err: OomError) -> ImageCreationError {
        ImageCreationError::AllocError(DeviceMemoryAllocError::OomError(err))
    }
}

impl From<DeviceMemoryAllocError> for ImageCreationError {
    fn from(err: DeviceMemoryAllocError) -> (r: ImageCreationError) {
        ImageCreationError::AllocError(err)
    }
}

impl vstd::std_specs::convert::FromSpecImpl<DeviceMemoryAllocError> for ImageCreationError {
    open spec fn obeys_from_spec() -> bool {
        true
    }

    open spec fn from_spec(err: DeviceMemoryAllocError) -> ImageCreationError {
        ImageCreationError::AllocError(err)
    }
}

/// The creation error that a failed driver call stands for.
pub open spec fn spec_driver_error(e: DriverError) -> ImageCreationError {
    match e {
        DriverError::OutOfHostMemory => ImageCreationError::AllocError(
            DeviceMemoryAllocError::OomError(OomError::OutOfHostMemory),
        ),
        DriverError::OutOfDeviceMemory => ImageCreationError::AllocError(
            DeviceMemoryAllocError::OomError(OomError::OutOfDeviceMemory),
        ),
        DriverError::FormatNotSupported => ImageCreationError::FormatNotSupported,
    }
}

/// Translates a driver failure into a creation error.
pub fn driver_error(e: DriverError) -> (r: ImageCreationError)
    ensures
        r == spec_driver_error(e),
{
    match e {
        DriverError::OutOfHostMemory => ImageCreationError::AllocError(
            DeviceMemoryAllocError::OomError(OomError::OutOfHostMemory),
        ),
        DriverError::OutOfDeviceMemory => ImageCreationError::AllocError(
            DeviceMemoryAllocError::OomError(OomError::OutOfDeviceMemory),
        ),
        DriverError::FormatNotSupported => ImageCreationError::FormatNotSupported,
    }
}

} // verus!
