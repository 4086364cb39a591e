//! Validated creation, memory binding and layout queries for GPU images.
//!
//! An image description is checked against what a device reports about itself before any
//! native object is made; the checks, the native creation record, the memory requirements,
//! the memory binding and the release of images are all stated and proved.

pub mod desc;
pub mod device;
pub mod error;
pub mod format;
pub mod image;
pub mod laws;
pub mod native;
pub mod sharing;
pub mod validate;

pub use desc::{ImageAspect, ImageCreateFlags, ImageDimensions, ImageUsage, MipmapsCount};
pub use device::Device;
pub use error::{DeviceMemoryAllocError, ImageCreationError, OomError};
pub use format::{Format, FormatFeatures, FormatTy};
pub use image::{DeviceMemory, LinearLayout, MemoryRequirements, Ownership, UnsafeImage};
pub use native::ObjectTable;
pub use sharing::Sharing;
