//! Pixel formats, their numeric classes and their per-tiling features.
use vstd::prelude::*;

verus! {

/// Numeric class of a format, which decides the sample-count limits that apply to it.
#[derive(Clone, Copy, Debug, PartialEq, Eq, Structural)]
pub enum FormatTy {
    Float,
    Uint,
    Sint,
    Depth,
    Stencil,
    DepthStencil,
    Compressed,
    Ycbcr,
}

/// Pixel format of an image.
#[allow(non_camel_case_types)]
#[derive(Clone, Copy, Debug, PartialEq, Eq, Hash, Structural)]
pub enum Format {
    R8G8B8A8Unorm,
    R8G8B8A8Srgb,
    R8G8B8A8Uint,
    R8G8B8A8Sint,
    R32G32B32A32Sfloat,
    D16Unorm,
    D32Sfloat,
    S8Uint,
    D24Unorm_S8Uint,
    BC1_RGBUnormBlock,
    ASTC_5x4UnormBlock,
    G8B8R8_3PLANE420Unorm,
    G8B8R8_2PLANE420Unorm,
}

impl Format {
    pub open spec fn spec_ty(self) -> FormatTy {
        match self {
            Format::R8G8B8A8Unorm => FormatTy::Float,
            Format::R8G8B8A8Srgb => FormatTy::Float,
            Format::R8G8B8A8Uint => FormatTy::Uint,
            Format::R8G8B8A8Sint => FormatTy::Sint,
            Format::R32G32B32A32Sfloat => FormatTy::Float,
            Format::D16Unorm => FormatTy::Depth,
            Format::D32Sfloat => FormatTy::Depth,
            Format::S8Uint => FormatTy::Stencil,
            Format::D24Unorm_S8Uint => FormatTy::DepthStencil,
            Format::BC1_RGBUnormBlock => FormatTy::Compressed,
            Format::ASTC_5x4UnormBlock => FormatTy::Compressed,
            Format::G8B8R8_3PLANE420Unorm => FormatTy::Ycbcr,
            Format::G8B8R8_2PLANE420Unorm => FormatTy::Ycbcr,
        }
    }

    /// Numeric class of the format.
    pub fn ty(&self) -> (r: FormatTy)
        ensures
            r == self.spec_ty(),
    {
        match self {
            Format::R8G8B8A8Unorm => FormatTy::Float,
            Format::R8G8B8A8Srgb => FormatTy::Float,
            Format::R8G8B8A8Uint => FormatTy::Uint,
            Format::R8G8B8A8Sint => FormatTy::Sint,
            Format::R32G32B32A32Sfloat => FormatTy::Float,
            Format::D16Unorm => FormatTy::Depth,
            Format::D32Sfloat => FormatTy::Depth,
            Format::S8Uint => FormatTy::Stencil,
            Format::D24Unorm_S8Uint => FormatTy::DepthStencil,
            Format::BC1_RGBUnormBlock => FormatTy::Compressed,
            Format::ASTC_5x4UnormBlock => FormatTy::Compressed,
            Format::G8B8R8_3PLANE420Unorm => FormatTy::Ycbcr,
            Format::G8B8R8_2PLANE420Unorm => FormatTy::Ycbcr,
        }
    }
}

/// What a format can be used for under one tiling mode.
#[derive(Clone, Copy, Debug, PartialEq, Eq, Structural)]
pub struct FormatFeatures {
    pub sampled_image: bool,
    pub storage_image: bool,
    pub color_attachment: bool,
    pub depth_stencil_attachment: bool,
    pub transfer_src: bool,
    pub transfer_dst: bool,
}

impl FormatFeatures {
    /// The feature set with nothing in it.
    pub fn none() -> (r: FormatFeatures)
        ensures
            r.spec_is_empty(),
    {
        FormatFeatures {
            sampled_image: false,
            storage_image: false,
            color_attachment: false,
            depth_stencil_attachment: false,
            transfer_src: false,
            transfer_dst: false,
        }
    }

    pub open spec fn spec_is_empty(self) -> bool {
        !self.sampled_image && !self.storage_image && !self.color_attachment
            && !self.depth_stencil_attachment && !self.transfer_src && !self.transfer_dst
    }

    /// Whether the format supports nothing at all.
    pub fn is_empty(&self) -> (r: bool)
        ensures
            r == self.spec_is_empty(),
    {
        !self.sampled_image && !self.storage_image && !self.color_attachment
            && !self.depth_stencil_attachment && !self.transfer_src && !self.transfer_dst
    }
}

/// Features of a format for each of the two tiling modes.
#[derive(Clone, Copy, Debug, PartialEq, Eq, Structural)]
pub struct FormatProperties {
    pub linear_tiling_features: FormatFeatures,
    pub optimal_tiling_features: FormatFeatures,
}

} // verus!
