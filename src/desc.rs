//! What a caller asks for when describing an image.
use vstd::prelude::*;

verus! {

/// The ways an image is going to be used.
#[derive(Clone, Copy, Debug, PartialEq, Eq, Hash, Structural)]
pub struct ImageUsage {
    pub transfer_source: bool,
    pub transfer_destination: bool,
    pub sampled: bool,
    pub storage: bool,
    pub color_attachment: bool,
    pub depth_stencil_attachment: bool,
    pub transient_attachment: bool,
    pub input_attachment: bool,
}

impl ImageUsage {
    /// No usage at all.
    pub fn none() -> (r: ImageUsage)
        ensures
            r.spec_is_none(),
    {
        ImageUsage {
            transfer_source: false,
            transfer_destination: false,
            sampled: false,
            storage: false,
            color_attachment: false,
            depth_stencil_attachment: false,
            transient_attachment: false,
            input_attachment: false,
        }
    }

    pub open spec fn spec_is_none(self) -> bool {
        !self.transfer_source && !self.transfer_destination && !self.sampled && !self.storage
            && !self.color_attachment && !self.depth_stencil_attachment
            && !self.transient_attachment && !self.input_attachment
    }

    /// Whether no usage is requested.
    pub fn is_none(&self) -> (r: bool)
        ensures
            r == self.spec_is_none(),
    {
        !self.transfer_source && !self.transfer_destination && !self.sampled && !self.storage
            && !self.color_attachment && !self.depth_stencil_attachment
            && !self.transient_attachment && !self.input_attachment
    }

    /// Whether the image is used as an attachment of any kind.
    pub open spec fn spec_any_attachment(self) -> bool {
        self.color_attachment || self.depth_stencil_attachment || self.input_attachment
            || self.transient_attachment
    }

    /// Whether exactly one usage is requested.
    pub open spec fn spec_single(self) -> bool {
        (self.transfer_source as int) + (self.transfer_destination as int) + (self.sampled as int)
            + (self.storage as int) + (self.color_attachment as int)
            + (self.depth_stencil_attachment as int) + (self.transient_attachment as int)
            + (self.input_attachment as int) == 1
    }
}

/// Flags that change what an image can later be viewed as.
#[derive(Clone, Copy, Debug, PartialEq, Eq, Hash, Structural)]
pub struct ImageCreateFlags {
    pub sparse_binding: bool,
    pub sparse_residency: bool,
    pub sparse_aliased: bool,
    pub mutable_format: bool,
    pub cube_compatible: bool,
    pub array_2d_compatible: bool,
}

impl ImageCreateFlags {
    /// No flag set.
    pub fn none() -> (r: ImageCreateFlags)
        ensures
            !r.sparse_binding && !r.sparse_residency && !r.sparse_aliased && !r.mutable_format
                && !r.cube_compatible && !r.array_2d_compatible,
    {
        ImageCreateFlags {
            sparse_binding: false,
            sparse_residency: false,
            sparse_aliased: false,
            mutable_format: false,
            cube_compatible: false,
            array_2d_compatible: false,
        }
    }
}

/// Dimensionality and size of an image.
#[derive(Clone, Copy, Debug, PartialEq, Eq, Hash, Structural)]
pub enum ImageDimensions {
    Dim1d { width: u32, array_layers: u32 },
    Dim2d { width: u32, height: u32, array_layers: u32 },
    Dim3d { width: u32, height: u32, depth: u32 },
}

/// Number of binary digits of `x`: one more than the floor of its base-2 logarithm.
pub open spec fn bit_length(x: nat) -> nat
    decreases x,
{
    if x == 0 {
        0
    } else {
        1 + bit_length(x / 2)
    }
}

pub open spec fn max3(a: u32, b: u32, c: u32) -> u32 {
    if a >= b && a >= c {
        a
    } else if b >= c {
        b
    } else {
        c
    }
}

proof fn lemma_bit_length_bound(x: nat, k: nat)
    requires
        x < pow2(k),
    ensures
        bit_length(x) <= k,
    decreases x,
{
    if x > 0 {
        lemma_bit_length_bound(x / 2, (k - 1) as nat);
    }
}

pub open spec fn pow2(k: nat) -> nat
    decreases k,
{
    if k == 0 {
        1
    } else {
        2 * pow2((k - 1) as nat)
    }
}

impl ImageDimensions {
    pub open spec fn spec_largest(self) -> u32 {
        match self {
            ImageDimensions::Dim1d { width, .. } => width,
            ImageDimensions::Dim2d { width, height, .. } => max3(width, height, 1),
            ImageDimensions::Dim3d { width, height, depth } => max3(width, height, depth),
        }
    }

    /// Number of mipmap levels of a full chain: each level halves the largest side, down to one.
    pub open spec fn spec_max_mipmaps(self) -> u32 {
        bit_length(self.spec_largest() as nat) as u32
    }

    /// Number of mipmap levels of a full chain for these dimensions.
    pub fn max_mipmaps(&self) -> (r: u32)
        ensures
            r == self.spec_max_mipmaps(),
            r <= 32,
    {
        let largest: u32 = match *self {
            ImageDimensions::Dim1d { width, .. } => width,
            ImageDimensions::Dim2d { width, height, .. } => {
                if width >= height && width >= 1 {
                    width
                } else if height >= 1 {
                    height
                } else {
                    1
                }
            },
            ImageDimensions::Dim3d { width, height, depth } => {
                if width >= height && width >= depth {
                    width
                } else if height >= depth {
                    height
                } else {
                    depth
                }
            },
        };
        let mut x: u32 = largest;
        let mut n: u32 = 0;
        proof {
            reveal_with_fuel(pow2, 33);
            assert(pow2(32) == 0x1_0000_0000);
            lemma_bit_length_bound(largest as nat, 32);
        }
        while x > 0
            invariant
                n + bit_length(x as nat) == bit_length(largest as nat),
                bit_length(largest as nat) <= 32,
            decreases x,
        {
            x = x / 2;
            n = n + 1;
        }
        n
    }
}

/// How many mipmap levels to give an image.
#[derive(Clone, Copy, Debug, PartialEq, Eq, Structural)]
pub enum MipmapsCount {
    /// Exactly this many levels.
    Specific(u32),
    /// A full chain, down to a single texel.
    Log2,
    /// A single level.
    One,
}

/// A part of an image that a layout query is about.
#[derive(Clone, Copy, Debug, PartialEq, Eq, Structural)]
pub enum ImageAspect {
    Color,
    Depth,
    Stencil,
    Plane0,
    Plane1,
    Plane2,
}

} // verus!
