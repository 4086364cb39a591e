//! The native side of images: the creation record handed to the driver, and the table of
//! native image objects that records every creation, destruction and memory binding.
use crate::desc::{ImageCreateFlags, ImageUsage};
use crate::device::{DriverError, Extent3D};
use crate::format::Format;
use crate::sharing::{family_indices, indices_len, native_sharing, FamilyList, Sharing, SharingMode};
use crate::validate::{ImageParams, ImageType};
use vstd::prelude::*;

verus! {

/// Layout an image starts in.
#[derive(Clone, Copy, Debug, PartialEq, Eq, Structural)]
pub enum ImageLayout {
    Undefined,
    Preinitialized,
}

pub const USAGE_TRANSFER_SRC: u32 = 0x1;
pub const USAGE_TRANSFER_DST: u32 = 0x2;
pub const USAGE_SAMPLED: u32 = 0x4;
pub const USAGE_STORAGE: u32 = 0x8;
pub const USAGE_COLOR_ATTACHMENT: u32 = 0x10;
pub const USAGE_DEPTH_STENCIL_ATTACHMENT: u32 = 0x20;
pub const USAGE_TRANSIENT_ATTACHMENT: u32 = 0x40;
pub const USAGE_INPUT_ATTACHMENT: u32 = 0x80;

pub open spec fn bit_if(b: bool, bit: u32) -> u32 {
    if b {
        bit
    } else {
        0
    }
}

/// Native usage bits of a usage set.
pub open spec fn spec_usage_bits(u: ImageUsage) -> u32 {
    bit_if(u.transfer_source, USAGE_TRANSFER_SRC) | bit_if(u.transfer_destination, USAGE_TRANSFER_DST)
        | bit_if(u.sampled, USAGE_SAMPLED) | bit_if(u.storage, USAGE_STORAGE) | bit_if(
        u.color_attachment,
        USAGE_COLOR_ATTACHMENT,
    ) | bit_if(u.depth_stencil_attachment, USAGE_DEPTH_STENCIL_ATTACHMENT) | bit_if(
        u.transient_attachment,
        USAGE_TRANSIENT_ATTACHMENT,
    ) | bit_if(u.input_attachment, USAGE_INPUT_ATTACHMENT)
}

fn pick(b: bool, bit: u32) -> (r: u32)
    ensures
        r == bit_if(b, bit),
{
    if b {
        bit
    } else {
        0
    }
}

/// Native usage bits of a usage set.
pub fn usage_bits(u: &ImageUsage) -> (r: u32)
    ensures
        r == spec_usage_bits(*u),
{
    pick(u.transfer_source, USAGE_TRANSFER_SRC) | pick(u.transfer_destination, USAGE_TRANSFER_DST)
        | pick(u.sampled, USAGE_SAMPLED) | pick(u.storage, USAGE_STORAGE) | pick(
        u.color_attachment,
        USAGE_COLOR_ATTACHMENT,
    ) | pick(u.depth_stencil_attachment, USAGE_DEPTH_STENCIL_ATTACHMENT) | pick(
        u.transient_attachment,
        USAGE_TRANSIENT_ATTACHMENT,
    ) | pick(u.input_attachment, USAGE_INPUT_ATTACHMENT)
}

/// The record handed to the driver to create an image.
pub struct ImageCreateInfo {
    pub flags: ImageCreateFlags,
    pub image_type: ImageType,
    pub format: Format,
    pub extent: Extent3D,
    pub mip_levels: u32,
    pub array_layers: u32,
    pub samples: u32,
    pub linear_tiling: bool,
    pub usage: u32,
    pub sharing_mode: SharingMode,
    pub queue_family_indices: FamilyList,
    pub initial_layout: ImageLayout,
}

/// Builds the native creation record of validated parameters.
pub fn create_info(p: &ImageParams, sharing: &Sharing) -> (r: ImageCreateInfo)
    requires
        sharing.spec_indices().len() <= 0x1000_0000,
    ensures
        r.flags == p.desc.flags,
        r.image_type == p.ty,
        r.format == p.desc.format,
        r.extent == p.extent,
        r.mip_levels == p.mipmaps,
        r.array_layers == p.array_layers,
        r.samples == p.desc.samples,
        r.linear_tiling == p.desc.linear_tiling,
        r.usage == spec_usage_bits(p.desc.usage),
        r.sharing_mode == sharing.spec_mode(),
        family_indices(r.queue_family_indices) == sharing.spec_indices(),
        r.initial_layout == (if p.desc.preinitialized_layout {
            ImageLayout::Preinitialized
        } else {
            ImageLayout::Undefined
        }),
{
    let (mode, indices) = native_sharing(sharing);
    ImageCreateInfo {
        flags: p.desc.flags,
        image_type: p.ty,
        format: p.desc.format,
        extent: p.extent,
        mip_levels: p.mipmaps,
        array_layers: p.array_layers,
        samples: p.desc.samples,
        linear_tiling: p.desc.linear_tiling,
        usage: usage_bits(&p.desc.usage),
        sharing_mode: mode,
        queue_family_indices: indices,
        initial_layout: if p.desc.preinitialized_layout {
            ImageLayout::Preinitialized
        } else {
            ImageLayout::Undefined
        },
    }
}

/// What the table keeps of a native image creation.
#[derive(Clone, Copy, Debug, PartialEq, Eq, Structural)]
pub struct CreatedImage {
    pub handle: u64,
    pub usage: u32,
    pub sharing_mode: SharingMode,
    pub queue_family_count: usize,
    pub initial_layout: ImageLayout,
}

/// A memory binding made through the table.
#[derive(Clone, Copy, Debug, PartialEq, Eq, Structural)]
pub struct Binding {
    pub image: u64,
    pub memory: u64,
    pub offset: u64,
}

/// Number of times `h` occurs in `s`.
pub open spec fn occurrences(s: Seq<u64>, h: u64) -> nat
    decreases s.len(),
{
    if s.len() == 0 {
        0
    } else {
        occurrences(s.drop_last(), h) + if s.last() == h {
            1nat
        } else {
            0nat
        }
    }
}

/// The native image objects of a device: every image created, every native destroy call
/// and every memory binding, in order. Handles are handed out in increasing order from 1.
pub struct ObjectTable {
    next_handle: u64,
    created: Vec<CreatedImage>,
    destroyed: Vec<u64>,
    bindings: Vec<Binding>,
}

impl ObjectTable {
    pub closed spec fn spec_next(&self) -> u64 {
        self.next_handle
    }

    pub closed spec fn spec_created(&self) -> Seq<CreatedImage> {
        self.created@
    }

    /// Handles passed to the native destroy call, in call order.
    pub closed spec fn spec_destroyed(&self) -> Seq<u64> {
        self.destroyed@
    }

    pub closed spec fn spec_bindings(&self) -> Seq<Binding> {
        self.bindings@
    }

    /// Every handle created so far lies below the next one to be handed out.
    pub closed spec fn wf(&self) -> bool {
        &&& self.next_handle >= 1
        &&& forall|i: int|
            0 <= i < self.created@.len() ==> 1 <= #[trigger] self.created@[i].handle
                < self.next_handle
    }

    /// Whether `h` names an image that this table created.
    pub open spec fn spec_was_created(&self, h: u64) -> bool {
        exists|i: int| 0 <= i < self.spec_created().len() && #[trigger] self.spec_created()[i].handle == h
    }

    /// An empty table.
    pub fn new() -> (r: ObjectTable)
        ensures
            r.wf(),
            r.spec_next() == 1,
            r.spec_created().len() == 0,
            r.spec_destroyed().len() == 0,
            r.spec_bindings().len() == 0,
    {
        ObjectTable { next_handle: 1, created: Vec::new(), destroyed: Vec::new(), bindings: Vec::new() }
    }

    /// Native image creation: hands out the next handle, or fails when none is left.
    pub fn create_image(&mut self, info: &ImageCreateInfo) -> (r: Result<u64, DriverError>)
        requires
            old(self).wf(),
        ensures
            final(self).wf(),
            final(self).spec_destroyed() == old(self).spec_destroyed(),
            final(self).spec_bindings() == old(self).spec_bindings(),
            old(self).spec_next() == u64::MAX ==> r == Err::<u64, DriverError>(DriverError::OutOfHostMemory)
                && *final(self) == *old(self),
            old(self).spec_next() < u64::MAX ==> {
                &&& r == Ok::<u64, DriverError>(old(self).spec_next())
                &&& !old(self).spec_was_created(old(self).spec_next())
                &&& final(self).spec_next() == old(self).spec_next() + 1
                &&& final(self).spec_created() == old(self).spec_created().push(
                    CreatedImage {
                        handle: old(self).spec_next(),
                        usage: info.usage,
                        sharing_mode: info.sharing_mode,
                        queue_family_count: family_indices(info.queue_family_indices).len() as usize,
                        initial_layout: info.initial_layout,
                    },
                )
            },
    {
        if self.next_handle == u64::MAX {
            return Err(DriverError::OutOfHostMemory);
        }
        let handle = self.next_handle;
        let record = CreatedImage {
            handle,
            usage: info.usage,
            sharing_mode: info.sharing_mode,
            queue_family_count: indices_len(&info.queue_family_indices),
            initial_layout: info.initial_layout,
        };
        self.created.push(record);
        self.next_handle = handle + 1;
        proof {
            assert forall|i: int| 0 <= i < self.created@.len() implies 1 <= #[trigger] self.created@[i].handle
                < self.next_handle by {
                if i < self.created@.len() - 1 {
                    assert(old(self).created@[i] == self.created@[i]);
                }
            }
        }
        Ok(handle)
    }

    /// Native destroy call.
    pub fn destroy_image(&mut self, h: u64)
        requires
            old(self).wf(),
        ensures
            final(self).wf(),
            final(self).spec_next() == old(self).spec_next(),
            final(self).spec_created() == old(self).spec_created(),
            final(self).spec_bindings() == old(self).spec_bindings(),
            final(self).spec_destroyed() == old(self).spec_destroyed().push(h),
    {
        self.destroyed.push(h);
    }

    /// Native memory binding.
    pub fn bind_image_memory(&mut self, image: u64, memory: u64, offset: u64)
        requires
            old(self).wf(),
        ensures
            final(self).wf(),
            final(self).spec_next() == old(self).spec_next(),
            final(self).spec_created() == old(self).spec_created(),
            final(self).spec_destroyed() == old(self).spec_destroyed(),
            final(self).spec_bindings() == old(self).spec_bindings().push(
                Binding { image, memory, offset },
            ),
    {
        self.bindings.push(Binding { image, memory, offset });
    }

    /// Number of native destroy calls made on `h`.
    pub fn destroy_calls(&self, h: u64) -> (r: usize)
        ensures
            r == occurrences(self.spec_destroyed(), h),
    {
        let mut n: usize = 0;
        let mut i: usize = 0;
        while i < self.destroyed.len()
            invariant
                i <= self.destroyed@.len(),
                n == occurrences(self.destroyed@.subrange(0, i as int), h),
                n <= i,
            decreases self.destroyed@.len() - i,
        {
            proof {
                assert(self.destroyed@.subrange(0, i + 1).drop_last() =~= self.destroyed@.subrange(0, i as int));
            }
            if self.destroyed[i] == h {
                n = n + 1;
            }
            i = i + 1;
        }
        proof {
            assert(self.destroyed@.subrange(0, i as int) =~= self.destroyed@);
        }
        n
    }

    /// Number of images created through the table.
    pub fn created_count(&self) -> (r: usize)
        ensures
            r == self.spec_created().len(),
    {
        self.created.len()
    }

    /// The creation record at position `i`.
    pub fn created_at(&self, i: usize) -> (r: CreatedImage)
        requires
            i < self.spec_created().len(),
        ensures
            r == self.spec_created()[i as int],
    {
        self.created[i]
    }

    /// Number of memory bindings made through the table.
    pub fn binding_count(&self) -> (r: usize)
        ensures
            r == self.spec_bindings().len(),
    {
        self.bindings.len()
    }

    /// The memory binding at position `i`.
    pub fn binding_at(&self, i: usize) -> (r: Binding)
        requires
            i < self.spec_bindings().len(),
        ensures
            r == self.spec_bindings()[i as int],
    {
        self.bindings[i]
    }
}

} // verus!
