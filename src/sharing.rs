//! How an image is shared between queue families, and the native form of it.
use smallvec::SmallVec;
use vstd::prelude::*;

verus! {

/// Native list of queue family indices, stored inline for short lists.
#[verifier::external_body]
pub struct FamilyList {
    items: SmallVec<[u32; 8]>,
}

/// The queue family indices held by a native index list.
pub uninterp spec fn family_indices(v: FamilyList) -> Seq<u32>;

/// Relies on `SmallVec::new`: the new vector holds nothing.
#[verifier::external_body]
fn indices_new() -> (r: FamilyList)
    ensures
        family_indices(r) == Seq::<u32>::empty(),
{
    FamilyList { items: SmallVec::new() }
}

/// Relies on `SmallVec::push`: the value is appended after the existing items. The length
/// bound keeps the growth of the capacity (doubling, in bytes) within `isize`, where `push`
/// would panic.
#[verifier::external_body]
fn indices_push(v: &mut FamilyList, x: u32)
    requires
        family_indices(*old(v)).len() < 0x1000_0000,
    ensures
        family_indices(*final(v)) == family_indices(*old(v)).push(x),
{
    v.items.push(x)
}

/// Relies on `SmallVec::len`: the number of items held.
#[verifier::external_body]
pub(crate) fn indices_len(v: &FamilyList) -> (r: usize)
    ensures
        r == family_indices(*v).len(),
{
    v.items.len()
}

/// Sharing mode of an image between queue families.
pub enum Sharing {
    /// Only one queue family may access the image at a time.
    Exclusive,
    /// The listed queue families may access the image concurrently.
    Concurrent(Vec<u32>),
}

/// Native sharing mode.
#[derive(Clone, Copy, Debug, PartialEq, Eq, Structural)]
pub enum SharingMode {
    Exclusive,
    Concurrent,
}

impl Sharing {
    pub open spec fn spec_mode(&self) -> SharingMode {
        match self {
            Sharing::Exclusive => SharingMode::Exclusive,
            Sharing::Concurrent(_) => SharingMode::Concurrent,
        }
    }

    pub open spec fn spec_indices(&self) -> Seq<u32> {
        match self {
            Sharing::Exclusive => Seq::empty(),
            Sharing::Concurrent(ids) => ids@,
        }
    }
}

/// Turns a sharing description into the native mode and queue family index list.
pub fn native_sharing(sharing: &Sharing) -> (r: (SharingMode, FamilyList))
    requires
        sharing.spec_indices().len() <= 0x1000_0000,
    ensures
        r.0 == sharing.spec_mode(),
        family_indices(r.1) == sharing.spec_indices(),
{
    match sharing {
        Sharing::Exclusive => (SharingMode::Exclusive, indices_new()),
        Sharing::Concurrent(ids) => {
            let mut out = indices_new();
            let mut i: usize = 0;
            while i < ids.len()
                invariant
                    i <= ids@.len(),
                    ids@.len() <= 0x1000_0000,
                    family_indices(out) == ids@.subrange(0, i as int),
                decreases ids@.len() - i,
            {
                indices_push(&mut out, ids[i]);
                proof {
                    assert(ids@.subrange(0, i as int).push(ids@[i as int]) =~= ids@.subrange(0, i + 1));
                }
                i = i + 1;
            }
            proof {
                assert(ids@.subrange(0, ids@.len() as int) =~= ids@);
            }
            (SharingMode::Concurrent, out)
        },
    }
}

} // verus!
