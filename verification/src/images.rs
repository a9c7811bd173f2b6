//! The external image provider: the compositor's read side.
//!
//! When the compositor wants the current pixels of an external image id it
//! locks the id, reads the returned bytes, and unlocks it. A lock takes an
//! independent copy of the presentation table's current bytes into a per-id
//! staging area, so the copy stays stable for the lock's duration no matter
//! what the actor does to the table meanwhile. A never-created id yields an
//! empty, zero-dimension placeholder — never a failure.

use std::collections::HashMap;

use vstd::prelude::*;

use crate::actor::views_of;
use crate::present::PresentationData;

verus! {

broadcast use vstd::std_specs::hash::group_hash_axioms;

/// An owned copy of a byte vector.
pub fn clone_bytes(v: &Vec<u8>) -> (r: Vec<u8>)
    ensures
        r@ == v@,
{
    let r = v.clone();
    proof {
        assert forall|i: int| 0 <= i < v@.len() implies r@[i] == v@[i] by {
            assert(cloned::<u8>(v@[i], r@[i]));
        }
        assert(r@ =~= v@);
    }
    r
}

/// The views of the provider's locked staging areas.
pub open spec fn locked_of(m: Map<u64, Vec<u8>>) -> Map<u64, Seq<u8>> {
    Map::new(|k: u64| m.contains_key(k), |k: u64| m[k]@)
}

/// The provider's state: one locked staging area per currently locked id.
pub struct WGPUExternalImages {
    /// Bytes copied out at lock time, keyed by external image id.
    pub locked_ids: HashMap<u64, Vec<u8>>,
}

impl View for WGPUExternalImages {
    type V = Map<u64, Seq<u8>>;

    open spec fn view(&self) -> Map<u64, Seq<u8>> {
        locked_of(self.locked_ids@)
    }
}

impl WGPUExternalImages {
    /// A provider with nothing locked.
    pub fn new() -> (provider: Self)
        ensures
            provider@ == Map::<u64, Seq<u8>>::empty(),
    {
        let provider = WGPUExternalImages { locked_ids: HashMap::new() };
        proof {
            assert(provider@ =~= Map::<u64, Seq<u8>>::empty());
        }
        provider
    }

    /// Locks `id`: copies the presentation table's current bytes and
    /// dimensions for `id` into a fresh staging area and returns them. An id
    /// with no table entry yields an empty image with zero dimensions; the
    /// call never fails.
    pub fn lock(&mut self, images: &HashMap<u64, PresentationData>, id: u64) -> (r: (
        Vec<u8>,
        i32,
        i32,
    ))
        ensures
            views_of(images@).contains_key(id) ==> {
                &&& r.0@ == views_of(images@)[id].data
                &&& r.1 == views_of(images@)[id].width
                &&& r.2 == views_of(images@)[id].height
            },
            !views_of(images@).contains_key(id) ==> {
                &&& r.0@ == Seq::<u8>::empty()
                &&& r.1 == 0
                &&& r.2 == 0
            },
            final(self)@ == old(self)@.insert(id, r.0@),
    {
        let ghost pre = self@;
        let found = match images.get(&id) {
            Some(present_data) => Some(
                (clone_bytes(&present_data.data), present_data.width, present_data.height),
            ),
            None => None,
        };
        let (data, width, height) = match found {
            Some(triple) => triple,
            None => (Vec::new(), 0i32, 0i32),
        };
        let stored = clone_bytes(&data);
        self.locked_ids.insert(id, stored);
        proof {
            assert(self@ =~= pre.insert(id, data@));
            if !views_of(images@).contains_key(id) {
                assert(data@ =~= Seq::<u8>::empty());
            }
        }
        (data, width, height)
    }

    /// Unlocks `id`: releases its locked staging area.
    pub fn unlock(&mut self, id: u64)
        ensures
            final(self)@ == old(self)@.remove(id),
    {
        self.locked_ids.remove(&id);
        proof {
            assert(self@ =~= old(self)@.remove(id));
        }
    }
}

} // verus!
