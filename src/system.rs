//! Declarations of what a consumer of resources reads and writes, so that a
//! scheduler can tell which consumers may run side by side.

use std::any::TypeId;

use vstd::prelude::*;

use crate::res::error_of;
use crate::res::fetch_spec;
use crate::res::Fetch;
use crate::res::FetchMut;
use crate::res::Resource;
use crate::res::ResourceError;
use crate::res::ResourceId;
use crate::res::Resources;

verus! {

/// A consumer of resources: how to fetch it from a container, and which
/// resources it reads and writes, given an additional id.
pub trait SystemData: Sized {
    /// Fetches the consumer's resources from `res`.
    fn fetch(res: &mut Resources, id: usize) -> Result<Self, ResourceError>;

    /// The resources the consumer reads.
    fn reads(id: usize) -> Vec<ResourceId>;

    /// The resources the consumer writes.
    fn writes(id: usize) -> Vec<ResourceId>;
}

impl<T: Resource> SystemData for Fetch<T> {
    fn fetch(res: &mut Resources, id: usize) -> (r: Result<Self, ResourceError>)
        ensures
            exists|t: TypeId|
                fetch_spec(old(res)@, ResourceId(t, id), false) == (final(res)@, error_of(r))
                    && (r is Ok ==> r->Ok_0.key() == ResourceId(t, id)),
    {
        res.fetch::<T>(id)
    }

    fn reads(id: usize) -> (r: Vec<ResourceId>)
        ensures
            r@.len() == 1,
            r@[0].1 == id,
    {
        vec![ResourceId::new_with_id::<T>(id)]
    }

    fn writes(id: usize) -> (r: Vec<ResourceId>)
        ensures
            r@.len() == 0,
    {
        Vec::new()
    }
}

impl<T: Resource> SystemData for FetchMut<T> {
    fn fetch(res: &mut Resources, id: usize) -> (r: Result<Self, ResourceError>)
        ensures
            exists|t: TypeId|
                fetch_spec(old(res)@, ResourceId(t, id), true) == (final(res)@, error_of(r))
                    && (r is Ok ==> r->Ok_0.key() == ResourceId(t, id)),
    {
        res.fetch_mut::<T>(id)
    }

    fn reads(id: usize) -> (r: Vec<ResourceId>)
        ensures
            r@.len() == 0,
    {
        Vec::new()
    }

    fn writes(id: usize) -> (r: Vec<ResourceId>)
        ensures
            r@.len() == 1,
            r@[0].1 == id,
    {
        vec![ResourceId::new_with_id::<T>(id)]
    }
}

} // verus!
