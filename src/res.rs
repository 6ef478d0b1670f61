//! The resource container: at most one value per resource id, each behind
//! its own borrow flag.

use std::any::Any;
use std::any::TypeId;
use std::marker::PhantomData;

use fnv::FnvHashMap;
use vstd::prelude::*;

use crate::cell::BorrowError;
use crate::cell::BorrowFlag;
use crate::cell::BorrowState;
use crate::cell::MAX_SHARED;
use crate::cell::exclusive_borrow_step;
use crate::cell::exclusive_release_step;
use crate::cell::shared_borrow_step;
use crate::cell::shared_release_step;

verus! {

/// Declares std's `TypeId`, carried opaquely as the type tag of a resource id.
#[verifier::external_type_specification]
#[verifier::external_body]
pub struct ExTypeId(TypeId);

/// Relies on `TypeId::of`: the type tag of `T`.
pub assume_specification<T: ?Sized + 'static>[ TypeId::of::<T> ]() -> (r: TypeId);

/// A resource is any value that can be shared between threads and sent
/// across them. Every such `'static` type is also `Any`, which is how a
/// stored value is recovered at its own type.
pub trait Resource: Send + Sync + 'static {}

impl<T> Resource for T where T: Send + Sync + 'static {}

/// The id of a resource: its type tag and an additional id.
///
/// The default additional id is `0`.
#[derive(Clone, Copy, Debug, PartialEq, Eq, Hash, PartialOrd, Ord)]
pub struct ResourceId(pub TypeId, pub usize);

impl ResourceId {
    /// The id of `T` with the default additional id.
    pub fn new<T: Resource>() -> (r: Self)
        ensures
            r.1 == 0,
    {
        Self::new_with_id::<T>(0)
    }

    /// The id of `T` with the additional id `id`.
    pub fn new_with_id<T: Resource>(id: usize) -> (r: Self)
        ensures
            r.1 == id,
    {
        ResourceId(TypeId::of::<T>(), id)
    }
}

/// The stored values, each with its borrow flag, keyed by resource id.
#[verifier::external_body]
pub struct ResourceMap {
    map: FnvHashMap<ResourceId, (BorrowFlag, Box<dyn Any>)>,
}

/// The flag of each stored value, by resource id.
pub uninterp spec fn map_flags(m: ResourceMap) -> Map<ResourceId, BorrowFlag>;

impl ResourceMap {
    /// Relies on `HashMap::default`: a new map is empty.
    #[verifier::external_body]
    fn empty() -> (r: ResourceMap)
        ensures
            map_flags(r).dom() == Set::<ResourceId>::empty(),
    {
        ResourceMap { map: FnvHashMap::default() }
    }

    /// Relies on `HashMap::contains_key`.
    #[verifier::external_body]
    fn contains(&self, k: &ResourceId) -> (r: bool)
        ensures
            r == map_flags(*self).contains_key(*k),
    {
        self.map.contains_key(k)
    }

    /// Relies on `HashMap::get`: the flag stored under `k`, if any.
    #[verifier::external_body]
    fn flag(&self, k: &ResourceId) -> (r: Option<BorrowFlag>)
        ensures
            r == (if map_flags(*self).contains_key(*k) {
                Some(map_flags(*self)[*k])
            } else {
                None
            }),
    {
        self.map.get(k).map(|s| s.0)
    }

    /// Relies on `HashMap::get_mut`: replaces the flag stored under `k`.
    #[verifier::external_body]
    fn set_flag(&mut self, k: &ResourceId, f: BorrowFlag)
        requires
            map_flags(*old(self)).contains_key(*k),
        ensures
            map_flags(*final(self)) == map_flags(*old(self)).insert(*k, f),
    {
        if let Some(s) = self.map.get_mut(k) {
            s.0 = f;
        }
    }

    /// Relies on `HashMap::insert`: stores `v` under `k` with flag `f`.
    #[verifier::external_body]
    fn insert<R: Resource>(&mut self, k: ResourceId, f: BorrowFlag, v: R)
        ensures
            map_flags(*final(self)) == map_flags(*old(self)).insert(k, f),
    {
        self.map.insert(k, (f, Box::new(v)));
    }

    /// Relies on `HashMap::get` and `Any::downcast_ref`: the value under `k`
    /// as a `T`, if there is one of that type. The two calls share one
    /// wrapper because `dyn Any` cannot stand in a verified signature.
    #[verifier::external_body]
    fn value<T: Resource>(&self, k: &ResourceId) -> (r: Option<&T>)
        ensures
            r is Some ==> map_flags(*self).contains_key(*k),
    {
        self.map.get(k).and_then(|s| s.1.downcast_ref::<T>())
    }

    /// Relies on `HashMap::get_mut` and `Any::downcast_mut`: the value under
    /// `k` as a `T`, if there is one of that type. The two calls share one
    /// wrapper because `dyn Any` cannot stand in a verified signature.
    #[verifier::external_body]
    fn value_mut<T: Resource>(&mut self, k: &ResourceId) -> (r: Option<&mut T>)
        ensures
            map_flags(*final(self)) == map_flags(*old(self)),
            r is Some ==> map_flags(*old(self)).contains_key(*k),
    {
        self.map.get_mut(k).and_then(|s| s.1.downcast_mut::<T>())
    }
}

/// Why a resource could not be registered or fetched.
#[derive(Clone, Copy, Debug, PartialEq, Eq)]
pub enum ResourceError {
    /// No resource is registered under the id.
    MissingResource(ResourceId),
    /// A resource is already registered under the id.
    DuplicateRegistration(ResourceId),
    /// The resource is borrowed in a way that forbids the borrow asked for.
    BorrowConflict(ResourceId, BorrowError),
}

/// The error of a result, if any.
pub open spec fn error_of<G>(r: Result<G, ResourceError>) -> Option<ResourceError> {
    match r {
        Ok(_) => None,
        Err(e) => Some(e),
    }
}

/// Registering under `k`: the new borrow states and the error, if any.
pub open spec fn add_spec(m: Map<ResourceId, BorrowState>, k: ResourceId) -> (
    Map<ResourceId, BorrowState>,
    Option<ResourceError>,
) {
    if m.contains_key(k) {
        (m, Some(ResourceError::DuplicateRegistration(k)))
    } else {
        (m.insert(k, BorrowState::Free), None)
    }
}

/// Fetching `k` shared (`exclusive` false) or exclusively: the new borrow
/// states and the error, if any.
pub open spec fn fetch_spec(m: Map<ResourceId, BorrowState>, k: ResourceId, exclusive: bool) -> (
    Map<ResourceId, BorrowState>,
    Option<ResourceError>,
) {
    if !m.contains_key(k) {
        (m, Some(ResourceError::MissingResource(k)))
    } else {
        let step = if exclusive {
            exclusive_borrow_step(m[k])
        } else {
            shared_borrow_step(m[k])
        };
        match step {
            Ok(s) => (m.insert(k, s), None),
            Err(e) => (m, Some(ResourceError::BorrowConflict(k, e))),
        }
    }
}

/// Releasing a shared (`exclusive` false) or the exclusive borrow of `k`.
pub open spec fn release_spec(m: Map<ResourceId, BorrowState>, k: ResourceId, exclusive: bool) -> Map<
    ResourceId,
    BorrowState,
> {
    if !m.contains_key(k) {
        m
    } else if exclusive {
        m.insert(k, exclusive_release_step(m[k]))
    } else {
        m.insert(k, shared_release_step(m[k]))
    }
}

/// A resource container, which provides access to the contained resources.
///
/// Resources are identified by a `ResourceId`: a type tag and an
/// additional id, which convenience methods take to be `0`.
pub struct Resources {
    slots: ResourceMap,
}

impl View for Resources {
    type V = Map<ResourceId, BorrowState>;

    /// The borrow state of each registered resource.
    closed spec fn view(&self) -> Map<ResourceId, BorrowState> {
        Map::new(|k: ResourceId| map_flags(self.slots).contains_key(k), |k: ResourceId| map_flags(self.slots)[k]@)
    }
}

impl Resources {
    /// Creates a new, empty resource container.
    pub fn new() -> (r: Self)
        ensures
            r@ == Map::<ResourceId, BorrowState>::empty(),
    {
        let r = Resources { slots: ResourceMap::empty() };
        assert(r@ =~= Map::<ResourceId, BorrowState>::empty());
        r
    }

    /// Adds a resource under the default additional id `0`.
    pub fn add<R: Resource>(&mut self, r: R) -> (res: Result<(), ResourceError>)
        ensures
            exists|t: TypeId| add_spec(old(self)@, ResourceId(t, 0)) == (final(self)@, error_of(res)),
    {
        self.add_with_id(r, 0)
    }

    /// Adds a resource under the additional id `id`; fails if a resource of
    /// the same type is registered under that id.
    pub fn add_with_id<R: Resource>(&mut self, r: R, id: usize) -> (res: Result<(), ResourceError>)
        ensures
            exists|t: TypeId| add_spec(old(self)@, ResourceId(t, id)) == (final(self)@, error_of(res)),
    {
        let k = ResourceId::new_with_id::<R>(id);
        if self.slots.contains(&k) {
            let res = Err(ResourceError::DuplicateRegistration(k));
            assert(add_spec(old(self)@, ResourceId(k.0, id)) == (self@, error_of(res)));
            res
        } else {
            self.slots.insert(k, BorrowFlag::new(), r);
            assert(self@ =~= old(self)@.insert(k, BorrowState::Free));
            let res = Ok(());
            assert(add_spec(old(self)@, ResourceId(k.0, id)) == (self@, error_of(res)));
            res
        }
    }

    /// Returns true if a resource is registered under `res_id`.
    pub fn has_value(&self, res_id: ResourceId) -> (r: bool)
        ensures
            r == self@.contains_key(res_id),
    {
        self.slots.contains(&res_id)
    }

    /// Takes a borrow of the resource under `k`.
    fn borrow_at(&mut self, k: &ResourceId, exclusive: bool) -> (r: Result<(), ResourceError>)
        ensures
            fetch_spec(old(self)@, *k, exclusive) == (final(self)@, error_of(r)),
    {
        match self.slots.flag(k) {
            None => Err(ResourceError::MissingResource(*k)),
            Some(f) => {
                let mut f = f;
                let step = if exclusive {
                    f.try_borrow_mut()
                } else {
                    f.try_borrow()
                };
                match step {
                    Ok(()) => {
                        self.slots.set_flag(k, f);
                        assert(self@ =~= fetch_spec(old(self)@, *k, exclusive).0);
                        Ok(())
                    },
                    Err(e) => Err(ResourceError::BorrowConflict(*k, e)),
                }
            },
        }
    }

    /// Gives back a borrow of the resource under `k`.
    fn release_at(&mut self, k: &ResourceId, exclusive: bool)
        ensures
            final(self)@ == release_spec(old(self)@, *k, exclusive),
    {
        match self.slots.flag(k) {
            None => {
                assert(self@ =~= release_spec(old(self)@, *k, exclusive));
            },
            Some(f) => {
                let mut f = f;
                if exclusive {
                    f.release_mut();
                } else {
                    f.release();
                }
                self.slots.set_flag(k, f);
                assert(self@ =~= release_spec(old(self)@, *k, exclusive));
            },
        }
    }

    /// Fetches the resource of type `T` under the additional id `id`, shared.
    /// Fails if there is no such resource or it is borrowed exclusively.
    pub fn fetch<T: Resource>(&mut self, id: usize) -> (r: Result<Fetch<T>, ResourceError>)
        ensures
            exists|t: TypeId|
                fetch_spec(old(self)@, ResourceId(t, id), false) == (final(self)@, error_of(r))
                    && (r is Ok ==> r->Ok_0.key() == ResourceId(t, id)),
    {
        let k = ResourceId::new_with_id::<T>(id);
        let r = match self.borrow_at(&k, false) {
            Ok(()) => Ok(Fetch { id: k, phantom: PhantomData }),
            Err(e) => Err(e),
        };
        assert(fetch_spec(old(self)@, ResourceId(k.0, id), false) == (self@, error_of(r)));
        r
    }

    /// Fetches the resource of type `T` under the additional id `id`,
    /// exclusively. Fails if there is no such resource or it is borrowed.
    pub fn fetch_mut<T: Resource>(&mut self, id: usize) -> (r: Result<FetchMut<T>, ResourceError>)
        ensures
            exists|t: TypeId|
                fetch_spec(old(self)@, ResourceId(t, id), true) == (final(self)@, error_of(r))
                    && (r is Ok ==> r->Ok_0.key() == ResourceId(t, id)),
    {
        let k = ResourceId::new_with_id::<T>(id);
        let r = match self.borrow_at(&k, true) {
            Ok(()) => Ok(FetchMut { id: k, phantom: PhantomData }),
            Err(e) => Err(e),
        };
        assert(fetch_spec(old(self)@, ResourceId(k.0, id), true) == (self@, error_of(r)));
        r
    }

    /// Fetches the resource with type tag `id` and additional id `comp_id`,
    /// shared.
    pub fn fetch_id(&mut self, id: TypeId, comp_id: usize) -> (r: Result<FetchId, ResourceError>)
        ensures
            fetch_spec(old(self)@, ResourceId(id, comp_id), false) == (final(self)@, error_of(r)),
            r is Ok ==> r->Ok_0.key() == ResourceId(id, comp_id),
    {
        let k = ResourceId(id, comp_id);
        match self.borrow_at(&k, false) {
            Ok(()) => Ok(FetchId { id: k }),
            Err(e) => Err(e),
        }
    }

    /// Fetches the resource with type tag `id` and additional id `comp_id`,
    /// exclusively.
    pub fn fetch_id_mut(&mut self, id: TypeId, comp_id: usize) -> (r: Result<FetchIdMut, ResourceError>)
        ensures
            fetch_spec(old(self)@, ResourceId(id, comp_id), true) == (final(self)@, error_of(r)),
            r is Ok ==> r->Ok_0.key() == ResourceId(id, comp_id),
    {
        let k = ResourceId(id, comp_id);
        match self.borrow_at(&k, true) {
            Ok(()) => Ok(FetchIdMut { id: k }),
            Err(e) => Err(e),
        }
    }

    /// Ends a shared borrow.
    pub fn release<T: Resource>(&mut self, guard: Fetch<T>)
        ensures
            final(self)@ == release_spec(old(self)@, guard.key(), false),
    {
        self.release_at(&guard.id, false)
    }

    /// Ends an exclusive borrow.
    pub fn release_mut<T: Resource>(&mut self, guard: FetchMut<T>)
        ensures
            final(self)@ == release_spec(old(self)@, guard.key(), true),
    {
        self.release_at(&guard.id, true)
    }

    /// Ends a shared borrow taken by type tag.
    pub fn release_id(&mut self, guard: FetchId)
        ensures
            final(self)@ == release_spec(old(self)@, guard.key(), false),
    {
        self.release_at(&guard.id, false)
    }

    /// Ends an exclusive borrow taken by type tag.
    pub fn release_id_mut(&mut self, guard: FetchIdMut)
        ensures
            final(self)@ == release_spec(old(self)@, guard.key(), true),
    {
        self.release_at(&guard.id, true)
    }

    /// The value that a shared borrow grants.
    pub fn get<T: Resource>(&self, guard: &Fetch<T>) -> (r: Option<&T>)
        ensures
            r is Some ==> self@.contains_key(guard.key()),
    {
        self.slots.value::<T>(&guard.id)
    }

    /// The value that an exclusive borrow grants.
    pub fn get_mut<T: Resource>(&mut self, guard: &FetchMut<T>) -> (r: Option<&mut T>)
        ensures
            final(self)@ == old(self)@,
            r is Some ==> old(self)@.contains_key(guard.key()),
    {
        self.slots.value_mut::<T>(&guard.id)
    }

    /// The value that a shared borrow by type tag grants, as a `T`.
    pub fn get_id<T: Resource>(&self, guard: &FetchId) -> (r: Option<&T>)
        ensures
            r is Some ==> self@.contains_key(guard.key()),
    {
        self.slots.value::<T>(&guard.id)
    }

    /// The value that an exclusive borrow by type tag grants, as a `T`.
    pub fn get_id_mut<T: Resource>(&mut self, guard: &FetchIdMut) -> (r: Option<&mut T>)
        ensures
            final(self)@ == old(self)@,
            r is Some ==> old(self)@.contains_key(guard.key()),
    {
        self.slots.value_mut::<T>(&guard.id)
    }
}

impl Default for Resources {
    fn default() -> (r: Self)
        ensures
            r@ == Map::<ResourceId, BorrowState>::empty(),
    {
        Resources::new()
    }
}

/// Fetching an id that is not registered fails with a missing-resource
/// error and changes no borrow, whether the fetch is shared or exclusive.
pub proof fn lemma_fetch_unregistered(m: Map<ResourceId, BorrowState>, k: ResourceId, exclusive: bool)
    requires
        !m.contains_key(k),
    ensures
        fetch_spec(m, k, exclusive) == (m, Some(ResourceError::MissingResource(k))),
{
}

/// Registering an id a second time fails with a duplicate-registration
/// error and changes nothing.
pub proof fn lemma_add_twice(m: Map<ResourceId, BorrowState>, k: ResourceId)
    ensures
        add_spec(add_spec(m, k).0, k) == (add_spec(m, k).0, Some(ResourceError::DuplicateRegistration(k))),
{
}

/// One type registered under two different additional ids: both
/// registrations succeed and each resource can then be fetched, shared or
/// exclusively.
pub proof fn lemma_add_two_ids(m: Map<ResourceId, BorrowState>, t: TypeId, a: usize, b: usize, exclusive: bool)
    requires
        a != b,
        !m.contains_key(ResourceId(t, a)),
        !m.contains_key(ResourceId(t, b)),
    ensures
        add_spec(m, ResourceId(t, a)).1 is None,
        add_spec(add_spec(m, ResourceId(t, a)).0, ResourceId(t, b)).1 is None,
        fetch_spec(add_spec(add_spec(m, ResourceId(t, a)).0, ResourceId(t, b)).0, ResourceId(t, a), exclusive).1 is None,
        fetch_spec(add_spec(add_spec(m, ResourceId(t, a)).0, ResourceId(t, b)).0, ResourceId(t, b), exclusive).1 is None,
{
    let m1 = add_spec(m, ResourceId(t, a)).0;
    let m2 = add_spec(m1, ResourceId(t, b)).0;
    assert(m2.contains_key(ResourceId(t, a)) && m2[ResourceId(t, a)] == BorrowState::Free);
    assert(m2.contains_key(ResourceId(t, b)) && m2[ResourceId(t, b)] == BorrowState::Free);
}

/// While a shared borrow of an id is live, an exclusive fetch of it fails
/// with an already-borrowed conflict and changes nothing.
pub proof fn lemma_shared_blocks_exclusive(m: Map<ResourceId, BorrowState>, k: ResourceId)
    requires
        m.contains_key(k),
        m[k] is Shared,
    ensures
        fetch_spec(m, k, true) == (m, Some(ResourceError::BorrowConflict(k, BorrowError::AlreadyBorrowed))),
{
}

/// From a free resource: a shared fetch succeeds, an exclusive fetch then
/// fails, and once the shared borrow is released the exclusive fetch
/// succeeds.
pub proof fn lemma_exclusive_after_shared_release(m: Map<ResourceId, BorrowState>, k: ResourceId)
    requires
        m.contains_key(k),
        m[k] == BorrowState::Free,
    ensures
        fetch_spec(m, k, false).1 is None,
        fetch_spec(fetch_spec(m, k, false).0, k, true).1 == Some(
            ResourceError::BorrowConflict(k, BorrowError::AlreadyBorrowed),
        ),
        fetch_spec(release_spec(fetch_spec(m, k, false).0, k, false), k, true).1 is None,
{
    assert(release_spec(fetch_spec(m, k, false).0, k, false) =~= m);
}

/// While the exclusive borrow of an id is live, a shared or an exclusive
/// fetch of it fails with an already-borrowed-mutably conflict and changes
/// nothing.
pub proof fn lemma_exclusive_blocks_all(m: Map<ResourceId, BorrowState>, k: ResourceId, exclusive: bool)
    requires
        m.contains_key(k),
        m[k] == BorrowState::Exclusive,
    ensures
        fetch_spec(m, k, exclusive) == (m, Some(ResourceError::BorrowConflict(k, BorrowError::AlreadyBorrowedMutably))),
{
}

/// From a free resource: an exclusive fetch succeeds, every fetch then
/// fails, and once the exclusive borrow is released a shared or an
/// exclusive fetch succeeds.
pub proof fn lemma_fetch_after_exclusive_release(m: Map<ResourceId, BorrowState>, k: ResourceId, exclusive: bool)
    requires
        m.contains_key(k),
        m[k] == BorrowState::Free,
    ensures
        fetch_spec(m, k, true).1 is None,
        fetch_spec(fetch_spec(m, k, true).0, k, exclusive).1 == Some(
            ResourceError::BorrowConflict(k, BorrowError::AlreadyBorrowedMutably),
        ),
        fetch_spec(release_spec(fetch_spec(m, k, true).0, k, true), k, exclusive).1 is None,
{
    assert(release_spec(fetch_spec(m, k, true).0, k, true) =~= m);
}

/// Shared borrows add up: from a free resource or from `n` live shared
/// borrows below the limit, a shared fetch succeeds and one more shared
/// borrow is live.
pub proof fn lemma_shared_borrows_add_up(m: Map<ResourceId, BorrowState>, k: ResourceId, n: nat)
    requires
        m.contains_key(k),
        m[k] == BorrowState::Free || (m[k] == BorrowState::Shared(n) && n < MAX_SHARED),
    ensures
        fetch_spec(m, k, false).1 is None,
        fetch_spec(m, k, false).0 == m.insert(
            k,
            if m[k] == BorrowState::Free {
                BorrowState::Shared(1)
            } else {
                BorrowState::Shared(n + 1)
            },
        ),
{
}

/// Two shared fetches of a free resource both succeed and leave two shared
/// borrows live.
pub proof fn lemma_two_shared(m: Map<ResourceId, BorrowState>, k: ResourceId)
    requires
        m.contains_key(k),
        m[k] == BorrowState::Free,
    ensures
        fetch_spec(m, k, false).1 is None,
        fetch_spec(fetch_spec(m, k, false).0, k, false).1 is None,
        fetch_spec(fetch_spec(m, k, false).0, k, false).0 == m.insert(k, BorrowState::Shared(2)),
{
    assert(fetch_spec(fetch_spec(m, k, false).0, k, false).0 =~= m.insert(k, BorrowState::Shared(2)));
}

/// A shared borrow of a resource of type `T`, from [`Resources::fetch`].
pub struct Fetch<T> {
    id: ResourceId,
    phantom: PhantomData<T>,
}

/// An exclusive borrow of a resource of type `T`, from
/// [`Resources::fetch_mut`].
pub struct FetchMut<T> {
    id: ResourceId,
    phantom: PhantomData<T>,
}

/// A shared borrow of a resource, from [`Resources::fetch_id`].
pub struct FetchId {
    id: ResourceId,
}

/// An exclusive borrow of a resource, from [`Resources::fetch_id_mut`].
pub struct FetchIdMut {
    id: ResourceId,
}

impl<T> Fetch<T> {
    /// The id of the borrowed resource.
    pub closed spec fn key(&self) -> ResourceId {
        self.id
    }

    /// The id of the borrowed resource.
    pub fn id(&self) -> (r: ResourceId)
        ensures
            r == self.key(),
    {
        self.id
    }
}

impl<T> FetchMut<T> {
    /// The id of the borrowed resource.
    pub closed spec fn key(&self) -> ResourceId {
        self.id
    }

    /// The id of the borrowed resource.
    pub fn id(&self) -> (r: ResourceId)
        ensures
            r == self.key(),
    {
        self.id
    }
}

impl FetchId {
    /// The id of the borrowed resource.
    pub closed spec fn key(&self) -> ResourceId {
        self.id
    }

    /// The id of the borrowed resource.
    pub fn id(&self) -> (r: ResourceId)
        ensures
            r == self.key(),
    {
        self.id
    }
}

impl FetchIdMut {
    /// The id of the borrowed resource.
    pub closed spec fn key(&self) -> ResourceId {
        self.id
    }

    /// The id of the borrowed resource.
    pub fn id(&self) -> (r: ResourceId)
        ensures
            r == self.key(),
    {
        self.id
    }
}

} // verus!
