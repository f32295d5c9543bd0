use vstd::prelude::*;

use crate::weapon::Weapon;
use rg3d_core::pool::{Handle, Pool};

verus! {

/// rg3d's object pool, opaque to proofs: what it holds is stated through `weapons_in`.
#[verifier::external_type_specification]
#[verifier::external_body]
#[verifier::reject_recursive_types(T)]
pub struct ExPool<T: Sized>(Pool<T>);

/// rg3d's pool handle, carried through as an opaque value.
#[verifier::external_type_specification]
#[verifier::external_body]
#[verifier::reject_recursive_types(T)]
pub struct ExHandle<T>(Handle<T>);

/// The live weapons of a pool, each under the handle that addresses it.
pub uninterp spec fn weapons_in(p: Pool<Weapon>) -> Map<Handle<Weapon>, Weapon>;

/// How many slots a pool has made, live or freed.
pub uninterp spec fn slots_of(p: Pool<Weapon>) -> nat;

pub open spec fn no_weapons() -> Map<Handle<Weapon>, Weapon> {
    Map::empty()
}

/// Relies on `Pool::new`: a new pool holds nothing.
#[verifier::external_body]
pub(crate) fn pool_new() -> (r: Pool<Weapon>)
    ensures
        weapons_in(r) == no_weapons(),
        slots_of(r) == 0,
{
    Pool::new()
}

/// Relies on `Pool::spawn`: the payload is stored under a handle that addressed no live
/// object before, in a freed slot or in one new slot, and every other object stays under
/// its handle. The slot count must leave room for a new slot index.
#[verifier::external_body]
pub(crate) fn pool_spawn(p: &mut Pool<Weapon>, w: Weapon) -> (h: Handle<Weapon>)
    requires
        slots_of(*old(p)) < u32::MAX,
    ensures
        slots_of(*final(p)) <= slots_of(*old(p)) + 1,
        !weapons_in(*old(p)).contains_key(h),
        weapons_in(*final(p)) == weapons_in(*old(p)).insert(h, w),
{
    p.spawn(w)
}

/// Relies on `Pool::try_borrow`: the object of a live handle, and nothing for any other.
#[verifier::external_body]
pub(crate) fn pool_get(p: &Pool<Weapon>, h: Handle<Weapon>) -> (r: Option<Weapon>)
    ensures
        weapons_in(*p).contains_key(h) ==> r == Some(weapons_in(*p)[h]),
        !weapons_in(*p).contains_key(h) ==> r.is_none(),
{
    p.try_borrow(h).copied()
}

/// Relies on `Pool::replace`: for a live handle the object under it is swapped for `w`,
/// and nothing else changes.
#[verifier::external_body]
pub(crate) fn pool_put(p: &mut Pool<Weapon>, h: Handle<Weapon>, w: Weapon)
    requires
        weapons_in(*old(p)).contains_key(h),
    ensures
        weapons_in(*final(p)) == weapons_in(*old(p)).insert(h, w),
        slots_of(*final(p)) == slots_of(*old(p)),
{
    let _ = p.replace(h, w);
}

} // verus!
