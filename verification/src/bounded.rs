//! The fixed-capacity vectors of the backend.

use vstd::prelude::*;
use arrayvec::ArrayVec;
use crate::command::PassResolve;
use crate::layout::BindGroupInfo;
use crate::{MAX_BIND_GROUPS, MAX_COLOR_TARGETS};

verus! {

/// `arrayvec::ArrayVec`: a vector of at most `CAP` items, stored in place.
/// What it holds is known through `resolves_of` and `infos_of` only.
#[verifier::external_type_specification]
#[verifier::external_body]
#[verifier::reject_recursive_types(T)]
pub struct ExArrayVec<T, const CAP: usize>(ArrayVec<T, CAP>);

/// The resolves that a vector holds, oldest first.
pub uninterp spec fn resolves_of(v: ArrayVec<PassResolve, MAX_COLOR_TARGETS>) -> Seq<PassResolve>;

/// The bind group records that a vector holds, in group order.
pub uninterp spec fn infos_of(v: ArrayVec<BindGroupInfo, MAX_BIND_GROUPS>) -> Seq<BindGroupInfo>;

/// `ArrayVec::new`: a vector that holds nothing.
#[verifier::external_body]
pub(crate) fn resolves_new() -> (v: ArrayVec<PassResolve, MAX_COLOR_TARGETS>)
    ensures
        resolves_of(v) == Seq::<PassResolve>::empty(),
{
    ArrayVec::new()
}

/// `ArrayVec::len`: the number of items held, which the capacity bounds.
#[verifier::external_body]
pub(crate) fn resolves_len(v: &ArrayVec<PassResolve, MAX_COLOR_TARGETS>) -> (n: usize)
    ensures
        n == resolves_of(*v).len(),
        n <= MAX_COLOR_TARGETS,
{
    v.len()
}

/// `ArrayVec::push` below capacity: the item is appended.
#[verifier::external_body]
pub(crate) fn resolves_push(v: &mut ArrayVec<PassResolve, MAX_COLOR_TARGETS>, item: PassResolve)
    requires
        resolves_of(*old(v)).len() < MAX_COLOR_TARGETS,
    ensures
        resolves_of(*final(v)) == resolves_of(*old(v)).push(item),
{
    v.push(item)
}

/// `ArrayVec::clear`: every item is removed.
#[verifier::external_body]
pub(crate) fn resolves_clear(v: &mut ArrayVec<PassResolve, MAX_COLOR_TARGETS>)
    ensures
        resolves_of(*final(v)) == Seq::<PassResolve>::empty(),
{
    v.clear()
}

/// Indexing through `ArrayVec::deref`: the item at a position that is held.
#[verifier::external_body]
pub(crate) fn resolves_get(v: &ArrayVec<PassResolve, MAX_COLOR_TARGETS>, i: usize) -> (item: PassResolve)
    requires
        i < resolves_of(*v).len(),
    ensures
        item == resolves_of(*v)[i as int],
{
    v[i]
}

/// `ArrayVec::new`: a vector that holds nothing.
#[verifier::external_body]
pub(crate) fn infos_new() -> (v: ArrayVec<BindGroupInfo, MAX_BIND_GROUPS>)
    ensures
        infos_of(v) == Seq::<BindGroupInfo>::empty(),
{
    ArrayVec::new()
}

/// `ArrayVec::len`: the number of items held, which the capacity bounds.
#[verifier::external_body]
pub(crate) fn infos_len(v: &ArrayVec<BindGroupInfo, MAX_BIND_GROUPS>) -> (n: usize)
    ensures
        n == infos_of(*v).len(),
        n <= MAX_BIND_GROUPS,
{
    v.len()
}

/// `ArrayVec::push` below capacity: the item is appended.
#[verifier::external_body]
pub(crate) fn infos_push(v: &mut ArrayVec<BindGroupInfo, MAX_BIND_GROUPS>, item: BindGroupInfo)
    requires
        infos_of(*old(v)).len() < MAX_BIND_GROUPS,
    ensures
        infos_of(*final(v)) == infos_of(*old(v)).push(item),
{
    v.push(item)
}

/// Indexing through `ArrayVec::deref`: the item at a position that is held.
#[verifier::external_body]
pub(crate) fn infos_get(v: &ArrayVec<BindGroupInfo, MAX_BIND_GROUPS>, i: usize) -> (item: &BindGroupInfo)
    requires
        i < infos_of(*v).len(),
    ensures
        *item == infos_of(*v)[i as int],
{
    &v[i]
}

} // verus!
