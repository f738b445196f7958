//! The slab that stores the roster, as far as the rest of the crate needs to
//! know it.
//!
//! A [`Slab`] is a vector of slots, each occupied or vacant, and the key of a
//! value is the position of its slot. Nothing in this module is proved: the
//! functions below call into the `slab` crate, and their contracts restate
//! what that crate's code does to the slots.

use vstd::prelude::*;
use slab::Slab;
use crate::character::NarutoChar;

verus! {

/// `slab::Slab`, taken as it is: the verifier sees none of its fields, only
/// what the functions below say of it.
#[verifier::external_type_specification]
#[verifier::external_body]
#[verifier::reject_recursive_types(T)]
pub struct ExSlab<T>(Slab<T>);

/// The slots of a slab in key order: `Some` for an occupied slot, `None` for
/// a vacant one.
pub uninterp spec fn slab_slots(slab: Slab<NarutoChar>) -> Seq<Option<NarutoChar>>;

/// The key that the next insertion will use, as `Slab::vacant_key` reports it.
pub uninterp spec fn slab_vacant_key(slab: Slab<NarutoChar>) -> usize;

/// `Slab::new`: a slab without slots, whose first insertion will get key 0.
#[verifier::external_body]
pub(crate) fn slab_new() -> (slab: Slab<NarutoChar>)
    ensures
        slab_slots(slab) == Seq::<Option<NarutoChar>>::empty(),
        slab_vacant_key(slab) == 0,
{
    Slab::new()
}

/// `Slab::insert` on a slab whose next key lies just past its last slot, so
/// that no vacant slot is reused: the value goes into a new slot at the end
/// under that key, and the next key becomes the one after it. The bound on
/// the number of slots keeps the backing vector far below the size at which
/// growing it panics.
#[verifier::external_body]
pub(crate) fn slab_insert(slab: &mut Slab<NarutoChar>, val: NarutoChar) -> (key: usize)
    requires
        slab_vacant_key(*old(slab)) == slab_slots(*old(slab)).len(),
        slab_slots(*old(slab)).len() < 0x10_0000,
    ensures
        key == slab_vacant_key(*old(slab)),
        slab_slots(*final(slab)) == slab_slots(*old(slab)).push(Some(val)),
        slab_vacant_key(*final(slab)) == key + 1,
{
    slab.insert(val)
}

/// `Slab::get`: the value in the slot at `key`, or `None` where there is no
/// such slot or it is vacant.
#[verifier::external_body]
pub(crate) fn slab_get(slab: &Slab<NarutoChar>, key: usize) -> (found: Option<&NarutoChar>)
    ensures
        match found {
            Some(ch) => key < slab_slots(*slab).len() && slab_slots(*slab)[key as int] == Some(*ch),
            None => key >= slab_slots(*slab).len() || slab_slots(*slab)[key as int].is_none(),
        },
{
    slab.get(key)
}

/// `IndexMut::index_mut` of `Slab`, for an occupied slot: a mutable reference
/// to the value in that slot. Whatever is written through it is what the slot
/// holds afterwards; no other slot and no key changes.
#[verifier::external_body]
pub(crate) fn slab_index_mut(slab: &mut Slab<NarutoChar>, key: usize) -> (ch: &mut NarutoChar)
    requires
        key < slab_slots(*old(slab)).len(),
        slab_slots(*old(slab))[key as int].is_some(),
    ensures
        Some(*ch) == slab_slots(*old(slab))[key as int],
        slab_slots(*final(slab)) == slab_slots(*old(slab)).update(key as int, Some(*final(ch))),
        slab_vacant_key(*final(slab)) == slab_vacant_key(*old(slab)),
{
    &mut slab[key]
}

/// `Slab::iter`, collected into a vector: every occupied slot once, in
/// ascending key order, as the pair of its key and a reference to its value.
#[verifier::external_body]
pub(crate) fn slab_iter<'a>(slab: &'a Slab<NarutoChar>) -> (entries: Vec<(usize, &'a NarutoChar)>)
    ensures
        forall|i: int|
            0 <= i < entries@.len() ==> (#[trigger] entries@[i]).0 < slab_slots(*slab).len()
                && slab_slots(*slab)[entries@[i].0 as int] == Some(*entries@[i].1),
        forall|i: int, j: int|
            0 <= i < j < entries@.len() ==> (#[trigger] entries@[i]).0 < (#[trigger] entries@[j]).0,
        forall|k: int|
            0 <= k < slab_slots(*slab).len() && (#[trigger] slab_slots(*slab)[k]).is_some()
                ==> exists|i: int| 0 <= i < entries@.len() && (#[trigger] entries@[i]).0 == k,
{
    slab.iter().collect()
}

} // verus!
