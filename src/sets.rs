//! The list of descriptor-set handles kept per pipeline type, held in a
//! `SmallVec` and seen by the proofs as a sequence of handles.
use vstd::prelude::*;

verus! {

/// An ordered list of descriptor-set handles, stored inline for up to twelve.
#[verifier::external_body]
pub struct SetList {
    v: smallvec::SmallVec<[u64; 12]>,
}

/// The handles held by a set list, front to back.
pub uninterp spec fn set_list_contents(v: SetList) -> Seq<u64>;

/// Relies on `SmallVec::new`: the new vector is empty.
#[verifier::external_body]
pub(crate) fn set_list_new() -> (r: SetList)
    ensures
        set_list_contents(r) == Seq::<u64>::empty(),
{
    SetList { v: smallvec::SmallVec::new() }
}

/// Relies on `SmallVec::len`: the number of items held.
#[verifier::external_body]
pub(crate) fn set_list_len(v: &SetList) -> (r: usize)
    ensures
        r == set_list_contents(*v).len(),
{
    v.v.len()
}

/// Relies on `SmallVec`'s `Index`: the item at position `i`.
#[verifier::external_body]
pub(crate) fn set_list_get(v: &SetList, i: usize) -> (r: u64)
    requires
        i < set_list_contents(*v).len(),
    ensures
        r == set_list_contents(*v)[i as int],
{
    v.v[i]
}

/// Relies on `SmallVec`'s `IndexMut`: overwrites the item at position `i`.
#[verifier::external_body]
pub(crate) fn set_list_put(v: &mut SetList, i: usize, x: u64)
    requires
        i < set_list_contents(*old(v)).len(),
    ensures
        set_list_contents(*final(v)) == set_list_contents(*old(v)).update(i as int, x),
{
    v.v[i] = x;
}

/// Relies on `SmallVec::push`: appends one item at the back.
#[verifier::external_body]
pub(crate) fn set_list_push(v: &mut SetList, x: u64)
    requires
        set_list_contents(*old(v)).len() < usize::MAX,
    ensures
        set_list_contents(*final(v)) == set_list_contents(*old(v)).push(x),
{
    v.v.push(x);
}

/// Relies on `SmallVec::truncate`: keeps the first `len` items, or all of
/// them when there are no more than `len`.
#[verifier::external_body]
pub(crate) fn set_list_truncate(v: &mut SetList, len: usize)
    ensures
        set_list_contents(*final(v)) == if len < set_list_contents(*old(v)).len() {
            set_list_contents(*old(v)).subrange(0, len as int)
        } else {
            set_list_contents(*old(v))
        },
{
    v.v.truncate(len);
}

} // verus!
