//! What this crate takes on trust of `tinyvec::ArrayVec`, the vector that
//! lives in an array.
//!
//! Nothing in this file is proved: each contract says what the source of
//! `tinyvec` shows of the function it names. The rest of the crate reaches an
//! `ArrayVec` only through these functions.

use tinyvec::ArrayVec;
use vstd::prelude::*;

verus! {

/// `tinyvec::ArrayVec`, made known as a type and nothing more: what a value
/// of it holds is said by the two names below, and only the functions of
/// this file say anything of them.
#[verifier::external_type_specification]
#[verifier::external_body]
#[verifier::reject_recursive_types(A)]
pub struct ExArrayVec<A>(ArrayVec<A>);

/// The items that an `ArrayVec` of at most two (base, size) pairs holds, in
/// order.
pub uninterp spec fn fragments(v: ArrayVec<[(u64, usize); 2]>) -> Seq<(u64, usize)>;

/// The bytes that an `ArrayVec` of at most 64 bytes holds, in order.
pub uninterp spec fn register_bytes(v: ArrayVec<[u8; 64]>) -> Seq<u8>;

/// `ArrayVec::new`: a vector that holds nothing.
#[verifier::external_body]
pub(crate) fn no_fragments() -> (v: ArrayVec<[(u64, usize); 2]>)
    ensures
        fragments(v) == Seq::<(u64, usize)>::empty(),
{
    ArrayVec::new()
}

/// `ArrayVec::push`: the item is placed after those already held. The
/// function panics when the array is full, so room for the item is required.
#[verifier::external_body]
pub(crate) fn push_fragment(v: &mut ArrayVec<[(u64, usize); 2]>, fragment: (u64, usize))
    requires
        fragments(*old(v)).len() < 2,
    ensures
        fragments(*final(v)) == fragments(*old(v)).push(fragment),
{
    v.push(fragment)
}

/// `ArrayVec::len`: how many items are held.
#[verifier::external_body]
pub(crate) fn fragment_count(v: &ArrayVec<[(u64, usize); 2]>) -> (n: usize)
    ensures
        n == fragments(*v).len(),
{
    v.len()
}

/// Indexing an `ArrayVec`: the item at `i`, counted from the first one held.
/// The function panics past the last item, so `i` is required to be in range.
#[verifier::external_body]
pub(crate) fn fragment_at(v: &ArrayVec<[(u64, usize); 2]>, i: usize) -> (fragment: (u64, usize))
    requires
        i < fragments(*v).len(),
    ensures
        fragment == fragments(*v)[i as int],
{
    v[i]
}

/// `ArrayVec::from_array_len`: the first `len` items of `data`. The function
/// panics when `len` is more than the array has, so that is left out.
#[verifier::external_body]
pub(crate) fn from_array_len(data: [u8; 64], len: usize) -> (v: ArrayVec<[u8; 64]>)
    requires
        len <= 64,
    ensures
        register_bytes(v) == data@.take(len as int),
{
    ArrayVec::from_array_len(data, len)
}

/// `ArrayVec::from` an array: all of `data`.
#[verifier::external_body]
pub(crate) fn from_array(data: [u8; 64]) -> (v: ArrayVec<[u8; 64]>)
    ensures
        register_bytes(v) == data@,
{
    ArrayVec::from(data)
}

} // verus!
