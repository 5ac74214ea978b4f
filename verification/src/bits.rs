//! The packed flag store behind the per-face visibility cache.

use vstd::prelude::*;
use bit_vec::BitVec;

verus! {

/// `bit_vec::BitVec`: a growable vector of flags, packed into blocks of type
/// `B`. Nothing is known of what a value holds but through `bits_of`.
#[verifier::external_type_specification]
#[verifier::external_body]
#[verifier::reject_recursive_types(B)]
pub struct ExBitVec<B>(BitVec<B>);

/// The flags that a bit vector holds, in index order.
pub uninterp spec fn bits_of(v: BitVec<u32>) -> Seq<bool>;

/// `BitVec::from_elem`: a vector of `nbits` flags, each equal to `bit`.
#[verifier::external_body]
pub(crate) fn bits_from_elem(nbits: usize, bit: bool) -> (v: BitVec<u32>)
    ensures
        bits_of(v) == Seq::new(nbits as nat, |i: int| bit),
{
    BitVec::from_elem(nbits, bit)
}

/// `BitVec::get`: the flag at index `i`, or `None` past the end.
#[verifier::external_body]
pub(crate) fn bits_get(v: &BitVec<u32>, i: usize) -> (r: Option<bool>)
    ensures
        r == if i < bits_of(*v).len() { Some(bits_of(*v)[i as int]) } else { None },
{
    v.get(i)
}

/// `BitVec::set`: stores `x` at index `i` and leaves every other flag as it
/// was. The method panics past the end, so the index must be in bounds.
#[verifier::external_body]
pub(crate) fn bits_set(v: &mut BitVec<u32>, i: usize, x: bool)
    requires
        i < bits_of(*old(v)).len(),
    ensures
        bits_of(*final(v)) == bits_of(*old(v)).update(i as int, x),
{
    v.set(i, x)
}

} // verus!
