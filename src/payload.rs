//! Fixed-capacity buffer that holds a staged configuration payload.
use vstd::prelude::*;

verus! {

#[verifier::external_type_specification]
#[verifier::external_body]
#[verifier::reject_recursive_types(T)]
pub struct ExBoundedVec<T, const N: usize>(heapless::Vec<T, N>);

/// The bytes that a 256-byte bounded buffer holds.
pub uninterp spec fn held_bytes(v: heapless::Vec<u8, 256>) -> Seq<u8>;

/// Relies on heapless::Vec::from_slice: it fails, changing nothing, exactly
/// when the slice is longer than the capacity, and otherwise holds the slice.
#[verifier::external_body]
pub(crate) fn bounded_from_slice(s: &[u8]) -> (r: Result<heapless::Vec<u8, 256>, ()>)
    ensures
        r is Ok <==> s@.len() <= 256,
        r matches Ok(v) ==> held_bytes(v) == s@,
{
    heapless::Vec::from_slice(s)
}

/// Relies on heapless::Vec::as_slice: the slice of the elements held.
#[verifier::external_body]
pub(crate) fn bounded_as_slice(v: &heapless::Vec<u8, 256>) -> (r: &[u8])
    ensures
        r@ == held_bytes(*v),
{
    v.as_slice()
}

} // verus!
