use vstd::prelude::*;

verus! {

/// A value drawn by `rand::random_range` from the half-open range `low..high`.
/// The contract claims only what `rand` documents: the value lies in the
/// range.  Nothing is said of which value comes.
#[verifier::external_body]
pub(crate) fn random_range_i32(low: i32, high: i32) -> (r: i32)
    requires
        low < high,
    ensures
        low <= r < high,
{
    rand::random_range(low..high)
}

/// A byte drawn by `rand::random`.  Any byte may come; nothing is claimed.
#[verifier::external_body]
pub(crate) fn random_u8() -> (r: u8) {
    rand::random::<u8>()
}

/// A coin flip drawn by `rand::random::<bool>()`.  Either value may come;
/// nothing is claimed.
#[verifier::external_body]
pub(crate) fn random_bool() -> (r: bool) {
    rand::random::<bool>()
}

/// Shuffles the offsets in place with `rand::seq::SliceRandom::shuffle` and
/// the thread-local generator.  The contract claims what the shuffle does to
/// any slice: the same items come back, in some order.  Which order is not
/// said.
#[verifier::external_body]
pub(crate) fn shuffle_offsets(offsets: &mut [(i32, i32); 8])
    ensures
        final(offsets)@.to_multiset() == old(offsets)@.to_multiset(),
{
    rand::seq::SliceRandom::shuffle(&mut offsets[..], &mut rand::rng())
}

} // verus!
