//! Fixed-capacity PCM sample buffers carried by audio chunk commands.

use vstd::prelude::*;

verus! {

/// Number of PCM samples one audio chunk can carry.
pub const AUDIO_CHUNK_CAPACITY_SAMPLES: usize = 240;

#[verifier::external_type_specification]
#[verifier::external_body]
#[verifier::reject_recursive_types(T)]
pub struct ExHeaplessVec<T, const N: usize>(heapless::Vec<T, N>);

/// `Clone` for `heapless::Vec`: accepted by Verus so that messages carrying a
/// chunk buffer can derive `Clone`; nothing is claimed of the copy.
pub assume_specification<T, const N: usize> [<heapless::Vec<T, N> as Clone>::clone](
    v: &heapless::Vec<T, N>,
) -> heapless::Vec<T, N>
    where
        T: Clone,
;

/// The samples held by a chunk buffer, in order.
pub uninterp spec fn chunk_contents(v: heapless::Vec<i16, 240>) -> Seq<i16>;

/// `heapless::Vec::new`: an empty buffer.
#[verifier::external_body]
pub(crate) fn chunk_buffer_new() -> (v: heapless::Vec<i16, 240>)
    ensures
        chunk_contents(v) == Seq::<i16>::empty(),
{
    heapless::Vec::new()
}

/// `heapless::Vec::len`: the number of samples held, never above the capacity.
#[verifier::external_body]
pub(crate) fn chunk_buffer_len(v: &heapless::Vec<i16, 240>) -> (n: usize)
    ensures
        n == chunk_contents(*v).len(),
        n <= AUDIO_CHUNK_CAPACITY_SAMPLES,
{
    v.len()
}

/// `heapless::Vec::extend_from_slice`: appends all of `other` when it fits in
/// the remaining capacity, and otherwise leaves the buffer untouched and fails.
#[verifier::external_body]
pub(crate) fn chunk_buffer_extend(v: &mut heapless::Vec<i16, 240>, other: &[i16]) -> (r: Result<(), ()>)
    ensures
        chunk_contents(*old(v)).len() + other@.len() <= AUDIO_CHUNK_CAPACITY_SAMPLES ==> {
            &&& r is Ok
            &&& chunk_contents(*final(v)) == chunk_contents(*old(v)) + other@
        },
        chunk_contents(*old(v)).len() + other@.len() > AUDIO_CHUNK_CAPACITY_SAMPLES ==> {
            &&& r is Err
            &&& chunk_contents(*final(v)) == chunk_contents(*old(v))
        },
{
    v.extend_from_slice(other)
}

} // verus!
