//! A bounded list of gaps, kept in a `heapless::Vec`.

use vstd::prelude::*;

verus! {

/// Gaps one analysis can hold; later ones are dropped.
pub const MAX_GAPS: usize = 64;

/// A contiguous arc of clear slots.
#[derive(Debug, Clone, Copy, PartialEq, Eq, Structural)]
pub struct Gap {
    /// First slot, 0 to 359.
    pub start_deg: u16,
    /// Last slot, 0 to 359; below the first for a gap across slot 0.
    pub end_deg: u16,
    /// Nearest distance measured in the gap, in tenths of a centimetre.
    pub min_distance: u32,
}

/// `heapless::Vec`: a vector with a fixed capacity.
#[verifier::external_type_specification]
#[verifier::external_body]
#[verifier::reject_recursive_types(T)]
pub struct ExHeaplessVec<T, const N: usize>(heapless::Vec<T, N>);

/// The gaps a list holds, in order.
pub uninterp spec fn held_gaps(gaps: heapless::Vec<Gap, MAX_GAPS>) -> Seq<Gap>;

/// `heapless::Vec::new`: an empty list.
#[verifier::external_body]
pub(crate) fn gaps_new() -> (gaps: heapless::Vec<Gap, MAX_GAPS>)
    ensures
        held_gaps(gaps) == Seq::<Gap>::empty(),
{
    heapless::Vec::new()
}

/// `heapless::Vec::push`: appends the gap while there is room; a full list stays as
/// it is and hands the gap back.
#[verifier::external_body]
pub(crate) fn gaps_push(gaps: &mut heapless::Vec<Gap, MAX_GAPS>, gap: Gap) -> (pushed: Result<(), Gap>)
    ensures
        (if held_gaps(*old(gaps)).len() < MAX_GAPS {
            pushed == Ok::<(), Gap>(()) && held_gaps(*final(gaps)) == held_gaps(*old(gaps)).push(gap)
        } else {
            pushed == Err::<(), Gap>(gap) && held_gaps(*final(gaps)) == held_gaps(*old(gaps))
        }),
{
    gaps.push(gap)
}

/// `heapless::Vec::pop`: takes the last gap off the list, if there is one.
#[verifier::external_body]
pub(crate) fn gaps_pop(gaps: &mut heapless::Vec<Gap, MAX_GAPS>) -> (popped: Option<Gap>)
    ensures
        (if held_gaps(*old(gaps)).len() == 0 {
            popped == None::<Gap> && held_gaps(*final(gaps)) == held_gaps(*old(gaps))
        } else {
            popped == Some(held_gaps(*old(gaps)).last()) && held_gaps(*final(gaps)) == held_gaps(
                *old(gaps),
            ).drop_last()
        }),
{
    gaps.pop()
}

/// `len` of the slice a `heapless::Vec` dereferences to: how many gaps it holds,
/// never more than its capacity.
#[verifier::external_body]
pub(crate) fn gaps_len(gaps: &heapless::Vec<Gap, MAX_GAPS>) -> (len: usize)
    ensures
        len == held_gaps(*gaps).len(),
        len <= MAX_GAPS,
{
    gaps.len()
}

/// Indexing the slice a `heapless::Vec` dereferences to: the gap at a place.
#[verifier::external_body]
pub(crate) fn gaps_get(gaps: &heapless::Vec<Gap, MAX_GAPS>, i: usize) -> (gap: Gap)
    requires
        i < held_gaps(*gaps).len(),
    ensures
        gap == held_gaps(*gaps)[i as int],
{
    gaps[i]
}

/// Assigning through the mutable slice a `heapless::Vec` dereferences to: replaces
/// the gap at a place and leaves the others.
#[verifier::external_body]
pub(crate) fn gaps_set(gaps: &mut heapless::Vec<Gap, MAX_GAPS>, i: usize, gap: Gap)
    requires
        i < held_gaps(*old(gaps)).len(),
    ensures
        held_gaps(*final(gaps)) == held_gaps(*old(gaps)).update(i as int, gap),
{
    gaps[i] = gap;
}

} // verus!
