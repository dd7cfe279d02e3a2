//! The segment gate: a bitmask over population buckets decides whether a
//! user's hash admits the user to an experiment.

use vstd::prelude::*;
use crate::experiment::EvalError;

verus! {

/// Whether the bitmask admits the hash: the hash selects one bit position
/// among `segments.len() * 8`, and the user is included exactly when that
/// bit is set.
pub open spec fn segment_admits(segments: Seq<u8>, hash: u64) -> bool
    recommends
        segments.len() > 0,
{
    let pos = (hash as int) % (segments.len() as int * 8);
    (1u8 << ((pos % 8) as u8)) & segments[pos / 8] != 0
}

/// Decides segment eligibility: `None` exactly when the bitmask admits the
/// hash, and the segment-exclusion error otherwise.
pub fn valid_segment(segments: &Vec<u8>, hash: u64) -> (r: Option<EvalError>)
    requires
        segments@.len() > 0,
        segments@.len() * 8 <= u64::MAX,
    ensures
        r is None <==> segment_admits(segments@, hash),
        r is Some ==> r == Some(EvalError::SegmentExcluded),
{
    let total: u64 = (segments.len() as u64) * 8;
    let pos: u64 = hash % total;
    proof {
        assert(pos / 8 < segments@.len()) by (nonlinear_arith)
            requires
                0 <= pos,
                pos < segments@.len() * 8,
        ;
    }
    let byte: u8 = segments[(pos / 8) as usize];
    let bit: u8 = (pos % 8) as u8;
    if (1u8 << bit) & byte != 0 {
        None
    } else {
        Some(EvalError::SegmentExcluded)
    }
}

/// An all-ones bitmask admits every hash: whatever bit position the hash
/// selects, that bit is set.
pub proof fn lemma_full_mask_admits(segments: Seq<u8>, hash: u64)
    requires
        segments.len() > 0,
        forall|i: int| 0 <= i < segments.len() ==> segments[i] == 0xFFu8,
    ensures
        segment_admits(segments, hash),
{
    let pos = (hash as int) % (segments.len() as int * 8);
    assert(0 <= pos < segments.len() as int * 8);
    assert(pos / 8 < segments.len()) by (nonlinear_arith)
        requires
            0 <= pos,
            pos < segments.len() as int * 8,
    ;
    let bit = (pos % 8) as u8;
    assert(forall|b: u8| b < 8 ==> (1u8 << b) & 0xFFu8 != 0) by (bit_vector);
}

/// An all-zero bitmask admits no hash: whatever bit position the hash
/// selects, that bit is unset.
pub proof fn lemma_zero_mask_excludes(segments: Seq<u8>, hash: u64)
    requires
        segments.len() > 0,
        forall|i: int| 0 <= i < segments.len() ==> segments[i] == 0u8,
    ensures
        !segment_admits(segments, hash),
{
    let pos = (hash as int) % (segments.len() as int * 8);
    assert(0 <= pos < segments.len() as int * 8);
    assert(pos / 8 < segments.len()) by (nonlinear_arith)
        requires
            0 <= pos,
            pos < segments.len() as int * 8,
    ;
    let bit = (pos % 8) as u8;
    assert(forall|b: u8| b < 8 ==> (1u8 << b) & 0u8 == 0) by (bit_vector);
}

} // verus!
