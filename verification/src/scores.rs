//! Selection of the predicted label from the scores of one forward pass.
//!
//! A score travels as the 32 bits of its IEEE 754 single-precision encoding:
//! one sign bit, then the magnitude. Among encodings that are numbers, order
//! by value is order by `rank`; an encoding whose magnitude lies above that of
//! infinity is not a number and compares with nothing.

use vstd::prelude::*;
use crate::error::PipelineError;

verus! {

/// The sign bit of an encoded score.
pub const SIGN_BIT: u32 = 0x8000_0000;

/// The magnitude bits of infinity, the largest magnitude that is a number.
pub const INFINITY_MAGNITUDE: u32 = 0x7f80_0000;

/// An encoded score with its sign bit cleared.
pub open spec fn magnitude(bits: u32) -> int {
    if bits >= SIGN_BIT {
        bits - SIGN_BIT
    } else {
        bits as int
    }
}

/// Whether an encoded score is not a number.
pub open spec fn is_nan(bits: u32) -> bool {
    magnitude(bits) > INFINITY_MAGNITUDE
}

/// An integer that orders encoded numbers as their values are ordered:
/// the magnitude, negated under a set sign bit. Both zeros have rank 0.
pub open spec fn rank(bits: u32) -> int {
    if bits >= SIGN_BIT {
        -magnitude(bits)
    } else {
        magnitude(bits)
    }
}

/// Whether a maximum scan can run over `scores`: there is a score, and every
/// comparison the scan makes is between numbers. A lone score is compared with
/// nothing.
pub open spec fn comparable(scores: Seq<u32>) -> bool {
    scores.len() == 1 || (scores.len() >= 2 && forall|i: int|
        0 <= i < scores.len() ==> !is_nan(#[trigger] scores[i]))
}

/// Whether `label` is the lowest index among the first `n` scores whose score
/// no other of them exceeds.
pub open spec fn is_first_maximum_of(scores: Seq<u32>, n: int, label: int) -> bool {
    &&& 0 <= label < n <= scores.len()
    &&& forall|j: int| 0 <= j < n ==> rank(#[trigger] scores[j]) <= rank(scores[label])
    &&& forall|j: int| 0 <= j < label ==> rank(#[trigger] scores[j]) < rank(scores[label])
}

/// Whether `label` is the lowest index that achieves the maximum score.
pub open spec fn is_first_maximum(scores: Seq<u32>, label: int) -> bool {
    is_first_maximum_of(scores, scores.len() as int, label)
}

/// The index that a left-to-right scan holds after the first `n` scores: it
/// starts at the first score and moves only to a score that exceeds the one
/// it holds.
pub open spec fn scan_label(scores: Seq<u32>, n: nat) -> int
    decreases n,
{
    if n <= 1 {
        0
    } else {
        let held = scan_label(scores, (n - 1) as nat);
        if rank(scores[n - 1]) > rank(scores[held]) {
            n - 1
        } else {
            held
        }
    }
}

/// The label that the scan over all of `scores` ends with.
pub open spec fn predicted_label(scores: Seq<u32>) -> int {
    scan_label(scores, scores.len())
}

/// After any non-empty prefix, the scan holds the lowest index that achieves
/// the prefix's maximum.
pub proof fn lemma_scan_holds_first_maximum(scores: Seq<u32>, n: nat)
    requires
        1 <= n <= scores.len(),
    ensures
        is_first_maximum_of(scores, n as int, scan_label(scores, n)),
    decreases n,
{
    if n > 1 {
        lemma_scan_holds_first_maximum(scores, (n - 1) as nat);
    }
}

/// For every non-empty sequence of scores the predicted label is the lowest
/// index that achieves the maximum score.
pub proof fn lemma_predicted_label_is_first_maximum(scores: Seq<u32>)
    requires
        scores.len() > 0,
    ensures
        is_first_maximum(scores, predicted_label(scores)),
{
    lemma_scan_holds_first_maximum(scores, scores.len());
}

/// At most one index is the lowest that achieves the maximum, so ties decide
/// nothing: equal scores always give the same label.
pub proof fn lemma_first_maximum_is_unique(scores: Seq<u32>, a: int, b: int)
    requires
        is_first_maximum(scores, a),
        is_first_maximum(scores, b),
    ensures
        a == b,
{
    if a < b {
        assert(rank(scores[a]) < rank(scores[b]));
        assert(rank(scores[b]) <= rank(scores[a]));
    } else if b < a {
        assert(rank(scores[b]) < rank(scores[a]));
        assert(rank(scores[a]) <= rank(scores[b]));
    }
}

/// The rank of an encoded score.
pub fn rank_of(bits: u32) -> (r: i64)
    ensures
        r == rank(bits),
{
    if bits >= SIGN_BIT {
        -((bits - SIGN_BIT) as i64)
    } else {
        bits as i64
    }
}

/// Whether an encoded score is not a number.
pub fn is_not_a_number(bits: u32) -> (r: bool)
    ensures
        r == is_nan(bits),
{
    if bits >= SIGN_BIT {
        bits - SIGN_BIT > INFINITY_MAGNITUDE
    } else {
        bits > INFINITY_MAGNITUDE
    }
}

/// Picks the predicted label: the index of the maximum score, the lowest such
/// index where several scores tie. Fails when there is no score, or when two
/// or more scores are to be compared and one of them is not a number.
pub fn select_label(scores: &[u32]) -> (result: Result<usize, PipelineError>)
    ensures
        match result {
            Ok(label) => {
                &&& comparable(scores@)
                &&& label == predicted_label(scores@)
                &&& is_first_maximum(scores@, label as int)
            },
            Err(e) => !comparable(scores@) && e == PipelineError::OutputExtraction,
        },
{
    let n: usize = scores.len();
    if n == 0 {
        return Err(PipelineError::OutputExtraction);
    }
    if n == 1 {
        proof {
            lemma_predicted_label_is_first_maximum(scores@);
        }
        return Ok(0);
    }
    if is_not_a_number(scores[0]) {
        return Err(PipelineError::OutputExtraction);
    }
    let mut held: usize = 0;
    let mut held_rank: i64 = rank_of(scores[0]);
    let mut i: usize = 1;
    while i < n
        invariant
            n == scores@.len(),
            1 <= i <= n,
            held == scan_label(scores@, i as nat),
            0 <= held < i,
            held_rank == rank(scores@[held as int]),
            forall|j: int| 0 <= j < i ==> !is_nan(#[trigger] scores@[j]),
        decreases n - i,
    {
        let bits: u32 = scores[i];
        if is_not_a_number(bits) {
            return Err(PipelineError::OutputExtraction);
        }
        let r: i64 = rank_of(bits);
        if r > held_rank {
            held = i;
            held_rank = r;
        }
        i = i + 1;
    }
    proof {
        lemma_predicted_label_is_first_maximum(scores@);
    }
    Ok(held)
}

} // verus!
