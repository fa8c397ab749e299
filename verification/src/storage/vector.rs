//! Points of a vector store as the library holds them.

use vstd::prelude::*;
use crate::processing::embedding::Embedding;

verus! {

/// The vector storage backends.
#[derive(Debug, Clone, Copy, PartialEq, Eq, Structural)]
pub enum VectorStorageBackend {
    Qdrant,
}

/// What a backend reports of an operation. The time it took, in seconds, is
/// held as the bits of a double-precision number.
#[derive(Debug, Clone, Copy, PartialEq, Eq, Structural)]
pub struct VectorStorageResponse {
    pub time: u64,
}

/// The points that a query returned, best first, and the time it took.
#[derive(Debug, Clone)]
pub struct VectorStorageQueryResponse {
    pub time: u64,
    pub points: Vec<VectorDataPoint>,
}

/// A chunk as a point of a vector store.
#[derive(Debug, Clone)]
pub struct VectorDataPoint {
    pub uuid: String,
    /// Stored under the payload key `name`.
    pub name: String,
    /// Stored under the payload key `content`.
    pub content: String,
    pub embedding: Option<Embedding>,
    /// The similarity to the query, as the bits of a single-precision number.
    pub score: Option<u32>,
}

/// The largest magnitude of a score that is a number: infinity. The
/// magnitudes above it are not numbers.
pub const INFINITY_BITS: u32 = 0x7F80_0000;

/// The bit that holds the sign of a score.
pub const SIGN_BIT: u32 = 0x8000_0000;

/// The bits of a score without its sign.
pub open spec fn magnitude(bits: u32) -> int {
    if bits >= SIGN_BIT {
        bits - SIGN_BIT
    } else {
        bits as int
    }
}

/// The bits stand for a number.
pub open spec fn is_number(bits: u32) -> bool {
    magnitude(bits) <= INFINITY_BITS
}

/// The place of a score among the scores: numbers that are larger have a
/// larger rank, and the two zeros share rank 0.
pub open spec fn score_rank(bits: u32) -> int {
    if bits >= SIGN_BIT {
        -magnitude(bits)
    } else {
        magnitude(bits)
    }
}

/// `score` is greater than `threshold`. What is not a number is neither
/// greater nor smaller than anything.
pub open spec fn exceeds(score: u32, threshold: u32) -> bool {
    is_number(score) && is_number(threshold) && score_rank(score) > score_rank(threshold)
}

/// The rank of a score.
fn rank_of(bits: u32) -> (r: i64)
    ensures
        r == score_rank(bits),
{
    if bits >= SIGN_BIT {
        let m: u32 = bits - SIGN_BIT;
        -(m as i64)
    } else {
        bits as i64
    }
}

/// Decides whether the bits stand for a number.
fn stands_for_number(bits: u32) -> (r: bool)
    ensures
        r == is_number(bits),
{
    if bits >= SIGN_BIT {
        bits - SIGN_BIT <= INFINITY_BITS
    } else {
        bits <= INFINITY_BITS
    }
}

/// Decides whether `score` is greater than `threshold`.
pub fn score_exceeds(score: u32, threshold: u32) -> (r: bool)
    ensures
        r == exceeds(score, threshold),
{
    stands_for_number(score) && stands_for_number(threshold) && rank_of(score) > rank_of(threshold)
}

/// Ranks order the scores, and a score exceeds another exactly when both are
/// numbers and its rank is the larger one: no score exceeds itself, and
/// exceeding carries over a score in the middle.
pub proof fn lemma_exceeds_is_strict_order(a: u32, b: u32, c: u32)
    ensures
        !exceeds(a, a),
        exceeds(a, b) ==> !exceeds(b, a),
        exceeds(a, b) && exceeds(b, c) ==> exceeds(a, c),
{
}

} // verus!
