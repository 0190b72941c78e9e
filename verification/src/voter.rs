//! The redundancy voter: 2-out-of-3 triple modular redundancy over three
//! sensor readings.
//!
//! Readings are fixed-point values in thousandths of a unit (a reading of
//! 23.5 units is the integer `23500`), so that the tolerance comparison and
//! the consensus are exact.  The consensus is kept as an exact mean — the sum
//! of the agreeing readings together with their count — rather than a rounded
//! quotient; a caller divides where an approximate scalar is wanted.
//!
//! Two readings agree when they differ by at most [`TOLERANCE_MILLIS`]
//! (inclusive).  When all three pairwise differences are within tolerance the
//! readings are all healthy and the consensus is the mean of all three.
//! Otherwise the pairs are checked in the fixed order (a,b), (b,c), (a,c) and
//! the first agreeing pair wins: its mean is the consensus and the remaining
//! reading is rejected.  When no pair agrees there is no consensus: the
//! consensus is zero and all three readings are rejected, in their original
//! order.
use vstd::prelude::*;

verus! {

/// Two readings within this absolute difference (in thousandths of a unit)
/// count as the same value for voting purposes.
pub const TOLERANCE_MILLIS: i64 = 1000;

/// Largest reading magnitude the voter accepts, chosen so that pairwise
/// differences and the three-reading sum cannot overflow `i64`.
pub const READING_LIMIT_MILLIS: i64 = 0x1000_0000_0000_0000;

/// Fault classification after voting.
#[derive(Debug, Clone, Copy, PartialEq, Eq, Structural)]
pub enum FaultStatus {
    /// All three readings agreed within tolerance.
    AllHealthy,
    /// Two readings agreed; one was rejected as an outlier.
    OneFaulty,
    /// No two readings agreed: no consensus is possible.
    NoConsensus,
}

/// The outcome of a vote.  The consensus value is the exact mean
/// `consensus_sum / consensus_count` of the agreeing readings;
/// `consensus_count` is zero exactly when there is no consensus, in which
/// case the consensus value is defined to be zero.
#[derive(Debug, Clone)]
pub struct VoteResult {
    /// Sum of the agreeing readings, in thousandths of a unit.
    pub consensus_sum: i64,
    /// How many readings the consensus is the mean of (3, 2, or 0).
    pub consensus_count: u32,
    /// The readings rejected as outliers, in their original order.
    pub rejected: Vec<i64>,
    /// Fault classification.
    pub fault_status: FaultStatus,
}

/// The reading list did not hold exactly three readings.
#[derive(Debug, Clone, Copy, PartialEq, Eq, Structural)]
pub enum VoteError {
    InvalidReadingCount,
}

/// Whether two readings differ by at most `tol` (inclusive on both sides).
pub open spec fn within_tolerance(x: int, y: int, tol: int) -> bool {
    -tol <= x - y <= tol
}

/// Whether a reading is small enough for the voter's exact arithmetic.
pub open spec fn reading_in_range(x: i64) -> bool {
    -READING_LIMIT_MILLIS <= x <= READING_LIMIT_MILLIS
}

/// What the vote on the readings `a`, `b`, `c` (in that order) must return:
/// the case split of the 2-out-of-3 algorithm, with the pairs checked in the
/// fixed order (a,b), (b,c), (a,c).
pub open spec fn vote_outcome(a: i64, b: i64, c: i64, r: VoteResult) -> bool {
    let tol = TOLERANCE_MILLIS as int;
    if within_tolerance(a as int, b as int, tol) && within_tolerance(b as int, c as int, tol)
        && within_tolerance(a as int, c as int, tol) {
        &&& r.fault_status == FaultStatus::AllHealthy
        &&& r.consensus_sum == a + b + c
        &&& r.consensus_count == 3
        &&& r.rejected@ == Seq::<i64>::empty()
    } else if within_tolerance(a as int, b as int, tol) {
        &&& r.fault_status == FaultStatus::OneFaulty
        &&& r.consensus_sum == a + b
        &&& r.consensus_count == 2
        &&& r.rejected@ == seq![c]
    } else if within_tolerance(b as int, c as int, tol) {
        &&& r.fault_status == FaultStatus::OneFaulty
        &&& r.consensus_sum == b + c
        &&& r.consensus_count == 2
        &&& r.rejected@ == seq![a]
    } else if within_tolerance(a as int, c as int, tol) {
        &&& r.fault_status == FaultStatus::OneFaulty
        &&& r.consensus_sum == a + c
        &&& r.consensus_count == 2
        &&& r.rejected@ == seq![b]
    } else {
        &&& r.fault_status == FaultStatus::NoConsensus
        &&& r.consensus_sum == 0
        &&& r.consensus_count == 0
        &&& r.rejected@ == seq![a, b, c]
    }
}

/// Absolute difference of two in-range readings.
fn abs_diff(x: i64, y: i64) -> (d: i64)
    requires
        reading_in_range(x),
        reading_in_range(y),
    ensures
        d == if x >= y {
            x - y
        } else {
            y - x
        },
{
    if x >= y {
        x - y
    } else {
        y - x
    }
}

/// Performs 2-out-of-3 triple modular redundancy voting on exactly three
/// readings (validated at the call boundary: see [`vote`]).
pub fn vote_2oo3(readings: &[i64]) -> (r: VoteResult)
    requires
        readings@.len() == 3,
        forall|i: int| 0 <= i < readings@.len() ==> reading_in_range(#[trigger] readings@[i]),
    ensures
        vote_outcome(readings@[0], readings@[1], readings@[2], r),
{
    let a = readings[0];
    let b = readings[1];
    let c = readings[2];

    let ab_diff = abs_diff(a, b);
    let bc_diff = abs_diff(b, c);
    let ac_diff = abs_diff(a, c);

    if ab_diff <= TOLERANCE_MILLIS && bc_diff <= TOLERANCE_MILLIS && ac_diff <= TOLERANCE_MILLIS {
        return VoteResult {
            consensus_sum: a + b + c,
            consensus_count: 3,
            rejected: Vec::new(),
            fault_status: FaultStatus::AllHealthy,
        };
    }

    if ab_diff <= TOLERANCE_MILLIS {
        let mut rejected: Vec<i64> = Vec::new();
        rejected.push(c);
        proof {
            assert(rejected@ =~= seq![c]);
        }
        VoteResult {
            consensus_sum: a + b,
            consensus_count: 2,
            rejected,
            fault_status: FaultStatus::OneFaulty,
        }
    } else if bc_diff <= TOLERANCE_MILLIS {
        let mut rejected: Vec<i64> = Vec::new();
        rejected.push(a);
        proof {
            assert(rejected@ =~= seq![a]);
        }
        VoteResult {
            consensus_sum: b + c,
            consensus_count: 2,
            rejected,
            fault_status: FaultStatus::OneFaulty,
        }
    } else if ac_diff <= TOLERANCE_MILLIS {
        let mut rejected: Vec<i64> = Vec::new();
        rejected.push(b);
        proof {
            assert(rejected@ =~= seq![b]);
        }
        VoteResult {
            consensus_sum: a + c,
            consensus_count: 2,
            rejected,
            fault_status: FaultStatus::OneFaulty,
        }
    } else {
        let mut rejected: Vec<i64> = Vec::new();
        rejected.push(a);
        rejected.push(b);
        rejected.push(c);
        proof {
            assert(rejected@ =~= seq![a, b, c]);
        }
        VoteResult {
            consensus_sum: 0,
            consensus_count: 0,
            rejected,
            fault_status: FaultStatus::NoConsensus,
        }
    }
}

/// The call-boundary contract of the voter: exactly three readings are
/// accepted; anything else is an [`VoteError::InvalidReadingCount`].
pub fn vote(readings: &[i64]) -> (r: Result<VoteResult, VoteError>)
    requires
        forall|i: int| 0 <= i < readings@.len() ==> reading_in_range(#[trigger] readings@[i]),
    ensures
        r is Ok <==> readings@.len() == 3,
        r matches Ok(v) ==> vote_outcome(readings@[0], readings@[1], readings@[2], v),
        r matches Err(e) ==> e == VoteError::InvalidReadingCount,
{
    if readings.len() != 3 {
        return Err(VoteError::InvalidReadingCount);
    }
    Ok(vote_2oo3(readings))
}

/// Law: the shape invariant of a vote outcome.  The rejected list is empty
/// exactly when all readings are healthy, holds one reading exactly when one
/// is faulty, and holds all three exactly when there is no consensus — in
/// which case, and only then, the consensus count is zero.
pub proof fn lemma_vote_result_shape(a: i64, b: i64, c: i64, r: VoteResult)
    requires
        vote_outcome(a, b, c, r),
    ensures
        r.fault_status == FaultStatus::AllHealthy <==> r.rejected@.len() == 0,
        r.fault_status == FaultStatus::OneFaulty <==> r.rejected@.len() == 1,
        r.fault_status == FaultStatus::NoConsensus <==> r.rejected@.len() == 3,
        r.fault_status == FaultStatus::NoConsensus <==> r.consensus_count == 0,
        r.fault_status == FaultStatus::NoConsensus ==> r.consensus_sum == 0 && r.rejected@ == seq![
            a,
            b,
            c,
        ],
{
}

} // verus!
