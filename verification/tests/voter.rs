use edge_kernels::voter::{vote, vote_2oo3, FaultStatus, VoteError, VoteResult};

/// The consensus as an approximate scalar in whole units, for comparison
/// against the readings the fixed-point values stand for.
fn consensus_value(result: &VoteResult) -> f64 {
    if result.consensus_count == 0 {
        0.0
    } else {
        result.consensus_sum as f64 / (result.consensus_count as f64 * 1000.0)
    }
}

#[test]
fn test_all_healthy() {
    // readings 23.5, 23.6, 23.4 in thousandths of a unit
    let result = vote_2oo3(&[23500, 23600, 23400]);
    assert_eq!(result.fault_status, FaultStatus::AllHealthy);
    assert!(result.rejected.is_empty());
    assert!((consensus_value(&result) - 23.5).abs() < 0.1);
}

#[test]
fn test_one_faulty() {
    // readings 23.5, 23.6, 99.9
    let result = vote_2oo3(&[23500, 23600, 99900]);
    assert_eq!(result.fault_status, FaultStatus::OneFaulty);
    assert_eq!(result.rejected, vec![99900]);
    assert!((consensus_value(&result) - 23.55).abs() < 0.1);
}

#[test]
fn test_no_consensus() {
    // readings 10.0, 50.0, 90.0
    let result = vote_2oo3(&[10000, 50000, 90000]);
    assert_eq!(result.fault_status, FaultStatus::NoConsensus);
    assert_eq!(result.rejected.len(), 3);
}

#[test]
fn test_tolerance_boundary() {
    // readings 23.0, 24.0, 23.5: a difference of exactly the tolerance
    let result = vote_2oo3(&[23000, 24000, 23500]);
    assert_eq!(result.fault_status, FaultStatus::AllHealthy);
}

#[test]
fn test_vote_result_fault_status() {
    let result = VoteResult {
        consensus_sum: 47000,
        consensus_count: 2,
        rejected: vec![99900],
        fault_status: FaultStatus::OneFaulty,
    };
    assert_eq!(result.fault_status, FaultStatus::OneFaulty);
}

#[test]
fn test_all_healthy_exact_mean() {
    let result = vote_2oo3(&[23500, 23600, 23400]);
    assert_eq!(result.consensus_sum, 70500);
    assert_eq!(result.consensus_count, 3);
    assert_eq!(consensus_value(&result), 23.5);
}

#[test]
fn test_one_faulty_exact_mean() {
    let result = vote_2oo3(&[23500, 23600, 99900]);
    assert_eq!(result.consensus_sum, 47100);
    assert_eq!(result.consensus_count, 2);
    assert_eq!(consensus_value(&result), 23.55);
}

#[test]
fn test_no_consensus_zeroed() {
    let result = vote_2oo3(&[10000, 50000, 90000]);
    assert_eq!(result.consensus_sum, 0);
    assert_eq!(result.consensus_count, 0);
    assert_eq!(consensus_value(&result), 0.0);
    // rejected readings keep their original order
    assert_eq!(result.rejected, vec![10000, 50000, 90000]);
}

#[test]
fn test_first_agreeing_pair_wins() {
    // both (a,b) and (b,c) agree but (a,c) does not: the earliest pair wins
    let result = vote_2oo3(&[22900, 23900, 24900]);
    assert_eq!(result.fault_status, FaultStatus::OneFaulty);
    assert_eq!(result.consensus_sum, 22900 + 23900);
    assert_eq!(result.rejected, vec![24900]);
}

#[test]
fn test_later_pairs_checked_in_order() {
    // only (b,c) agrees
    let result = vote_2oo3(&[0, 50000, 50500]);
    assert_eq!(result.fault_status, FaultStatus::OneFaulty);
    assert_eq!(result.consensus_sum, 100500);
    assert_eq!(result.rejected, vec![0]);
    // only (a,c) agrees
    let result = vote_2oo3(&[50000, 0, 50500]);
    assert_eq!(result.fault_status, FaultStatus::OneFaulty);
    assert_eq!(result.consensus_sum, 100500);
    assert_eq!(result.rejected, vec![0]);
}

#[test]
fn test_vote_requires_three_readings() {
    assert!(matches!(vote(&[23500, 23600]), Err(VoteError::InvalidReadingCount)));
    assert!(matches!(vote(&[]), Err(VoteError::InvalidReadingCount)));
    assert!(matches!(vote(&[1000, 2000, 3000, 4000]), Err(VoteError::InvalidReadingCount)));
    let ok = vote(&[23500, 23600, 23400]).unwrap();
    assert_eq!(ok.fault_status, FaultStatus::AllHealthy);
}

#[test]
fn test_negative_readings() {
    let result = vote_2oo3(&[-23500, -23600, -99900]);
    assert_eq!(result.fault_status, FaultStatus::OneFaulty);
    assert_eq!(result.rejected, vec![-99900]);
    assert_eq!(consensus_value(&result), -23.55);
}
