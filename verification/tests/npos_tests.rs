use election_provider_support::npos::{Assignment, Error, IndexAssignment};
use sp_arithmetic::Perbill;

#[test]
fn index_assignment_round_trip_keeps_proportions() {
    let assignment = Assignment {
        who: 42u64,
        distribution: vec![
            (100u64, Perbill::from_percent(30)),
            (200u64, Perbill::from_percent(70)),
        ],
    };
    let voters = vec![7u64, 42, 9];
    let targets = vec![200u64, 100];
    let compact = IndexAssignment::new(&assignment, &voters, &targets).unwrap();
    assert_eq!(compact.who, 1);
    assert_eq!(
        compact.distribution,
        vec![(1usize, Perbill::from_percent(30)), (0usize, Perbill::from_percent(70))]
    );
}

#[test]
fn index_assignment_missing_target_is_fatal() {
    let assignment = Assignment {
        who: 42u64,
        distribution: vec![
            (100u64, Perbill::from_percent(50)),
            (999u64, Perbill::from_percent(50)),
        ],
    };
    let voters = vec![42u64];
    let targets = vec![100u64, 200];
    let result = IndexAssignment::new(&assignment, &voters, &targets);
    assert_eq!(result, Err(Error::SolutionInvalidIndex));
}

#[test]
fn index_assignment_missing_voter_is_fatal() {
    let assignment: Assignment<u64, Perbill> = Assignment {
        who: 5u64,
        distribution: vec![(100u64, Perbill::from_percent(100))],
    };
    let voters = vec![1u64, 2, 3];
    let targets = vec![100u64];
    let result = IndexAssignment::new(&assignment, &voters, &targets);
    assert_eq!(result, Err(Error::SolutionInvalidIndex));
}

#[test]
fn index_assignment_empty_distribution() {
    let assignment: Assignment<u64, Perbill> = Assignment { who: 1u64, distribution: vec![] };
    let voters = vec![1u64];
    let targets: Vec<u64> = vec![];
    let compact = IndexAssignment::new(&assignment, &voters, &targets).unwrap();
    assert_eq!(compact.who, 0);
    assert!(compact.distribution.is_empty());
}

#[test]
fn index_assignment_uses_first_position() {
    let assignment = Assignment {
        who: 8u64,
        distribution: vec![(3u64, Perbill::from_parts(123_456_789))],
    };
    let voters = vec![8u64, 8];
    let targets = vec![9u64, 3, 3];
    let compact = IndexAssignment::new(&assignment, &voters, &targets).unwrap();
    assert_eq!(compact.who, 0);
    assert_eq!(compact.distribution, vec![(1usize, Perbill::from_parts(123_456_789))]);
}
