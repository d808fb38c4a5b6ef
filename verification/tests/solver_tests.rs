use election_provider_support::npos::Error;
use election_provider_support::solver::{
    ConstBalancing, NoBalancing, NposSolver, PhragMMS, SequentialPhragmen, Weight, WeightInfo,
};

#[test]
fn balancing_keeps_the_same_winners_on_disjoint_votes() {
    let targets = vec![10u64, 20, 30];
    let voters = vec![
        (1u64, 10u64, vec![10u64]),
        (2u64, 20u64, vec![20u64]),
        (3u64, 30u64, vec![30u64]),
    ];
    let plain = SequentialPhragmen::<NoBalancing>::solve(2, targets.clone(), voters.clone())
        .unwrap();
    let balanced = SequentialPhragmen::<ConstBalancing<4>>::solve(2, targets, voters).unwrap();
    assert_eq!(plain.winners, balanced.winners);
}

fn single_vote_setup() -> (Vec<u64>, Vec<(u64, u64, Vec<u64>)>) {
    let targets = vec![10u64, 20, 30];
    let voters = vec![
        (1u64, 10u64, vec![10u64]),
        (2u64, 20u64, vec![20u64]),
        (3u64, 30u64, vec![30u64]),
    ];
    (targets, voters)
}

#[test]
fn seq_phragmen_elects_the_heaviest_targets() {
    let (targets, voters) = single_vote_setup();
    let result = SequentialPhragmen::<NoBalancing>::solve(2, targets, voters).unwrap();
    assert_eq!(result.winners, vec![(30u64, 30u128), (20u64, 20u128)]);
    assert!(result.winners.len() <= 2);
}

#[test]
fn seq_phragmen_assignments_are_whole_stake_ratios() {
    let (targets, voters) = single_vote_setup();
    let result = SequentialPhragmen::<NoBalancing>::solve(2, targets, voters).unwrap();
    assert_eq!(result.assignments.len(), 2);
    for assignment in &result.assignments {
        assert_eq!(assignment.distribution.len(), 1);
        // a single backed target takes the voter's whole stake: all billion parts
        assert_eq!(assignment.distribution[0].1, 1_000_000_000u32);
    }
    let who: Vec<u64> = result.assignments.iter().map(|a| a.who).collect();
    assert!(who.contains(&2) && who.contains(&3));
}

#[test]
fn seq_phragmen_split_vote_splits_proportions() {
    let targets = vec![10u64, 20];
    let voters = vec![(1u64, 100u64, vec![10u64, 20])];
    let result = SequentialPhragmen::<NoBalancing>::solve(2, targets, voters).unwrap();
    assert_eq!(result.assignments.len(), 1);
    let parts: u64 =
        result.assignments[0].distribution.iter().map(|(_, p)| *p as u64).sum();
    assert_eq!(parts, 1_000_000_000);
}

#[test]
fn phragmms_elects_the_heaviest_targets() {
    let (targets, voters) = single_vote_setup();
    let result = PhragMMS::<NoBalancing>::solve(2, targets, voters).unwrap();
    let winner_ids: Vec<u64> = result.winners.iter().map(|w| w.0).collect();
    assert_eq!(winner_ids.len(), 2);
    assert!(winner_ids.contains(&30) && winner_ids.contains(&20));
}

#[test]
fn solvers_cap_winners_at_to_elect() {
    let (targets, voters) = single_vote_setup();
    let result = SequentialPhragmen::<NoBalancing>::solve(1, targets.clone(), voters.clone())
        .unwrap();
    assert_eq!(result.winners.len(), 1);
    let result = PhragMMS::<NoBalancing>::solve(1, targets, voters).unwrap();
    assert_eq!(result.winners.len(), 1);
}

#[test]
fn solve_with_no_candidates_elects_nobody() {
    let result = SequentialPhragmen::<NoBalancing>::solve(2, vec![], vec![]).unwrap();
    assert!(result.winners.is_empty());
    assert!(result.assignments.is_empty());
}

#[test]
fn weight_forwards_to_the_cost_table() {
    let w = SequentialPhragmen::<NoBalancing>::weight::<()>(5, 3, 2);
    assert_eq!(w, Weight { ref_time: 0, proof_size: 0 });
    let w = PhragMMS::<NoBalancing>::weight::<()>(5, 3, 2);
    assert_eq!(w, Weight { ref_time: 0, proof_size: 0 });
    let w = <() as WeightInfo>::phragmms(7, 7, 7);
    assert_eq!(w, Weight { ref_time: 0, proof_size: 0 });
}

#[test]
fn solver_error_variant_is_comparable() {
    assert_eq!(Error::ArithmeticError, Error::ArithmeticError);
    assert_ne!(Error::ArithmeticError, Error::SolutionInvalidIndex);
}
