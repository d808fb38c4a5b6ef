use election_provider_support::bounds::DataProviderBounds;
use election_provider_support::npos::{Error, Support};
use election_provider_support::providers::{
    check_desired_targets, BoundedSupports, ConstU32, ElectionDataProvider, ElectionProvider,
    ElectionProviderBase, FixedDesiredTargets, Get, InstantElectionProvider, NoElection,
};

type NoElectionOf<const D: u32, const M: u32> =
    NoElection<(u64, u32, FixedDesiredTargets<D>, ConstU32<M>)>;

#[test]
fn no_election_is_never_ongoing() {
    assert!(!NoElectionOf::<0, 5>::ongoing());
    assert!(!NoElectionOf::<9, 1>::ongoing());
}

#[test]
fn no_election_always_fails_to_elect() {
    let r = NoElectionOf::<0, 5>::elect();
    assert_eq!(r.unwrap_err(), "`NoElection` cannot do anything.");
    let r = NoElectionOf::<3, 100>::elect();
    assert!(r.is_err());
}

#[test]
fn no_election_always_fails_instantly_too() {
    let unbounded = DataProviderBounds::new_unbounded();
    let r = NoElectionOf::<0, 5>::instant_elect(unbounded, unbounded);
    assert_eq!(r.unwrap_err(), "`NoElection` cannot do anything.");
}

#[test]
fn desired_targets_checked_passes_a_value_within_the_ceiling() {
    assert_eq!(NoElectionOf::<4, 5>::desired_targets_checked(), Ok(4));
    assert_eq!(NoElectionOf::<5, 5>::desired_targets_checked(), Ok(5));
}

#[test]
fn desired_targets_checked_rejects_a_value_above_the_ceiling() {
    assert_eq!(
        NoElectionOf::<6, 5>::desired_targets_checked(),
        Err("desired_targets must not be greater than MaxWinners.")
    );
}

#[test]
fn check_desired_targets_propagates_a_report_error() {
    assert_eq!(check_desired_targets(Err("no metadata"), 5), Err("no metadata"));
    assert_eq!(check_desired_targets(Ok(0), 0), Ok(0));
    assert_eq!(check_desired_targets(Ok(1), 0).is_err(), true);
}

#[test]
fn fixed_data_provider_has_an_empty_snapshot() {
    let unbounded = DataProviderBounds::new_unbounded();
    assert_eq!(FixedDesiredTargets::<7>::electable_targets(unbounded), Ok(vec![]));
    assert_eq!(FixedDesiredTargets::<7>::electing_voters(unbounded).unwrap().len(), 0);
    assert_eq!(FixedDesiredTargets::<7>::desired_targets(), Ok(7));
    assert_eq!(FixedDesiredTargets::<7>::next_election_prediction(11), 11);
}

#[test]
fn bounded_supports_accepts_within_the_ceiling() {
    let supports = vec![
        (1u64, Support { total: 10, voters: vec![(2u64, 10)] }),
        (3u64, Support { total: 5, voters: vec![] }),
    ];
    let bounded = BoundedSupports::<u64, ConstU32<2>>::try_from_supports(supports.clone()).unwrap();
    assert_eq!(bounded.len(), 2);
    assert_eq!(bounded.into_supports(), supports);
}

#[test]
fn bounded_supports_rejects_above_the_ceiling() {
    let supports = vec![
        (1u64, Support::new_empty()),
        (2u64, Support::new_empty()),
        (3u64, Support::new_empty()),
    ];
    let r = BoundedSupports::<u64, ConstU32<2>>::try_from_supports(supports);
    assert_eq!(r.unwrap_err(), Error::BoundsExceeded);
}

#[test]
fn const_u32_hands_out_its_value() {
    assert_eq!(ConstU32::<42>::get(), 42);
    assert_eq!(ConstU32::<0>::get(), 0);
}
