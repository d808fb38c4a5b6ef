use election_provider_support::bounds::{
    CountBound, DataProviderBounds, ElectionBounds, ElectionBoundsBuilder, SizeBound,
};

#[test]
fn count_exhausted_above_bound() {
    let bounds = DataProviderBounds { count: Some(CountBound(7)), size: None };
    assert!(bounds.count_exhausted(CountBound(8)));
    assert!(bounds.count_exhausted(CountBound(u32::MAX)));
}

#[test]
fn count_exhausted_within_bound() {
    let bounds = DataProviderBounds { count: Some(CountBound(7)), size: None };
    assert!(!bounds.count_exhausted(CountBound(7)));
    assert!(!bounds.count_exhausted(CountBound(0)));
}

#[test]
fn count_exhausted_unset_is_never_tripped() {
    let bounds = DataProviderBounds::new_unbounded();
    assert!(!bounds.count_exhausted(CountBound(u32::MAX)));
    assert!(!bounds.count_exhausted(CountBound(0)));
}

#[test]
fn size_exhausted_mirrors_count() {
    let bounds = DataProviderBounds { count: None, size: Some(SizeBound(2)) };
    assert!(bounds.size_exhausted(SizeBound(3)));
    assert!(!bounds.size_exhausted(SizeBound(2)));
    assert!(!DataProviderBounds::new_unbounded().size_exhausted(SizeBound(9)));
}

#[test]
fn exhausted_treats_absent_observation_as_zero() {
    let bounds = DataProviderBounds { count: Some(CountBound(1)), size: Some(SizeBound(1)) };
    assert!(!bounds.exhausted(None, None));
    assert!(bounds.exhausted(None, Some(CountBound(2))));
    assert!(bounds.exhausted(Some(SizeBound(2)), None));
    assert!(!bounds.exhausted(Some(SizeBound(1)), Some(CountBound(1))));
}

#[test]
fn max_clamps_a_set_bound() {
    let fifty = DataProviderBounds { count: Some(CountBound(50)), size: None };
    let twenty = DataProviderBounds { count: Some(CountBound(20)), size: None };
    assert_eq!(fifty.max(twenty).count, Some(CountBound(20)));
}

#[test]
fn max_adopts_for_an_unset_bound() {
    let unset = DataProviderBounds { count: None, size: None };
    let twenty = DataProviderBounds { count: Some(CountBound(20)), size: None };
    assert_eq!(unset.max(twenty).count, Some(CountBound(20)));
}

#[test]
fn max_keeps_the_tighter_own_bound() {
    let ten = DataProviderBounds { count: Some(CountBound(10)), size: Some(SizeBound(5)) };
    let loose = DataProviderBounds { count: Some(CountBound(90)), size: None };
    let capped = ten.max(loose);
    assert_eq!(capped.count, Some(CountBound(10)));
    assert_eq!(capped.size, Some(SizeBound(5)));
}

#[test]
fn max_composition_converges() {
    let fifty = DataProviderBounds { count: Some(CountBound(50)), size: Some(SizeBound(9)) };
    let twenty = DataProviderBounds { count: Some(CountBound(20)), size: None };
    let once = fifty.max(twenty);
    assert_eq!(once.max(twenty), once);
}

#[test]
fn saturating_add_saturates() {
    assert_eq!(CountBound(u32::MAX - 1).saturating_add(CountBound(5)).0, u32::MAX);
    assert_eq!(CountBound(2).saturating_add(CountBound(3)).0, 5);
    assert_eq!(SizeBound(u32::MAX).saturating_add(SizeBound(1)).0, u32::MAX);
    assert_eq!(SizeBound(0).saturating_add(SizeBound(0)).0, 0);
}

#[test]
fn zero_is_the_identity_of_addition() {
    assert_eq!(CountBound(9).saturating_add(CountBound::zero()).0, 9);
    assert!(CountBound::zero().is_zero());
    assert!(!SizeBound(1).is_zero());
    assert_eq!(CountBound::from(4u32), CountBound(4));
    assert_eq!(SizeBound::from(4u32), SizeBound(4));
}

#[test]
fn builder_sets_voters_count() {
    let bounds = ElectionBoundsBuilder::new().voters_count(CountBound(10)).build();
    assert_eq!(bounds.voters.count, Some(CountBound(10)));
    assert_eq!(bounds.voters.size, None);
    assert_eq!(bounds.targets.count, None);
    assert_eq!(bounds.targets.size, None);
}

#[test]
fn builder_accumulates_each_dimension() {
    let bounds = ElectionBoundsBuilder::new()
        .voters_count(CountBound(1))
        .voters_size(SizeBound(2))
        .targets_count(CountBound(3))
        .targets_size(SizeBound(4))
        .build();
    assert_eq!(bounds.voters.count, Some(CountBound(1)));
    assert_eq!(bounds.voters.size, Some(SizeBound(2)));
    assert_eq!(bounds.targets.count, Some(CountBound(3)));
    assert_eq!(bounds.targets.size, Some(SizeBound(4)));
}

#[test]
fn builder_unset_dimensions_default_to_unbounded() {
    let bounds = ElectionBoundsBuilder::new().build();
    assert_eq!(bounds.voters.count, None);
    assert_eq!(bounds.voters.size, None);
    assert_eq!(bounds.targets.count, None);
    assert_eq!(bounds.targets.size, None);
}

#[test]
fn builder_from_keeps_existing_bounds() {
    let start = ElectionBounds {
        voters: DataProviderBounds { count: Some(CountBound(5)), size: None },
        targets: DataProviderBounds { count: None, size: Some(SizeBound(6)) },
    };
    let rebuilt = ElectionBoundsBuilder::from(start).build();
    assert_eq!(rebuilt.voters.count, Some(CountBound(5)));
    assert_eq!(rebuilt.targets.size, Some(SizeBound(6)));
}

#[test]
fn builder_or_lower_tightens() {
    let bounds = ElectionBoundsBuilder::new()
        .voters_count(CountBound(50))
        .voters_or_lower(DataProviderBounds { count: Some(CountBound(20)), size: None })
        .targets_or_lower(DataProviderBounds { count: Some(CountBound(9)), size: None })
        .build();
    assert_eq!(bounds.voters.count, Some(CountBound(20)));
    assert_eq!(bounds.targets.count, Some(CountBound(9)));
}

#[test]
fn builder_or_lower_keeps_a_tighter_own_bound() {
    let bounds = ElectionBoundsBuilder::new()
        .voters_count(CountBound(10))
        .voters_or_lower(DataProviderBounds { count: Some(CountBound(40)), size: None })
        .build();
    assert_eq!(bounds.voters.count, Some(CountBound(10)));
}

#[test]
fn builder_wholesale_setters_overwrite() {
    let pair = DataProviderBounds { count: Some(CountBound(3)), size: None };
    let bounds = ElectionBoundsBuilder::new()
        .voters(Some(pair))
        .targets(None)
        .build();
    assert_eq!(bounds.voters.count, Some(CountBound(3)));
    assert_eq!(bounds.targets.count, None);
}
