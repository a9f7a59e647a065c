use nimbus_consensus::ratio::{Origin, RatioError, RatioStore};

#[test]
fn default_ratio_is_one_half() {
    let store = RatioStore::new();
    assert_eq!(store.get_ratio(), 50);
}

#[test]
fn genesis_seeding_saturates_at_one_hundred() {
    assert_eq!(RatioStore::from_genesis(30).get_ratio(), 30);
    assert_eq!(RatioStore::from_genesis(100).get_ratio(), 100);
    assert_eq!(RatioStore::from_genesis(150).get_ratio(), 100);
}

#[test]
fn root_can_update_the_ratio() {
    let mut store = RatioStore::new();
    assert_eq!(store.set_ratio(75, Origin::Root), Ok(()));
    assert_eq!(store.get_ratio(), 75);
    assert_eq!(store.set_ratio(0, Origin::Root), Ok(()));
    assert_eq!(store.get_ratio(), 0);
    assert_eq!(store.set_ratio(100, Origin::Root), Ok(()));
    assert_eq!(store.get_ratio(), 100);
}

#[test]
fn non_root_caller_is_denied_and_state_is_unchanged() {
    let mut store = RatioStore::new();
    assert_eq!(
        store.set_ratio(75, Origin::Signed(11)),
        Err(RatioError::PermissionDenied)
    );
    assert_eq!(store.get_ratio(), 50);
}

#[test]
fn out_of_range_ratio_is_rejected_and_state_is_unchanged() {
    let mut store = RatioStore::new();
    assert_eq!(store.set_ratio(150, Origin::Root), Err(RatioError::InvalidRatio));
    assert_eq!(store.get_ratio(), 50);
    assert_eq!(store.set_ratio(101, Origin::Root), Err(RatioError::InvalidRatio));
    assert_eq!(store.get_ratio(), 50);
}
