use katherine_sale::arith::{check_basis_points, checked_proportional, compute_fee, proportional};
use katherine_sale::now::{minutes_to_millisecs, Contract, Now};

#[test]
fn proportional_rounds_down() {
    assert_eq!(proportional(3, 2, 1), 6);
    assert_eq!(proportional(10, 1, 3), 3);
    assert_eq!(proportional(4_000_000, 2_000_000_000_000_000_000_000_000, 1_000_000), 8_000_000_000_000_000_000_000_000);
}

#[test]
fn proportional_uses_a_wide_product() {
    assert_eq!(proportional(u128::MAX, u128::MAX, u128::MAX), u128::MAX);
    assert_eq!(proportional(u128::MAX, 3, 4), u128::MAX / 4 * 3 + 2);
    assert_eq!(checked_proportional(u128::MAX, 2, 1), None);
    assert_eq!(checked_proportional(1 << 100, 1 << 100, 1 << 90), Some(1 << 110));
}

#[test]
fn fee_in_basis_points() {
    assert_eq!(compute_fee(4, 250), 0);
    assert_eq!(compute_fee(10_000, 250), 250);
    assert_eq!(compute_fee(1_000_000, 9_999), 999_900);
    assert!(check_basis_points(9_999));
    assert!(!check_basis_points(10_000));
}

#[test]
fn now_arithmetic() {
    assert_eq!(minutes_to_millisecs(2), 120_000);
    let n = Now::new_from_epoch_millis(5);
    assert_eq!(n.to_nanos(), 5_000_000);
    assert_eq!(n.to_epoch_millis(), 5);
    assert_eq!(n.increment_sec(1).to_nanos(), 1_005_000_000);
    assert_eq!(n.increment_min(1).to_epoch_millis(), 60_005);
    assert_eq!(n.increment_days(1).to_epoch_millis(), 86_400_005);
    assert_eq!(n.increment_min(3).reduce_min(2).to_epoch_millis(), 60_005);
    assert!(Now::new().is_some());
}

#[test]
fn clock_contract() {
    let c = Contract::new();
    assert_eq!(c.get_now(1_533_081_600_000_000_000), 1_533_081_600_000);
    assert_eq!(c.get_future(1_533_081_600_000_000_000, 3), 1_533_081_780_000);
    assert_eq!(Contract::get_current_epoch_millis(1_999_999), 1);
}
