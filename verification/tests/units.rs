use invoicely::units::{halve, narrow, whole, PER_UNIT};

#[test]
fn whole_units_are_thousands() {
    assert_eq!(PER_UNIT, 1000);
    assert_eq!(whole(0), 0);
    assert_eq!(whole(12), 12_000);
    assert_eq!(whole(-3), -3_000);
    assert_eq!(whole(i32::MAX), 2_147_483_647_000);
    assert_eq!(whole(i32::MIN), -2_147_483_648_000);
}

#[test]
fn halves_round_towards_zero() {
    assert_eq!(halve(0), 0);
    assert_eq!(halve(11_000), 5_500);
    assert_eq!(halve(7), 3);
    assert_eq!(halve(-7), -3);
    assert_eq!(halve(1), 0);
    assert_eq!(halve(-1), 0);
    assert_eq!(halve(i64::MAX), 4_611_686_018_427_387_903);
    assert_eq!(halve(i64::MIN), -4_611_686_018_427_387_904);
}

#[test]
fn narrow_stops_at_the_ends_of_the_range() {
    assert_eq!(narrow(0), 0);
    assert_eq!(narrow(-5), -5);
    assert_eq!(narrow(i64::MAX as i128), i64::MAX);
    assert_eq!(narrow(i64::MAX as i128 + 1), i64::MAX);
    assert_eq!(narrow(i64::MIN as i128), i64::MIN);
    assert_eq!(narrow(i64::MIN as i128 - 1), i64::MIN);
    assert_eq!(narrow(i128::MAX), i64::MAX);
    assert_eq!(narrow(i128::MIN), i64::MIN);
}
