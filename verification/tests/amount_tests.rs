use clire_combat::amount::Amount;

#[test]
fn from_i32_is_whole() {
    let a = Amount::from_i32(7);
    assert_eq!(a, Amount { mantissa: 7, scale: 0 });
}

#[test]
fn multiplies_with_decimal_scale() {
    let a = Amount::from_i32(6);
    let b = Amount::new(15, 1);
    let p = a.checked_mul(b).unwrap();
    assert_eq!(p.trunc(), Amount::from_i32(9));
}

#[test]
fn adds_whole_amounts() {
    let s = Amount::from_i32(2).checked_add(Amount::from_i32(3)).unwrap();
    assert_eq!(s, Amount::from_i32(5));
}

#[test]
fn division_by_zero_is_none() {
    assert!(Amount::from_i32(4).checked_div(Amount::from_i32(0)).is_none());
}

#[test]
fn divides_and_truncates_toward_zero() {
    let q = Amount::from_i32(-7).checked_div(Amount::from_i32(2)).unwrap();
    assert_eq!(q.trunc(), Amount::from_i32(-3));
}

#[test]
fn compares_values() {
    assert!(Amount::new(5, 1).lt(Amount::from_i32(1)));
    assert!(!Amount::from_i32(1).lt(Amount::new(10, 1)));
}
