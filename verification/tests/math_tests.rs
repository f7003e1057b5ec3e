use flsol::math::{mul_div, mul_div_wide};

#[test]
fn mul_div_rounds_down() {
    assert_eq!(mul_div(600, 2, 100), Some(12));
    assert_eq!(mul_div(7, 3, 2), Some(10));
    assert_eq!(mul_div(1, 1, 2), Some(0));
    assert_eq!(mul_div(0, 5, 7), Some(0));
}

#[test]
fn mul_div_refuses_zero_divisor() {
    assert_eq!(mul_div(5, 5, 0), None);
    assert_eq!(mul_div(0, 0, 0), None);
}

#[test]
fn mul_div_refuses_product_beyond_64_bits() {
    assert_eq!(mul_div(u64::MAX, 2, 2), None);
    assert_eq!(mul_div(1 << 32, 1 << 32, 1 << 32), None);
    assert_eq!(mul_div(u64::MAX, 1, 1), Some(u64::MAX));
    assert_eq!(mul_div((1 << 32) - 1, 1 << 32, 1 << 32), Some((1 << 32) - 1));
}

#[test]
fn mul_div_wide_forms_product_in_128_bits() {
    assert_eq!(mul_div_wide(u64::MAX, 2, 2), Some(u64::MAX));
    assert_eq!(mul_div_wide(1 << 32, 1 << 32, 1 << 32), Some(1 << 32));
    assert_eq!(mul_div_wide(u64::MAX, u64::MAX, u64::MAX), Some(u64::MAX));
    assert_eq!(
        mul_div_wide(10_000_000_000_000_000_000, 3, 4),
        Some(7_500_000_000_000_000_000)
    );
}

#[test]
fn mul_div_wide_refuses_quotient_beyond_64_bits() {
    assert_eq!(mul_div_wide(u64::MAX, 2, 1), None);
    assert_eq!(mul_div_wide(u64::MAX, u64::MAX, 1), None);
    assert_eq!(mul_div_wide(1 << 63, 4, 2), None);
}

#[test]
fn mul_div_wide_refuses_zero_divisor() {
    assert_eq!(mul_div_wide(1, 1, 0), None);
}

#[test]
fn both_procedures_agree_where_the_product_fits() {
    let cases: [(u64, u64, u64); 5] =
        [(150, 50, 100), (1, 1, 1), (999, 1000, 7), (0, 9, 3), (4_000_000_000, 4, 3)];
    for (a, b, d) in cases {
        assert_eq!(mul_div(a, b, d), mul_div_wide(a, b, d));
    }
}
