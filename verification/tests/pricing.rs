use milkerfun::pricing::COW_BASE_PRICE;
use milkerfun::pricing::PRICE_PIVOT;
use milkerfun::ErrorCode;
use milkerfun::PriceCurve;

fn curve(base: u64, pivot: u64, num: u8, den: u8) -> PriceCurve {
    PriceCurve::new(base, pivot, num, den).unwrap()
}

#[test]
fn price_doubles_at_the_pivot() {
    // 6000 * (1 + (1500 / 1500) ^ 1.2) = 12000
    let c = curve(6000, 1500, 6, 5);
    assert_eq!(c.calculate_cow_price(1500), Ok(12000));
}

#[test]
fn price_with_no_cows_sold_is_the_base_price() {
    assert_eq!(curve(6000, 1500, 6, 5).calculate_cow_price(0), Ok(6000));
    assert_eq!(PriceCurve::standard().calculate_cow_price(0), Ok(COW_BASE_PRICE));
    assert_eq!(curve(u64::MAX, 1, 255, 1).calculate_cow_price(0), Ok(u64::MAX));
}

#[test]
fn price_with_fractional_steepness_is_rounded_down() {
    // 6000 * (1 + 2 ^ 1.2) = 19784.38...
    assert_eq!(curve(6000, 1500, 6, 5).calculate_cow_price(3000), Ok(19784));
    // 6e9 * (1 + (50 / 3000) ^ 1.2) = 6044093010.5...
    assert_eq!(curve(6_000_000_000, 3000, 6, 5).calculate_cow_price(50), Ok(6_044_093_010));
    // 6e9 * (1 + sqrt(750 / 3000)) = 9e9
    assert_eq!(curve(6_000_000_000, 3000, 1, 2).calculate_cow_price(750), Ok(9_000_000_000));
}

#[test]
fn standard_curve_prices() {
    let c = PriceCurve::standard();
    assert_eq!(c.base_price(), 6_000_000_000);
    assert_eq!(c.pivot(), PRICE_PIVOT);
    assert_eq!(c.steepness_num(), 2);
    assert_eq!(c.steepness_den(), 1);
    assert_eq!(c.calculate_cow_price(1), Ok(6_000_000_666));
    assert_eq!(c.calculate_cow_price(30), Ok(6_000_600_000));
    assert_eq!(c.calculate_cow_price(1500), Ok(7_500_000_000));
    assert_eq!(c.calculate_cow_price(3000), Ok(12_000_000_000));
    assert_eq!(c.calculate_cow_price(3001), Ok(12_004_000_666));
    assert_eq!(c.calculate_cow_price(6000), Ok(30_000_000_000));
    assert_eq!(c.calculate_cow_price(100_000), Ok(6_672_666_666_666));
}

#[test]
fn price_never_falls_as_cows_are_sold() {
    let c = curve(6000, 1500, 6, 5);
    let mut before = c.calculate_cow_price(0).unwrap();
    let mut cows: u64 = 1;
    while cows < 1_000_000 {
        let price = c.calculate_cow_price(cows).unwrap();
        assert!(price >= before);
        before = price;
        cows = cows * 3 + 1;
    }
}

#[test]
fn price_beyond_64_bits_is_an_overflow() {
    let c = PriceCurve::standard();
    assert_eq!(c.calculate_cow_price(166_343_368), Ok(18_446_744_057_722_282_666));
    assert_eq!(c.calculate_cow_price(166_343_369), Err(ErrorCode::MathOverflow));
    assert_eq!(c.calculate_cow_price(u64::MAX), Err(ErrorCode::MathOverflow));
    // twice the base price at the pivot
    assert_eq!(curve(u64::MAX, 10, 1, 1).calculate_cow_price(10), Err(ErrorCode::MathOverflow));
    assert_eq!(curve(u64::MAX / 2, 10, 1, 1).calculate_cow_price(10), Ok(u64::MAX - 1));
    assert_eq!(curve(u64::MAX / 2 + 1, 10, 1, 1).calculate_cow_price(10), Err(ErrorCode::MathOverflow));
}

#[test]
fn price_with_the_steepest_curve() {
    let c = curve(1, 2, 255, 255);
    // steepness 1: 1 * (1 + cows / 2)
    assert_eq!(c.calculate_cow_price(7), Ok(4));
    assert_eq!(c.calculate_cow_price(u64::MAX), Ok(1 + u64::MAX / 2));
    let steep = curve(1, 2, 255, 1);
    assert_eq!(steep.calculate_cow_price(1), Ok(1));
    assert_eq!(steep.calculate_cow_price(2), Ok(2));
    assert_eq!(steep.calculate_cow_price(3), Err(ErrorCode::MathOverflow));
}

#[test]
fn price_on_a_free_curve_is_zero() {
    let c = curve(0, 3000, 2, 1);
    assert_eq!(c.calculate_cow_price(0), Ok(0));
    assert_eq!(c.calculate_cow_price(1_000_000), Ok(0));
}

#[test]
fn curve_without_pivot_or_steepness_is_rejected() {
    assert!(matches!(PriceCurve::new(6000, 0, 6, 5), Err(ErrorCode::InvalidAmount)));
    assert!(matches!(PriceCurve::new(6000, 1500, 0, 5), Err(ErrorCode::InvalidAmount)));
    assert!(matches!(PriceCurve::new(6000, 1500, 6, 0), Err(ErrorCode::InvalidAmount)));
    assert!(PriceCurve::new(0, 1, 1, 1).is_ok());
}
