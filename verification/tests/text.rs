use dps_control::text::decimal;

#[test]
fn decimal_of_single_digits() {
    let expected = ["0", "1", "2", "3", "4", "5", "6", "7", "8", "9"];
    for (n, text) in expected.iter().enumerate() {
        assert_eq!(decimal(n as u32), *text);
    }
}

#[test]
fn decimal_of_longer_numbers() {
    assert_eq!(decimal(10), "10");
    assert_eq!(decimal(4242), "4242");
    assert_eq!(decimal(100_000), "100000");
    assert_eq!(decimal(1_000_000_007), "1000000007");
}

#[test]
fn decimal_of_the_largest_number() {
    assert_eq!(decimal(u32::MAX), "4294967295");
}

#[test]
fn decimal_agrees_with_display() {
    for n in [0u32, 7, 19, 20, 99, 101, 65_535, 65_536, 999_999_999, 2_147_483_648] {
        assert_eq!(decimal(n), format!("{}", n));
    }
}
