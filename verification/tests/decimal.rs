use people::decimal::decimal_string;

#[test]
fn decimal_string_of_zero() {
    assert_eq!(decimal_string(0), "0");
}

#[test]
fn decimal_string_of_one_digit() {
    let digits = ["0", "1", "2", "3", "4", "5", "6", "7", "8", "9"];
    for n in 0..10u32 {
        assert_eq!(decimal_string(n), digits[n as usize]);
    }
}

#[test]
fn decimal_string_has_no_leading_zeros() {
    assert_eq!(decimal_string(10), "10");
    assert_eq!(decimal_string(100), "100");
    assert_eq!(decimal_string(1000), "1000");
    assert_eq!(decimal_string(1_000_000_000), "1000000000");
    assert_eq!(decimal_string(101), "101");
    assert_eq!(decimal_string(4_000_000_004), "4000000004");
}

#[test]
fn decimal_string_orders_digits_from_the_most_significant() {
    assert_eq!(decimal_string(12), "12");
    assert_eq!(decimal_string(21), "21");
    assert_eq!(decimal_string(1234567890), "1234567890");
    assert_eq!(decimal_string(987654321), "987654321");
}

#[test]
fn decimal_string_of_the_largest() {
    assert_eq!(decimal_string(u32::MAX), "4294967295");
}

#[test]
fn decimal_string_agrees_with_std() {
    for n in 0..5000u32 {
        assert_eq!(decimal_string(n), format!("{}", n));
    }
    let mut n: u32 = 1;
    for _ in 0..32 {
        assert_eq!(decimal_string(n), format!("{}", n));
        assert_eq!(decimal_string(n - 1), format!("{}", n - 1));
        assert_eq!(decimal_string(u32::MAX - n), format!("{}", u32::MAX - n));
        n = n.wrapping_mul(2);
    }
}

#[test]
fn decimal_string_reads_back() {
    for n in [0u32, 7, 42, 1900, 65536, 4294967295] {
        let text = decimal_string(n);
        let mut value: u64 = 0;
        for c in text.chars() {
            value = value * 10 + u64::from(c.to_digit(10).unwrap());
        }
        assert_eq!(value, u64::from(n));
    }
}
