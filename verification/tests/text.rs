use ryu_etna::text::{push_decimal, push_hex};

#[test]
fn hex_digits_lowercase_without_leading_zeros() {
    for (n, expected) in [(0u64, "0"), (9, "9"), (10, "a"), (255, "ff"), (0xbf80_0000, "bf800000"), (u64::MAX, "ffffffffffffffff")] {
        let mut s = String::from(">");
        push_hex(&mut s, n);
        assert_eq!(s, format!(">{expected}"));
        assert_eq!(&s[1..], format!("{:x}", n));
    }
}

#[test]
fn decimal_digits_without_leading_zeros() {
    for n in [0u128, 7, 10, 99, 100, 1234567890, u64::MAX as u128, u128::MAX] {
        let mut s = String::new();
        push_decimal(&mut s, n);
        assert_eq!(s, n.to_string());
    }
}
