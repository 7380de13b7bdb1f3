use table_orders::text::append_decimal;

fn decimal(n: u64) -> String {
    let mut out = String::new();
    append_decimal(&mut out, n);
    out
}

#[test]
fn decimal_of_small_numbers() {
    assert_eq!(decimal(0), "0");
    assert_eq!(decimal(7), "7");
    assert_eq!(decimal(9), "9");
    assert_eq!(decimal(10), "10");
    assert_eq!(decimal(42), "42");
    assert_eq!(decimal(999), "999");
    assert_eq!(decimal(1000), "1000");
}

#[test]
fn decimal_of_the_largest_numbers() {
    assert_eq!(decimal(4294967295), "4294967295");
    assert_eq!(decimal(u64::MAX), "18446744073709551615");
}

#[test]
fn decimal_agrees_with_the_standard_formatting() {
    for n in [1u64, 19, 100, 101, 65535, 16383, 1234567890, 9007199254740993] {
        assert_eq!(decimal(n), n.to_string());
    }
}

#[test]
fn decimal_is_appended_to_what_is_there() {
    let mut out = String::from("table ");
    append_decimal(&mut out, 12);
    append_decimal(&mut out, 3);
    assert_eq!(out, "table 123");
}
