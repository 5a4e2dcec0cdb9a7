use silencer::text::push_decimal;

fn decimal(n: u64) -> String {
    let mut out = String::new();
    push_decimal(&mut out, n);
    out
}

#[test]
fn push_decimal_writes_the_numeral() {
    assert_eq!(decimal(0), "0");
    assert_eq!(decimal(7), "7");
    assert_eq!(decimal(9), "9");
    assert_eq!(decimal(10), "10");
    assert_eq!(decimal(101), "101");
    assert_eq!(decimal(4294967295), "4294967295");
    assert_eq!(decimal(18446744073709551615), "18446744073709551615");
}

#[test]
fn push_decimal_appends() {
    let mut out = "pid ".to_string();
    push_decimal(&mut out, 42);
    assert_eq!(out, "pid 42");
    push_decimal(&mut out, 0);
    assert_eq!(out, "pid 420");
}

#[test]
fn push_decimal_agrees_with_std() {
    for n in (0u64..3000).chain([99_999, 100_000, 123_456_789, u32::MAX as u64]) {
        assert_eq!(decimal(n), n.to_string());
    }
}
