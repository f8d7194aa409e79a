use chaos_framework::text::{decimal, duration_string, round_div};

#[test]
fn decimal_writes_digits() {
    assert_eq!(decimal(0), "0");
    assert_eq!(decimal(7), "7");
    assert_eq!(decimal(1234567890), "1234567890");
    assert_eq!(decimal(u64::MAX), "18446744073709551615");
}

#[test]
fn durations_read_in_one_unit() {
    assert_eq!(duration_string(0), "0ns");
    assert_eq!(duration_string(250), "250ms");
    assert_eq!(duration_string(3000), "3s");
    assert_eq!(duration_string(1500), "1.5s");
    assert_eq!(duration_string(1050), "1.05s");
    assert_eq!(duration_string(1005), "1.005s");
}

#[test]
fn round_div_rounds_halves_up() {
    assert_eq!(round_div(666_666, 1000), 667);
    assert_eq!(round_div(800_000, 1000), 800);
    assert_eq!(round_div(1500, 1000), 2);
    assert_eq!(round_div(1499, 1000), 1);
    assert_eq!(round_div(u64::MAX, 1), u64::MAX);
}
