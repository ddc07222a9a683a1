use mis1yakudo::model::Timestamp;
use mis1yakudo::text::{millis_to_string, u64_to_dec, u64_to_pad2, u64_to_pad4};

#[test]
fn decimal_rendering_is_plain() {
    assert_eq!(u64_to_dec(0), "0");
    assert_eq!(u64_to_dec(7), "7");
    assert_eq!(u64_to_dec(1234), "1234");
    assert_eq!(u64_to_dec(1000000), "1000000");
}

#[test]
fn clock_fields_are_zero_padded() {
    assert_eq!(u64_to_pad2(0), "00");
    assert_eq!(u64_to_pad2(9), "09");
    assert_eq!(u64_to_pad2(59), "59");
    assert_eq!(u64_to_pad4(2022), "2022");
    assert_eq!(u64_to_pad4(42), "0042");
}

#[test]
fn milli_units_print_three_fraction_digits() {
    assert_eq!(millis_to_string(0), "0.000");
    assert_eq!(millis_to_string(12_034), "12.034");
    assert_eq!(millis_to_string(150_000), "150.000");
    assert_eq!(millis_to_string(5), "0.005");
}

#[test]
fn the_stamp_has_the_fixed_layout() {
    let t = Timestamp { year: 2022, month: 9, day: 6, hour: 3, minute: 5, second: 59 };
    assert_eq!(mis1yakudo::model::format_stamp(&t), "2022-09-06 03:05");
}

#[test]
fn day_start_is_midnight_of_the_same_day() {
    let t = Timestamp { year: 2022, month: 9, day: 26, hour: 19, minute: 46, second: 18 };
    let s = t.day_start();
    assert_eq!(s, Timestamp { year: 2022, month: 9, day: 26, hour: 0, minute: 0, second: 0 });
}
