use fks_execution::decimal::{append_decimal, decimal_string};

#[test]
fn zero_is_a_single_digit() {
    assert_eq!(decimal_string(0), "0");
}

#[test]
fn single_digits_are_written_as_themselves() {
    let expected = ["0", "1", "2", "3", "4", "5", "6", "7", "8", "9"];
    for (n, text) in expected.iter().enumerate() {
        assert_eq!(decimal_string(n as u64), *text);
    }
}

#[test]
fn several_digits_come_most_significant_first() {
    assert_eq!(decimal_string(10), "10");
    assert_eq!(decimal_string(75), "75");
    assert_eq!(decimal_string(100), "100");
    assert_eq!(decimal_string(3600), "3600");
    assert_eq!(decimal_string(4700), "4700");
    assert_eq!(decimal_string(1_234_567_890), "1234567890");
}

#[test]
fn largest_number_is_written_in_full() {
    assert_eq!(decimal_string(u64::MAX), "18446744073709551615");
}

#[test]
fn decimal_text_reads_back_as_the_number() {
    let samples: [u64; 8] = [0, 9, 10, 99, 101, 65_535, 4_294_967_296, u64::MAX];
    for n in samples {
        assert_eq!(decimal_string(n).parse::<u64>(), Ok(n));
        assert_eq!(decimal_string(n), n.to_string());
    }
}

#[test]
fn append_keeps_what_was_there() {
    let mut text = String::from("uptime=");
    append_decimal(&mut text, 42);
    assert_eq!(text, "uptime=42");
    append_decimal(&mut text, 0);
    assert_eq!(text, "uptime=420");
}
