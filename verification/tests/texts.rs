use message_relay::decimal::{append_decimal, append_signed_decimal, decimal_string};
use message_relay::failure::Failure;
use message_relay::message::{
    connect_failure_notice, consumer_failure_notice, counter_notice, failure_name, message,
    output_line, producer_failure_notice, received_notice, run_failure_notice, sent_notice,
    store_failure_notice,
};

#[test]
fn decimal_of_zero_is_one_digit() {
    assert_eq!(decimal_string(0), "0");
}

#[test]
fn decimal_of_single_digits() {
    for n in 0..10u64 {
        assert_eq!(decimal_string(n), n.to_string());
    }
}

#[test]
fn decimal_has_no_leading_zero() {
    assert_eq!(decimal_string(10), "10");
    assert_eq!(decimal_string(100), "100");
    assert_eq!(decimal_string(1005), "1005");
}

#[test]
fn decimal_of_the_largest_numbers() {
    assert_eq!(decimal_string(4294967295), "4294967295");
    assert_eq!(decimal_string(u64::MAX), "18446744073709551615");
}

#[test]
fn decimal_agrees_with_the_standard_formatting() {
    let mut n: u64 = 1;
    for _ in 0..19 {
        assert_eq!(decimal_string(n), n.to_string());
        assert_eq!(decimal_string(n - 1), (n - 1).to_string());
        n *= 10;
    }
}

#[test]
fn append_decimal_keeps_what_was_there() {
    let mut text = String::from("n=");
    append_decimal(&mut text, 61);
    assert_eq!(text, "n=61");
}

#[test]
fn signed_decimal_puts_a_minus_before_negatives() {
    let mut text = String::new();
    append_signed_decimal(&mut text, -5);
    assert_eq!(text, "-5");
    let mut zero = String::new();
    append_signed_decimal(&mut zero, 0);
    assert_eq!(zero, "0");
}

#[test]
fn signed_decimal_of_the_extremes() {
    let mut least = String::new();
    append_signed_decimal(&mut least, i64::MIN);
    assert_eq!(least, "-9223372036854775808");
    let mut most = String::new();
    append_signed_decimal(&mut most, i64::MAX);
    assert_eq!(most, "9223372036854775807");
}

#[test]
fn message_payloads_carry_their_index() {
    assert_eq!(message(0), "message_0");
    assert_eq!(message(7), "message_7");
    assert_eq!(message(49), "message_49");
    assert_eq!(message(u32::MAX), "message_4294967295");
}

#[test]
fn message_payloads_differ_from_one_another() {
    let mut seen: Vec<String> = Vec::new();
    for i in 0..50u32 {
        let payload = message(i);
        assert!(!seen.contains(&payload));
        seen.push(payload);
    }
    assert_eq!(seen.len(), 50);
}

#[test]
fn output_line_ends_in_a_newline() {
    assert_eq!(output_line("message_3"), "message_3\n");
    assert_eq!(output_line(""), "\n");
}

#[test]
fn notices_quote_the_payload() {
    assert_eq!(sent_notice("message_3"), "PRODUCER:: sent 'message_3'");
    assert_eq!(received_notice("message_3"), "CONSUMER:: received 'message_3'");
}

#[test]
fn counter_notice_names_both_values() {
    assert_eq!(
        counter_notice(61, 62),
        "Created variable with value = 61. After incrementing = 62"
    );
    assert_eq!(
        counter_notice(-1, 0),
        "Created variable with value = -1. After incrementing = 0"
    );
    assert_eq!(
        counter_notice(i32::MIN, i32::MAX),
        "Created variable with value = -2147483648. After incrementing = 2147483647"
    );
}

#[test]
fn connect_failure_notice_opens_with_the_fixed_words() {
    assert_eq!(
        connect_failure_notice("refused"),
        "Could not connect to database: refused"
    );
}

#[test]
fn failure_notices_open_with_their_fixed_words() {
    assert_eq!(
        store_failure_notice("wrong type"),
        "The database refused a request: wrong type"
    );
    assert_eq!(producer_failure_notice("broken pipe"), "PRODUCER:: failed: broken pipe");
    assert_eq!(consumer_failure_notice("disk full"), "CONSUMER:: failed: disk full");
}

#[test]
fn every_failure_has_a_name() {
    assert_eq!(failure_name(Failure::Connection), "no connection");
    assert_eq!(failure_name(Failure::Store), "store error");
    assert_eq!(failure_name(Failure::Timeout), "timeout");
    assert_eq!(failure_name(Failure::LocalIo), "output error");
}

#[test]
fn run_failure_notice_names_how_each_task_ended() {
    assert_eq!(
        run_failure_notice(None, Some(Failure::Timeout)),
        "The run failed: producer finished, consumer timeout"
    );
    assert_eq!(
        run_failure_notice(Some(Failure::Store), Some(Failure::LocalIo)),
        "The run failed: producer store error, consumer output error"
    );
}
