use bearobot::text::{
    signed_decimal_text, decimal_text, deleting_message, failures_message, no_matches_message, progress_message,
    scanning_message, starting_message, success_message,
};

#[test]
fn decimal_of_small_numbers() {
    assert_eq!(decimal_text(0), "0");
    assert_eq!(decimal_text(7), "7");
    assert_eq!(decimal_text(9), "9");
    assert_eq!(decimal_text(10), "10");
    assert_eq!(decimal_text(10080), "10080");
}

#[test]
fn decimal_of_every_digit() {
    assert_eq!(decimal_text(1234567890), "1234567890");
}

#[test]
fn decimal_of_the_largest_number() {
    assert_eq!(decimal_text(u64::MAX), "18446744073709551615");
}

#[test]
fn decimal_agrees_with_the_standard_rendering() {
    let mut n: u64 = 1;
    for _ in 0..64 {
        assert_eq!(decimal_text(n), n.to_string());
        assert_eq!(decimal_text(n - 1), (n - 1).to_string());
        n = n.wrapping_mul(2);
    }
}

#[test]
fn the_starting_message() {
    assert_eq!(starting_message(), "Starting the purge...");
}

#[test]
fn the_scanning_message() {
    assert_eq!(scanning_message(500, 42), "Scanning messages... Checked: 500, Found: 42");
}

#[test]
fn the_deleting_message() {
    assert_eq!(deleting_message(120), "Deleting 120 messages...");
}

#[test]
fn the_progress_message() {
    assert_eq!(progress_message(10, 25), "Deleting messages... Progress: 10/25");
}

#[test]
fn the_no_matches_message() {
    assert_eq!(
        no_matches_message(250, "spam"),
        "Purge completed! No messages matched the pattern.\n**Checked:** 250 messages\n**Pattern:** `spam`"
    );
}

#[test]
fn the_success_message() {
    assert_eq!(
        success_message(120, 250, "spam", 60),
        "Purge completed successfully!\n**Deleted:** 120\n**Total checked:** 250\n**Pattern:** `spam`\n**Duration:** 60 minutes"
    );
}

#[test]
fn the_failures_message() {
    assert_eq!(
        failures_message(20, 100, 250, r"\bspam\b", 10080),
        "Purge completed with some failures!\n**Deleted:** 20\n**Failed:** 100\n**Total checked:** 250\n**Pattern:** `\\bspam\\b`\n**Duration:** 10080 minutes"
    );
}

#[test]
fn signed_decimal_of_both_signs() {
    assert_eq!(signed_decimal_text(0), "0");
    assert_eq!(signed_decimal_text(42), "42");
    assert_eq!(signed_decimal_text(-1), "-1");
    assert_eq!(signed_decimal_text(i64::MAX), "9223372036854775807");
    assert_eq!(signed_decimal_text(i64::MIN), "-9223372036854775808");
}
