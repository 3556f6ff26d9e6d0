use bearobot::snowflake::{
    classify, timestamp_of, AgeBucket, BULK_WINDOW_SECONDS, DISCORD_EPOCH_MILLIS,
};
use serenity::model::id::MessageId;

fn snowflake_at(millis: u64) -> u64 {
    (millis - DISCORD_EPOCH_MILLIS) << 22
}

#[test]
fn timestamp_of_a_documented_identifier() {
    // 2016-04-30T11:18:25.796Z
    assert_eq!(timestamp_of(175_928_847_299_117_063), 1_462_015_105);
}

#[test]
fn timestamp_of_the_smallest_identifiers_is_the_epoch() {
    assert_eq!(timestamp_of(0), 1_420_070_400);
    assert_eq!(timestamp_of(1), 1_420_070_400);
    assert_eq!(timestamp_of((1 << 22) - 1), 1_420_070_400);
}

#[test]
fn timestamp_of_the_largest_identifier() {
    assert_eq!(timestamp_of(u64::MAX), 5_818_116_911);
}

#[test]
fn timestamp_of_drops_the_milliseconds() {
    assert_eq!(timestamp_of(snowflake_at(1_700_000_000_999)), 1_700_000_000);
    assert_eq!(timestamp_of(snowflake_at(1_700_000_001_000)), 1_700_000_001);
}

#[test]
fn timestamp_of_ignores_the_low_bits() {
    let base = snowflake_at(1_650_000_000_123);
    assert_eq!(timestamp_of(base), 1_650_000_000);
    assert_eq!(timestamp_of(base | 0x3f_ffff), 1_650_000_000);
}

#[test]
fn timestamp_of_agrees_with_serenity() {
    let ids: [u64; 6] = [
        1,
        175_928_847_299_117_063,
        snowflake_at(1_700_000_000_999),
        snowflake_at(1_420_070_400_001) | 7,
        1_234_567_890_123_456_789,
        u64::MAX,
    ];
    for id in ids {
        assert_eq!(timestamp_of(id), MessageId::new(id).created_at().unix_timestamp());
    }
}

#[test]
fn bulk_window_is_fourteen_days() {
    assert_eq!(BULK_WINDOW_SECONDS, 14 * 24 * 60 * 60);
}

#[test]
fn classify_at_the_cutoff() {
    let now: i64 = 1_700_000_000;
    let cutoff = (now - BULK_WINDOW_SECONDS) as u64;
    // created one second after the cutoff: still eligible
    assert_eq!(classify(snowflake_at((cutoff + 1) * 1000), now), AgeBucket::BulkEligible);
    // created exactly at the cutoff: not newer than it
    assert_eq!(classify(snowflake_at(cutoff * 1000), now), AgeBucket::IndividualOnly);
    assert_eq!(classify(snowflake_at(cutoff * 1000 + 999), now), AgeBucket::IndividualOnly);
    assert_eq!(classify(snowflake_at((cutoff - 1) * 1000), now), AgeBucket::IndividualOnly);
}

#[test]
fn classify_recent_and_old() {
    let now: i64 = 1_700_000_000;
    assert_eq!(classify(snowflake_at(1_699_999_000_000), now), AgeBucket::BulkEligible);
    assert_eq!(classify(snowflake_at(1_600_000_000_000), now), AgeBucket::IndividualOnly);
}

#[test]
fn classify_with_extreme_clocks() {
    let id = snowflake_at(1_700_000_000_000);
    assert_eq!(classify(id, i64::MIN), AgeBucket::BulkEligible);
    assert_eq!(classify(id, i64::MAX), AgeBucket::IndividualOnly);
}
