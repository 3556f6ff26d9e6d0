//! Message identifiers are snowflakes: the upper 42 bits count the
//! milliseconds since the platform's epoch, so an identifier dates its message.

use vstd::prelude::*;

verus! {

/// The platform's epoch, 2015-01-01T00:00:00Z, in milliseconds since 1970.
pub const DISCORD_EPOCH_MILLIS: u64 = 1_420_070_400_000;

/// The age, in seconds, up to which messages can be deleted in batches: 14 days.
pub const BULK_WINDOW_SECONDS: i64 = 1_209_600;

/// Milliseconds since 1970 at which the message `id` was created.
pub open spec fn created_at_millis(id: u64) -> int {
    (id >> 22) as int + DISCORD_EPOCH_MILLIS as int
}

/// Whole seconds since 1970 at which the message `id` was created.
pub open spec fn created_at(id: u64) -> int {
    created_at_millis(id) / 1000
}

/// The creation time sits between the epoch and the year 2154.
pub proof fn created_at_bounds(id: u64)
    ensures
        id >> 22 <= 0x3ff_ffff_ffff,
        1_420_070_400 <= created_at(id) <= 5_818_116_911,
{
    assert(id >> 22 <= 0x3ff_ffff_ffff) by (bit_vector);
}

/// Identifiers are ordered by time: a larger one is not older.
pub proof fn created_at_monotonic(a: u64, b: u64)
    requires
        a <= b,
    ensures
        created_at(a) <= created_at(b),
{
    assert(a <= b ==> a >> 22 <= b >> 22) by (bit_vector);
}

/// Seconds since 1970 at which the message `id` was created.
pub fn timestamp_of(id: u64) -> (seconds: i64)
    ensures
        seconds == created_at(id),
        1_420_070_400 <= seconds <= 5_818_116_911,
{
    let elapsed: u64 = id >> 22;
    proof {
        created_at_bounds(id);
    }
    let millis: u64 = elapsed + DISCORD_EPOCH_MILLIS;
    (millis / 1000) as i64
}

/// How a message may be deleted, by its age.
#[derive(Clone, Copy, Debug, PartialEq, Eq, Structural)]
pub enum AgeBucket {
    /// Created within the last 14 days: may go into a batched delete.
    BulkEligible,
    /// Older: must be deleted on its own.
    IndividualOnly,
}

/// A message is bulk-eligible when it was created after `now` minus 14 days.
pub open spec fn is_bulk_eligible(id: u64, now: int) -> bool {
    created_at(id) > now - BULK_WINDOW_SECONDS
}

/// The bucket of the message `id` at the time `now` (seconds since 1970).
pub open spec fn bucket_of(id: u64, now: int) -> AgeBucket {
    if is_bulk_eligible(id, now) {
        AgeBucket::BulkEligible
    } else {
        AgeBucket::IndividualOnly
    }
}

/// Classifies the message `id` by its age at `now` (seconds since 1970).
pub fn classify(id: u64, now: i64) -> (bucket: AgeBucket)
    ensures
        bucket == bucket_of(id, now as int),
{
    let created: i128 = timestamp_of(id) as i128;
    let cutoff: i128 = now as i128 - BULK_WINDOW_SECONDS as i128;
    if created > cutoff {
        AgeBucket::BulkEligible
    } else {
        AgeBucket::IndividualOnly
    }
}

} // verus!
