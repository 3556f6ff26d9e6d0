use bearobot::executor::{
    partition, DeleteRequest, DeletionStats, Executor, FollowUp, Progress, BULK_CHUNK_SIZE,
    BULK_PAUSE_MILLIS, DELETE_REPORT_INTERVAL, SINGLE_PAUSE_MILLIS,
};
use bearobot::snowflake::{classify, AgeBucket, DISCORD_EPOCH_MILLIS};

const NOW: i64 = 1_700_000_000;

fn id_aged(seconds: i64, low: u64) -> u64 {
    ((((NOW - seconds) as u64) * 1000 - DISCORD_EPOCH_MILLIS) << 22) | low
}

fn recent(count: u64) -> Vec<u64> {
    (0..count).map(|n| id_aged(60, count - n)).collect()
}

fn ancient(count: u64) -> Vec<u64> {
    (0..count).map(|n| id_aged(20 * 86_400, count - n)).collect()
}

/// Runs the executor to the end; the request numbered `n` succeeds when
/// `succeeds(n)` holds. Returns the requests that were made.
fn drive(executor: &mut Executor, succeeds: fn(usize) -> bool) -> Vec<DeleteRequest> {
    let mut made = Vec::new();
    while let Some(request) = executor.next_request() {
        let ok = succeeds(made.len());
        made.push(request);
        executor.record(ok);
    }
    made
}

#[test]
fn the_pacing_constants() {
    assert_eq!(BULK_CHUNK_SIZE, 100);
    assert_eq!(BULK_PAUSE_MILLIS, 500);
    assert_eq!(SINGLE_PAUSE_MILLIS, 1000);
    assert_eq!(DELETE_REPORT_INTERVAL, 10);
}

#[test]
fn partition_keeps_the_order_within_each_part() {
    let young_a = id_aged(10, 1);
    let young_b = id_aged(13 * 86_400, 2);
    let old_a = id_aged(15 * 86_400, 3);
    let old_b = id_aged(400 * 86_400, 4);
    let parts = partition(&vec![young_a, old_a, young_b, old_b], NOW);
    assert_eq!(parts.bulk, vec![young_a, young_b]);
    assert_eq!(parts.individual, vec![old_a, old_b]);
}

#[test]
fn partition_at_fourteen_days() {
    let just_inside = id_aged(14 * 86_400 - 1, 0);
    let exactly = id_aged(14 * 86_400, 0);
    let parts = partition(&vec![exactly, just_inside], NOW);
    assert_eq!(parts.bulk, vec![just_inside]);
    assert_eq!(parts.individual, vec![exactly]);
}

#[test]
fn partition_of_nothing() {
    let parts = partition(&Vec::new(), NOW);
    assert!(parts.bulk.is_empty());
    assert!(parts.individual.is_empty());
}

#[test]
fn every_candidate_lands_in_exactly_one_part() {
    let mut candidates = Vec::new();
    for n in 0..60i64 {
        candidates.push(id_aged(n * 86_400 / 2, n as u64));
    }
    let parts = partition(&candidates, NOW);
    assert_eq!(parts.bulk.len() + parts.individual.len(), candidates.len());
    for id in &candidates {
        let in_bulk = parts.bulk.contains(id);
        let in_individual = parts.individual.contains(id);
        assert!(in_bulk != in_individual);
        assert_eq!(in_bulk, classify(*id, NOW) == AgeBucket::BulkEligible);
    }
}

#[test]
fn partition_keeps_duplicates() {
    let young = id_aged(5, 0);
    let old = id_aged(30 * 86_400, 0);
    let parts = partition(&vec![young, old, young, old, old], NOW);
    assert_eq!(parts.bulk, vec![young, young]);
    assert_eq!(parts.individual, vec![old, old, old]);
}

#[test]
fn one_hundred_twenty_recent_candidates_go_in_two_batches() {
    let candidates = recent(120);
    let mut executor = Executor::new(&candidates, NOW);
    assert_eq!(executor.total(), 120);
    assert_eq!(executor.bulk().len(), 120);
    assert!(executor.individual().is_empty());
    let made = drive(&mut executor, |_| true);
    assert_eq!(made.len(), 2);
    assert_eq!(made[0], DeleteRequest::Batch(candidates[..100].to_vec()));
    assert_eq!(made[1], DeleteRequest::Batch(candidates[100..].to_vec()));
    assert!(executor.is_complete());
    assert_eq!(executor.stats(), DeletionStats { deleted: 120, failed: 0 });
}

#[test]
fn a_failed_batch_counts_in_full_as_failed() {
    let candidates = recent(250);
    let mut executor = Executor::new(&candidates, NOW);
    let made = drive(&mut executor, |n| n != 1);
    assert_eq!(made.len(), 3);
    assert_eq!(executor.stats(), DeletionStats { deleted: 150, failed: 100 });
}

#[test]
fn a_batch_is_followed_by_half_a_second() {
    let mut executor = Executor::new(&recent(100), NOW);
    assert_eq!(executor.record(true), FollowUp { pause_millis: 500, progress: None });
    assert!(executor.is_complete());
    assert_eq!(executor.next_request(), None);
}

#[test]
fn exactly_one_hundred_is_one_batch_and_one_more_is_two() {
    let mut executor = Executor::new(&recent(100), NOW);
    assert_eq!(drive(&mut executor, |_| true).len(), 1);
    let mut executor = Executor::new(&recent(101), NOW);
    let made = drive(&mut executor, |_| true);
    assert_eq!(made.len(), 2);
    match &made[1] {
        DeleteRequest::Batch(ids) => assert_eq!(ids.len(), 1),
        DeleteRequest::Single(_) => panic!("a batch was due"),
    }
}

#[test]
fn old_candidates_go_one_by_one() {
    let candidates = ancient(3);
    let mut executor = Executor::new(&candidates, NOW);
    assert_eq!(executor.next_request(), Some(DeleteRequest::Single(candidates[0])));
    assert_eq!(executor.record(true), FollowUp { pause_millis: 1000, progress: None });
    assert_eq!(executor.next_request(), Some(DeleteRequest::Single(candidates[1])));
    assert_eq!(executor.record(false), FollowUp { pause_millis: 1000, progress: None });
    assert_eq!(executor.next_request(), Some(DeleteRequest::Single(candidates[2])));
    assert_eq!(executor.record(true), FollowUp { pause_millis: 1000, progress: None });
    assert_eq!(executor.next_request(), None);
    assert_eq!(executor.stats(), DeletionStats { deleted: 2, failed: 1 });
}

#[test]
fn progress_is_due_at_every_tenth_attempt() {
    let mut executor = Executor::new(&ancient(25), NOW);
    for attempt in 1..=25usize {
        let follow_up = executor.record(attempt % 3 != 0);
        let progress = if attempt % 10 == 0 {
            Some(Progress { attempted: attempt, total: 25 })
        } else {
            None
        };
        assert_eq!(follow_up, FollowUp { pause_millis: 1000, progress });
    }
    assert!(executor.is_complete());
    assert_eq!(executor.stats(), DeletionStats { deleted: 17, failed: 8 });
}

#[test]
fn attempts_in_batches_count_towards_progress() {
    let mut candidates = recent(8);
    candidates.extend(ancient(4));
    let mut executor = Executor::new(&candidates, NOW);
    assert_eq!(executor.record(false), FollowUp { pause_millis: 500, progress: None });
    assert_eq!(executor.record(true), FollowUp { pause_millis: 1000, progress: None });
    assert_eq!(
        executor.record(true),
        FollowUp { pause_millis: 1000, progress: Some(Progress { attempted: 10, total: 12 }) }
    );
    assert_eq!(executor.stats(), DeletionStats { deleted: 2, failed: 8 });
}

#[test]
fn batches_come_before_single_deletes() {
    let mut candidates = ancient(2);
    candidates.extend(recent(150));
    let mut executor = Executor::new(&candidates, NOW);
    let made = drive(&mut executor, |_| true);
    assert_eq!(made.len(), 4);
    assert!(matches!(&made[0], DeleteRequest::Batch(ids) if ids.len() == 100));
    assert!(matches!(&made[1], DeleteRequest::Batch(ids) if ids.len() == 50));
    assert_eq!(made[2], DeleteRequest::Single(candidates[0]));
    assert_eq!(made[3], DeleteRequest::Single(candidates[1]));
}

#[test]
fn deleted_and_failed_add_up_to_the_candidates() {
    let patterns: [fn(usize) -> bool; 5] =
        [|_| true, |_| false, |n| n % 2 == 0, |n| n % 7 == 3, |n| n > 4];
    for succeeds in patterns {
        let mut candidates = recent(230);
        candidates.extend(ancient(17));
        let mut executor = Executor::new(&candidates, NOW);
        let made = drive(&mut executor, succeeds);
        assert_eq!(made.len(), 3 + 17);
        let stats = executor.stats();
        assert_eq!(stats.deleted + stats.failed, 247);
        assert_eq!(executor.total(), 247);
    }
}

#[test]
fn an_answer_with_nothing_pending_changes_nothing() {
    let mut executor = Executor::new(&Vec::new(), NOW);
    assert!(executor.is_complete());
    assert_eq!(executor.next_request(), None);
    assert_eq!(executor.record(true), FollowUp { pause_millis: 0, progress: None });
    assert_eq!(executor.record(false), FollowUp { pause_millis: 0, progress: None });
    assert_eq!(executor.stats(), DeletionStats { deleted: 0, failed: 0 });
}

#[test]
fn start_splits_by_the_age_today() {
    let today = chrono::Utc::now().timestamp();
    let fresh = (((today - 3600) as u64 * 1000 - DISCORD_EPOCH_MILLIS) << 22) | 1;
    let stale = (((today - 30 * 86_400) as u64 * 1000 - DISCORD_EPOCH_MILLIS) << 22) | 2;
    let executor = Executor::start(&vec![stale, fresh]);
    assert_eq!(executor.bulk(), &vec![fresh]);
    assert_eq!(executor.individual(), &vec![stale]);
}
