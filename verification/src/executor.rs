//! The deletion executor: it splits the candidates by age, asks for the
//! recent ones to be deleted in batches and for the others one by one, and
//! counts what succeeded and what failed.

use crate::clock::unix_now;
use crate::snowflake::{bucket_of, classify, is_bulk_eligible, AgeBucket};
use vstd::prelude::*;

verus! {

/// The most identifiers that one batched delete may carry.
pub const BULK_CHUNK_SIZE: usize = 100;

/// The pause after a batched delete, in milliseconds.
pub const BULK_PAUSE_MILLIS: u64 = 500;

/// The pause after a single delete, in milliseconds.
pub const SINGLE_PAUSE_MILLIS: u64 = 1000;

/// During single deletes, progress is shown whenever the number of attempted
/// deletions is a multiple of this.
pub const DELETE_REPORT_INTERVAL: usize = 10;

/// The candidates that may be deleted in batches at `now`, in their order.
pub open spec fn bulk_ids(candidates: Seq<u64>, now: int) -> Seq<u64> {
    candidates.filter(|id: u64| is_bulk_eligible(id, now))
}

/// The candidates that must be deleted one by one at `now`, in their order.
pub open spec fn individual_ids(candidates: Seq<u64>, now: int) -> Seq<u64> {
    candidates.filter(|id: u64| !is_bulk_eligible(id, now))
}

/// The candidates, split by age.
#[derive(Debug)]
pub struct Partition {
    /// Those young enough for a batched delete.
    pub bulk: Vec<u64>,
    /// The others.
    pub individual: Vec<u64>,
}

/// Splits `candidates` by their age at `now` (seconds since 1970), keeping
/// their order within each part.
pub fn partition(candidates: &Vec<u64>, now: i64) -> (parts: Partition)
    ensures
        parts.bulk@ == bulk_ids(candidates@, now as int),
        parts.individual@ == individual_ids(candidates@, now as int),
        parts.bulk@.len() + parts.individual@.len() == candidates@.len(),
{
    let mut bulk: Vec<u64> = Vec::new();
    let mut individual: Vec<u64> = Vec::new();
    let mut i: usize = 0;
    proof {
        reveal(Seq::filter);
        assert(candidates@.take(0) =~= Seq::<u64>::empty());
    }
    while i < candidates.len()
        invariant
            i <= candidates.len(),
            bulk@ == bulk_ids(candidates@.take(i as int), now as int),
            individual@ == individual_ids(candidates@.take(i as int), now as int),
            bulk@.len() + individual@.len() == i,
        decreases candidates.len() - i,
    {
        let id = candidates[i];
        proof {
            let seen = candidates@.take(i as int);
            assert(candidates@.take(i + 1) =~= seen.push(id));
            seen.lemma_filter_push(id, |id: u64| is_bulk_eligible(id, now as int));
            seen.lemma_filter_push(id, |id: u64| !is_bulk_eligible(id, now as int));
        }
        match classify(id, now) {
            AgeBucket::BulkEligible => {
                bulk.push(id);
            },
            AgeBucket::IndividualOnly => {
                individual.push(id);
            },
        }
        i = i + 1;
    }
    proof {
        assert(candidates@.take(candidates@.len() as int) =~= candidates@);
    }
    Partition { bulk, individual }
}

/// Partitioning is exhaustive and disjoint: each candidate lands in exactly
/// one part, the one that its age alone decides, and the two parts together
/// hold the candidates and nothing else.
pub proof fn partition_is_exhaustive_and_disjoint(candidates: Seq<u64>, now: int)
    ensures
        bulk_ids(candidates, now).len() + individual_ids(candidates, now).len()
            == candidates.len(),
        candidates.to_multiset() =~= bulk_ids(candidates, now).to_multiset().add(
            individual_ids(candidates, now).to_multiset(),
        ),
        forall|id: u64|
            bulk_ids(candidates, now).contains(id) <==> candidates.contains(id) && bucket_of(
                id,
                now,
            ) == AgeBucket::BulkEligible,
        forall|id: u64|
            individual_ids(candidates, now).contains(id) <==> candidates.contains(id)
                && bucket_of(id, now) == AgeBucket::IndividualOnly,
        forall|id: u64|
            !(bulk_ids(candidates, now).contains(id) && individual_ids(candidates, now).contains(
                id,
            )),
    decreases candidates.len(),
{
    broadcast use vstd::seq_lib::group_to_multiset_ensures;

    let young = |id: u64| is_bulk_eligible(id, now);
    let aged = |id: u64| !is_bulk_eligible(id, now);
    let bulk = bulk_ids(candidates, now);
    let individual = individual_ids(candidates, now);
    reveal(Seq::filter);
    if candidates.len() > 0 {
        let rest = candidates.drop_last();
        let last = candidates.last();
        partition_is_exhaustive_and_disjoint(rest, now);
        assert(candidates =~= rest.push(last));
        rest.lemma_filter_push(last, young);
        rest.lemma_filter_push(last, aged);
        assert forall|id: u64| bulk.contains(id) <==> candidates.contains(id) && bucket_of(
            id,
            now,
        ) == AgeBucket::BulkEligible by {
            part_membership(candidates, young, id);
        }
        assert forall|id: u64| individual.contains(id) <==> candidates.contains(id) && bucket_of(
            id,
            now,
        ) == AgeBucket::IndividualOnly by {
            part_membership(candidates, aged, id);
        }
    } else {
        assert(bulk =~= Seq::<u64>::empty());
        assert(individual =~= Seq::<u64>::empty());
    }
}

/// A value is in the filtered sequence when it is in the sequence and passes
/// the filter.
proof fn part_membership(ids: Seq<u64>, keep: spec_fn(u64) -> bool, id: u64)
    ensures
        ids.filter(keep).contains(id) <==> ids.contains(id) && keep(id),
{
    let kept = ids.filter(keep);
    if kept.contains(id) {
        let j = choose|j: int| 0 <= j < kept.len() && kept[j] == id;
        ids.lemma_filter_pred(keep, j);
        ids.lemma_filter_contains_rev(keep, id);
    }
    if ids.contains(id) && keep(id) {
        let i = choose|i: int| 0 <= i < ids.len() && ids[i] == id;
        ids.lemma_filter_contains(keep, i);
    }
}

/// One request to the platform.
#[derive(Debug, PartialEq, Eq)]
pub enum DeleteRequest {
    /// Delete these messages, at most 100, in one batched request.
    Batch(Vec<u64>),
    /// Delete this message.
    Single(u64),
}

/// The mathematical value of a [`DeleteRequest`].
pub ghost enum DeleteRequestView {
    Batch(Seq<u64>),
    Single(u64),
}

impl View for DeleteRequest {
    type V = DeleteRequestView;

    open spec fn view(&self) -> DeleteRequestView {
        match self {
            DeleteRequest::Batch(ids) => DeleteRequestView::Batch(ids@),
            DeleteRequest::Single(id) => DeleteRequestView::Single(*id),
        }
    }
}

/// How many deletions succeeded and how many failed.
#[derive(Clone, Copy, Debug, PartialEq, Eq, Structural)]
pub struct DeletionStats {
    pub deleted: usize,
    pub failed: usize,
}

/// How far the deletions have come.
#[derive(Clone, Copy, Debug, PartialEq, Eq, Structural)]
pub struct Progress {
    /// How many deletions were attempted, whatever their outcome.
    pub attempted: usize,
    /// How many candidates there are.
    pub total: usize,
}

/// What to do once a request was answered, before the next one.
#[derive(Clone, Copy, Debug, PartialEq, Eq)]
pub struct FollowUp {
    /// How long to pause, in milliseconds.
    pub pause_millis: u64,
    /// The progress to show after the pause, if any is due.
    pub progress: Option<Progress>,
}

/// The mathematical state of the deletions.
pub ghost struct DeletionState {
    /// The candidates for batched deletes, in order.
    pub bulk: Seq<u64>,
    /// The candidates for single deletes, in order.
    pub individual: Seq<u64>,
    /// How many of `bulk` were asked to be deleted.
    pub bulk_done: nat,
    /// How many of `individual` were asked to be deleted.
    pub single_done: nat,
    /// How many deletions succeeded.
    pub deleted: nat,
    /// How many deletions failed.
    pub failed: nat,
}

impl DeletionState {
    /// The state before any request, for `candidates` split at `now`.
    pub open spec fn initial(candidates: Seq<u64>, now: int) -> DeletionState {
        DeletionState {
            bulk: bulk_ids(candidates, now),
            individual: individual_ids(candidates, now),
            bulk_done: 0,
            single_done: 0,
            deleted: 0,
            failed: 0,
        }
    }

    /// How many candidates there are.
    pub open spec fn total(self) -> nat {
        self.bulk.len() + self.individual.len()
    }

    /// How many deletions were attempted.
    pub open spec fn attempted(self) -> nat {
        self.deleted + self.failed
    }

    /// Every attempt is counted once, as deleted or as failed, and single
    /// deletes start only when the batches are through.
    pub open spec fn consistent(self) -> bool {
        &&& self.bulk_done <= self.bulk.len()
        &&& self.single_done <= self.individual.len()
        &&& (self.single_done > 0 ==> self.bulk_done == self.bulk.len())
        &&& self.deleted + self.failed == self.bulk_done + self.single_done
    }

    /// Whether every candidate was asked to be deleted.
    pub open spec fn complete(self) -> bool {
        self.bulk_done == self.bulk.len() && self.single_done == self.individual.len()
    }

    /// How many identifiers the next batch carries.
    pub open spec fn chunk_len(self) -> nat {
        if self.bulk.len() - self.bulk_done > BULK_CHUNK_SIZE {
            BULK_CHUNK_SIZE as nat
        } else {
            (self.bulk.len() - self.bulk_done) as nat
        }
    }

    /// The next request: the next batch while there are candidates for one,
    /// then the next single candidate, then nothing.
    pub open spec fn next_request(self) -> Option<DeleteRequestView> {
        if self.bulk_done < self.bulk.len() {
            Some(
                DeleteRequestView::Batch(
                    self.bulk.subrange(
                        self.bulk_done as int,
                        (self.bulk_done + self.chunk_len()) as int,
                    ),
                ),
            )
        } else if self.single_done < self.individual.len() {
            Some(DeleteRequestView::Single(self.individual[self.single_done as int]))
        } else {
            None
        }
    }

    /// How many candidates the next request covers.
    pub open spec fn request_len(self) -> nat {
        if self.bulk_done < self.bulk.len() {
            self.chunk_len()
        } else if self.single_done < self.individual.len() {
            1
        } else {
            0
        }
    }

    /// The state once the next request was answered: all that it covered
    /// counts as deleted if it succeeded and as failed if it did not. With no
    /// request left, nothing changes.
    pub open spec fn record(self, succeeded: bool) -> DeletionState {
        let covered = self.request_len();
        let counted = DeletionState {
            deleted: if succeeded {
                self.deleted + covered
            } else {
                self.deleted
            },
            failed: if succeeded {
                self.failed
            } else {
                self.failed + covered
            },
            ..self
        };
        if self.bulk_done < self.bulk.len() {
            DeletionState { bulk_done: self.bulk_done + covered, ..counted }
        } else if self.single_done < self.individual.len() {
            DeletionState { single_done: self.single_done + 1, ..counted }
        } else {
            self
        }
    }

    /// What follows the answer to the next request: half a second of pause
    /// after a batch; a second after a single delete, and then the progress
    /// if the attempts have reached a multiple of ten; nothing where no
    /// request was left.
    pub open spec fn follow_up(self, succeeded: bool) -> FollowUp {
        if self.bulk_done < self.bulk.len() {
            FollowUp { pause_millis: BULK_PAUSE_MILLIS, progress: None }
        } else if self.single_done < self.individual.len() {
            let after = self.record(succeeded);
            FollowUp {
                pause_millis: SINGLE_PAUSE_MILLIS,
                progress: if after.attempted() % (DELETE_REPORT_INTERVAL as nat) == 0 {
                    Some(
                        Progress {
                            attempted: after.attempted() as usize,
                            total: self.total() as usize,
                        },
                    )
                } else {
                    None
                },
            }
        } else {
            FollowUp { pause_millis: 0, progress: None }
        }
    }

    /// The counters as they stand.
    pub open spec fn stats(self) -> DeletionStats {
        DeletionStats { deleted: self.deleted as usize, failed: self.failed as usize }
    }
}

/// The state after the requests were answered with `outcomes`, one after the
/// other.
pub open spec fn record_all(state: DeletionState, outcomes: Seq<bool>) -> DeletionState
    decreases outcomes.len(),
{
    if outcomes.len() == 0 {
        state
    } else {
        record_all(state, outcomes.drop_last()).record(outcomes.last())
    }
}

/// An answer keeps the deletions consistent and changes no list of
/// candidates; while a request is left, it covers at least one candidate, so
/// every answer brings the end nearer.
pub proof fn record_keeps_consistency(state: DeletionState, succeeded: bool)
    requires
        state.consistent(),
    ensures
        state.record(succeeded).consistent(),
        state.record(succeeded).bulk == state.bulk,
        state.record(succeeded).individual == state.individual,
        state.record(succeeded).attempted() == state.attempted() + state.request_len(),
        state.record(succeeded).attempted() <= state.total(),
        !state.complete() ==> state.request_len() >= 1,
        succeeded ==> state.record(succeeded).failed == state.failed,
        !succeeded ==> state.record(succeeded).deleted == state.deleted,
{
}

/// Whatever the answers, every candidate that was dealt with is counted
/// once, as deleted or as failed; when all were dealt with, the two counts
/// add up to the number of candidates.
pub proof fn deletions_account_for_every_candidate(
    candidates: Seq<u64>,
    now: int,
    outcomes: Seq<bool>,
)
    ensures
        record_all(DeletionState::initial(candidates, now), outcomes).consistent(),
        record_all(DeletionState::initial(candidates, now), outcomes).total()
            == candidates.len(),
        record_all(DeletionState::initial(candidates, now), outcomes).attempted()
            <= candidates.len(),
        record_all(DeletionState::initial(candidates, now), outcomes).complete() ==> record_all(
            DeletionState::initial(candidates, now),
            outcomes,
        ).deleted + record_all(DeletionState::initial(candidates, now), outcomes).failed
            == candidates.len(),
    decreases outcomes.len(),
{
    let start = DeletionState::initial(candidates, now);
    partition_is_exhaustive_and_disjoint(candidates, now);
    if outcomes.len() > 0 {
        deletions_account_for_every_candidate(candidates, now, outcomes.drop_last());
        record_keeps_consistency(record_all(start, outcomes.drop_last()), outcomes.last());
    }
}

/// The deletions of one purge, in progress.
pub struct Executor {
    bulk: Vec<u64>,
    individual: Vec<u64>,
    bulk_done: usize,
    single_done: usize,
    deleted: usize,
    failed: usize,
    total: usize,
}

impl View for Executor {
    type V = DeletionState;

    closed spec fn view(&self) -> DeletionState {
        DeletionState {
            bulk: self.bulk@,
            individual: self.individual@,
            bulk_done: self.bulk_done as nat,
            single_done: self.single_done as nat,
            deleted: self.deleted as nat,
            failed: self.failed as nat,
        }
    }
}

impl Executor {
    /// The number of candidates, as the executor keeps it.
    pub closed spec fn kept_total(&self) -> nat {
        self.total as nat
    }

    /// An executor is valid when its state is consistent and its candidates
    /// can be counted.
    pub open spec fn wf(&self) -> bool {
        &&& self@.consistent()
        &&& self@.total() <= usize::MAX
        &&& self.kept_total() == self@.total()
    }

    /// The deletions of `candidates`, split by their age at `now` (seconds
    /// since 1970), with nothing requested yet.
    pub fn new(candidates: &Vec<u64>, now: i64) -> (executor: Self)
        ensures
            executor.wf(),
            executor@ == DeletionState::initial(candidates@, now as int),
            executor@.total() == candidates@.len(),
    {
        let parts = partition(candidates, now);
        Executor {
            total: candidates.len(),
            bulk: parts.bulk,
            individual: parts.individual,
            bulk_done: 0,
            single_done: 0,
            deleted: 0,
            failed: 0,
        }
    }

    /// The deletions of `candidates`, split by their age now, by the
    /// machine's clock.
    pub fn start(candidates: &Vec<u64>) -> (executor: Self)
        ensures
            executor.wf(),
            exists|now: i64| executor@ == DeletionState::initial(candidates@, now as int),
            executor@.total() == candidates@.len(),
    {
        Self::new(candidates, unix_now())
    }

    /// The request to make next, or `None` when every candidate was dealt
    /// with.
    pub fn next_request(&self) -> (request: Option<DeleteRequest>)
        requires
            self.wf(),
        ensures
            request is Some <==> !self@.complete(),
            match request {
                Some(r) => self@.next_request() == Some(r@),
                None => self@.next_request() is None,
            },
    {
        if self.bulk_done < self.bulk.len() {
            let left: usize = self.bulk.len() - self.bulk_done;
            let len: usize = if left > BULK_CHUNK_SIZE {
                BULK_CHUNK_SIZE
            } else {
                left
            };
            let end: usize = self.bulk_done + len;
            let mut chunk: Vec<u64> = Vec::new();
            let mut i: usize = self.bulk_done;
            while i < end
                invariant
                    self.bulk_done <= i <= end <= self.bulk.len(),
                    chunk@ == self.bulk@.subrange(self.bulk_done as int, i as int),
                decreases end - i,
            {
                chunk.push(self.bulk[i]);
                assert(self.bulk@.subrange(self.bulk_done as int, i + 1) =~= self.bulk@.subrange(
                    self.bulk_done as int,
                    i as int,
                ).push(self.bulk@[i as int]));
                i = i + 1;
            }
            Some(DeleteRequest::Batch(chunk))
        } else if self.single_done < self.individual.len() {
            Some(DeleteRequest::Single(self.individual[self.single_done]))
        } else {
            None
        }
    }

    /// Takes in the answer to the request that [`Executor::next_request`]
    /// names, and says how long to pause and what progress to show before
    /// the next one.
    pub fn record(&mut self, succeeded: bool) -> (follow_up: FollowUp)
        requires
            old(self).wf(),
        ensures
            final(self).wf(),
            final(self)@ == old(self)@.record(succeeded),
            follow_up == old(self)@.follow_up(succeeded),
    {
        if self.bulk_done < self.bulk.len() {
            let left: usize = self.bulk.len() - self.bulk_done;
            let len: usize = if left > BULK_CHUNK_SIZE {
                BULK_CHUNK_SIZE
            } else {
                left
            };
            if succeeded {
                self.deleted = self.deleted + len;
            } else {
                self.failed = self.failed + len;
            }
            self.bulk_done = self.bulk_done + len;
            FollowUp { pause_millis: BULK_PAUSE_MILLIS, progress: None }
        } else if self.single_done < self.individual.len() {
            if succeeded {
                self.deleted = self.deleted + 1;
            } else {
                self.failed = self.failed + 1;
            }
            self.single_done = self.single_done + 1;
            let attempted: usize = self.deleted + self.failed;
            let progress = if attempted % DELETE_REPORT_INTERVAL == 0 {
                Some(Progress { attempted, total: self.total })
            } else {
                None
            };
            FollowUp { pause_millis: SINGLE_PAUSE_MILLIS, progress }
        } else {
            FollowUp { pause_millis: 0, progress: None }
        }
    }

    /// Whether every candidate was dealt with.
    pub fn is_complete(&self) -> (complete: bool)
        ensures
            complete == self@.complete(),
    {
        self.bulk_done == self.bulk.len() && self.single_done == self.individual.len()
    }

    /// The counters as they stand.
    pub fn stats(&self) -> (stats: DeletionStats)
        ensures
            stats == self@.stats(),
    {
        DeletionStats { deleted: self.deleted, failed: self.failed }
    }

    /// How many candidates there are.
    pub fn total(&self) -> (total: usize)
        requires
            self.wf(),
        ensures
            total == self@.total(),
    {
        self.total
    }

    /// The candidates for batched deletes.
    pub fn bulk(&self) -> (ids: &Vec<u64>)
        ensures
            ids@ == self@.bulk,
    {
        &self.bulk
    }

    /// The candidates for single deletes.
    pub fn individual(&self) -> (ids: &Vec<u64>)
        ensures
            ids@ == self@.individual,
    {
        &self.individual
    }
}

} // verus!
