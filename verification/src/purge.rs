//! One purge from start to finish: scan the history, then delete what was
//! selected, then sum up.
//!
//! The purge itself talks to nobody. It hands out one [`Directive`] at a
//! time (pause, show a status, then fetch a page or make a delete request)
//! and is told what came back; whoever drives it does the talking.

use crate::clock::unix_now;
use crate::executor::{
    DeleteRequest, DeleteRequestView, DeletionState, Executor, FollowUp, Progress,
};
use crate::message::{Message, MessageView};
use crate::pattern::pattern_of;
use crate::request::PurgeRequest;
use crate::scanner::{ScanState, ScanStatus, ScanStep, Scanner, PAGE_LIMIT, SCAN_REPORT_INTERVAL};
use crate::text::{
    deleting_message, deleting_text, failures_message, failures_text, no_matches_message,
    no_matches_text, progress_message, progress_text, scanning_message, scanning_text,
    success_message, success_text,
};
use crate::window::cutoff;
use regex::Regex;
use vstd::prelude::*;

verus! {

/// The part of a purge that is under way.
#[derive(Clone, Copy, Debug, PartialEq, Eq, Structural)]
pub enum Phase {
    /// The history is being read.
    Scanning,
    /// The selected messages are being deleted.
    Deleting,
    /// Nothing is left to do but to show the summary.
    Done,
}

/// How a purge ended.
#[derive(Clone, Copy, Debug, PartialEq, Eq, Structural)]
pub enum Outcome {
    /// No message matched: nothing was deleted.
    NoMatches,
    /// Every selected message was deleted.
    Completed,
    /// Some deletions failed.
    CompletedWithFailures,
}

/// What the driver is to ask of the platform.
#[derive(Debug, PartialEq, Eq)]
pub enum Command {
    /// Fetch up to `limit` messages of `channel` older than `before` (the
    /// newest ones where there is no `before`) and hand them to
    /// [`Purge::on_page`].
    Fetch { channel: u64, before: Option<u64>, limit: u8 },
    /// Delete `ids` from `channel` in one batched request and hand the
    /// outcome to [`Purge::on_deleted`].
    DeleteBatch { channel: u64, ids: Vec<u64> },
    /// Delete `id` from `channel` and hand the outcome to
    /// [`Purge::on_deleted`].
    DeleteOne { channel: u64, id: u64 },
    /// Show `summary`; the purge is over.
    Finish { summary: String },
}

/// The mathematical value of a [`Command`].
pub ghost enum CommandView {
    Fetch { channel: u64, before: Option<u64>, limit: u8 },
    DeleteBatch { channel: u64, ids: Seq<u64> },
    DeleteOne { channel: u64, id: u64 },
    Finish { summary: Seq<char> },
}

impl View for Command {
    type V = CommandView;

    open spec fn view(&self) -> CommandView {
        match self {
            Command::Fetch { channel, before, limit } => CommandView::Fetch {
                channel: *channel,
                before: *before,
                limit: *limit,
            },
            Command::DeleteBatch { channel, ids } => CommandView::DeleteBatch {
                channel: *channel,
                ids: ids@,
            },
            Command::DeleteOne { channel, id } => CommandView::DeleteOne {
                channel: *channel,
                id: *id,
            },
            Command::Finish { summary } => CommandView::Finish { summary: summary@ },
        }
    }
}

/// What the driver is to do next, in this order: pause, show the status if
/// there is one (a failure to show it changes nothing), carry out the command.
#[derive(Debug, PartialEq, Eq)]
pub struct Directive {
    /// How long to pause first, in milliseconds.
    pub pause_millis: u64,
    /// The status to show after the pause.
    pub status: Option<String>,
    /// What to ask of the platform then.
    pub command: Command,
}

/// The mathematical value of a [`Directive`].
pub ghost struct DirectiveView {
    pub pause_millis: u64,
    pub status: Option<Seq<char>>,
    pub command: CommandView,
}

impl View for Directive {
    type V = DirectiveView;

    open spec fn view(&self) -> DirectiveView {
        DirectiveView {
            pause_millis: self.pause_millis,
            status: match self.status {
                Some(text) => Some(text@),
                None => None,
            },
            command: self.command@,
        }
    }
}

/// The mathematical state of a purge.
pub ghost struct PurgeState {
    /// The channel that is purged.
    pub channel: u64,
    /// The window in minutes.
    pub minutes: int,
    /// The part under way.
    pub phase: Phase,
    /// The scan.
    pub scan: ScanState,
    /// The deletions; those of no candidates until the scan is over.
    pub deletion: DeletionState,
}

impl PurgeState {
    /// A purge that has done nothing yet.
    pub open spec fn initial(
        matcher: Regex,
        channel: u64,
        minutes: int,
        now: int,
    ) -> PurgeState {
        PurgeState {
            channel,
            minutes,
            phase: Phase::Scanning,
            scan: ScanState::initial(matcher, cutoff(now, minutes)),
            deletion: DeletionState::initial(Seq::empty(), 0),
        }
    }

    /// The phase follows the scan and the deletions: scanning while the scan
    /// wants more, deleting while a selected message is left to deal with.
    pub open spec fn consistent(self) -> bool {
        &&& self.scan.consistent()
        &&& self.deletion.consistent()
        &&& (self.phase == Phase::Scanning <==> self.scan.status == ScanStatus::Scanning)
        &&& (self.phase == Phase::Scanning ==> self.deletion == DeletionState::initial(
            Seq::empty(),
            0,
        ))
        &&& (self.phase == Phase::Deleting ==> !self.deletion.complete())
        &&& (self.phase == Phase::Done ==> self.deletion.complete())
        &&& (self.phase != Phase::Scanning ==> self.deletion.total()
            == self.scan.candidates.len())
    }

    /// How the purge ends, as far as it has come.
    pub open spec fn outcome(self) -> Outcome {
        if self.scan.candidates.len() == 0 {
            Outcome::NoMatches
        } else if self.deletion.failed > 0 {
            Outcome::CompletedWithFailures
        } else {
            Outcome::Completed
        }
    }

    /// The summary, as far as the purge has come.
    pub open spec fn summary(self) -> Seq<char> {
        match self.outcome() {
            Outcome::NoMatches => no_matches_text(
                self.scan.total_checked,
                pattern_of(self.scan.matcher),
            ),
            Outcome::Completed => success_text(
                self.deletion.deleted,
                self.scan.total_checked,
                pattern_of(self.scan.matcher),
                self.minutes as nat,
            ),
            Outcome::CompletedWithFailures => failures_text(
                self.deletion.deleted,
                self.deletion.failed,
                self.scan.total_checked,
                pattern_of(self.scan.matcher),
                self.minutes as nat,
            ),
        }
    }

    /// The command that the purge is waiting on.
    pub open spec fn pending(self) -> CommandView {
        match self.phase {
            Phase::Scanning => CommandView::Fetch {
                channel: self.channel,
                before: self.scan.cursor,
                limit: PAGE_LIMIT,
            },
            Phase::Deleting => match self.deletion.next_request() {
                Some(DeleteRequestView::Batch(ids)) => CommandView::DeleteBatch {
                    channel: self.channel,
                    ids,
                },
                Some(DeleteRequestView::Single(id)) => CommandView::DeleteOne {
                    channel: self.channel,
                    id,
                },
                None => CommandView::Finish { summary: self.summary() },
            },
            Phase::Done => CommandView::Finish { summary: self.summary() },
        }
    }

    /// The state once `page` came back for a fetch, with `now` the time at
    /// which it did. While scanning, the scan takes the page in; when that
    /// ends the scan, the purge is done if nothing was selected, else the
    /// candidates are split by their age at `now` and the deletions begin.
    /// In the other phases a page changes nothing.
    pub open spec fn on_page(self, page: Seq<MessageView>, now: int) -> PurgeState {
        if self.phase != Phase::Scanning {
            self
        } else {
            let scan = self.scan.feed(page);
            if scan.status == ScanStatus::Scanning {
                PurgeState { scan, ..self }
            } else if scan.candidates.len() == 0 {
                PurgeState { scan, phase: Phase::Done, ..self }
            } else {
                PurgeState {
                    scan,
                    phase: Phase::Deleting,
                    deletion: DeletionState::initial(scan.candidates, now),
                    ..self
                }
            }
        }
    }

    /// The status to show once `page` was taken in: a snapshot each time the
    /// count of checked messages is a multiple of 500 while the scan goes on,
    /// and the notice that the deletions begin when they do.
    pub open spec fn status_after_page(self, page: Seq<MessageView>, now: int) -> Option<
        Seq<char>,
    > {
        let next = self.on_page(page, now);
        if self.phase != Phase::Scanning {
            None
        } else if next.phase == Phase::Scanning {
            if next.scan.total_checked % (SCAN_REPORT_INTERVAL as nat) == 0 {
                Some(scanning_text(next.scan.total_checked, next.scan.candidates.len()))
            } else {
                None
            }
        } else if next.phase == Phase::Deleting {
            Some(deleting_text(next.scan.candidates.len()))
        } else {
            None
        }
    }

    /// What the driver is told once `page` was taken in.
    pub open spec fn after_page(self, page: Seq<MessageView>, now: int) -> DirectiveView {
        DirectiveView {
            pause_millis: 0,
            status: self.status_after_page(page, now),
            command: self.on_page(page, now).pending(),
        }
    }

    /// The state once the pending delete request was answered. Outside the
    /// deleting phase an answer changes nothing.
    pub open spec fn on_deleted(self, succeeded: bool) -> PurgeState {
        if self.phase != Phase::Deleting {
            self
        } else {
            let deletion = self.deletion.record(succeeded);
            PurgeState {
                deletion,
                phase: if deletion.complete() {
                    Phase::Done
                } else {
                    Phase::Deleting
                },
                ..self
            }
        }
    }

    /// What the driver is told once the pending delete request was answered:
    /// the pause that the kind of request calls for, the progress if one is
    /// due, and the next command.
    pub open spec fn after_deleted(self, succeeded: bool) -> DirectiveView {
        if self.phase != Phase::Deleting {
            DirectiveView { pause_millis: 0, status: None, command: self.pending() }
        } else {
            let follow_up = self.deletion.follow_up(succeeded);
            DirectiveView {
                pause_millis: follow_up.pause_millis,
                status: match follow_up.progress {
                    Some(progress) => Some(
                        progress_text(progress.attempted as nat, progress.total as nat),
                    ),
                    None => None,
                },
                command: self.on_deleted(succeeded).pending(),
            }
        }
    }
}

/// A page keeps a purge consistent.
pub proof fn on_page_keeps_consistency(state: PurgeState, page: Seq<MessageView>, now: int)
    requires
        state.consistent(),
    ensures
        state.on_page(page, now).consistent(),
{
    crate::scanner::feed_keeps_consistency(state.scan, page);
    if state.phase == Phase::Scanning {
        let scan = state.scan.feed(page);
        if scan.status != ScanStatus::Scanning && scan.candidates.len() > 0 {
            crate::executor::partition_is_exhaustive_and_disjoint(scan.candidates, now);
        } else if scan.status != ScanStatus::Scanning {
            crate::executor::partition_is_exhaustive_and_disjoint(Seq::empty(), 0);
        }
    }
}

/// An answer to a delete request keeps a purge consistent.
pub proof fn on_deleted_keeps_consistency(state: PurgeState, succeeded: bool)
    requires
        state.consistent(),
    ensures
        state.on_deleted(succeeded).consistent(),
{
    crate::executor::record_keeps_consistency(state.deletion, succeeded);
}

/// When a purge is done, every selected message was dealt with once: the
/// deleted and the failed ones add up to the candidates. Where nothing was
/// selected nothing was deleted and nothing failed, and the purge ends with
/// failures exactly when a deletion failed.
pub proof fn finished_purge_accounts_for_every_candidate(state: PurgeState)
    requires
        state.consistent(),
        state.phase == Phase::Done,
    ensures
        state.deletion.deleted + state.deletion.failed == state.scan.candidates.len(),
        state.outcome() == Outcome::NoMatches <==> state.scan.candidates.len() == 0,
        state.outcome() == Outcome::NoMatches ==> state.deletion.deleted == 0
            && state.deletion.failed == 0,
        state.outcome() == Outcome::Completed ==> state.deletion.deleted
            == state.scan.candidates.len(),
        state.outcome() == Outcome::CompletedWithFailures <==> state.deletion.failed > 0,
        state.pending() == (CommandView::Finish { summary: state.summary() }),
{
}

/// A purge under way.
pub struct Purge {
    scanner: Scanner,
    executor: Executor,
    phase: Phase,
}

impl View for Purge {
    type V = PurgeState;

    closed spec fn view(&self) -> PurgeState {
        PurgeState {
            channel: self.scanner.order().target(),
            minutes: self.scanner.order().minutes(),
            phase: self.phase,
            scan: self.scanner@,
            deletion: self.executor@,
        }
    }
}

impl Purge {
    /// The scanner of the purge.
    pub closed spec fn scan_part(&self) -> Scanner {
        self.scanner
    }

    /// The executor of the purge.
    pub closed spec fn delete_part(&self) -> Executor {
        self.executor
    }

    /// A purge is valid when its parts are, and its phase follows them.
    pub open spec fn wf(&self) -> bool {
        &&& self.scan_part().wf()
        &&& self.delete_part().wf()
        &&& self@.consistent()
        &&& self@.scan == self.scan_part()@
        &&& self@.deletion == self.delete_part()@
        &&& self@.channel == self.scan_part().order().target()
        &&& self@.minutes == self.scan_part().order().minutes()
    }

    /// A purge for `request` that starts at `now` (seconds since 1970).
    pub fn new(request: PurgeRequest, now: i64) -> (purge: Self)
        requires
            request.wf(),
        ensures
            purge.wf(),
            purge@ == PurgeState::initial(
                request.matcher(),
                request.target(),
                request.minutes(),
                now as int,
            ),
    {
        let empty: Vec<u64> = Vec::new();
        let executor = Executor::new(&empty, 0);
        let scanner = Scanner::new(request, now);
        Purge { scanner, executor, phase: Phase::Scanning }
    }

    /// A purge for `request` that starts now, by the machine's clock.
    pub fn start(request: PurgeRequest) -> (purge: Self)
        requires
            request.wf(),
        ensures
            purge.wf(),
            exists|now: i64|
                purge@ == PurgeState::initial(
                    request.matcher(),
                    request.target(),
                    request.minutes(),
                    now as int,
                ),
    {
        Self::new(request, unix_now())
    }

    /// The summary of the purge as far as it has come.
    pub fn summary(&self) -> (text: String)
        requires
            self.wf(),
        ensures
            text@ == self@.summary(),
    {
        let stats = self.executor.stats();
        let checked = self.scanner.total_checked();
        let pattern = self.scanner.request().pattern_text();
        let minutes = self.scanner.request().duration_minutes() as u64;
        if self.scanner.candidates().len() == 0 {
            no_matches_message(checked, pattern)
        } else if stats.failed > 0 {
            failures_message(stats.deleted, stats.failed, checked, pattern, minutes)
        } else {
            success_message(stats.deleted, checked, pattern, minutes)
        }
    }

    /// The command that the purge is waiting on.
    pub fn pending(&self) -> (command: Command)
        requires
            self.wf(),
        ensures
            command@ == self@.pending(),
    {
        let channel = self.scanner.request().channel();
        match self.phase {
            Phase::Scanning => Command::Fetch {
                channel,
                before: self.scanner.cursor(),
                limit: PAGE_LIMIT,
            },
            Phase::Deleting => match self.executor.next_request() {
                Some(DeleteRequest::Batch(ids)) => Command::DeleteBatch { channel, ids },
                Some(DeleteRequest::Single(id)) => Command::DeleteOne { channel, id },
                None => Command::Finish { summary: self.summary() },
            },
            Phase::Done => Command::Finish { summary: self.summary() },
        }
    }

    /// What to do first: fetch the newest page.
    pub fn begin(&self) -> (directive: Directive)
        requires
            self.wf(),
        ensures
            directive@ == (DirectiveView {
                pause_millis: 0,
                status: None,
                command: self@.pending(),
            }),
    {
        Directive { pause_millis: 0, status: None, command: self.pending() }
    }

    /// Whether the count of checked messages can grow by a page of `len`
    /// messages without leaving the range of its type.
    pub fn has_room_for(&self, len: usize) -> (room: bool)
        requires
            self.wf(),
        ensures
            room == (self@.scan.total_checked + len <= u64::MAX),
    {
        self.scanner.has_room_for(len)
    }

    /// Takes in the page that came back for a fetch, `now` being the time
    /// (seconds since 1970) at which it did, and says what to do next.
    pub fn on_page_at(&mut self, page: &Vec<Message>, now: i64) -> (directive: Directive)
        requires
            old(self).wf(),
            old(self)@.phase == Phase::Scanning ==> old(self)@.scan.total_checked + page.len()
                <= u64::MAX,
        ensures
            final(self).wf(),
            final(self)@ == old(self)@.on_page(page.deep_view(), now as int),
            directive@ == old(self)@.after_page(page.deep_view(), now as int),
    {
        match self.phase {
            Phase::Scanning => {},
            _ => {
                return Directive { pause_millis: 0, status: None, command: self.pending() };
            },
        }
        let step = self.scanner.feed(page);
        let status = match step {
            ScanStep::Fetch { before: _, progress: Some(stats) } => Some(
                scanning_message(stats.total_checked, stats.matched),
            ),
            ScanStep::Fetch { before: _, progress: None } => None,
            ScanStep::Finished => {
                let count = self.scanner.candidates().len();
                if count == 0 {
                    self.phase = Phase::Done;
                    None
                } else {
                    self.executor = Executor::new(self.scanner.candidates(), now);
                    self.phase = Phase::Deleting;
                    Some(deleting_message(count))
                }
            },
        };
        Directive { pause_millis: 0, status, command: self.pending() }
    }

    /// Takes in the page that came back for a fetch and says what to do
    /// next, reading the time from the machine's clock.
    pub fn on_page(&mut self, page: &Vec<Message>) -> (directive: Directive)
        requires
            old(self).wf(),
            old(self)@.phase == Phase::Scanning ==> old(self)@.scan.total_checked + page.len()
                <= u64::MAX,
        ensures
            final(self).wf(),
            exists|now: i64|
                final(self)@ == old(self)@.on_page(page.deep_view(), now as int) && directive@
                    == old(self)@.after_page(page.deep_view(), now as int),
    {
        self.on_page_at(page, unix_now())
    }

    /// Takes in the outcome of the pending delete request and says what to
    /// do next.
    pub fn on_deleted(&mut self, succeeded: bool) -> (directive: Directive)
        requires
            old(self).wf(),
        ensures
            final(self).wf(),
            final(self)@ == old(self)@.on_deleted(succeeded),
            directive@ == old(self)@.after_deleted(succeeded),
    {
        match self.phase {
            Phase::Deleting => {},
            _ => {
                return Directive { pause_millis: 0, status: None, command: self.pending() };
            },
        }
        let follow_up = self.executor.record(succeeded);
        if self.executor.is_complete() {
            self.phase = Phase::Done;
        }
        let status = match follow_up.progress {
            Some(progress) => Some(progress_message(progress.attempted, progress.total)),
            None => None,
        };
        Directive { pause_millis: follow_up.pause_millis, status, command: self.pending() }
    }

    /// The part of the purge that is under way.
    pub fn phase(&self) -> (phase: Phase)
        ensures
            phase == self@.phase,
    {
        self.phase
    }

    /// How the purge ended, once it is done.
    pub fn outcome(&self) -> (outcome: Option<Outcome>)
        requires
            self.wf(),
        ensures
            outcome == (if self@.phase == Phase::Done {
                Some(self@.outcome())
            } else {
                None
            }),
    {
        match self.phase {
            Phase::Done => {
                if self.scanner.candidates().len() == 0 {
                    Some(Outcome::NoMatches)
                } else if self.executor.stats().failed > 0 {
                    Some(Outcome::CompletedWithFailures)
                } else {
                    Some(Outcome::Completed)
                }
            },
            _ => None,
        }
    }

    /// The scan of the purge.
    pub fn scanner(&self) -> (scanner: &Scanner)
        ensures
            *scanner == self.scan_part(),
    {
        &self.scanner
    }

    /// The deletions of the purge.
    pub fn executor(&self) -> (executor: &Executor)
        ensures
            *executor == self.delete_part(),
    {
        &self.executor
    }
}

} // verus!
