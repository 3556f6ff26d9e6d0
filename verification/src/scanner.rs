//! The history scanner: it is fed the channel's history page by page, newest
//! first, and collects the messages to delete until it meets one that is too
//! old or runs out of history.

use crate::clock::unix_now;
use crate::message::{Message, MessageView};
use crate::pattern::regex_matches;
use crate::request::PurgeRequest;
use crate::window::{
    crosses, cutoff, matching_ids, oldest_accepted, scan_page, visited_len, window, window_len,
    window_len_splits, window_len_unique,
};
use regex::Regex;
use vstd::prelude::*;

verus! {

/// The most messages that one page of history is asked to hold.
pub const PAGE_LIMIT: u8 = 100;

/// A progress snapshot is due whenever the number of checked messages is a
/// multiple of this.
pub const SCAN_REPORT_INTERVAL: u64 = 500;

/// Where a scan stands.
#[derive(Clone, Copy, Debug, PartialEq, Eq, Structural)]
pub enum ScanStatus {
    /// More history is wanted.
    Scanning,
    /// An empty page came back: the channel has no older messages.
    ReachedStart,
    /// A message older than the window was met.
    CrossedThreshold,
}

/// The counters of a scan.
#[derive(Clone, Copy, Debug, PartialEq, Eq, Structural)]
pub struct ScanStats {
    /// How many messages were looked at.
    pub total_checked: u64,
    /// How many of them were selected for deletion.
    pub matched: usize,
}

/// What the scanner wants done next.
#[derive(Clone, Copy, Debug, PartialEq, Eq)]
pub enum ScanStep {
    /// Fetch the page of up to [`PAGE_LIMIT`] messages older than `before`
    /// (the newest page where there is no `before`), after showing the
    /// snapshot `progress` if there is one.
    Fetch { before: Option<u64>, progress: Option<ScanStats> },
    /// The scan is over.
    Finished,
}

/// The mathematical state of a scan.
pub ghost struct ScanState {
    /// The compiled pattern that selects messages.
    pub matcher: Regex,
    /// The send time, in seconds since 1970, below which a message is too old.
    pub threshold: int,
    /// Every message handed to the scan so far, newest first.
    pub history: Seq<MessageView>,
    /// The identifiers selected so far, newest first.
    pub candidates: Seq<u64>,
    /// How many messages were looked at.
    pub total_checked: nat,
    /// The identifier below which the next page is requested.
    pub cursor: Option<u64>,
    /// Where the scan stands.
    pub status: ScanStatus,
}

impl ScanState {
    /// A scan that has seen nothing yet.
    pub open spec fn initial(matcher: Regex, threshold: int) -> ScanState {
        ScanState {
            matcher,
            threshold,
            history: Seq::empty(),
            candidates: Seq::empty(),
            total_checked: 0,
            cursor: None,
            status: ScanStatus::Scanning,
        }
    }

    /// What the scan holds is determined by the history it was handed: the
    /// candidates are the matching messages in front of the first expired
    /// one, the count covers those in front of it and itself, and the cursor
    /// is the last message in front of it.
    pub open spec fn consistent(self) -> bool {
        &&& self.candidates == matching_ids(window(self.history, self.threshold), self.matcher)
        &&& self.total_checked == visited_len(self.history, self.threshold)
        &&& self.cursor == oldest_accepted(self.history, self.threshold)
        &&& (self.status == ScanStatus::CrossedThreshold <==> crosses(
            self.history,
            self.threshold,
        ))
    }

    /// The state after `page` came back. A scan that is over ignores it; an
    /// empty page ends the scan; any other page joins the history.
    pub open spec fn feed(self, page: Seq<MessageView>) -> ScanState {
        if self.status != ScanStatus::Scanning {
            self
        } else if page.len() == 0 {
            ScanState { status: ScanStatus::ReachedStart, ..self }
        } else {
            let history = self.history + page;
            ScanState {
                history,
                candidates: matching_ids(window(history, self.threshold), self.matcher),
                total_checked: visited_len(history, self.threshold),
                cursor: oldest_accepted(history, self.threshold),
                status: if crosses(history, self.threshold) {
                    ScanStatus::CrossedThreshold
                } else {
                    ScanStatus::Scanning
                },
                ..self
            }
        }
    }

    /// The counters as they stand.
    pub open spec fn stats(self) -> ScanStats {
        ScanStats {
            total_checked: self.total_checked as u64,
            matched: self.candidates.len() as usize,
        }
    }

    /// What is to be done after a page was taken in: nothing more when the
    /// scan is over, else the next fetch, with a snapshot when the count of
    /// checked messages is a multiple of 500.
    pub open spec fn step(self) -> ScanStep {
        if self.status != ScanStatus::Scanning {
            ScanStep::Finished
        } else {
            ScanStep::Fetch {
                before: self.cursor,
                progress: if self.total_checked % (SCAN_REPORT_INTERVAL as nat) == 0 {
                    Some(self.stats())
                } else {
                    None
                },
            }
        }
    }
}

/// Joining a page to a history that holds no expired message: the window
/// runs on into the page.
pub proof fn window_of_joined(history: Seq<MessageView>, page: Seq<MessageView>, threshold: int)
    requires
        !crosses(history, threshold),
    ensures
        window_len(history + page, threshold) == history.len() + window_len(page, threshold),
        window(history + page, threshold) == history + window(page, threshold),
        crosses(history + page, threshold) == crosses(page, threshold),
        visited_len(history + page, threshold) == history.len() + visited_len(page, threshold),
        oldest_accepted(history + page, threshold) == (if window_len(page, threshold) == 0 {
            oldest_accepted(history, threshold)
        } else {
            oldest_accepted(page, threshold)
        }),
{
    let joined = history + page;
    let n = history.len() + window_len(page, threshold);
    window_len_splits(history, threshold);
    window_len_splits(page, threshold);
    assert forall|j: int| 0 <= j < n implies !crate::window::expired(
        #[trigger] joined[j].timestamp,
        threshold,
    ) by {
        if j < history.len() {
            assert(joined[j] == history[j]);
        } else {
            assert(joined[j] == page[j - history.len()]);
        }
    }
    if n < joined.len() {
        assert(joined[n as int] == page[window_len(page, threshold) as int]);
    }
    window_len_unique(joined, threshold, n as int);
    assert(window(joined, threshold) =~= history + window(page, threshold));
    assert(window(history, threshold) =~= history);
    if window_len(page, threshold) > 0 {
        assert(joined[n - 1] == page[window_len(page, threshold) - 1]);
    } else if history.len() > 0 {
        assert(joined[n - 1] == history[history.len() - 1]);
    }
}

/// The matching identifiers of two stretches of history, joined, are those of
/// the first followed by those of the second.
pub proof fn matching_ids_of_joined(
    older: Seq<MessageView>,
    newer: Seq<MessageView>,
    matcher: Regex,
)
    ensures
        matching_ids(newer + older, matcher) == matching_ids(newer, matcher) + matching_ids(
            older,
            matcher,
        ),
{
    let keep = |m: MessageView| regex_matches(matcher, m.content);
    Seq::filter_distributes_over_add(newer, older, keep);
    assert((newer.filter(keep) + older.filter(keep)).map_values(|m: MessageView| m.id)
        =~= newer.filter(keep).map_values(|m: MessageView| m.id) + older.filter(keep).map_values(
        |m: MessageView| m.id,
    ));
}

/// The state after the pages of `pages` came back one after the other.
pub open spec fn feed_all(state: ScanState, pages: Seq<Seq<MessageView>>) -> ScanState
    decreases pages.len(),
{
    if pages.len() == 0 {
        state
    } else {
        feed_all(state, pages.drop_last()).feed(pages.last())
    }
}

/// Taking in a page keeps a scan consistent, and changes neither its pattern
/// nor its threshold.
pub proof fn feed_keeps_consistency(state: ScanState, page: Seq<MessageView>)
    requires
        state.consistent(),
    ensures
        state.feed(page).consistent(),
        state.feed(page).matcher == state.matcher,
        state.feed(page).threshold == state.threshold,
{
}

/// Whatever pages come back, and however many, a scan that starts with
/// nothing stays consistent: what it selected and counted is determined by
/// the history it took in.
pub proof fn scan_stays_consistent(
    matcher: Regex,
    threshold: int,
    pages: Seq<Seq<MessageView>>,
)
    ensures
        feed_all(ScanState::initial(matcher, threshold), pages).consistent(),
        feed_all(ScanState::initial(matcher, threshold), pages).matcher == matcher,
        feed_all(ScanState::initial(matcher, threshold), pages).threshold == threshold,
    decreases pages.len(),
{
    let start = ScanState::initial(matcher, threshold);
    if pages.len() == 0 {
        let empty = Seq::<MessageView>::empty();
        assert(window(empty, threshold) =~= empty);
        reveal(Seq::filter);
        assert(matching_ids(empty, matcher) =~= Seq::<u64>::empty());
    } else {
        scan_stays_consistent(matcher, threshold, pages.drop_last());
        feed_keeps_consistency(feed_all(start, pages.drop_last()), pages.last());
    }
}

/// The candidates of a scan are exactly the messages that match the pattern
/// and stand in front of the first message older than the threshold. Nothing
/// at or behind that message is selected, whether or not it would match.
pub proof fn candidates_are_window_matches(state: ScanState, id: u64)
    requires
        state.consistent(),
    ensures
        state.candidates.contains(id) <==> exists|i: int|
            0 <= i < window_len(state.history, state.threshold) && (
            #[trigger] state.history[i]).id == id && !crate::window::expired(
                state.history[i].timestamp,
                state.threshold,
            ) && regex_matches(state.matcher, state.history[i].content),
{
    let accepted = window(state.history, state.threshold);
    let keep = |m: MessageView| regex_matches(state.matcher, m.content);
    let kept = accepted.filter(keep);
    window_len_splits(state.history, state.threshold);
    if state.candidates.contains(id) {
        let j = choose|j: int| 0 <= j < state.candidates.len() && state.candidates[j] == id;
        accepted.lemma_filter_pred(keep, j);
        assert(kept.contains(kept[j]));
        accepted.lemma_filter_contains_rev(keep, kept[j]);
        let i = choose|i: int| 0 <= i < accepted.len() && accepted[i] == kept[j];
        assert(state.history[i] == accepted[i]);
    }
    if exists|i: int|
        0 <= i < window_len(state.history, state.threshold) && (
        #[trigger] state.history[i]).id == id && regex_matches(
            state.matcher,
            state.history[i].content,
        ) {
        let i = choose|i: int|
            0 <= i < window_len(state.history, state.threshold) && (
            #[trigger] state.history[i]).id == id && regex_matches(
                state.matcher,
                state.history[i].content,
            );
        assert(accepted[i] == state.history[i]);
        accepted.lemma_filter_contains(keep, i);
        let j = choose|j: int| 0 <= j < kept.len() && kept[j] == accepted[i];
        assert(state.candidates[j] == id);
    }
}

/// A scan never looks behind the first message older than the threshold:
/// the count of checked messages covers the accepted ones and that message,
/// and no message handed over behind it.
pub proof fn checked_stops_at_first_expired(state: ScanState)
    requires
        state.consistent(),
    ensures
        state.total_checked <= state.history.len(),
        !crosses(state.history, state.threshold) ==> state.total_checked
            == state.history.len(),
        crosses(state.history, state.threshold) ==> {
            &&& state.total_checked == window_len(state.history, state.threshold) + 1
            &&& crate::window::expired(
                state.history[state.total_checked - 1].timestamp,
                state.threshold,
            )
        },
        forall|i: int|
            0 <= i < state.total_checked && i < window_len(state.history, state.threshold)
                ==> !crate::window::expired(
                (#[trigger] state.history[i]).timestamp,
                state.threshold,
            ),
{
    window_len_splits(state.history, state.threshold);
}

/// A scan in progress.
pub struct Scanner {
    request: PurgeRequest,
    started_at: i64,
    cursor: Option<u64>,
    candidates: Vec<u64>,
    total_checked: u64,
    status: ScanStatus,
    history: Ghost<Seq<MessageView>>,
}

impl View for Scanner {
    type V = ScanState;

    closed spec fn view(&self) -> ScanState {
        ScanState {
            matcher: self.request.matcher(),
            threshold: cutoff(self.started_at as int, self.request.minutes()),
            history: self.history@,
            candidates: self.candidates@,
            total_checked: self.total_checked as nat,
            cursor: self.cursor,
            status: self.status,
        }
    }
}

impl Scanner {
    /// The request that the scan serves.
    pub closed spec fn order(&self) -> PurgeRequest {
        self.request
    }

    /// When the scan started, in seconds since 1970.
    pub closed spec fn start_time(&self) -> int {
        self.started_at as int
    }

    /// A scanner is valid when its request is and its state is consistent
    /// with the history it was handed.
    pub open spec fn wf(&self) -> bool {
        &&& self.order().wf()
        &&& self@.consistent()
        &&& self@.matcher == self.order().matcher()
        &&& self@.threshold == cutoff(self.start_time(), self.order().minutes())
        &&& self@.total_checked <= u64::MAX
        &&& self@.candidates.len() <= usize::MAX
    }

    /// A scan for `request` that starts at `now` (seconds since 1970) and has
    /// seen nothing yet.
    pub fn new(request: PurgeRequest, now: i64) -> (scanner: Self)
        requires
            request.wf(),
        ensures
            scanner.wf(),
            scanner.order() == request,
            scanner.start_time() == now,
            scanner@ == ScanState::initial(
                request.matcher(),
                cutoff(now as int, request.minutes()),
            ),
    {
        let scanner = Scanner {
            request,
            started_at: now,
            cursor: None,
            candidates: Vec::new(),
            total_checked: 0,
            status: ScanStatus::Scanning,
            history: Ghost(Seq::empty()),
        };
        proof {
            let empty = Seq::<MessageView>::empty();
            assert(window(empty, scanner@.threshold) =~= empty);
            reveal(Seq::filter);
            assert(matching_ids(empty, scanner@.matcher) =~= Seq::<u64>::empty());
        }
        scanner
    }

    /// A scan for `request` that starts now, by the machine's clock.
    pub fn start(request: PurgeRequest) -> (scanner: Self)
        requires
            request.wf(),
        ensures
            scanner.wf(),
            scanner.order() == request,
            scanner@ == ScanState::initial(
                request.matcher(),
                cutoff(scanner.start_time(), request.minutes()),
            ),
    {
        Self::new(request, unix_now())
    }

    /// The first thing to do: fetch the newest page.
    pub fn first_step(&self) -> (step: ScanStep)
        ensures
            step == (ScanStep::Fetch { before: None, progress: None }),
    {
        ScanStep::Fetch { before: None, progress: None }
    }

    /// Whether the count of checked messages can grow by a page of `len`
    /// messages without leaving the range of its type.
    pub fn has_room_for(&self, len: usize) -> (room: bool)
        ensures
            room == (self@.total_checked + len <= u64::MAX),
    {
        len as u64 <= u64::MAX - self.total_checked
    }

    /// Takes in the page that came back for the last fetch and says what to
    /// do next.
    pub fn feed(&mut self, page: &Vec<Message>) -> (step: ScanStep)
        requires
            old(self).wf(),
            old(self)@.status == ScanStatus::Scanning ==> old(self)@.total_checked + page.len()
                <= u64::MAX,
        ensures
            final(self).wf(),
            final(self).order() == old(self).order(),
            final(self).start_time() == old(self).start_time(),
            final(self)@ == old(self)@.feed(page.deep_view()),
            step == final(self)@.step(),
    {
        match self.status {
            ScanStatus::Scanning => {},
            _ => {
                return ScanStep::Finished;
            },
        }
        if page.len() == 0 {
            self.status = ScanStatus::ReachedStart;
            assert(page.deep_view().len() == 0);
            return ScanStep::Finished;
        }
        let ghost before = self.history@;
        let ghost msgs = page.deep_view();
        let ghost threshold = self@.threshold;
        let scan = scan_page(
            self.request.regex(),
            self.started_at,
            self.request.duration_minutes(),
            page,
        );
        proof {
            window_len_splits(before, threshold);
            window_len_splits(msgs, threshold);
            assert(window(before, threshold) =~= before);
            window_of_joined(before, msgs, threshold);
            matching_ids_of_joined(window(msgs, threshold), before, self@.matcher);
        }
        let mut matched = scan.matched;
        self.candidates.append(&mut matched);
        self.total_checked = self.total_checked + scan.visited as u64;
        match scan.oldest {
            Some(id) => {
                self.cursor = Some(id);
            },
            None => {},
        }
        self.history = Ghost(before + msgs);
        let matched_so_far: usize = self.candidates.len();
        if scan.crossed {
            self.status = ScanStatus::CrossedThreshold;
            ScanStep::Finished
        } else {
            let progress = if self.total_checked % SCAN_REPORT_INTERVAL == 0 {
                Some(ScanStats { total_checked: self.total_checked, matched: matched_so_far })
            } else {
                None
            };
            ScanStep::Fetch { before: self.cursor, progress }
        }
    }

    /// Whether the scan is over.
    pub fn is_finished(&self) -> (finished: bool)
        ensures
            finished == (self@.status != ScanStatus::Scanning),
    {
        match self.status {
            ScanStatus::Scanning => false,
            _ => true,
        }
    }

    /// Where the scan stands.
    pub fn status(&self) -> (status: ScanStatus)
        ensures
            status == self@.status,
    {
        self.status
    }

    /// The counters as they stand.
    pub fn stats(&self) -> (stats: ScanStats)
        requires
            self.wf(),
        ensures
            stats == self@.stats(),
    {
        ScanStats { total_checked: self.total_checked, matched: self.candidates.len() }
    }

    /// How many messages were looked at.
    pub fn total_checked(&self) -> (count: u64)
        ensures
            count == self@.total_checked,
    {
        self.total_checked
    }

    /// The identifiers selected so far, newest first.
    pub fn candidates(&self) -> (ids: &Vec<u64>)
        ensures
            ids@ == self@.candidates,
    {
        &self.candidates
    }

    /// The identifier below which the next page is requested.
    pub fn cursor(&self) -> (cursor: Option<u64>)
        ensures
            cursor == self@.cursor,
    {
        self.cursor
    }

    /// The request that the scan serves.
    pub fn request(&self) -> (request: &PurgeRequest)
        ensures
            *request == self.order(),
    {
        &self.request
    }

    /// When the scan started, in seconds since 1970.
    pub fn started_at(&self) -> (now: i64)
        ensures
            now == self.start_time(),
    {
        self.started_at
    }

    /// Ends the scan and hands over the request and the selected identifiers.
    pub fn into_parts(self) -> (parts: (PurgeRequest, Vec<u64>))
        ensures
            parts.0 == self.order(),
            parts.1@ == self@.candidates,
    {
        (self.request, self.candidates)
    }
}

} // verus!
