//! The recency window of a scan, and what one page of history yields under it.
//!
//! History arrives newest first. A scan accepts messages until it meets the
//! first one sent before the cutoff, and looks at nothing behind that one.

use crate::message::{Message, MessageView};
use crate::pattern::regex_matches;
use regex::Regex;
use vstd::prelude::*;

verus! {

/// The earliest send time, in seconds since 1970, that a scan started at
/// `now` with a window of `minutes` still accepts.
pub open spec fn cutoff(now: int, minutes: int) -> int {
    now - 60 * minutes
}

/// Whether a message sent at `timestamp` lies before `threshold`.
pub open spec fn expired(timestamp: int, threshold: int) -> bool {
    timestamp < threshold
}

/// How many leading messages of `msgs` were sent at or after `threshold`.
pub open spec fn window_len(msgs: Seq<MessageView>, threshold: int) -> nat
    decreases msgs.len(),
{
    if msgs.len() == 0 || expired(msgs[0].timestamp, threshold) {
        0
    } else {
        1 + window_len(msgs.drop_first(), threshold)
    }
}

/// Whether `msgs` holds a message sent before `threshold`.
pub open spec fn crosses(msgs: Seq<MessageView>, threshold: int) -> bool {
    window_len(msgs, threshold) < msgs.len()
}

/// The messages of `msgs` that a scan accepts: those in front of the first
/// expired one.
pub open spec fn window(msgs: Seq<MessageView>, threshold: int) -> Seq<MessageView> {
    msgs.take(window_len(msgs, threshold) as int)
}

/// How many messages of `msgs` a scan looks at: the accepted ones, and the
/// first expired one if there is any.
pub open spec fn visited_len(msgs: Seq<MessageView>, threshold: int) -> nat {
    if crosses(msgs, threshold) {
        window_len(msgs, threshold) + 1
    } else {
        window_len(msgs, threshold)
    }
}

/// The identifiers of the messages of `msgs` whose text `matcher` matches, in
/// the order of `msgs`.
pub open spec fn matching_ids(msgs: Seq<MessageView>, matcher: Regex) -> Seq<u64> {
    msgs.filter(|m: MessageView| regex_matches(matcher, m.content)).map_values(
        |m: MessageView| m.id,
    )
}

/// The identifier of the last accepted message of `msgs`, from which the next
/// page is requested.
pub open spec fn oldest_accepted(msgs: Seq<MessageView>, threshold: int) -> Option<u64> {
    let w = window_len(msgs, threshold);
    if w == 0 {
        None
    } else {
        Some(msgs[w - 1].id)
    }
}

/// The window length is the one index that has only accepted messages in
/// front of it and an expired message, or the end, at it.
pub proof fn window_len_unique(msgs: Seq<MessageView>, threshold: int, n: int)
    requires
        0 <= n <= msgs.len(),
        forall|j: int| 0 <= j < n ==> !expired(#[trigger] msgs[j].timestamp, threshold),
        n < msgs.len() ==> expired(msgs[n].timestamp, threshold),
    ensures
        window_len(msgs, threshold) == n,
    decreases n,
{
    if n > 0 {
        let rest = msgs.drop_first();
        assert forall|j: int| 0 <= j < n - 1 implies !expired(
            #[trigger] rest[j].timestamp,
            threshold,
        ) by {
            assert(rest[j] == msgs[j + 1]);
        }
        window_len_unique(rest, threshold, n - 1);
    }
}

/// Every message in front of the window length is accepted, and the message
/// at it, if there is one, is expired.
pub proof fn window_len_splits(msgs: Seq<MessageView>, threshold: int)
    ensures
        window_len(msgs, threshold) <= msgs.len(),
        forall|j: int|
            0 <= j < window_len(msgs, threshold) ==> !expired(
                #[trigger] msgs[j].timestamp,
                threshold,
            ),
        crosses(msgs, threshold) ==> expired(
            msgs[window_len(msgs, threshold) as int].timestamp,
            threshold,
        ),
    decreases msgs.len(),
{
    if msgs.len() > 0 && !expired(msgs[0].timestamp, threshold) {
        let rest = msgs.drop_first();
        window_len_splits(rest, threshold);
        assert forall|j: int| 0 <= j < window_len(msgs, threshold) implies !expired(
            #[trigger] msgs[j].timestamp,
            threshold,
        ) by {
            if j > 0 {
                assert(msgs[j] == rest[j - 1]);
            }
        }
        if crosses(msgs, threshold) {
            assert(msgs[window_len(msgs, threshold) as int] == rest[window_len(
                rest,
                threshold,
            ) as int]);
        }
    }
}

/// Tells whether a message sent at `timestamp` is too old for a scan started
/// at `now` with a window of `minutes`.
pub fn is_expired(timestamp: i64, now: i64, minutes: i64) -> (old: bool)
    ensures
        old == expired(timestamp as int, cutoff(now as int, minutes as int)),
{
    let threshold: i128 = now as i128 - 60 * (minutes as i128);
    (timestamp as i128) < threshold
}

/// What a scan takes from one page of history.
#[derive(Debug)]
pub struct PageScan {
    /// The identifiers of the accepted messages that match, newest first.
    pub matched: Vec<u64>,
    /// How many messages of the page were looked at.
    pub visited: usize,
    /// Whether the page holds a message older than the window.
    pub crossed: bool,
    /// The identifier of the last accepted message, if any was accepted.
    pub oldest: Option<u64>,
}

impl PageScan {
    /// A scan that has looked at nothing yet.
    pub fn new() -> (scan: Self)
        ensures
            scan.matched@ == Seq::<u64>::empty(),
            scan.visited == 0,
            !scan.crossed,
            scan.oldest is None,
    {
        PageScan { matched: Vec::new(), visited: 0, crossed: false, oldest: None }
    }

    /// Looks at the next message of the page, sent at `timestamp`, of which
    /// `found` says whether its text matches. A scan that has met an expired
    /// message looks at nothing more. Otherwise the message counts as
    /// visited; if it is expired it ends the scan, and if it is not it
    /// becomes the oldest accepted one and is selected when `found` holds.
    pub fn observe(&mut self, id: u64, timestamp: i64, found: bool, now: i64, minutes: i64)
        requires
            old(self).visited < usize::MAX,
        ensures
            old(self).crossed ==> {
                &&& final(self).matched@ == old(self).matched@
                &&& final(self).visited == old(self).visited
                &&& final(self).crossed
                &&& final(self).oldest == old(self).oldest
            },
            !old(self).crossed && expired(timestamp as int, cutoff(now as int, minutes as int))
                ==> {
                &&& final(self).matched@ == old(self).matched@
                &&& final(self).visited == old(self).visited + 1
                &&& final(self).crossed
                &&& final(self).oldest == old(self).oldest
            },
            !old(self).crossed && !expired(timestamp as int, cutoff(now as int, minutes as int))
                ==> {
                &&& final(self).matched@ == (if found {
                    old(self).matched@.push(id)
                } else {
                    old(self).matched@
                })
                &&& final(self).visited == old(self).visited + 1
                &&& !final(self).crossed
                &&& final(self).oldest == Some(id)
            },
    {
        if self.crossed {
            return ;
        }
        self.visited = self.visited + 1;
        if is_expired(timestamp, now, minutes) {
            self.crossed = true;
        } else {
            if found {
                self.matched.push(id);
            }
            self.oldest = Some(id);
        }
    }
}

/// Scans one page, newest first, for messages that `regex` matches, up to the
/// first message sent before the cutoff.
pub fn scan_page(regex: &Regex, now: i64, minutes: i64, page: &Vec<Message>) -> (scan: PageScan)
    ensures
        scan.matched@ == matching_ids(
            window(page.deep_view(), cutoff(now as int, minutes as int)),
            *regex,
        ),
        scan.visited == visited_len(page.deep_view(), cutoff(now as int, minutes as int)),
        scan.crossed == crosses(page.deep_view(), cutoff(now as int, minutes as int)),
        scan.oldest == oldest_accepted(page.deep_view(), cutoff(now as int, minutes as int)),
{
    let ghost msgs = page.deep_view();
    let ghost threshold = cutoff(now as int, minutes as int);
    let ghost matcher = *regex;
    let mut scan = PageScan::new();
    let mut n: usize = 0;
    proof {
        assert(msgs.take(0) =~= Seq::<MessageView>::empty());
        reveal(Seq::filter);
        assert(matching_ids(msgs.take(0), matcher) =~= Seq::<u64>::empty());
    }
    while n < page.len() && !scan.crossed
        invariant
            msgs == page.deep_view(),
            threshold == cutoff(now as int, minutes as int),
            matcher == *regex,
            n <= page.len(),
            forall|j: int| 0 <= j < n ==> !expired(#[trigger] msgs[j].timestamp, threshold),
            scan.crossed ==> n < page.len() && expired(msgs[n as int].timestamp, threshold),
            scan.visited == (if scan.crossed {
                n + 1
            } else {
                n as int
            }),
            scan.matched@ == matching_ids(msgs.take(n as int), matcher),
            scan.oldest == (if n == 0 {
                None
            } else {
                Some(msgs[n - 1].id)
            }),
        decreases page.len() - n + (if scan.crossed { 0int } else { 1int }),
    {
        let message = &page[n];
        assert(msgs[n as int] == message@);
        let found = !is_expired(message.timestamp, now, minutes) && regex.is_match(
            message.content.as_str(),
        );
        scan.observe(message.id, message.timestamp, found, now, minutes);
        if !scan.crossed {
            proof {
                let seen = msgs.take(n as int);
                assert(msgs.take(n + 1) =~= seen.push(msgs[n as int]));
                seen.lemma_filter_push(
                    msgs[n as int],
                    |m: MessageView| regex_matches(matcher, m.content),
                );
                if found {
                    seen.filter(
                        |m: MessageView| regex_matches(matcher, m.content),
                    ).lemma_push_map_commute(|m: MessageView| m.id, msgs[n as int]);
                }
            }
            n = n + 1;
        }
    }
    proof {
        window_len_unique(msgs, threshold, n as int);
    }
    scan
}

} // verus!
