//! Song and game suggestions: what is checked before one is saved, how many
//! are listed, and the replies that list them.

use crate::error::BotError;
use crate::text::{decimal, decimal_text, signed_decimal, signed_decimal_text};
use vstd::prelude::*;
use vstd::string::StringExecFns;

verus! {

/// The most suggestions that a listing of the latest ones may ask for, and
/// the number that is fetched when none is named.
pub const LATEST_LIMIT: i32 = 50;

/// The most suggestions that a listing of one's own may ask for.
pub const OWN_LIMIT_MAX: i32 = 20;

/// The number of one's own suggestions that is fetched when none is named.
pub const OWN_LIMIT_DEFAULT: i32 = 10;

/// The most suggestions that a listing of the latest ones writes out.
pub const LATEST_SHOWN: usize = 10;

/// `text` without the whitespace at its two ends, as `str::trim` gives it.
pub uninterp spec fn trimmed(text: Seq<char>) -> Seq<char>;

/// When a suggestion's time was, written as year-month-day hour:minute UTC;
/// `None` for a time beyond what the calendar of `chrono` reaches.
pub uninterp spec fn minute_stamp(seconds: int) -> Option<Seq<char>>;

/// `str::trim`: the text between the leading and the trailing whitespace.
#[verifier::external_body]
pub(crate) fn trim(text: &str) -> (inner: &str)
    ensures
        inner@ == trimmed(text@),
{
    text.trim()
}

/// `chrono::DateTime::format` with `%Y-%m-%d %H:%M UTC`, on the time that
/// `DateTime::from_timestamp` makes of `seconds` since 1970. The text depends
/// on `seconds` alone; there is none where `from_timestamp` has no time to
/// give.
#[verifier::external_body]
pub(crate) fn format_minute(seconds: i64) -> (stamp: Option<String>)
    ensures
        match stamp {
            Some(text) => minute_stamp(seconds as int) == Some(text@),
            None => minute_stamp(seconds as int) is None,
        },
{
    match chrono::DateTime::from_timestamp(seconds, 0) {
        Some(at) => Some(at.format("%Y-%m-%d %H:%M UTC").to_string()),
        None => None,
    }
}

/// Whether `text` holds nothing but whitespace.
pub open spec fn blank(text: Seq<char>) -> bool {
    trimmed(text).len() == 0
}

/// Keeps `text` unless it is `blank`, in which case the error says `missing`.
pub fn accept_unless_blank(text: String, blank: bool, missing: &str) -> (checked: Result<
    String,
    BotError,
>)
    ensures
        checked is Ok <==> !blank,
        checked matches Ok(kept) ==> kept == text,
        checked matches Err(error) ==> error@ == missing@,
{
    if blank {
        Err(BotError::new(missing))
    } else {
        Ok(text)
    }
}

/// A field of a suggestion that must be filled in: the value, unless it is
/// missing or holds nothing but whitespace, in which case the error says
/// `missing`.
pub fn required_text(value: Option<String>, missing: &str) -> (checked: Result<String, BotError>)
    ensures
        checked is Ok <==> value is Some && !blank(value->0@),
        checked matches Ok(text) ==> value == Some(text),
        checked matches Err(error) ==> error@ == missing@,
{
    match value {
        Some(text) => {
            let blank = trim(text.as_str()).is_empty();
            accept_unless_blank(text, blank, missing)
        },
        None => Err(BotError::new(missing)),
    }
}

/// `limit`, raised to 1 or lowered to `most` where it lies outside.
pub open spec fn clamped(limit: int, most: int) -> int {
    if limit < 1 {
        1
    } else if limit > most {
        most
    } else {
        limit
    }
}

/// The number of latest suggestions that a user may ask for: what was asked
/// for, kept between 1 and 50.
pub fn latest_limit(requested: Option<i32>) -> (limit: Option<i32>)
    ensures
        limit == (match requested {
            Some(asked) => Some(clamped(asked as int, LATEST_LIMIT as int) as i32),
            None => None,
        }),
{
    match requested {
        Some(asked) => Some(
            if asked < 1 {
                1
            } else if asked > LATEST_LIMIT {
                LATEST_LIMIT
            } else {
                asked
            },
        ),
        None => None,
    }
}

/// The number of one's own suggestions that a user may ask for: what was
/// asked for, kept between 1 and 20.
pub fn own_limit(requested: Option<i32>) -> (limit: Option<i32>)
    ensures
        limit == (match requested {
            Some(asked) => Some(clamped(asked as int, OWN_LIMIT_MAX as int) as i32),
            None => None,
        }),
{
    match requested {
        Some(asked) => Some(
            if asked < 1 {
                1
            } else if asked > OWN_LIMIT_MAX {
                OWN_LIMIT_MAX
            } else {
                asked
            },
        ),
        None => None,
    }
}

/// How many of the latest suggestions to fetch: `limit`, and 50 where there
/// is none.
pub fn latest_count(limit: Option<i32>) -> (count: i32)
    ensures
        count == (match limit {
            Some(given) => given,
            None => LATEST_LIMIT,
        }),
{
    match limit {
        Some(given) => given,
        None => LATEST_LIMIT,
    }
}

/// How many of one's own suggestions to fetch: `limit`, and 10 where there
/// is none.
pub fn own_count(limit: Option<i32>) -> (count: i32)
    ensures
        count == (match limit {
            Some(given) => given,
            None => OWN_LIMIT_DEFAULT,
        }),
{
    match limit {
        Some(given) => given,
        None => OWN_LIMIT_DEFAULT,
    }
}

/// A song that somebody suggested.
#[derive(Debug)]
pub struct SongSuggestion {
    pub id: i64,
    pub song_name: String,
    pub artist: String,
    pub suggested_by_id: String,
    pub suggested_by_name: String,
    /// When it was suggested, in seconds since 1970.
    pub created_at: i64,
}

/// A game that somebody suggested.
#[derive(Debug)]
pub struct GameSuggestion {
    pub id: i64,
    pub game_name: String,
    pub developer: String,
    pub suggested_by_id: String,
    pub suggested_by_name: String,
    /// When it was suggested, in seconds since 1970.
    pub created_at: i64,
}

/// What is suggested.
#[derive(Clone, Copy, Debug, PartialEq, Eq, Structural)]
pub enum Kind {
    Song,
    Game,
}

/// The mathematical value of a suggestion of either kind: what is suggested
/// (`title`), who made it (`maker`: the artist or the developer), and who
/// suggested it when.
pub ghost struct SuggestionView {
    pub id: int,
    pub title: Seq<char>,
    pub maker: Seq<char>,
    pub suggested_by_id: Seq<char>,
    pub suggested_by_name: Seq<char>,
    pub created_at: int,
}

impl View for SongSuggestion {
    type V = SuggestionView;

    open spec fn view(&self) -> SuggestionView {
        SuggestionView {
            id: self.id as int,
            title: self.song_name@,
            maker: self.artist@,
            suggested_by_id: self.suggested_by_id@,
            suggested_by_name: self.suggested_by_name@,
            created_at: self.created_at as int,
        }
    }
}

impl DeepView for SongSuggestion {
    type V = SuggestionView;

    open spec fn deep_view(&self) -> SuggestionView {
        self@
    }
}

impl View for GameSuggestion {
    type V = SuggestionView;

    open spec fn view(&self) -> SuggestionView {
        SuggestionView {
            id: self.id as int,
            title: self.game_name@,
            maker: self.developer@,
            suggested_by_id: self.suggested_by_id@,
            suggested_by_name: self.suggested_by_name@,
            created_at: self.created_at as int,
        }
    }
}

impl DeepView for GameSuggestion {
    type V = SuggestionView;

    open spec fn deep_view(&self) -> SuggestionView {
        self@
    }
}

/// The reply to a suggestion that was saved under `id`.
pub open spec fn saved_text(
    kind: Kind,
    id: int,
    title: Seq<char>,
    maker: Seq<char>,
    suggested_by: Seq<char>,
) -> Seq<char> {
    match kind {
        Kind::Song => "**Song Suggestion #"@ + signed_decimal(id) + "** \n**Song:** "@ + title
            + "\n**Artist:** "@ + maker + "\n**Suggested by:** "@ + suggested_by,
        Kind::Game => "**Game Suggestion #"@ + signed_decimal(id) + "** \n**Game:** "@ + title
            + "\n**Developer:** "@ + maker + "\n**Suggested by:** "@ + suggested_by,
    }
}

/// The reply to a request to delete the suggestion `id`.
pub open spec fn deleted_text(deleted: bool, id: int) -> Seq<char> {
    if deleted {
        "Successfully deleted suggestion #"@ + signed_decimal(id)
    } else {
        "Suggestion not found or you don't have permission to delete it."@
    }
}

/// The reply where there is nothing to list.
pub open spec fn none_latest_text(kind: Kind) -> Seq<char> {
    match kind {
        Kind::Song => "No song suggestions found! Be the first to suggest a song with `/suggest song`."@,
        Kind::Game => "No game suggestions found! Be the first to suggest a game with `/suggest game`."@,
    }
}

/// The reply where the user has nothing to list.
pub open spec fn none_own_text(kind: Kind) -> Seq<char> {
    match kind {
        Kind::Song => "You haven't suggested any songs yet! Use `/suggest song` to add your first suggestion."@,
        Kind::Game => "You haven't suggested any games yet! Use `/suggest game` to add your first suggestion."@,
    }
}

/// The heading of a listing of the latest `count` suggestions.
pub open spec fn latest_heading(kind: Kind, count: nat) -> Seq<char> {
    match kind {
        Kind::Song => "**Latest "@ + decimal(count) + " Song Suggestions** 🎵\n\n"@,
        Kind::Game => "**Latest "@ + decimal(count) + " Game Suggestions**\n\n"@,
    }
}

/// The heading of a listing of the user's own `count` suggestions.
pub open spec fn own_heading(kind: Kind, count: nat) -> Seq<char> {
    match kind {
        Kind::Song => "**Your "@ + decimal(count) + " Song Suggestions** 🎵\n\n"@,
        Kind::Game => "**Your "@ + decimal(count) + " Game Suggestions**\n\n"@,
    }
}

/// What stands between a title and its maker.
pub open spec fn joiner(kind: Kind) -> Seq<char> {
    match kind {
        Kind::Song => "** by "@,
        Kind::Game => "** developed by "@,
    }
}

/// The entry numbered `number` of a listing of the latest suggestions.
pub open spec fn latest_entry(
    kind: Kind,
    number: nat,
    title: Seq<char>,
    maker: Seq<char>,
    suggested_by: Seq<char>,
    id: int,
) -> Seq<char> {
    "**"@ + decimal(number) + ". "@ + title + joiner(kind) + maker + "\n   *Suggested by "@
        + suggested_by + " (ID: "@ + signed_decimal(id) + ")*\n\n"@
}

/// The entry numbered `number` of a listing of one's own suggestions, made
/// on `stamp`.
pub open spec fn own_entry(
    kind: Kind,
    number: nat,
    title: Seq<char>,
    maker: Seq<char>,
    stamp: Seq<char>,
    id: int,
) -> Seq<char> {
    "**"@ + decimal(number) + ". "@ + title + joiner(kind) + maker + "\n   *Suggested on "@
        + stamp + " (ID: "@ + signed_decimal(id) + ")*\n\n"@
}

/// The first `count` entries of a listing of the latest suggestions.
pub open spec fn latest_entries(kind: Kind, entries: Seq<SuggestionView>, count: nat) -> Seq<char>
    decreases count,
{
    if count == 0 {
        Seq::empty()
    } else {
        latest_entries(kind, entries, (count - 1) as nat) + latest_entry(
            kind,
            count,
            entries[count - 1].title,
            entries[count - 1].maker,
            entries[count - 1].suggested_by_name,
            entries[count - 1].id,
        )
    }
}

/// The first `count` entries of a listing of one's own suggestions; `None`
/// where the time of one of them cannot be written.
pub open spec fn own_entries(kind: Kind, entries: Seq<SuggestionView>, count: nat) -> Option<
    Seq<char>,
>
    decreases count,
{
    if count == 0 {
        Some(Seq::empty())
    } else {
        match (
            own_entries(kind, entries, (count - 1) as nat),
            minute_stamp(entries[count - 1].created_at),
        ) {
            (Some(before), Some(stamp)) => Some(
                before + own_entry(
                    kind,
                    count,
                    entries[count - 1].title,
                    entries[count - 1].maker,
                    stamp,
                    entries[count - 1].id,
                ),
            ),
            _ => None,
        }
    }
}

/// The closing line that says how many suggestions a listing left out.
pub open spec fn more_text(left_out: nat) -> Seq<char> {
    "*... and "@ + decimal(left_out) + " more suggestions*"@
}

/// The listing of the latest suggestions: the heading with their number, the
/// first ten of them, and how many were left out if there are more.
pub open spec fn latest_text(kind: Kind, entries: Seq<SuggestionView>) -> Seq<char> {
    if entries.len() == 0 {
        none_latest_text(kind)
    } else if entries.len() > LATEST_SHOWN {
        latest_heading(kind, entries.len()) + latest_entries(kind, entries, LATEST_SHOWN as nat)
            + more_text((entries.len() - LATEST_SHOWN) as nat)
    } else {
        latest_heading(kind, entries.len()) + latest_entries(kind, entries, entries.len())
    }
}

/// The listing of one's own suggestions: the heading with their number, and
/// all of them with the time they were made.
pub open spec fn own_text(kind: Kind, entries: Seq<SuggestionView>) -> Option<Seq<char>> {
    if entries.len() == 0 {
        Some(none_own_text(kind))
    } else {
        match own_entries(kind, entries, entries.len()) {
            Some(lines) => Some(own_heading(kind, entries.len()) + lines),
            None => None,
        }
    }
}

/// Once the time of an entry cannot be written, no longer listing can be.
pub proof fn own_entries_stay_none(
    kind: Kind,
    entries: Seq<SuggestionView>,
    count: nat,
    more: nat,
)
    requires
        own_entries(kind, entries, count) is None,
        count <= more,
    ensures
        own_entries(kind, entries, more) is None,
    decreases more,
{
    if count < more {
        own_entries_stay_none(kind, entries, count, (more - 1) as nat);
    }
}

/// What stands between a title and its maker.
fn joiner_text(kind: Kind) -> (text: &'static str)
    ensures
        text@ == joiner(kind),
{
    match kind {
        Kind::Song => "** by ",
        Kind::Game => "** developed by ",
    }
}

/// Writes the opening of an entry, up to and with the maker.
fn push_entry_opening(reply: &mut String, kind: Kind, number: usize, title: &str, maker: &str)
    ensures
        final(reply)@ == old(reply)@ + "**"@ + decimal(number as nat) + ". "@ + title@ + joiner(
            kind,
        ) + maker@,
{
    reply.append("**");
    reply.append(decimal_text(number as u64).as_str());
    reply.append(". ");
    reply.append(title);
    reply.append(joiner_text(kind));
    reply.append(maker);
}

/// Writes the entry numbered `number` of a listing of the latest
/// suggestions behind `reply`.
pub fn push_latest_entry(
    reply: &mut String,
    kind: Kind,
    number: usize,
    title: &str,
    maker: &str,
    suggested_by: &str,
    id: i64,
)
    ensures
        final(reply)@ == old(reply)@ + latest_entry(
            kind,
            number as nat,
            title@,
            maker@,
            suggested_by@,
            id as int,
        ),
{
    push_entry_opening(reply, kind, number, title, maker);
    reply.append("\n   *Suggested by ");
    reply.append(suggested_by);
    reply.append(" (ID: ");
    reply.append(signed_decimal_text(id).as_str());
    reply.append(")*\n\n");
    assert(reply@ =~= old(reply)@ + latest_entry(
        kind,
        number as nat,
        title@,
        maker@,
        suggested_by@,
        id as int,
    ));
}

/// Writes the entry numbered `number` of a listing of one's own
/// suggestions, made on `stamp`, behind `reply`.
pub fn push_own_entry(
    reply: &mut String,
    kind: Kind,
    number: usize,
    title: &str,
    maker: &str,
    stamp: &str,
    id: i64,
)
    ensures
        final(reply)@ == old(reply)@ + own_entry(
            kind,
            number as nat,
            title@,
            maker@,
            stamp@,
            id as int,
        ),
{
    push_entry_opening(reply, kind, number, title, maker);
    reply.append("\n   *Suggested on ");
    reply.append(stamp);
    reply.append(" (ID: ");
    reply.append(signed_decimal_text(id).as_str());
    reply.append(")*\n\n");
    assert(reply@ =~= old(reply)@ + own_entry(
        kind,
        number as nat,
        title@,
        maker@,
        stamp@,
        id as int,
    ));
}

/// Writes the heading of a listing of the latest suggestions.
fn latest_heading_text(kind: Kind, count: usize) -> (text: String)
    ensures
        text@ == latest_heading(kind, count as nat),
{
    let mut text = String::from_str("**Latest ");
    text.append(decimal_text(count as u64).as_str());
    match kind {
        Kind::Song => text.append(" Song Suggestions** 🎵\n\n"),
        Kind::Game => text.append(" Game Suggestions**\n\n"),
    }
    text
}

/// Writes the heading of a listing of one's own suggestions.
fn own_heading_text(kind: Kind, count: usize) -> (text: String)
    ensures
        text@ == own_heading(kind, count as nat),
{
    let mut text = String::from_str("**Your ");
    text.append(decimal_text(count as u64).as_str());
    match kind {
        Kind::Song => text.append(" Song Suggestions** 🎵\n\n"),
        Kind::Game => text.append(" Game Suggestions**\n\n"),
    }
    text
}

/// Writes the closing line of a listing that left `left_out` suggestions out.
fn push_more(reply: &mut String, left_out: usize)
    ensures
        final(reply)@ == old(reply)@ + more_text(left_out as nat),
{
    reply.append("*... and ");
    reply.append(decimal_text(left_out as u64).as_str());
    reply.append(" more suggestions*");
    assert(reply@ =~= old(reply)@ + more_text(left_out as nat));
}

/// The reply to a song suggestion that was saved under `id`.
pub fn song_saved_reply(id: i64, song_name: &str, artist: &str, suggested_by: &str) -> (reply:
    String)
    ensures
        reply@ == saved_text(Kind::Song, id as int, song_name@, artist@, suggested_by@),
{
    let mut reply = String::from_str("**Song Suggestion #");
    reply.append(signed_decimal_text(id).as_str());
    reply.append("** \n**Song:** ");
    reply.append(song_name);
    reply.append("\n**Artist:** ");
    reply.append(artist);
    reply.append("\n**Suggested by:** ");
    reply.append(suggested_by);
    reply
}

/// The reply to a game suggestion that was saved under `id`.
pub fn game_saved_reply(id: i64, game_name: &str, developer: &str, suggested_by: &str) -> (reply:
    String)
    ensures
        reply@ == saved_text(Kind::Game, id as int, game_name@, developer@, suggested_by@),
{
    let mut reply = String::from_str("**Game Suggestion #");
    reply.append(signed_decimal_text(id).as_str());
    reply.append("** \n**Game:** ");
    reply.append(game_name);
    reply.append("\n**Developer:** ");
    reply.append(developer);
    reply.append("\n**Suggested by:** ");
    reply.append(suggested_by);
    reply
}

/// The reply to a request to delete the suggestion `id`, which either
/// removed it or found nothing that the user may remove.
pub fn deleted_reply(deleted: bool, id: i64) -> (reply: String)
    ensures
        reply@ == deleted_text(deleted, id as int),
{
    if deleted {
        let mut reply = String::from_str("Successfully deleted suggestion #");
        reply.append(signed_decimal_text(id).as_str());
        reply
    } else {
        String::from_str("Suggestion not found or you don't have permission to delete it.")
    }
}

/// The listing of the latest song suggestions.
pub fn latest_songs_reply(suggestions: &Vec<SongSuggestion>) -> (reply: String)
    ensures
        reply@ == latest_text(Kind::Song, suggestions.deep_view()),
{
    let ghost entries = suggestions.deep_view();
    let count: usize = suggestions.len();
    if count == 0 {
        return String::from_str(
            "No song suggestions found! Be the first to suggest a song with `/suggest song`.",
        );
    }
    let shown: usize = if count > LATEST_SHOWN {
        LATEST_SHOWN
    } else {
        count
    };
    let mut reply = latest_heading_text(Kind::Song, count);
    let mut i: usize = 0;
    while i < shown
        invariant
            i <= shown <= count,
            count == suggestions.len(),
            entries == suggestions.deep_view(),
            reply@ == latest_heading(Kind::Song, count as nat) + latest_entries(
                Kind::Song,
                entries,
                i as nat,
            ),
        decreases shown - i,
    {
        let suggestion = &suggestions[i];
        assert(entries[i as int] == suggestion@);
        push_latest_entry(
            &mut reply,
            Kind::Song,
            i + 1,
            suggestion.song_name.as_str(),
            suggestion.artist.as_str(),
            suggestion.suggested_by_name.as_str(),
            suggestion.id,
        );
        i = i + 1;
        assert(reply@ =~= latest_heading(Kind::Song, count as nat) + latest_entries(
            Kind::Song,
            entries,
            i as nat,
        ));
    }
    if count > LATEST_SHOWN {
        push_more(&mut reply, count - LATEST_SHOWN);
    }
    reply
}

/// The listing of the latest game suggestions.
pub fn latest_games_reply(suggestions: &Vec<GameSuggestion>) -> (reply: String)
    ensures
        reply@ == latest_text(Kind::Game, suggestions.deep_view()),
{
    let ghost entries = suggestions.deep_view();
    let count: usize = suggestions.len();
    if count == 0 {
        return String::from_str(
            "No game suggestions found! Be the first to suggest a game with `/suggest game`.",
        );
    }
    let shown: usize = if count > LATEST_SHOWN {
        LATEST_SHOWN
    } else {
        count
    };
    let mut reply = latest_heading_text(Kind::Game, count);
    let mut i: usize = 0;
    while i < shown
        invariant
            i <= shown <= count,
            count == suggestions.len(),
            entries == suggestions.deep_view(),
            reply@ == latest_heading(Kind::Game, count as nat) + latest_entries(
                Kind::Game,
                entries,
                i as nat,
            ),
        decreases shown - i,
    {
        let suggestion = &suggestions[i];
        assert(entries[i as int] == suggestion@);
        push_latest_entry(
            &mut reply,
            Kind::Game,
            i + 1,
            suggestion.game_name.as_str(),
            suggestion.developer.as_str(),
            suggestion.suggested_by_name.as_str(),
            suggestion.id,
        );
        i = i + 1;
        assert(reply@ =~= latest_heading(Kind::Game, count as nat) + latest_entries(
            Kind::Game,
            entries,
            i as nat,
        ));
    }
    if count > LATEST_SHOWN {
        push_more(&mut reply, count - LATEST_SHOWN);
    }
    reply
}

/// The listing of the user's own song suggestions; `None` where the time of
/// one of them lies beyond what can be written as a date.
pub fn own_songs_reply(suggestions: &Vec<SongSuggestion>) -> (reply: Option<String>)
    ensures
        match reply {
            Some(text) => own_text(Kind::Song, suggestions.deep_view()) == Some(text@),
            None => own_text(Kind::Song, suggestions.deep_view()) is None,
        },
{
    let ghost entries = suggestions.deep_view();
    let count: usize = suggestions.len();
    if count == 0 {
        return Some(
            String::from_str(
                "You haven't suggested any songs yet! Use `/suggest song` to add your first suggestion.",
            ),
        );
    }
    let mut lines = String::new();
    let mut i: usize = 0;
    while i < count
        invariant
            i <= count,
            count == suggestions.len(),
            entries == suggestions.deep_view(),
            own_entries(Kind::Song, entries, i as nat) == Some(lines@),
        decreases count - i,
    {
        let suggestion = &suggestions[i];
        assert(entries[i as int] == suggestion@);
        match format_minute(suggestion.created_at) {
            Some(stamp) => {
                push_own_entry(
                    &mut lines,
                    Kind::Song,
                    i + 1,
                    suggestion.song_name.as_str(),
                    suggestion.artist.as_str(),
                    stamp.as_str(),
                    suggestion.id,
                );
            },
            None => {
                proof {
                    own_entries_stay_none(Kind::Song, entries, (i + 1) as nat, count as nat);
                }
                return None;
            },
        }
        i = i + 1;
    }
    let mut reply = own_heading_text(Kind::Song, count);
    reply.append(lines.as_str());
    Some(reply)
}

/// The listing of the user's own game suggestions; `None` where the time of
/// one of them lies beyond what can be written as a date.
pub fn own_games_reply(suggestions: &Vec<GameSuggestion>) -> (reply: Option<String>)
    ensures
        match reply {
            Some(text) => own_text(Kind::Game, suggestions.deep_view()) == Some(text@),
            None => own_text(Kind::Game, suggestions.deep_view()) is None,
        },
{
    let ghost entries = suggestions.deep_view();
    let count: usize = suggestions.len();
    if count == 0 {
        return Some(
            String::from_str(
                "You haven't suggested any games yet! Use `/suggest game` to add your first suggestion.",
            ),
        );
    }
    let mut lines = String::new();
    let mut i: usize = 0;
    while i < count
        invariant
            i <= count,
            count == suggestions.len(),
            entries == suggestions.deep_view(),
            own_entries(Kind::Game, entries, i as nat) == Some(lines@),
        decreases count - i,
    {
        let suggestion = &suggestions[i];
        assert(entries[i as int] == suggestion@);
        match format_minute(suggestion.created_at) {
            Some(stamp) => {
                push_own_entry(
                    &mut lines,
                    Kind::Game,
                    i + 1,
                    suggestion.game_name.as_str(),
                    suggestion.developer.as_str(),
                    stamp.as_str(),
                    suggestion.id,
                );
            },
            None => {
                proof {
                    own_entries_stay_none(Kind::Game, entries, (i + 1) as nat, count as nat);
                }
                return None;
            },
        }
        i = i + 1;
    }
    let mut reply = own_heading_text(Kind::Game, count);
    reply.append(lines.as_str());
    Some(reply)
}

} // verus!
