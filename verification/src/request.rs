//! What a purge is asked to do, and the checks it must pass before any
//! message is read.

use crate::error::BotError;
use crate::pattern::{compile, pattern_of};
use regex::Regex;
use vstd::prelude::*;
use vstd::string::StringExecFns;

verus! {

/// The window, in minutes, of a request that names none.
pub const DEFAULT_DURATION_MINUTES: i64 = 60;

/// The longest window, in minutes, that a purge may look back over: one week.
pub const MAX_DURATION_MINUTES: i64 = 10080;

/// The permission bit that allows deleting other people's messages.
pub const MANAGE_MESSAGES: u64 = 0x2000;

/// Whether `minutes` is a window that a purge accepts.
pub open spec fn duration_in_range(minutes: int) -> bool {
    1 <= minutes <= MAX_DURATION_MINUTES
}

/// The window that a request asks for, in minutes.
pub open spec fn requested_duration(duration_minutes: Option<i64>) -> int {
    match duration_minutes {
        Some(minutes) => minutes as int,
        None => DEFAULT_DURATION_MINUTES as int,
    }
}

/// Whether the permission set `permissions` holds the right to manage messages.
pub open spec fn can_manage_messages(permissions: u64) -> bool {
    permissions & MANAGE_MESSAGES == MANAGE_MESSAGES
}

/// Whether someone with these permissions in a guild, or outside any guild
/// (`None`), may purge.
pub open spec fn permitted(guild_permissions: Option<u64>) -> bool {
    match guild_permissions {
        Some(permissions) => can_manage_messages(permissions),
        None => true,
    }
}

/// What a user without the permission is told.
pub open spec fn permission_error_text() -> Seq<char> {
    "You need the 'Manage Messages' permission to use this command"@
}

/// What a user who asks for a window out of range is told.
pub open spec fn duration_error_text() -> Seq<char> {
    "Duration must be between 1 minute and 1 week (10080 minutes)"@
}

/// What a user whose pattern does not compile is told, given the compiler's
/// own message.
pub open spec fn pattern_error_text(detail: Seq<char>) -> Seq<char> {
    "Invalid regex pattern: "@ + detail
}

/// The accepted windows are those from one minute to one week: zero, every
/// negative number and everything above 10080 are out; 1 and 10080 are in.
pub proof fn duration_bounds(minutes: int)
    ensures
        duration_in_range(minutes) <==> 1 <= minutes <= 10080,
        !duration_in_range(0),
        minutes < 0 ==> !duration_in_range(minutes),
        minutes > 10080 ==> !duration_in_range(minutes),
        duration_in_range(1),
        duration_in_range(10080),
{
}

/// Tells whether `permissions` holds the right to manage messages.
pub fn has_manage_messages(permissions: u64) -> (held: bool)
    ensures
        held == can_manage_messages(permissions),
{
    permissions & MANAGE_MESSAGES == MANAGE_MESSAGES
}

/// Refuses an invoker who is in a guild and lacks the right to manage
/// messages there.
pub fn authorize(guild_permissions: Option<u64>) -> (verdict: Result<(), BotError>)
    ensures
        verdict is Ok <==> permitted(guild_permissions),
        verdict matches Err(error) ==> error@ == permission_error_text(),
{
    match guild_permissions {
        Some(permissions) => {
            if has_manage_messages(permissions) {
                Ok(())
            } else {
                Err(BotError::new("You need the 'Manage Messages' permission to use this command"))
            }
        },
        None => Ok(()),
    }
}

/// The window of a request in minutes, 60 where none is named; refused unless
/// it lies between one minute and one week.
pub fn resolve_duration(duration_minutes: Option<i64>) -> (resolved: Result<i64, BotError>)
    ensures
        resolved is Ok <==> duration_in_range(requested_duration(duration_minutes)),
        resolved matches Ok(minutes) ==> minutes == requested_duration(duration_minutes),
        resolved matches Err(error) ==> error@ == duration_error_text(),
{
    let minutes: i64 = match duration_minutes {
        Some(minutes) => minutes,
        None => DEFAULT_DURATION_MINUTES,
    };
    if minutes <= 0 || minutes > MAX_DURATION_MINUTES {
        Err(BotError::new("Duration must be between 1 minute and 1 week (10080 minutes)"))
    } else {
        Ok(minutes)
    }
}

/// The channel that a request aims at: the one it names, else the one it was
/// invoked in.
pub fn resolve_channel(channel: Option<u64>, invoked_in: u64) -> (target: u64)
    ensures
        target == (match channel {
            Some(named) => named,
            None => invoked_in,
        }),
{
    match channel {
        Some(named) => named,
        None => invoked_in,
    }
}

/// A purge request that passed validation.
pub struct PurgeRequest {
    regex: Regex,
    channel: u64,
    duration_minutes: i64,
}

impl PurgeRequest {
    /// The compiled pattern of the request.
    pub closed spec fn matcher(&self) -> Regex {
        self.regex
    }

    /// The pattern text of the request, as the user wrote it.
    pub open spec fn pattern(&self) -> Seq<char> {
        pattern_of(self.matcher())
    }

    /// The channel to purge.
    pub closed spec fn target(&self) -> u64 {
        self.channel
    }

    /// The window in minutes.
    pub closed spec fn minutes(&self) -> int {
        self.duration_minutes as int
    }

    /// A request is valid when its window is in range.
    pub open spec fn wf(&self) -> bool {
        duration_in_range(self.minutes())
    }

    /// Builds the request from an attempt at compiling its pattern (the
    /// compiled expression, or the compiler's message). The window is checked
    /// first: out of range, it is what the error reports, whether or not the
    /// pattern compiled.
    pub fn from_compiled(
        compiled: Result<Regex, String>,
        channel: u64,
        duration_minutes: Option<i64>,
    ) -> (outcome: Result<Self, BotError>)
        ensures
            outcome is Ok <==> duration_in_range(requested_duration(duration_minutes))
                && compiled is Ok,
            outcome matches Ok(request) ==> {
                &&& request.wf()
                &&& request.matcher() == compiled->Ok_0
                &&& request.target() == channel
                &&& request.minutes() == requested_duration(duration_minutes)
            },
            outcome matches Err(error) ==> error@ == (if !duration_in_range(
                requested_duration(duration_minutes),
            ) {
                duration_error_text()
            } else {
                pattern_error_text(compiled->Err_0@)
            }),
    {
        let minutes: i64 = match resolve_duration(duration_minutes) {
            Ok(minutes) => minutes,
            Err(error) => {
                return Err(error);
            },
        };
        match compiled {
            Ok(regex) => Ok(PurgeRequest { regex, channel, duration_minutes: minutes }),
            Err(detail) => {
                let text = String::from_str("Invalid regex pattern: ").concat(detail.as_str());
                Err(BotError::new(text.as_str()))
            },
        }
    }

    /// Validates a request for `pattern` over the last `duration_minutes`
    /// minutes (60 where none is named) of `channel`. A window out of range is
    /// refused before the pattern is looked at. Whether a pattern compiles is
    /// for the `regex` crate to say; if it does not, the error carries its
    /// message.
    pub fn new(pattern: &str, channel: u64, duration_minutes: Option<i64>) -> (outcome: Result<
        Self,
        BotError,
    >)
        ensures
            !duration_in_range(requested_duration(duration_minutes)) ==> outcome is Err,
            outcome matches Ok(request) ==> {
                &&& request.wf()
                &&& request.pattern() == pattern@
                &&& request.target() == channel
                &&& request.minutes() == requested_duration(duration_minutes)
            },
            outcome matches Err(error) ==> (if !duration_in_range(
                requested_duration(duration_minutes),
            ) {
                error@ == duration_error_text()
            } else {
                exists|detail: Seq<char>| error@ == pattern_error_text(detail)
            }),
    {
        match resolve_duration(duration_minutes) {
            Ok(_) => {},
            Err(error) => {
                return Err(error);
            },
        }
        Self::from_compiled(compile(pattern), channel, duration_minutes)
    }

    /// The pattern as the user wrote it.
    pub fn pattern_text(&self) -> (text: &str)
        ensures
            text@ == self.pattern(),
    {
        self.regex.as_str()
    }

    /// The compiled pattern.
    pub fn regex(&self) -> (regex: &Regex)
        ensures
            *regex == self.matcher(),
    {
        &self.regex
    }

    /// The channel to purge.
    pub fn channel(&self) -> (channel: u64)
        ensures
            channel == self.target(),
    {
        self.channel
    }

    /// The window in minutes.
    pub fn duration_minutes(&self) -> (minutes: i64)
        ensures
            minutes == self.minutes(),
    {
        self.duration_minutes
    }
}

} // verus!
