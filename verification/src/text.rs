//! The texts that a purge shows to the person who asked for it.

use vstd::prelude::*;
use vstd::string::StringExecFns;

verus! {

/// The character of the decimal digit `d`.
pub open spec fn digit_char(d: nat) -> char {
    if d == 0 {
        '0'
    } else if d == 1 {
        '1'
    } else if d == 2 {
        '2'
    } else if d == 3 {
        '3'
    } else if d == 4 {
        '4'
    } else if d == 5 {
        '5'
    } else if d == 6 {
        '6'
    } else if d == 7 {
        '7'
    } else if d == 8 {
        '8'
    } else {
        '9'
    }
}

/// `n` written in decimal, without leading zeros.
pub open spec fn decimal(n: nat) -> Seq<char>
    decreases n,
{
    if n < 10 {
        seq![digit_char(n)]
    } else {
        decimal(n / 10).push(digit_char(n % 10))
    }
}

/// The integer `n` written in decimal, with a minus sign in front of a
/// negative one.
pub open spec fn signed_decimal(n: int) -> Seq<char> {
    if n < 0 {
        "-"@ + decimal((-n) as nat)
    } else {
        decimal(n as nat)
    }
}

/// The acknowledgement shown before the scan begins.
pub open spec fn starting_text() -> Seq<char> {
    "Starting the purge..."@
}

/// The snapshot shown while scanning.
pub open spec fn scanning_text(checked: nat, found: nat) -> Seq<char> {
    "Scanning messages... Checked: "@ + decimal(checked) + ", Found: "@ + decimal(found)
}

/// The notice shown when the deletions begin.
pub open spec fn deleting_text(count: nat) -> Seq<char> {
    "Deleting "@ + decimal(count) + " messages..."@
}

/// The progress shown during single deletes.
pub open spec fn progress_text(attempted: nat, total: nat) -> Seq<char> {
    "Deleting messages... Progress: "@ + decimal(attempted) + "/"@ + decimal(total)
}

/// The summary of a purge that found nothing to delete.
pub open spec fn no_matches_text(checked: nat, pattern: Seq<char>) -> Seq<char> {
    "Purge completed! No messages matched the pattern.\n**Checked:** "@ + decimal(checked)
        + " messages\n**Pattern:** `"@ + pattern + "`"@
}

/// The summary of a purge whose deletions all succeeded.
pub open spec fn success_text(
    deleted: nat,
    checked: nat,
    pattern: Seq<char>,
    minutes: nat,
) -> Seq<char> {
    "Purge completed successfully!\n**Deleted:** "@ + decimal(deleted) + "\n**Total checked:** "@
        + decimal(checked) + "\n**Pattern:** `"@ + pattern + "`\n**Duration:** "@ + decimal(
        minutes,
    ) + " minutes"@
}

/// The summary of a purge some of whose deletions failed.
pub open spec fn failures_text(
    deleted: nat,
    failed: nat,
    checked: nat,
    pattern: Seq<char>,
    minutes: nat,
) -> Seq<char> {
    "Purge completed with some failures!\n**Deleted:** "@ + decimal(deleted) + "\n**Failed:** "@
        + decimal(failed) + "\n**Total checked:** "@ + decimal(checked) + "\n**Pattern:** `"@
        + pattern + "`\n**Duration:** "@ + decimal(minutes) + " minutes"@
}

/// The one-character text of the digit `d`.
fn digit_text(d: u64) -> (text: &'static str)
    requires
        d < 10,
    ensures
        text@ == seq![digit_char(d as nat)],
{
    proof {
        reveal_strlit("0");
        reveal_strlit("1");
        reveal_strlit("2");
        reveal_strlit("3");
        reveal_strlit("4");
        reveal_strlit("5");
        reveal_strlit("6");
        reveal_strlit("7");
        reveal_strlit("8");
        reveal_strlit("9");
    }
    let text = if d == 0 {
        "0"
    } else if d == 1 {
        "1"
    } else if d == 2 {
        "2"
    } else if d == 3 {
        "3"
    } else if d == 4 {
        "4"
    } else if d == 5 {
        "5"
    } else if d == 6 {
        "6"
    } else if d == 7 {
        "7"
    } else if d == 8 {
        "8"
    } else {
        "9"
    };
    assert(text@ =~= seq![digit_char(d as nat)]);
    text
}

/// Writes `n` in decimal.
pub fn decimal_text(n: u64) -> (text: String)
    ensures
        text@ == decimal(n as nat),
    decreases n,
{
    if n < 10 {
        String::from_str(digit_text(n))
    } else {
        let mut text = decimal_text(n / 10);
        text.append(digit_text(n % 10));
        assert(text@ =~= decimal((n / 10) as nat).push(digit_char((n % 10) as nat)));
        text
    }
}

/// Writes `n` in decimal, with a minus sign in front of a negative one.
pub fn signed_decimal_text(n: i64) -> (text: String)
    ensures
        text@ == signed_decimal(n as int),
{
    if n < 0 {
        let magnitude: u64 = (-(n as i128)) as u64;
        let mut text = String::from_str("-");
        text.append(decimal_text(magnitude).as_str());
        text
    } else {
        decimal_text(n as u64)
    }
}

/// The acknowledgement shown before the scan begins.
pub fn starting_message() -> (text: String)
    ensures
        text@ == starting_text(),
{
    String::from_str("Starting the purge...")
}

/// The snapshot shown while scanning.
pub fn scanning_message(checked: u64, found: usize) -> (text: String)
    ensures
        text@ == scanning_text(checked as nat, found as nat),
{
    let mut text = String::from_str("Scanning messages... Checked: ");
    text.append(decimal_text(checked).as_str());
    text.append(", Found: ");
    text.append(decimal_text(found as u64).as_str());
    text
}

/// The notice shown when the deletions begin.
pub fn deleting_message(count: usize) -> (text: String)
    ensures
        text@ == deleting_text(count as nat),
{
    let mut text = String::from_str("Deleting ");
    text.append(decimal_text(count as u64).as_str());
    text.append(" messages...");
    text
}

/// The progress shown during single deletes.
pub fn progress_message(attempted: usize, total: usize) -> (text: String)
    ensures
        text@ == progress_text(attempted as nat, total as nat),
{
    let mut text = String::from_str("Deleting messages... Progress: ");
    text.append(decimal_text(attempted as u64).as_str());
    text.append("/");
    text.append(decimal_text(total as u64).as_str());
    text
}

/// The summary of a purge that found nothing to delete.
pub fn no_matches_message(checked: u64, pattern: &str) -> (text: String)
    ensures
        text@ == no_matches_text(checked as nat, pattern@),
{
    let mut text = String::from_str(
        "Purge completed! No messages matched the pattern.\n**Checked:** ",
    );
    text.append(decimal_text(checked).as_str());
    text.append(" messages\n**Pattern:** `");
    text.append(pattern);
    text.append("`");
    text
}

/// The summary of a purge whose deletions all succeeded.
pub fn success_message(deleted: usize, checked: u64, pattern: &str, minutes: u64) -> (text: String)
    ensures
        text@ == success_text(deleted as nat, checked as nat, pattern@, minutes as nat),
{
    let mut text = String::from_str("Purge completed successfully!\n**Deleted:** ");
    text.append(decimal_text(deleted as u64).as_str());
    text.append("\n**Total checked:** ");
    text.append(decimal_text(checked).as_str());
    text.append("\n**Pattern:** `");
    text.append(pattern);
    text.append("`\n**Duration:** ");
    text.append(decimal_text(minutes).as_str());
    text.append(" minutes");
    text
}

/// The summary of a purge some of whose deletions failed.
pub fn failures_message(
    deleted: usize,
    failed: usize,
    checked: u64,
    pattern: &str,
    minutes: u64,
) -> (text: String)
    ensures
        text@ == failures_text(
            deleted as nat,
            failed as nat,
            checked as nat,
            pattern@,
            minutes as nat,
        ),
{
    let mut text = String::from_str("Purge completed with some failures!\n**Deleted:** ");
    text.append(decimal_text(deleted as u64).as_str());
    text.append("\n**Failed:** ");
    text.append(decimal_text(failed as u64).as_str());
    text.append("\n**Total checked:** ");
    text.append(decimal_text(checked).as_str());
    text.append("\n**Pattern:** `");
    text.append(pattern);
    text.append("`\n**Duration:** ");
    text.append(decimal_text(minutes).as_str());
    text.append(" minutes");
    text
}

} // verus!
