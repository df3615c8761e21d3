//! The replies of the command surface, computed from plain outcomes.
use crate::session::{LoopOutcome, SessionOutcome};
use vstd::prelude::*;

verus! {

/// The character of one decimal digit.
pub open spec fn digit_char(d: nat) -> char
    recommends
        d < 10,
{
    seq!['0', '1', '2', '3', '4', '5', '6', '7', '8', '9'][d as int]
}

/// The decimal digits of a number, most significant first.
pub open spec fn decimal(n: nat) -> Seq<char>
    decreases n,
{
    if n < 10 {
        seq![digit_char(n)]
    } else {
        decimal(n / 10).push(digit_char(n % 10))
    }
}

fn digit_str(d: usize) -> (r: &'static str)
    requires
        d < 10,
    ensures
        r@ == seq![digit_char(d as nat)],
{
    proof {
        reveal_strlit("0");
        reveal_strlit("1");
        reveal_strlit("2");
        reveal_strlit("3");
        reveal_strlit("4");
        reveal_strlit("5");
        reveal_strlit("6");
        reveal_strlit("7");
        reveal_strlit("8");
        reveal_strlit("9");
    }
    match d {
        0 => "0",
        1 => "1",
        2 => "2",
        3 => "3",
        4 => "4",
        5 => "5",
        6 => "6",
        7 => "7",
        8 => "8",
        _ => "9",
    }
}

/// A number written in decimal.
pub fn decimal_string(n: usize) -> (r: String)
    ensures
        r@ == decimal(n as nat),
    decreases n,
{
    if n < 10 {
        String::from_str(digit_str(n))
    } else {
        let mut s = decimal_string(n / 10);
        s.append(digit_str(n % 10));
        s
    }
}

/// The line that lists the item at a given position after the current one.
pub open spec fn queue_line(index: nat, title: Seq<char>) -> Seq<char> {
    decimal(index) + ". **"@ + title + "**\n"@
}

/// The lines of the items at positions 1 up to (not including) `n`.
pub open spec fn later_lines(titles: Seq<Seq<char>>, n: nat) -> Seq<char>
    decreases n,
{
    if n <= 1 {
        Seq::empty()
    } else {
        later_lines(titles, (n - 1) as nat) + queue_line((n - 1) as nat, titles[n - 1])
    }
}

/// The queue listing: the current item's line, then one numbered line for
/// each item behind it.
pub open spec fn queue_text(titles: Seq<Seq<char>>) -> Seq<char> {
    if titles.len() == 0 {
        "Queue is empty"@
    } else {
        "Now playing **"@ + titles[0] + "**\n"@ + later_lines(titles, titles.len())
    }
}

/// The reply to a command on a room the player has no session in.
pub open spec fn not_in_call() -> Seq<char> {
    "Not in a call"@
}

fn not_in_call_reply() -> (r: String)
    ensures
        r@ == not_in_call(),
{
    String::from_str("Not in a call")
}

/// The listing of a queue, given the titles of its items in order.
pub fn queue_listing(titles: &Vec<String>) -> (r: String)
    ensures
        r@ == queue_text(titles@.map_values(|t: String| t@)),
{
    let ghost shown = titles@.map_values(|t: String| t@);
    if titles.len() == 0 {
        return String::from_str("Queue is empty");
    }
    let mut r = String::from_str("Now playing **");
    r.append(titles[0].as_str());
    r.append("**\n");
    let mut i: usize = 1;
    while i < titles.len()
        invariant
            1 <= i <= titles.len(),
            shown == titles@.map_values(|t: String| t@),
            r@ == "Now playing **"@ + shown[0] + "**\n"@ + later_lines(shown, i as nat),
        decreases titles.len() - i,
    {
        let line = decimal_string(i);
        r.append(line.as_str());
        r.append(". **");
        r.append(titles[i].as_str());
        r.append("**\n");
        proof {
            assert(later_lines(shown, (i + 1) as nat) == later_lines(shown, i as nat) + queue_line(
                i as nat,
                shown[i as int],
            ));
            assert(r@ == "Now playing **"@ + shown[0] + "**\n"@ + later_lines(shown, (i + 1) as nat));
        }
        i = i + 1;
    }
    r
}

/// The reply to the queue command.
pub fn queue_reply(session_active: bool, titles: &Vec<String>) -> (r: String)
    ensures
        r@ == (if session_active {
            queue_text(titles@.map_values(|t: String| t@))
        } else {
            not_in_call()
        }),
{
    if session_active {
        queue_listing(titles)
    } else {
        not_in_call_reply()
    }
}

/// What a skip command does.
#[derive(Debug, PartialEq, Eq, Structural)]
pub enum SkipOutcome {
    NoSession,
    EmptyQueue,
    /// Drop the current item.
    Skip,
}

/// The skip decision: a room without a session, or with an empty queue,
/// has nothing to skip.
pub fn plan_skip(session_active: bool, queue_len: usize) -> (r: SkipOutcome)
    ensures
        r == (if !session_active {
            SkipOutcome::NoSession
        } else if queue_len == 0 {
            SkipOutcome::EmptyQueue
        } else {
            SkipOutcome::Skip
        }),
{
    if !session_active {
        SkipOutcome::NoSession
    } else if queue_len == 0 {
        SkipOutcome::EmptyQueue
    } else {
        SkipOutcome::Skip
    }
}

/// The reply to a skip command.
pub fn skip_reply(outcome: &SkipOutcome) -> (r: String)
    ensures
        r@ == match outcome {
            SkipOutcome::NoSession => not_in_call(),
            SkipOutcome::EmptyQueue => "Queue is empty"@,
            SkipOutcome::Skip => "Skipped"@,
        },
{
    match outcome {
        SkipOutcome::NoSession => not_in_call_reply(),
        SkipOutcome::EmptyQueue => String::from_str("Queue is empty"),
        SkipOutcome::Skip => String::from_str("Skipped"),
    }
}

/// Whether `part` is a contiguous part of `whole`.
pub open spec fn is_slice_of(part: Seq<char>, whole: Seq<char>) -> bool {
    exists|i: int, j: int| 0 <= i <= j <= whole.len() && part == whole.subrange(i, j)
}

/// What `str::trim` makes of a text.
pub uninterp spec fn trimmed(s: Seq<char>) -> Seq<char>;

/// Relies on `str::trim`: the text without its leading and trailing
/// whitespace, which depends on the characters alone and is a contiguous
/// part of the text.
#[verifier::external_body]
fn trim_text(s: &str) -> (r: &str)
    ensures
        r@ == trimmed(s@),
        is_slice_of(r@, s@),
{
    s.trim()
}

/// The reply when a query could not be resolved, given the resolver's
/// reason already trimmed.
pub fn resolve_failed_reply(reason: &str) -> (r: String)
    ensures
        r@ == "Failed to get metadata of the song: `"@ + reason@ + "`"@,
{
    let mut r = String::from_str("Failed to get metadata of the song: `");
    r.append(reason);
    r.append("`");
    r
}

/// The reply when a query could not be resolved: the resolver's reason,
/// trimmed, in backquotes.
pub fn metadata_failed_reply(reason: &str) -> (r: String)
    ensures
        r@ == "Failed to get metadata of the song: `"@ + trimmed(reason@) + "`"@,
{
    resolve_failed_reply(trim_text(reason))
}

/// The reply that confirms an enqueued item.
pub fn queued_reply(title: &str) -> (r: String)
    ensures
        r@ == "Queued **"@ + title@ + "**"@,
{
    let mut r = String::from_str("Queued **");
    r.append(title);
    r.append("**");
    r
}

/// The reply to the now-playing command, given the current item's title.
pub fn now_playing_reply(session_active: bool, current: Option<&str>) -> (r: String)
    ensures
        r@ == (if !session_active {
            not_in_call()
        } else {
            match current {
                Some(t) => "Now playing **"@ + t@ + "**"@,
                None => "Nothing is playing"@,
            }
        }),
{
    if !session_active {
        return not_in_call_reply();
    }
    match current {
        Some(t) => {
            let mut r = String::from_str("Now playing **");
            r.append(t);
            r.append("**");
            r
        },
        None => String::from_str("Nothing is playing"),
    }
}

/// The reply to a loop toggle.
pub fn loop_reply(outcome: &LoopOutcome) -> (r: String)
    ensures
        r@ == match outcome {
            LoopOutcome::NoSession => not_in_call(),
            LoopOutcome::Looping(true) => "Looping the queue"@,
            LoopOutcome::Looping(false) => "Stopped looping the queue"@,
        },
{
    match outcome {
        LoopOutcome::NoSession => not_in_call_reply(),
        LoopOutcome::Looping(true) => String::from_str("Looping the queue"),
        LoopOutcome::Looping(false) => String::from_str("Stopped looping the queue"),
    }
}

/// What the requester is told after an attempt to make sure the room has a
/// session: nothing when the session is there.
pub fn session_reply(outcome: &SessionOutcome) -> (r: Option<String>)
    ensures
        match outcome {
            SessionOutcome::NoVoiceChannel => r is Some && r->0@ == "You are not in a voice channel"@,
            SessionOutcome::JoinFailed(_) => r is Some && r->0@ == "Failed to join the call"@,
            _ => r is None,
        },
{
    match outcome {
        SessionOutcome::NoVoiceChannel => Some(String::from_str("You are not in a voice channel")),
        SessionOutcome::JoinFailed(_) => Some(String::from_str("Failed to join the call")),
        _ => None,
    }
}

} // verus!
