//! The countdown: what one tick of the timer does, and how the time left is shown.
use vstd::prelude::*;

use crate::digits::{decimal, lemma_decimal_len, lemma_parse_pad2, pad2, parse_decimal, push_char, push_decimal_pad2};

verus! {

/// Minutes in one focus session.
pub const FOCUS_MINUTES: u64 = 25;

/// Seconds in one focus session.
pub const FOCUS_SECONDS: u64 = FOCUS_MINUTES * 60;

/// What the countdown has been told to do.
#[derive(Clone, Copy, Debug, PartialEq, Eq, Structural)]
pub enum TimerCommand {
    Run,
    Pause,
    Restart,
    Stop,
}

/// What one tick of the countdown comes to.
#[derive(Clone, Copy, Debug, PartialEq, Eq, Structural)]
pub enum TickOutcome {
    /// The countdown ends without finishing.
    Stopped,
    /// Nothing moves; the time left stays as it was.
    Paused,
    /// The last second has elapsed.
    Finished,
    /// The countdown goes on with `remaining` seconds, under `cmd`.
    Continuing { remaining: u64, cmd: TimerCommand },
}

/// The outcome of one tick with `remaining` seconds left under `cmd`.
pub open spec fn tick_outcome(remaining: u64, cmd: TimerCommand) -> TickOutcome {
    match cmd {
        TimerCommand::Stop => TickOutcome::Stopped,
        TimerCommand::Pause => TickOutcome::Paused,
        TimerCommand::Restart => TickOutcome::Continuing { remaining: FOCUS_SECONDS, cmd: TimerCommand::Run },
        TimerCommand::Run => if remaining <= 1 {
            TickOutcome::Finished
        } else {
            TickOutcome::Continuing { remaining: (remaining - 1) as u64, cmd: TimerCommand::Run }
        },
    }
}

/// The outcome of one tick of a session of `session` seconds: as `tick_outcome`,
/// except that a restart goes on with the session's own length.
pub open spec fn session_tick_outcome(remaining: u64, cmd: TimerCommand, session: u64) -> TickOutcome {
    match cmd {
        TimerCommand::Restart => TickOutcome::Continuing { remaining: session, cmd: TimerCommand::Run },
        _ => tick_outcome(remaining, cmd),
    }
}

/// Advances the countdown by one second.
pub fn advance_tick(remaining: u64, cmd: TimerCommand) -> (outcome: TickOutcome)
    ensures
        outcome == tick_outcome(remaining, cmd),
        cmd == TimerCommand::Stop ==> outcome == TickOutcome::Stopped,
        cmd == TimerCommand::Pause ==> outcome == TickOutcome::Paused,
        cmd == TimerCommand::Restart ==> outcome == (TickOutcome::Continuing {
            remaining: 1500,
            cmd: TimerCommand::Run,
        }),
        cmd == TimerCommand::Run && remaining >= 2 ==> outcome == (TickOutcome::Continuing {
            remaining: (remaining - 1) as u64,
            cmd: TimerCommand::Run,
        }),
        cmd == TimerCommand::Run && remaining <= 1 ==> outcome == TickOutcome::Finished,
{
    match cmd {
        TimerCommand::Stop => TickOutcome::Stopped,
        TimerCommand::Pause => TickOutcome::Paused,
        TimerCommand::Restart => TickOutcome::Continuing { remaining: FOCUS_SECONDS, cmd: TimerCommand::Run },
        TimerCommand::Run => {
            let remaining = remaining.saturating_sub(1);
            if remaining == 0 {
                TickOutcome::Finished
            } else {
                TickOutcome::Continuing { remaining, cmd: TimerCommand::Run }
            }
        },
    }
}

/// `total` seconds as `mm:ss`: whole minutes, then the seconds of the last minute,
/// each written in decimal and padded with a zero to at least two digits.
pub open spec fn clock_text(total: nat) -> Seq<char> {
    pad2(decimal(total / 60)) + seq![':'] + pad2(decimal(total % 60))
}

/// The seconds that a `mm:ss` text stands for: the number before the last three
/// characters, times sixty, plus the number in the last two.
pub open spec fn parse_clock(text: Seq<char>) -> nat {
    parse_decimal(text.take(text.len() - 3)) * 60 + parse_decimal(text.skip(text.len() - 2))
}

/// Shows `total_seconds` as `mm:ss`.
pub fn format_time(total_seconds: u64) -> (text: String)
    ensures
        text@ == clock_text(total_seconds as nat),
{
    let minutes = total_seconds / 60;
    let seconds = total_seconds % 60;
    let mut text = String::new();
    push_decimal_pad2(&mut text, minutes);
    push_char(&mut text, ':');
    push_decimal_pad2(&mut text, seconds);
    assert(text@ =~= clock_text(total_seconds as nat));
    text
}

/// The time shown reads back as the time it shows: the seconds part of the text
/// always has two digits after the colon, and together with the minutes before
/// it gives back exactly the seconds that were formatted.
pub proof fn lemma_clock_text_reads_back(total: nat)
    ensures
        clock_text(total).len() >= 5,
        clock_text(total)[clock_text(total).len() - 3] == ':',
        parse_clock(clock_text(total)) == total,
{
    let m = pad2(decimal(total / 60));
    let s = pad2(decimal(total % 60));
    lemma_decimal_len(total / 60);
    lemma_decimal_len(total % 60);
    assert(s.len() == 2);
    let text = clock_text(total);
    assert(text.take(text.len() - 3) =~= m);
    assert(text.skip(text.len() - 2) =~= s);
    lemma_parse_pad2(total / 60);
    lemma_parse_pad2(total % 60);
    assert(total == (total / 60) * 60 + total % 60);
}

/// The time left after `ticks` seconds of running from `remaining`;
/// `None` once the countdown has finished.
pub open spec fn time_left_after(remaining: u64, ticks: nat) -> Option<u64>
    decreases ticks,
{
    if ticks == 0 {
        Some(remaining)
    } else {
        match tick_outcome(remaining, TimerCommand::Run) {
            TickOutcome::Continuing { remaining: left, .. } => time_left_after(left, (ticks - 1) as nat),
            _ => None,
        }
    }
}

/// A running countdown loses exactly one second per tick and finishes on the tick
/// that takes its last second: from `remaining` seconds it still runs with
/// `remaining - n` seconds left after `n < remaining` ticks, and it has finished
/// after `remaining` ticks (after one, from zero).
pub proof fn lemma_countdown_finishes_on_time(remaining: u64, ticks: nat)
    ensures
        ticks < remaining ==> time_left_after(remaining, ticks) == Some((remaining - ticks) as u64),
        ticks >= remaining && ticks >= 1 ==> time_left_after(remaining, ticks) is None,
    decreases ticks,
{
    if ticks > 0 {
        if remaining > 1 {
            lemma_countdown_finishes_on_time((remaining - 1) as u64, (ticks - 1) as nat);
        }
    }
}

/// A session of `minutes` minutes, counted down from its start, still runs after
/// fewer than `minutes * 60` ticks and has finished after exactly that many.
pub proof fn lemma_session_lasts_its_length(minutes: u64, ticks: nat)
    requires
        1 <= minutes,
        minutes * 60 <= u64::MAX,
    ensures
        ticks < minutes * 60 ==> time_left_after((minutes * 60) as u64, ticks) == Some(
            (minutes * 60 - ticks) as u64,
        ),
        ticks == minutes * 60 ==> time_left_after((minutes * 60) as u64, ticks) is None,
{
    lemma_countdown_finishes_on_time((minutes * 60) as u64, ticks);
}

/// What one tick does under each command, whatever time is left and whatever
/// length the session has: a stop ends the countdown; a pause holds it where it
/// is; a restart goes on running, with a full 25-minute session for the plain
/// countdown and with the session's own length for a session; and a running
/// countdown loses exactly one second, finishing only on its last second.
pub proof fn lemma_each_command_on_a_tick(remaining: u64, session: u64)
    ensures
        tick_outcome(remaining, TimerCommand::Stop) == TickOutcome::Stopped,
        session_tick_outcome(remaining, TimerCommand::Stop, session) == TickOutcome::Stopped,
        tick_outcome(remaining, TimerCommand::Pause) == TickOutcome::Paused,
        session_tick_outcome(remaining, TimerCommand::Pause, session) == TickOutcome::Paused,
        tick_outcome(remaining, TimerCommand::Restart) == (TickOutcome::Continuing {
            remaining: 1500,
            cmd: TimerCommand::Run,
        }),
        session_tick_outcome(remaining, TimerCommand::Restart, session) == (
        TickOutcome::Continuing { remaining: session, cmd: TimerCommand::Run }),
        remaining >= 2 ==> tick_outcome(remaining, TimerCommand::Run) == (TickOutcome::Continuing {
            remaining: (remaining - 1) as u64,
            cmd: TimerCommand::Run,
        }),
        remaining >= 2 ==> session_tick_outcome(remaining, TimerCommand::Run, session) == (
        TickOutcome::Continuing { remaining: (remaining - 1) as u64, cmd: TimerCommand::Run }),
        remaining <= 1 ==> tick_outcome(remaining, TimerCommand::Run) == TickOutcome::Finished,
        remaining <= 1 ==> session_tick_outcome(remaining, TimerCommand::Run, session)
            == TickOutcome::Finished,
{
}

/// Every tick that lets the countdown go on leaves it running with time left.
pub proof fn lemma_continuing_runs_with_time_left(remaining: u64, cmd: TimerCommand)
    ensures
        tick_outcome(remaining, cmd) matches TickOutcome::Continuing { remaining: left, cmd: next } ==> (
            next == TimerCommand::Run && left >= 1),
{
}

} // verus!
