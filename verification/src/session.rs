//! The timer's shared state and the decisions taken on it: starting a session,
//! each tick of the countdown, and the tray menu's pause and restart entries.
use vstd::prelude::*;

use crate::digits::push_char;
use crate::timer::{
    advance_tick, clock_text, format_time, session_tick_outcome, TickOutcome, TimerCommand,
};

verus! {

/// What the timer thread and the tray menu share.
#[derive(Debug)]
pub struct TimerState {
    /// The command the countdown follows on its next tick.
    pub cmd: TimerCommand,
    /// The time last shown in the tray, as `mm:ss`.
    pub last_title: String,
    /// The session length from the settings, in minutes.
    pub focus_minutes: u64,
}

/// What the tray must show after the pause entry was clicked.
#[derive(Debug)]
pub struct MenuUpdate {
    /// The new label of the pause entry.
    pub pause_text: String,
    /// The new tray title.
    pub tray_title: String,
}

impl View for MenuUpdate {
    type V = (Seq<char>, Seq<char>);

    open spec fn view(&self) -> (Seq<char>, Seq<char>) {
        (self.pause_text@, self.tray_title@)
    }
}

/// What the timer thread must do after one tick.
#[derive(Debug)]
pub enum TickAction {
    /// Leave the loop: the countdown was stopped.
    Stop,
    /// Do nothing this second: the countdown is paused.
    Wait,
    /// Announce the end of the session and leave the loop.
    Finish,
    /// Go on with `remaining` seconds and show `title` in the tray.
    Show { remaining: u64, title: String },
}

/// The command after the pause entry was clicked: pausing a running countdown,
/// resuming a paused one, and leaving any other command alone.
pub open spec fn toggled(cmd: TimerCommand) -> TimerCommand {
    match cmd {
        TimerCommand::Pause => TimerCommand::Run,
        TimerCommand::Run => TimerCommand::Pause,
        other => other,
    }
}

/// The tray title of a paused countdown: a pause sign, a space, then the time.
pub open spec fn paused_title(title: Seq<char>) -> Seq<char> {
    seq!['\u{23F8}', ' '] + title
}

/// The pause entry's new label and the new tray title after a click on the pause
/// entry under `cmd` with `title` last shown; `None` where the click changes nothing.
pub open spec fn toggle_update(cmd: TimerCommand, title: Seq<char>) -> Option<(Seq<char>, Seq<char>)> {
    match cmd {
        TimerCommand::Pause => Some(("Pause"@, title)),
        TimerCommand::Run => Some(("Resume"@, paused_title(title))),
        _ => None,
    }
}

impl TimerState {
    /// The state before any session: stopped, with nothing shown yet.
    pub fn new(focus_minutes: u64) -> (state: TimerState)
        ensures
            state.cmd == TimerCommand::Stop,
            state.last_title@ == Seq::<char>::empty(),
            state.focus_minutes == focus_minutes,
    {
        TimerState { cmd: TimerCommand::Stop, last_title: String::new(), focus_minutes }
    }

    /// Starts a session: the countdown runs from the configured length, and the tray
    /// is to show that length. Returns the seconds to count down and that title.
    pub fn start(&mut self) -> (started: (u64, String))
        requires
            old(self).focus_minutes * 60 <= u64::MAX,
        ensures
            final(self).cmd == TimerCommand::Run,
            final(self).last_title == old(self).last_title,
            final(self).focus_minutes == old(self).focus_minutes,
            started.0 == old(self).focus_minutes * 60,
            started.1@ == clock_text((old(self).focus_minutes * 60) as nat),
    {
        self.cmd = TimerCommand::Run;
        let session = self.focus_minutes * 60;
        (session, format_time(session))
    }

    /// One second of the countdown with `remaining` seconds left: follows the
    /// current command (a restart going on with the configured length), records
    /// the command that the countdown goes on under, and, where it goes on, the
    /// time to show.
    pub fn tick(&mut self, remaining: u64) -> (action: TickAction)
        requires
            old(self).focus_minutes * 60 <= u64::MAX,
        ensures
            match session_tick_outcome(remaining, old(self).cmd, (old(self).focus_minutes * 60) as u64) {
                TickOutcome::Stopped => action is Stop && *final(self) == *old(self),
                TickOutcome::Paused => action is Wait && *final(self) == *old(self),
                TickOutcome::Finished => action is Finish && *final(self) == *old(self),
                TickOutcome::Continuing { remaining: left, cmd: next } => {
                    &&& action matches TickAction::Show { remaining: shown, title } && shown == left
                        && title@ == clock_text(left as nat)
                    &&& final(self).cmd == next
                    &&& final(self).last_title@ == clock_text(left as nat)
                    &&& final(self).focus_minutes == old(self).focus_minutes
                },
            },
            old(self).cmd == TimerCommand::Stop ==> action is Stop && *final(self) == *old(self),
            old(self).cmd == TimerCommand::Pause ==> action is Wait && *final(self) == *old(self),
            old(self).cmd == TimerCommand::Run && remaining <= 1 ==> action is Finish && *final(self) == *old(self),
            old(self).cmd == TimerCommand::Run && remaining >= 2 ==> {
                &&& action matches TickAction::Show { remaining: shown, title } && shown
                    == remaining - 1 && title@ == clock_text((remaining - 1) as nat)
                &&& final(self).cmd == TimerCommand::Run
                &&& final(self).last_title@ == clock_text((remaining - 1) as nat)
            },
            old(self).cmd == TimerCommand::Restart ==> {
                &&& action matches TickAction::Show { remaining: shown, title } && shown
                    == old(self).focus_minutes * 60 && title@ == clock_text(
                    (old(self).focus_minutes * 60) as nat,
                )
                &&& final(self).cmd == TimerCommand::Run
            },
    {
        let outcome = if self.cmd == TimerCommand::Restart {
            TickOutcome::Continuing { remaining: self.focus_minutes * 60, cmd: TimerCommand::Run }
        } else {
            advance_tick(remaining, self.cmd)
        };
        match outcome {
            TickOutcome::Stopped => TickAction::Stop,
            TickOutcome::Paused => TickAction::Wait,
            TickOutcome::Finished => TickAction::Finish,
            TickOutcome::Continuing { remaining: left, cmd: next } => {
                if next != self.cmd {
                    self.cmd = next;
                }
                let title = format_time(left);
                self.last_title = title.clone();
                TickAction::Show { remaining: left, title }
            },
        }
    }

    /// A click on the pause entry: pauses a running countdown or resumes a paused
    /// one, and says what the pause entry and the tray show then.
    pub fn toggle_pause(&mut self) -> (update: Option<MenuUpdate>)
        ensures
            final(self).cmd == toggled(old(self).cmd),
            final(self).last_title == old(self).last_title,
            final(self).focus_minutes == old(self).focus_minutes,
            match update {
                Some(u) => toggle_update(old(self).cmd, old(self).last_title@) == Some(u@),
                None => toggle_update(old(self).cmd, old(self).last_title@) is None,
            },
            old(self).cmd == TimerCommand::Run ==> {
                &&& final(self).cmd == TimerCommand::Pause
                &&& update matches Some(u) && u.pause_text@ == "Resume"@ && u.tray_title@ == seq![
                    '\u{23F8}',
                    ' ',
                ] + old(self).last_title@
            },
            old(self).cmd == TimerCommand::Pause ==> {
                &&& final(self).cmd == TimerCommand::Run
                &&& update matches Some(u) && u.pause_text@ == "Pause"@ && u.tray_title@
                    == old(self).last_title@
            },
            old(self).cmd == TimerCommand::Stop || old(self).cmd == TimerCommand::Restart ==> {
                &&& update is None
                &&& final(self).cmd == old(self).cmd
            },
    {
        if self.cmd == TimerCommand::Pause {
            self.cmd = TimerCommand::Run;
            Some(MenuUpdate { pause_text: String::from_str("Pause"), tray_title: self.last_title.clone() })
        } else if self.cmd == TimerCommand::Run {
            self.cmd = TimerCommand::Pause;
            let mut title = String::new();
            push_char(&mut title, '\u{23F8}');
            push_char(&mut title, ' ');
            title.append(self.last_title.as_str());
            assert(title@ =~= paused_title(self.last_title@));
            Some(MenuUpdate { pause_text: String::from_str("Resume"), tray_title: title })
        } else {
            None
        }
    }

    /// A click on the restart entry: the countdown restarts on its next tick, and
    /// the time last shown becomes a full session of the configured length.
    /// Returns the new label of the pause entry.
    pub fn request_restart(&mut self) -> (pause_text: String)
        requires
            old(self).focus_minutes * 60 <= u64::MAX,
        ensures
            final(self).cmd == TimerCommand::Restart,
            final(self).last_title@ == clock_text((old(self).focus_minutes * 60) as nat),
            final(self).focus_minutes == old(self).focus_minutes,
            pause_text@ == "Pause"@,
    {
        self.cmd = TimerCommand::Restart;
        self.last_title = format_time(self.focus_minutes * 60);
        String::from_str("Pause")
    }
}

/// Pausing and then resuming gives back the running countdown and the title it
/// showed; a click on the pause entry while the countdown neither runs nor is
/// paused changes nothing.
pub proof fn lemma_pause_then_resume(cmd: TimerCommand, title: Seq<char>)
    ensures
        cmd == TimerCommand::Run ==> {
            &&& toggled(toggled(cmd)) == cmd
            &&& toggle_update(cmd, title) == Some(("Resume"@, paused_title(title)))
            &&& toggle_update(toggled(cmd), title) == Some(("Pause"@, title))
        },
        cmd == TimerCommand::Pause ==> toggled(toggled(cmd)) == cmd,
        cmd == TimerCommand::Restart || cmd == TimerCommand::Stop ==> toggled(cmd) == cmd
            && toggle_update(cmd, title) is None,
{
}

/// The tray title of a paused countdown starts with the pause sign and a space,
/// and the rest of it is the time that was shown, character for character.
pub proof fn lemma_paused_title_marks_the_time(title: Seq<char>)
    ensures
        paused_title(title) == seq!['\u{23F8}', ' '] + title,
        paused_title(title).len() == title.len() + 2,
        paused_title(title)[0] == '\u{23F8}',
        paused_title(title)[1] == ' ',
        paused_title(title).skip(2) == title,
{
    assert(paused_title(title).skip(2) =~= title);
}

/// A restart request shows a full session of the configured length, and the tick
/// after it goes on running with exactly that many seconds, whatever was left.
pub proof fn lemma_restart_gives_full_session(minutes: u64, remaining: u64)
    requires
        minutes * 60 <= u64::MAX,
    ensures
        session_tick_outcome(remaining, TimerCommand::Restart, (minutes * 60) as u64) == (
        TickOutcome::Continuing { remaining: (minutes * 60) as u64, cmd: TimerCommand::Run }),
{
}

} // verus!
