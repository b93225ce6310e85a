use annoying_break_timer::{advance_tick, format_time, TickOutcome, TimerCommand, FOCUS_SECONDS};

#[test]
fn lib_format_time_pads_minutes_and_seconds() {
    assert_eq!(format_time(0), "00:00");
    assert_eq!(format_time(5), "00:05");
    assert_eq!(format_time(65), "01:05");
    assert_eq!(format_time(FOCUS_SECONDS), "25:00");
}

#[test]
fn lib_stop_ends_the_countdown() {
    assert_eq!(advance_tick(100, TimerCommand::Stop), TickOutcome::Stopped);
}

#[test]
fn lib_pause_keeps_the_remaining_time_unchanged() {
    assert_eq!(advance_tick(100, TimerCommand::Pause), TickOutcome::Paused);
}

#[test]
fn lib_restart_resets_remaining_time_and_resumes_running() {
    assert_eq!(
        advance_tick(3, TimerCommand::Restart),
        TickOutcome::Continuing {
            remaining: FOCUS_SECONDS,
            cmd: TimerCommand::Run,
        }
    );
}

#[test]
fn lib_run_decrements_remaining_time_by_one_second() {
    assert_eq!(
        advance_tick(10, TimerCommand::Run),
        TickOutcome::Continuing {
            remaining: 9,
            cmd: TimerCommand::Run,
        }
    );
}

#[test]
fn lib_run_finishes_when_the_last_second_elapses() {
    assert_eq!(advance_tick(1, TimerCommand::Run), TickOutcome::Finished);
}
