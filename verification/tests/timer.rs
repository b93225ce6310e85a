use annoying_break_timer::{advance_tick, format_time, TickOutcome, TimerCommand, FOCUS_SECONDS};

#[test]
fn timer_format_time_pads_minutes_and_seconds() {
    assert_eq!(format_time(0), "00:00");
    assert_eq!(format_time(5), "00:05");
    assert_eq!(format_time(65), "01:05");
    assert_eq!(format_time(FOCUS_SECONDS), "25:00");
}

#[test]
fn timer_stop_ends_the_countdown() {
    assert_eq!(advance_tick(100, TimerCommand::Stop), TickOutcome::Stopped);
}

#[test]
fn timer_pause_keeps_the_remaining_time_unchanged() {
    assert_eq!(advance_tick(100, TimerCommand::Pause), TickOutcome::Paused);
}

#[test]
fn timer_restart_resets_remaining_time_and_resumes_running() {
    assert_eq!(
        advance_tick(3, TimerCommand::Restart),
        TickOutcome::Continuing {
            remaining: FOCUS_SECONDS,
            cmd: TimerCommand::Run,
        }
    );
}

#[test]
fn timer_run_decrements_remaining_time_by_one_second() {
    assert_eq!(
        advance_tick(10, TimerCommand::Run),
        TickOutcome::Continuing {
            remaining: 9,
            cmd: TimerCommand::Run,
        }
    );
}

#[test]
fn timer_run_finishes_when_the_last_second_elapses() {
    assert_eq!(advance_tick(1, TimerCommand::Run), TickOutcome::Finished);
}

#[test]
fn run_from_zero_finishes_at_once() {
    assert_eq!(advance_tick(0, TimerCommand::Run), TickOutcome::Finished);
}

#[test]
fn run_at_the_largest_time_goes_on() {
    assert_eq!(
        advance_tick(u64::MAX, TimerCommand::Run),
        TickOutcome::Continuing {
            remaining: u64::MAX - 1,
            cmd: TimerCommand::Run,
        }
    );
}

#[test]
fn focus_session_is_twenty_five_minutes() {
    assert_eq!(FOCUS_SECONDS, 1500);
}

#[test]
fn format_time_keeps_minutes_past_an_hour_and_beyond_two_digits() {
    assert_eq!(format_time(59), "00:59");
    assert_eq!(format_time(60), "01:00");
    assert_eq!(format_time(3599), "59:59");
    assert_eq!(format_time(3600), "60:00");
    assert_eq!(format_time(6000), "100:00");
    assert_eq!(format_time(u64::MAX), "307445734561825860:15");
}

#[test]
fn countdown_from_a_full_session_finishes_after_exactly_that_many_ticks() {
    let mut remaining = FOCUS_SECONDS;
    let mut ticks: u64 = 0;
    loop {
        ticks += 1;
        match advance_tick(remaining, TimerCommand::Run) {
            TickOutcome::Continuing { remaining: left, cmd } => {
                assert_eq!(cmd, TimerCommand::Run);
                assert_eq!(left, remaining - 1);
                remaining = left;
            }
            TickOutcome::Finished => break,
            other => panic!("unexpected outcome {:?}", other),
        }
    }
    assert_eq!(ticks, FOCUS_SECONDS);
}

#[test]
fn shown_time_reads_back_as_the_seconds_it_shows() {
    for total in [0u64, 5, 59, 60, 65, 1500, 3599, 3600, 6000, 123456] {
        let text = format_time(total);
        let (minutes, seconds) = text.split_at(text.len() - 3);
        assert_eq!(&seconds[..1], ":");
        let minutes: u64 = minutes.parse().unwrap();
        let seconds: u64 = seconds[1..].parse().unwrap();
        assert_eq!(minutes * 60 + seconds, total);
    }
}
