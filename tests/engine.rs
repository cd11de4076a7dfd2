use rust_clock::duration::{from_secs_nanos, minutes, seconds, to_secs_nanos, whole_minutes};
use rust_clock::pomodoro::{Metrics, Pomodoro, PomodoroState};

const SEC: u64 = 1_000_000_000;

fn running_engine(work_secs: u64) -> Pomodoro {
    let mut p = Pomodoro::new(None);
    p.set_work_duration(work_secs * SEC);
    p.start();
    p
}

#[test]
fn five_second_work_interval_scenario() {
    let mut p = running_engine(5);
    assert_eq!(p.update(3 * SEC), None);
    assert_eq!(p.elapsed(), 3 * SEC);
    assert_eq!(p.state(), PomodoroState::Work);
    assert_eq!(p.update(3 * SEC), Some(PomodoroState::Work));
    assert_eq!(p.elapsed(), 0);
    assert_eq!(p.state(), PomodoroState::ShortBreak);
    assert_eq!(p.completed_cycles(), 1);
    assert_eq!(p.metrics().completed_pomodoros, 1);
}

#[test]
fn exact_work_length_ends_interval() {
    for d in [1u64, 7, 60] {
        let mut p = running_engine(d);
        assert_eq!(p.update(d * SEC), Some(PomodoroState::Work));
        assert_eq!(p.state(), PomodoroState::ShortBreak);
        assert_eq!(p.elapsed(), 0);
    }
}

#[test]
fn every_fourth_work_interval_gives_long_break() {
    let mut p = Pomodoro::new(None);
    p.start();
    let mut breaks = Vec::new();
    for _ in 0..4 {
        let work = p.current_duration();
        assert_eq!(p.update(work), Some(PomodoroState::Work));
        breaks.push(p.state());
        let rest = p.current_duration();
        p.update(rest);
        assert_eq!(p.state(), PomodoroState::Work);
    }
    assert_eq!(p.completed_cycles(), 4);
    assert_eq!(
        breaks,
        vec![
            PomodoroState::ShortBreak,
            PomodoroState::ShortBreak,
            PomodoroState::ShortBreak,
            PomodoroState::LongBreak
        ]
    );
}

#[test]
fn cadence_of_two_alternates_breaks() {
    let mut p = running_engine(1);
    p.set_cycles_before_long_break(2);
    p.update(SEC);
    assert_eq!(p.state(), PomodoroState::ShortBreak);
    p.update(p.current_duration());
    p.update(SEC);
    assert_eq!(p.state(), PomodoroState::LongBreak);
}

#[test]
fn pause_then_resume_restores_state() {
    let mut p = running_engine(10);
    p.update(4 * SEC);
    p.pause();
    assert_eq!(p.state(), PomodoroState::Paused);
    p.pause();
    assert_eq!(p.state(), PomodoroState::Paused);
    assert_eq!(p.update(100 * SEC), None);
    assert_eq!(p.elapsed(), 4 * SEC);
    assert_eq!(p.current_duration(), 10 * SEC);
    p.resume();
    assert_eq!(p.state(), PomodoroState::Work);
    assert_eq!(p.elapsed(), 4 * SEC);
}

#[test]
fn pause_from_break_resumes_break() {
    let mut p = running_engine(1);
    p.update(SEC);
    p.update(SEC);
    p.pause();
    p.resume();
    assert_eq!(p.state(), PomodoroState::ShortBreak);
    assert_eq!(p.elapsed(), SEC);
}

#[test]
fn pause_while_stopped_does_nothing() {
    let mut p = Pomodoro::new(None);
    p.pause();
    assert_eq!(p.state(), PomodoroState::Stopped);
    p.resume();
    assert_eq!(p.state(), PomodoroState::Stopped);
}

#[test]
fn reset_while_paused_resumes_from_zero() {
    let mut p = running_engine(10);
    p.update(4 * SEC);
    p.pause();
    p.reset();
    assert_eq!(p.state(), PomodoroState::Work);
    assert_eq!(p.elapsed(), 0);
    p.update(2 * SEC);
    p.reset();
    assert_eq!(p.state(), PomodoroState::Work);
    assert_eq!(p.elapsed(), 0);
}

#[test]
fn stop_then_start_begins_fresh_work() {
    let mut p = running_engine(10);
    p.update(4 * SEC);
    p.stop();
    assert_eq!(p.state(), PomodoroState::Stopped);
    assert_eq!(p.current_duration(), 0);
    assert_eq!(p.update(SEC), None);
    p.start();
    assert_eq!(p.state(), PomodoroState::Work);
    assert_eq!(p.elapsed(), 0);
}

#[test]
fn remaining_never_rises_while_running() {
    let mut p = running_engine(10);
    let mut last = p.remaining_time();
    assert_eq!(last, 10 * SEC);
    for _ in 0..3 {
        p.update(3 * SEC);
        assert!(p.remaining_time() <= last);
        last = p.remaining_time();
    }
    assert_eq!(last, SEC);
    p.update(3 * SEC);
    assert_eq!(p.state(), PomodoroState::ShortBreak);
    assert_eq!(p.remaining_time(), p.current_duration());
    assert_eq!(p.remaining_time(), minutes(5));
}

#[test]
fn shorter_work_setting_ends_interval_on_next_tick() {
    let mut p = running_engine(10);
    p.update(8 * SEC);
    p.set_work_duration(5 * SEC);
    assert_eq!(p.remaining_time(), 0);
    assert_eq!(p.update(0), Some(PomodoroState::Work));
    assert_eq!(p.state(), PomodoroState::ShortBreak);
}

#[test]
fn default_engine_settings() {
    let p = Pomodoro::new(None);
    assert_eq!(p.state(), PomodoroState::Stopped);
    assert_eq!(p.work_duration(), minutes(25));
    assert_eq!(p.short_break_duration(), minutes(5));
    assert_eq!(p.long_break_duration(), minutes(15));
    assert_eq!(p.cycles_before_long_break(), 4);
    assert_eq!(p.remaining_time(), 0);
    assert_eq!(p.metrics(), Metrics::default());
}

#[test]
fn loaded_metrics_are_carried() {
    let saved = Metrics { completed_pomodoros: 7, total_work_time: 90 * SEC };
    let p = Pomodoro::new(Some(saved));
    assert_eq!(p.metrics(), saved);
}

#[test]
fn metrics_count_completed_work_and_partial_ticks() {
    let mut p = running_engine(5);
    p.update(2 * SEC);
    assert_eq!(p.metrics().total_work_time, 2 * SEC);
    p.update(4 * SEC);
    assert_eq!(p.metrics().completed_pomodoros, 1);
    assert_eq!(p.metrics().total_work_time, 7 * SEC);
    p.update(SEC);
    assert_eq!(p.metrics().total_work_time, 7 * SEC);
}

#[test]
fn metrics_after_whole_intervals_survive_storage() {
    let mut p = Pomodoro::new(Some(Metrics { completed_pomodoros: 2, total_work_time: 0 }));
    p.set_work_duration(seconds(90));
    p.set_short_break_duration(seconds(30));
    p.start();
    for _ in 0..3 {
        p.update(seconds(90));
        p.update(seconds(30));
    }
    let m = p.metrics();
    assert_eq!(m.completed_pomodoros, 5);
    assert_eq!(m.total_work_time, seconds(270));
    let (secs, nanos) = to_secs_nanos(m.total_work_time);
    assert_eq!((secs, nanos), (270, 0));
    let back = Metrics {
        completed_pomodoros: m.completed_pomodoros,
        total_work_time: from_secs_nanos(secs, nanos).unwrap(),
    };
    let reloaded = Pomodoro::new(Some(back));
    assert_eq!(reloaded.metrics(), m);
}

#[test]
fn stored_duration_round_trip_and_limits() {
    let d = 3 * SEC + 250_000_000;
    assert_eq!(to_secs_nanos(d), (3, 250_000_000));
    assert_eq!(from_secs_nanos(3, 250_000_000), Some(d));
    assert_eq!(from_secs_nanos(1, 1_500_000_000), Some(2_500_000_000));
    assert_eq!(from_secs_nanos(u64::MAX, 0), None);
    assert_eq!(from_secs_nanos(18_446_744_073, 709_551_615), Some(u64::MAX));
    assert_eq!(from_secs_nanos(18_446_744_073, 709_551_616), None);
    assert_eq!(whole_minutes(minutes(25) + 59 * SEC), 25);
}

#[test]
fn update_guard_detects_overflow() {
    let mut p = Pomodoro::new(None);
    p.set_work_duration(u64::MAX);
    p.start();
    assert!(p.can_update(SEC));
    p.update(u64::MAX - 10);
    assert_eq!(p.state(), PomodoroState::Work);
    assert!(p.can_update(5));
    assert!(!p.can_update(10));
    assert!(!p.can_update(100));
    let stopped = Pomodoro::new(None);
    assert!(stopped.can_update(u64::MAX));
}

#[test]
fn format_time_writes_minutes_and_seconds() {
    assert_eq!(Pomodoro::format_time(0), "00:00");
    assert_eq!(Pomodoro::format_time(minutes(25)), "25:00");
    assert_eq!(Pomodoro::format_time(65 * SEC + 999_999_999), "01:05");
    assert_eq!(Pomodoro::format_time(minutes(125) + 9 * SEC), "125:09");
}

#[test]
fn progress_is_elapsed_over_length() {
    let mut p = Pomodoro::new(None);
    assert_eq!(p.progress(), (0, 1));
    p.set_work_duration(10 * SEC);
    p.start();
    p.update(4 * SEC);
    assert_eq!(p.progress(), (4 * SEC, 10 * SEC));
    p.pause();
    assert_eq!(p.progress(), (0, 1));
    p.resume();
    p.set_work_duration(0);
    assert_eq!(p.progress(), (0, 1));
}

#[test]
fn state_labels() {
    assert_eq!(PomodoroState::Stopped.label(), "Stopped");
    assert_eq!(PomodoroState::Work.label(), "Work");
    assert_eq!(PomodoroState::ShortBreak.label(), "Short Break");
    assert_eq!(PomodoroState::LongBreak.label(), "Long Break");
    assert_eq!(PomodoroState::Paused.label(), "Paused");
}

#[test]
fn notification_shows_until_three_seconds_in() {
    let mut p = running_engine(1);
    assert_eq!(p.notification(), None);
    p.update(SEC);
    assert_eq!(p.notification(), Some("Take a short break!"));
    p.update(2 * SEC);
    assert_eq!(p.notification(), Some("Take a short break!"));
    p.update(SEC);
    assert_eq!(p.notification(), Some("Take a short break!"));
    assert_eq!(p.notification(), None);
}

#[test]
fn work_hours_and_minutes() {
    let m = Metrics { completed_pomodoros: 0, total_work_time: seconds(2 * 3600 + 7 * 60 + 59) };
    assert_eq!(m.work_hours_minutes(), (2, 7));
}
