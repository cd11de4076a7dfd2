use rust_clock::stats::Stats;
use rust_clock::Tab;

const SEC: u64 = 1_000_000_000;

#[test]
fn pomodoros_are_counted_per_day() {
    let mut s = Stats::new();
    s.add_pomodoro_on("2024-05-01".to_string());
    s.add_pomodoro_on("2024-05-02".to_string());
    s.add_pomodoro_on("2024-05-01".to_string());
    assert_eq!(
        s.daily_pomodoros(),
        &vec![("2024-05-01".to_string(), 2), ("2024-05-02".to_string(), 1)]
    );
    assert!(s.weekly_work_time().is_empty());
}

#[test]
fn work_time_is_summed_per_week() {
    let mut s = Stats::new();
    s.add_work_time_in("2024-W18".to_string(), 3 * SEC);
    s.add_work_time_in("2024-W18".to_string(), 4 * SEC);
    s.add_work_time_in("2024-W19".to_string(), SEC);
    assert_eq!(
        s.weekly_work_time(),
        &vec![("2024-W18".to_string(), 7 * SEC), ("2024-W19".to_string(), SEC)]
    );
}

#[test]
fn first_matching_entry_is_raised() {
    let mut s = Stats::from_saved(
        vec![("d".to_string(), 1), ("d".to_string(), 5)],
        vec![("w".to_string(), SEC)],
    );
    s.add_pomodoro_on("d".to_string());
    assert_eq!(s.daily_pomodoros(), &vec![("d".to_string(), 2), ("d".to_string(), 5)]);
    assert_eq!(s.weekly_work_time(), &vec![("w".to_string(), SEC)]);
}

#[test]
fn today_is_keyed_by_utc_date() {
    let mut s = Stats::new();
    s.add_pomodoro();
    let days = s.daily_pomodoros();
    assert_eq!(days.len(), 1);
    let (day, count) = &days[0];
    assert_eq!(*count, 1);
    assert_eq!(day.len(), 10);
    assert_eq!(day.as_bytes()[4], b'-');
    assert_eq!(day.as_bytes()[7], b'-');
}

#[test]
fn this_week_is_keyed_by_iso_week() {
    let mut s = Stats::new();
    s.add_work_time(5 * SEC);
    let weeks = s.weekly_work_time();
    assert_eq!(weeks.len(), 1);
    let (week, total) = &weeks[0];
    assert_eq!(*total, 5 * SEC);
    assert_eq!(week.len(), 8);
    assert_eq!(&week[4..6], "-W");
}

#[test]
fn tabs_compare_by_variant() {
    assert_eq!(Tab::Pomodoro, Tab::Pomodoro);
    assert_ne!(Tab::Clock, Tab::Timer);
}
