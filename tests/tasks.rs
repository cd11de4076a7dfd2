use rust_clock::pomodoro::{Pomodoro, PomodoroState};
use rust_clock::task::{Task, TaskList};

const SEC: u64 = 1_000_000_000;

fn list_of(names: &[(&str, u64)]) -> TaskList {
    let mut l = TaskList::new();
    for (n, secs) in names {
        l.add(n.to_string(), secs * SEC);
    }
    l
}

fn names(tasks: &Vec<Task>) -> Vec<String> {
    tasks.iter().map(|t| t.name.clone()).collect()
}

#[test]
fn added_tasks_are_idle() {
    let l = list_of(&[("write", 30), ("read", 60)]);
    assert_eq!(names(l.tasks()), vec!["write", "read"]);
    assert!(l.tasks().iter().all(|t| !t.completed && !t.running));
    assert_eq!(l.tasks()[1].duration, 60 * SEC);
    assert!(l.finished_tasks().is_empty());
    assert_eq!(l.running_task_index(), None);
}

#[test]
fn starting_task_binds_engine() {
    let mut l = list_of(&[("write", 30), ("read", 60)]);
    let mut p = Pomodoro::new(None);
    p.start();
    p.update(5 * SEC);
    l.start(1, &mut p);
    assert_eq!(p.work_duration(), 60 * SEC);
    assert_eq!(p.state(), PomodoroState::Work);
    assert_eq!(p.elapsed(), 0);
    assert!(l.tasks()[1].running);
    assert_eq!(l.running_task_index(), Some(1));
}

#[test]
fn finished_work_interval_moves_task_once() {
    let mut l = list_of(&[("write", 30), ("read", 60)]);
    let mut p = Pomodoro::new(None);
    l.start(0, &mut p);
    p.update(20 * SEC);
    l.observe(&mut p);
    assert_eq!(l.running_task_index(), Some(0));
    assert_eq!(l.tasks().len(), 2);
    p.update(10 * SEC);
    assert_eq!(p.state(), PomodoroState::ShortBreak);
    l.observe(&mut p);
    assert_eq!(names(l.tasks()), vec!["read"]);
    assert_eq!(names(l.finished_tasks()), vec!["write"]);
    assert!(l.finished_tasks()[0].completed);
    assert!(!l.finished_tasks()[0].running);
    assert_eq!(l.running_task_index(), None);
    assert_eq!(p.elapsed(), 0);
    p.update(SEC);
    l.observe(&mut p);
    assert_eq!(l.finished_tasks().len(), 1);
    assert_eq!(l.tasks().len(), 1);
}

#[test]
fn second_start_is_ignored() {
    let mut l = list_of(&[("write", 30), ("read", 60)]);
    let mut p = Pomodoro::new(None);
    l.start(0, &mut p);
    p.update(10 * SEC);
    l.start(1, &mut p);
    assert_eq!(l.running_task_index(), Some(0));
    assert!(l.tasks()[0].running);
    assert!(!l.tasks()[1].running);
    assert_eq!(p.work_duration(), 30 * SEC);
    assert_eq!(p.elapsed(), 10 * SEC);
}

#[test]
fn completed_or_missing_task_does_not_start() {
    let mut l = list_of(&[("write", 30)]);
    let mut p = Pomodoro::new(None);
    l.set_completed(0, true);
    l.start(0, &mut p);
    l.start(5, &mut p);
    assert_eq!(l.running_task_index(), None);
    assert_eq!(p.state(), PomodoroState::Stopped);
    l.set_completed(0, false);
    l.start(0, &mut p);
    assert_eq!(l.running_task_index(), Some(0));
}

#[test]
fn removing_running_task_stops_engine() {
    let mut l = list_of(&[("write", 30), ("read", 60)]);
    let mut p = Pomodoro::new(None);
    l.start(1, &mut p);
    l.remove(1, &mut p);
    assert_eq!(l.running_task_index(), None);
    assert_eq!(p.state(), PomodoroState::Stopped);
    assert_eq!(names(l.tasks()), vec!["write"]);
}

#[test]
fn removing_earlier_task_keeps_binding() {
    let mut l = list_of(&[("write", 30), ("read", 60)]);
    let mut p = Pomodoro::new(None);
    l.start(1, &mut p);
    l.remove(0, &mut p);
    assert_eq!(l.running_task_index(), Some(0));
    assert!(l.tasks()[0].running);
    assert_eq!(p.state(), PomodoroState::Work);
}

#[test]
fn saved_tasks_load_without_running_flags() {
    let saved = vec![
        Task { name: "a".to_string(), duration: SEC, completed: false, running: true },
        Task { name: "b".to_string(), duration: 2 * SEC, completed: true, running: false },
    ];
    let l = TaskList::from_saved(saved);
    assert_eq!(names(l.tasks()), vec!["a", "b"]);
    assert!(!l.tasks()[0].running);
    assert!(l.tasks()[1].completed);
    assert_eq!(l.running_task_index(), None);
    assert!(l.finished_tasks().is_empty());
}
