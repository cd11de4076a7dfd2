//! The Pomodoro engine: a cyclic state machine of work intervals and breaks,
//! driven by elapsed-time ticks, with persisted work metrics.
use vstd::prelude::*;

use crate::duration::nanos_of;
use crate::text::{padded2, push_colon, push_padded2};

verus! {

/// Where the engine stands.
#[derive(PartialEq, Eq, Structural, Clone, Copy, Debug)]
pub enum PomodoroState {
    Stopped,
    Work,
    ShortBreak,
    LongBreak,
    Paused,
}

impl PomodoroState {
    /// A timed interval: work or one of the breaks.
    pub open spec fn is_interval(self) -> bool {
        self is Work || self is ShortBreak || self is LongBreak
    }

    pub open spec fn label_spec(self) -> Seq<char> {
        match self {
            PomodoroState::Stopped => "Stopped"@,
            PomodoroState::Work => "Work"@,
            PomodoroState::ShortBreak => "Short Break"@,
            PomodoroState::LongBreak => "Long Break"@,
            PomodoroState::Paused => "Paused"@,
        }
    }

    /// The name shown for the state.
    pub fn label(&self) -> (r: &'static str)
        ensures
            r@ == self.label_spec(),
    {
        match self {
            PomodoroState::Stopped => "Stopped",
            PomodoroState::Work => "Work",
            PomodoroState::ShortBreak => "Short Break",
            PomodoroState::LongBreak => "Long Break",
            PomodoroState::Paused => "Paused",
        }
    }
}

/// Work done over all sessions: completed work intervals and the total time
/// spent working, in nanoseconds.
#[derive(PartialEq, Eq, Structural, Clone, Copy, Debug)]
pub struct Metrics {
    pub completed_pomodoros: u32,
    pub total_work_time: u64,
}

impl Default for Metrics {
    /// No work recorded.
    fn default() -> (r: Metrics)
        ensures
            r.completed_pomodoros == 0,
            r.total_work_time == 0,
    {
        Metrics { completed_pomodoros: 0, total_work_time: 0 }
    }
}

impl Metrics {
    /// The total work time in whole hours and the whole minutes left over.
    pub fn work_hours_minutes(&self) -> (r: (u64, u64))
        ensures
            r.0 == self.total_work_time / 1_000_000_000 / 3600,
            r.1 == self.total_work_time / 1_000_000_000 % 3600 / 60,
    {
        let secs = self.total_work_time / 1_000_000_000;
        (secs / 3600, secs % 3600 / 60)
    }
}

/// The mathematical state of a [`Pomodoro`].
pub struct PomodoroModel {
    pub state: PomodoroState,
    /// The state that was left by pausing; set only while paused.
    pub previous_state: Option<PomodoroState>,
    pub elapsed: nat,
    pub work_duration: nat,
    pub short_break_duration: nat,
    pub long_break_duration: nat,
    pub cycles_before_long_break: nat,
    pub completed_cycles: nat,
    pub show_notification: bool,
    /// The persisted metrics: completed work intervals.
    pub completed_pomodoros: nat,
    /// The persisted metrics: total work time.
    pub total_work_time: nat,
}

/// Twenty-five minutes, in nanoseconds.
pub const DEFAULT_WORK: u64 = 1_500_000_000_000;

/// Five minutes, in nanoseconds.
pub const DEFAULT_SHORT_BREAK: u64 = 300_000_000_000;

/// Fifteen minutes, in nanoseconds.
pub const DEFAULT_LONG_BREAK: u64 = 900_000_000_000;

/// Work intervals between two long breaks, unless configured otherwise.
pub const DEFAULT_CYCLES: u32 = 4;

impl PomodoroModel {
    /// The engine as it starts, carrying the given metrics.
    pub open spec fn initial(m: Metrics) -> PomodoroModel {
        PomodoroModel {
            state: PomodoroState::Stopped,
            previous_state: None,
            elapsed: 0,
            work_duration: DEFAULT_WORK as nat,
            short_break_duration: DEFAULT_SHORT_BREAK as nat,
            long_break_duration: DEFAULT_LONG_BREAK as nat,
            cycles_before_long_break: DEFAULT_CYCLES as nat,
            completed_cycles: 0,
            show_notification: false,
            completed_pomodoros: m.completed_pomodoros as nat,
            total_work_time: m.total_work_time as nat,
        }
    }

    /// The invariant apart from machine bounds: a positive cadence, and a
    /// remembered interval only while paused.
    pub open spec fn shaped(self) -> bool {
        &&& self.cycles_before_long_break >= 1
        &&& self.state != PomodoroState::Paused ==> self.previous_state is None
        &&& self.previous_state matches Some(p) ==> p.is_interval()
    }

    pub open spec fn wf(self) -> bool {
        &&& self.shaped()
        &&& self.elapsed <= u64::MAX
        &&& self.work_duration <= u64::MAX
        &&& self.short_break_duration <= u64::MAX
        &&& self.long_break_duration <= u64::MAX
        &&& self.cycles_before_long_break <= u32::MAX
        &&& self.completed_cycles <= u32::MAX
        &&& self.completed_pomodoros <= u32::MAX
        &&& self.total_work_time <= u64::MAX
    }

    /// The configured length of the interval `s`; zero for a state that is no
    /// interval.
    pub open spec fn duration_of(self, s: PomodoroState) -> nat {
        match s {
            PomodoroState::Work => self.work_duration,
            PomodoroState::ShortBreak => self.short_break_duration,
            PomodoroState::LongBreak => self.long_break_duration,
            _ => 0,
        }
    }

    /// The length of the current interval; while paused, of the interval that
    /// was paused.
    pub open spec fn current_duration(self) -> nat {
        match self.state {
            PomodoroState::Paused => match self.previous_state {
                Some(p) => self.duration_of(p),
                None => 0,
            },
            s => self.duration_of(s),
        }
    }

    pub open spec fn remaining(self) -> nat {
        if self.elapsed >= self.current_duration() {
            0
        } else {
            (self.current_duration() - self.elapsed) as nat
        }
    }

    /// A tick of `delta` ends the current interval.
    pub open spec fn completes(self, delta: nat) -> bool {
        self.state.is_interval() && self.elapsed + delta >= self.current_duration()
    }

    /// The break that follows the work interval that brings the count of
    /// completed work intervals to `cycles`.
    pub open spec fn break_after(self, cycles: nat) -> PomodoroState {
        if cycles % self.cycles_before_long_break == 0 {
            PomodoroState::LongBreak
        } else {
            PomodoroState::ShortBreak
        }
    }

    /// The engine after `delta` more time has passed.
    pub open spec fn tick(self, delta: nat) -> PomodoroModel {
        if !self.state.is_interval() {
            self
        } else if self.completes(delta) {
            if self.state is Work {
                let cycles = self.completed_cycles + 1;
                PomodoroModel {
                    state: self.break_after(cycles),
                    elapsed: 0,
                    completed_cycles: cycles,
                    show_notification: true,
                    completed_pomodoros: self.completed_pomodoros + 1,
                    total_work_time: self.total_work_time + self.work_duration,
                    ..self
                }
            } else {
                PomodoroModel {
                    state: PomodoroState::Work,
                    elapsed: 0,
                    show_notification: true,
                    ..self
                }
            }
        } else {
            PomodoroModel {
                elapsed: self.elapsed + delta,
                total_work_time: if self.state is Work {
                    self.total_work_time + delta
                } else {
                    self.total_work_time
                },
                ..self
            }
        }
    }

    /// The counters that a tick of `delta` raises stay within their machine
    /// types.
    pub open spec fn tick_fits(self, delta: nat) -> bool {
        self.state.is_interval() ==> {
            &&& self.elapsed + delta <= u64::MAX
            &&& self.state is Work ==> if self.completes(delta) {
                &&& self.completed_cycles < u32::MAX
                &&& self.completed_pomodoros < u32::MAX
                &&& self.total_work_time + self.work_duration <= u64::MAX
            } else {
                self.total_work_time + delta <= u64::MAX
            }
        }
    }

    pub open spec fn start(self) -> PomodoroModel {
        if self.state is Stopped {
            PomodoroModel {
                state: PomodoroState::Work,
                previous_state: None,
                elapsed: 0,
                ..self
            }
        } else {
            self
        }
    }

    pub open spec fn stop(self) -> PomodoroModel {
        PomodoroModel { state: PomodoroState::Stopped, previous_state: None, ..self }
    }

    pub open spec fn pause(self) -> PomodoroModel {
        if self.state.is_interval() {
            PomodoroModel {
                state: PomodoroState::Paused,
                previous_state: Some(self.state),
                ..self
            }
        } else {
            self
        }
    }

    /// The state that resuming returns to.
    pub open spec fn resumed_state(self) -> PomodoroState {
        match self.previous_state {
            Some(p) => p,
            None => PomodoroState::Work,
        }
    }

    pub open spec fn resume(self) -> PomodoroModel {
        if self.state is Paused {
            PomodoroModel { state: self.resumed_state(), previous_state: None, ..self }
        } else {
            self
        }
    }

    pub open spec fn reset(self) -> PomodoroModel {
        PomodoroModel { elapsed: 0, ..self.resume() }
    }

    /// The engine after a tick of each of `deltas`, in order.
    pub open spec fn run(self, deltas: Seq<nat>) -> PomodoroModel
        decreases deltas.len(),
    {
        if deltas.len() == 0 {
            self
        } else {
            self.tick(deltas[0]).run(deltas.drop_first())
        }
    }

    /// A tick of `delta` ends a work interval.
    pub open spec fn ends_work(self, delta: nat) -> bool {
        self.state is Work && self.completes(delta)
    }

    /// How many ticks of `deltas` end a work interval.
    pub open spec fn work_completions(self, deltas: Seq<nat>) -> nat
        decreases deltas.len(),
    {
        if deltas.len() == 0 {
            0
        } else {
            (if self.ends_work(deltas[0]) {
                1nat
            } else {
                0nat
            }) + self.tick(deltas[0]).work_completions(deltas.drop_first())
        }
    }

    /// The summed lengths of the work intervals that ticks of `deltas` end.
    pub open spec fn completed_work_time(self, deltas: Seq<nat>) -> nat
        decreases deltas.len(),
    {
        if deltas.len() == 0 {
            0
        } else {
            (if self.ends_work(deltas[0]) {
                self.work_duration
            } else {
                0nat
            }) + self.tick(deltas[0]).completed_work_time(deltas.drop_first())
        }
    }

    /// The summed time of the ticks of `deltas` that fall within a work
    /// interval without ending it.
    pub open spec fn partial_work_time(self, deltas: Seq<nat>) -> nat
        decreases deltas.len(),
    {
        if deltas.len() == 0 {
            0
        } else {
            (if self.state is Work && !self.completes(deltas[0]) {
                deltas[0]
            } else {
                0nat
            }) + self.tick(deltas[0]).partial_work_time(deltas.drop_first())
        }
    }

    /// A work interval of length `d`, started afresh.
    pub open spec fn bind_work(self, d: nat) -> PomodoroModel {
        PomodoroModel {
            state: PomodoroState::Work,
            previous_state: None,
            elapsed: 0,
            work_duration: d,
            ..self
        }
    }
}

/// The Pomodoro engine. Durations are in nanoseconds.
pub struct Pomodoro {
    state: PomodoroState,
    previous_state: Option<PomodoroState>,
    elapsed: u64,
    work_duration: u64,
    short_break_duration: u64,
    long_break_duration: u64,
    cycles_before_long_break: u32,
    completed_cycles: u32,
    show_notification: bool,
    metrics: Metrics,
}

impl View for Pomodoro {
    type V = PomodoroModel;

    closed spec fn view(&self) -> PomodoroModel {
        PomodoroModel {
            state: self.state,
            previous_state: self.previous_state,
            elapsed: self.elapsed as nat,
            work_duration: self.work_duration as nat,
            short_break_duration: self.short_break_duration as nat,
            long_break_duration: self.long_break_duration as nat,
            cycles_before_long_break: self.cycles_before_long_break as nat,
            completed_cycles: self.completed_cycles as nat,
            show_notification: self.show_notification,
            completed_pomodoros: self.metrics.completed_pomodoros as nat,
            total_work_time: self.metrics.total_work_time as nat,
        }
    }
}

impl Pomodoro {
    /// A stopped engine with the default durations, carrying the metrics
    /// loaded from an earlier session, or zero metrics where none could be
    /// loaded.
    pub fn new(saved: Option<Metrics>) -> (r: Pomodoro)
        ensures
            r@.wf(),
            r@ == PomodoroModel::initial(
                match saved {
                    Some(m) => m,
                    None => Metrics { completed_pomodoros: 0, total_work_time: 0 },
                },
            ),
    {
        let metrics = match saved {
            Some(m) => m,
            None => Metrics { completed_pomodoros: 0, total_work_time: 0 },
        };
        Pomodoro {
            state: PomodoroState::Stopped,
            previous_state: None,
            elapsed: 0,
            work_duration: DEFAULT_WORK,
            short_break_duration: DEFAULT_SHORT_BREAK,
            long_break_duration: DEFAULT_LONG_BREAK,
            cycles_before_long_break: DEFAULT_CYCLES,
            completed_cycles: 0,
            show_notification: false,
            metrics,
        }
    }

    /// Whether [`Pomodoro::update`] may be called with `elapsed`: the counters
    /// it raises stay within their machine types.
    pub fn can_update(&self, elapsed: u64) -> (r: bool)
        requires
            self@.wf(),
        ensures
            r == self@.tick_fits(elapsed as nat),
    {
        if self.state == PomodoroState::Stopped || self.state == PomodoroState::Paused {
            return true;
        }
        if self.elapsed > u64::MAX - elapsed {
            return false;
        }
        if self.state != PomodoroState::Work {
            return true;
        }
        if self.elapsed + elapsed >= self.work_duration {
            self.completed_cycles < u32::MAX && self.metrics.completed_pomodoros < u32::MAX
                && self.metrics.total_work_time <= u64::MAX - self.work_duration
        } else {
            self.metrics.total_work_time <= u64::MAX - elapsed
        }
    }

    /// Advances the engine by `elapsed`. While stopped or paused nothing
    /// changes. Otherwise the time is added to the interval; where the
    /// interval is then over, the engine moves to the next interval with the
    /// elapsed time reset, and the state that ended is returned (the caller
    /// then plays the notification and saves the metrics). A completed work
    /// interval counts one cycle and one pomodoro and adds its length to the
    /// total work time; a work tick that completes nothing adds `elapsed` to
    /// it.
    pub fn update(&mut self, elapsed: u64) -> (ended: Option<PomodoroState>)
        requires
            old(self)@.wf(),
            old(self)@.tick_fits(elapsed as nat),
        ensures
            final(self)@.wf(),
            final(self)@ == old(self)@.tick(elapsed as nat),
            ended == (if old(self)@.completes(elapsed as nat) {
                Some(old(self)@.state)
            } else {
                None
            }),
    {
        if self.state == PomodoroState::Stopped || self.state == PomodoroState::Paused {
            return None;
        }
        self.elapsed = self.elapsed + elapsed;
        let current = self.current_duration();
        if self.elapsed >= current {
            let ended = self.state;
            let next = if self.state == PomodoroState::Work {
                self.completed_cycles = self.completed_cycles + 1;
                self.metrics.completed_pomodoros = self.metrics.completed_pomodoros + 1;
                self.metrics.total_work_time = self.metrics.total_work_time + current;
                if self.completed_cycles % self.cycles_before_long_break == 0 {
                    PomodoroState::LongBreak
                } else {
                    PomodoroState::ShortBreak
                }
            } else {
                PomodoroState::Work
            };
            self.elapsed = 0;
            self.state = next;
            self.show_notification = true;
            Some(ended)
        } else {
            if self.state == PomodoroState::Work {
                self.metrics.total_work_time = self.metrics.total_work_time + elapsed;
            }
            None
        }
    }

    /// The length of the current interval (while paused, of the paused one).
    pub fn current_duration(&self) -> (r: u64)
        requires
            self@.wf(),
        ensures
            r == self@.current_duration(),
    {
        let s = match self.state {
            PomodoroState::Paused => match self.previous_state {
                Some(p) => p,
                None => PomodoroState::Stopped,
            },
            s => s,
        };
        match s {
            PomodoroState::Work => self.work_duration,
            PomodoroState::ShortBreak => self.short_break_duration,
            PomodoroState::LongBreak => self.long_break_duration,
            _ => 0,
        }
    }

    /// The time left in the current interval, zero once it has run out.
    pub fn remaining_time(&self) -> (r: u64)
        requires
            self@.wf(),
        ensures
            r == self@.remaining(),
    {
        let current = self.current_duration();
        if self.elapsed > current {
            0
        } else {
            current - self.elapsed
        }
    }
    /// `d` as minutes and seconds, "MM:SS", each part at least two digits.
    pub fn format_time(d: u64) -> (r: String)
        ensures
            r@ == padded2(d as nat / 1_000_000_000 / 60) + seq![':'] + padded2(
                d as nat / 1_000_000_000 % 60,
            ),
    {
        let total = d / 1_000_000_000;
        let mut r = String::new();
        push_padded2(&mut r, total / 60);
        push_colon(&mut r);
        push_padded2(&mut r, total % 60);
        assert(r@ =~= padded2(d as nat / 1_000_000_000 / 60) + seq![':'] + padded2(
            d as nat / 1_000_000_000 % 60,
        ));
        r
    }

    /// How far the current interval has run, as a fraction
    /// `(numerator, denominator)` with a positive denominator: zero while
    /// stopped or paused or where the interval has no length, otherwise
    /// elapsed over the interval's length (above one until the next tick ends
    /// the interval).
    pub fn progress(&self) -> (r: (u64, u64))
        requires
            self@.wf(),
        ensures
            r.1 > 0,
            !self@.state.is_interval() || self@.current_duration() == 0 ==> r == (0u64, 1u64),
            self@.state.is_interval() && self@.current_duration() > 0 ==> r.0 == self@.elapsed
                && r.1 == self@.current_duration(),
    {
        if self.state == PomodoroState::Stopped || self.state == PomodoroState::Paused {
            return (0, 1);
        }
        let current = self.current_duration();
        if current == 0 {
            (0, 1)
        } else {
            (self.elapsed, current)
        }
    }

    /// Starts a work interval from the stopped state; otherwise does nothing.
    pub fn start(&mut self)
        requires
            old(self)@.wf(),
        ensures
            final(self)@.wf(),
            final(self)@ == old(self)@.start(),
    {
        if self.state == PomodoroState::Stopped {
            self.state = PomodoroState::Work;
            self.previous_state = None;
            self.elapsed = 0;
        }
    }

    /// Stops the engine, from whatever state; a paused engine forgets the
    /// interval it paused. The elapsed time stays until the next start.
    pub fn stop(&mut self)
        requires
            old(self)@.wf(),
        ensures
            final(self)@.wf(),
            final(self)@ == old(self)@.stop(),
    {
        self.state = PomodoroState::Stopped;
        self.previous_state = None;
    }

    /// Pauses a running interval, remembering which one it was; otherwise
    /// does nothing.
    pub fn pause(&mut self)
        requires
            old(self)@.wf(),
        ensures
            final(self)@.wf(),
            final(self)@ == old(self)@.pause(),
    {
        if self.state != PomodoroState::Stopped && self.state != PomodoroState::Paused {
            self.previous_state = Some(self.state);
            self.state = PomodoroState::Paused;
        }
    }

    /// Returns from a pause to the interval that was paused (work, where none
    /// was recorded); otherwise does nothing.
    pub fn resume(&mut self)
        requires
            old(self)@.wf(),
        ensures
            final(self)@.wf(),
            final(self)@ == old(self)@.resume(),
    {
        if self.state == PomodoroState::Paused {
            self.state = match self.previous_state {
                Some(p) => p,
                None => PomodoroState::Work,
            };
            self.previous_state = None;
        }
    }

    /// Restarts the current interval from zero; a paused engine also resumes.
    pub fn reset(&mut self)
        requires
            old(self)@.wf(),
        ensures
            final(self)@.wf(),
            final(self)@ == old(self)@.reset(),
    {
        self.resume();
        self.elapsed = 0;
    }

    /// Starts a fresh work interval of length `d`, whatever the state: the
    /// binding of a task to the engine.
    pub fn bind_work(&mut self, d: u64)
        requires
            old(self)@.wf(),
        ensures
            final(self)@.wf(),
            final(self)@ == old(self)@.bind_work(d as nat),
    {
        self.work_duration = d;
        self.state = PomodoroState::Work;
        self.previous_state = None;
        self.elapsed = 0;
    }

    /// Sets the elapsed time of the current interval to zero.
    pub fn clear_elapsed(&mut self)
        requires
            old(self)@.wf(),
        ensures
            final(self)@.wf(),
            final(self)@ == (PomodoroModel { elapsed: 0, ..old(self)@ }),
    {
        self.elapsed = 0;
    }

    /// Sets the length of work intervals. The elapsed time is not rescaled.
    pub fn set_work_duration(&mut self, d: u64)
        requires
            old(self)@.wf(),
        ensures
            final(self)@.wf(),
            final(self)@ == (PomodoroModel { work_duration: d as nat, ..old(self)@ }),
    {
        self.work_duration = d;
    }

    /// Sets the length of short breaks. The elapsed time is not rescaled.
    pub fn set_short_break_duration(&mut self, d: u64)
        requires
            old(self)@.wf(),
        ensures
            final(self)@.wf(),
            final(self)@ == (PomodoroModel { short_break_duration: d as nat, ..old(self)@ }),
    {
        self.short_break_duration = d;
    }

    /// Sets the length of long breaks. The elapsed time is not rescaled.
    pub fn set_long_break_duration(&mut self, d: u64)
        requires
            old(self)@.wf(),
        ensures
            final(self)@.wf(),
            final(self)@ == (PomodoroModel { long_break_duration: d as nat, ..old(self)@ }),
    {
        self.long_break_duration = d;
    }

    /// Sets how many work intervals make a cycle that ends in a long break.
    pub fn set_cycles_before_long_break(&mut self, n: u32)
        requires
            old(self)@.wf(),
            n >= 1,
        ensures
            final(self)@.wf(),
            final(self)@ == (PomodoroModel { cycles_before_long_break: n as nat, ..old(self)@ }),
    {
        self.cycles_before_long_break = n;
    }

    /// The message that announces the interval just begun, while the
    /// announcement is up; it is taken down once three seconds of the new
    /// interval have passed.
    pub fn notification(&mut self) -> (r: Option<&'static str>)
        requires
            old(self)@.wf(),
        ensures
            final(self)@.wf(),
            final(self)@ == (PomodoroModel {
                show_notification: old(self)@.show_notification && old(self)@.elapsed
                    < 3_000_000_000,
                ..old(self)@
            }),
            old(self)@.show_notification ==> (r matches Some(t) && t@ == notification_text(
                old(self)@.state,
            )),
            !old(self)@.show_notification ==> r is None,
    {
        if !self.show_notification {
            return None;
        }
        let text = match self.state {
            PomodoroState::Work => "Time to focus! Work session started.",
            PomodoroState::ShortBreak => "Take a short break!",
            PomodoroState::LongBreak => "Time for a longer break. Well done!",
            PomodoroState::Stopped => "",
            PomodoroState::Paused => "",
        };
        if self.elapsed >= 3_000_000_000 {
            self.show_notification = false;
        }
        Some(text)
    }

    pub fn state(&self) -> (r: PomodoroState)
        ensures
            r == self@.state,
    {
        self.state
    }

    pub fn elapsed(&self) -> (r: u64)
        ensures
            r == self@.elapsed,
    {
        self.elapsed
    }

    pub fn work_duration(&self) -> (r: u64)
        ensures
            r == self@.work_duration,
    {
        self.work_duration
    }

    pub fn short_break_duration(&self) -> (r: u64)
        ensures
            r == self@.short_break_duration,
    {
        self.short_break_duration
    }

    pub fn long_break_duration(&self) -> (r: u64)
        ensures
            r == self@.long_break_duration,
    {
        self.long_break_duration
    }

    pub fn cycles_before_long_break(&self) -> (r: u32)
        ensures
            r == self@.cycles_before_long_break,
    {
        self.cycles_before_long_break
    }

    pub fn completed_cycles(&self) -> (r: u32)
        ensures
            r == self@.completed_cycles,
    {
        self.completed_cycles
    }

    /// The metrics as they are to be saved.
    pub fn metrics(&self) -> (r: Metrics)
        ensures
            r.completed_pomodoros == self@.completed_pomodoros,
            r.total_work_time == self@.total_work_time,
    {
        self.metrics
    }
}

/// The announcement of the interval `s` that has just begun.
pub open spec fn notification_text(s: PomodoroState) -> Seq<char> {
    match s {
        PomodoroState::Work => "Time to focus! Work session started."@,
        PomodoroState::ShortBreak => "Take a short break!"@,
        PomodoroState::LongBreak => "Time for a longer break. Well done!"@,
        _ => ""@,
    }
}

/// Starting a stopped engine and letting exactly one work interval's length
/// pass ends the work interval: the engine is on a break, long where the count
/// of completed work intervals reaches a multiple of the cadence and short
/// otherwise, with no time elapsed.
pub proof fn lemma_work_interval_ends(m: PomodoroModel, d: nat)
    requires
        m.wf(),
        m.state is Stopped,
        m.work_duration == d,
        d > 0,
    ensures
        ({
            let t = m.start().tick(d);
            &&& t.state == m.break_after(m.completed_cycles + 1)
            &&& t.state is ShortBreak || t.state is LongBreak
            &&& t.elapsed == 0
        }),
{
}

/// A tick that ends a work interval raises the count of completed work
/// intervals by one and gives a long break exactly when the new count is a
/// multiple of `cycles_before_long_break`, a short break otherwise; any other
/// tick leaves the count as it is.
pub proof fn lemma_long_break_cadence(m: PomodoroModel, delta: nat)
    requires
        m.wf(),
    ensures
        ({
            let t = m.tick(delta);
            &&& m.ends_work(delta) ==> {
                &&& t.completed_cycles == m.completed_cycles + 1
                &&& (t.state is LongBreak) == (t.completed_cycles % m.cycles_before_long_break
                    == 0)
                &&& (t.state is ShortBreak) == (t.completed_cycles % m.cycles_before_long_break
                    != 0)
            }
            &&& !m.ends_work(delta) ==> t.completed_cycles == m.completed_cycles
        }),
{
}

/// Pausing a running interval and resuming gives back exactly the engine as
/// it was, elapsed time included, however much time passed while paused;
/// pausing an engine that is already paused changes nothing.
pub proof fn lemma_pause_resume(m: PomodoroModel, delta: nat)
    requires
        m.wf(),
    ensures
        m.state.is_interval() ==> m.pause().resume() == m,
        m.state.is_interval() ==> m.pause().tick(delta).resume() == m,
        m.state is Paused ==> m.pause() == m,
{
}

/// A tick that ends no interval never raises the time remaining; a tick that
/// ends an interval leaves the whole length of the next interval remaining.
pub proof fn lemma_remaining_monotone(m: PomodoroModel, delta: nat)
    requires
        m.wf(),
    ensures
        !m.completes(delta) ==> m.tick(delta).remaining() <= m.remaining(),
        m.completes(delta) ==> m.tick(delta).remaining() == m.tick(delta).current_duration(),
{
}

/// Over any run of ticks, the metrics grow by one pomodoro for each work
/// interval that ends, and the total work time by the lengths of those
/// intervals plus the time of work ticks that end nothing; the cycle count
/// grows with the pomodoros. The total's stored form (whole seconds, extra
/// nanoseconds) reads back as the total.
pub proof fn lemma_metrics_over_run(m: PomodoroModel, deltas: Seq<nat>)
    requires
        m.wf(),
    ensures
        ({
            let t = m.run(deltas);
            &&& t.completed_pomodoros == m.completed_pomodoros + m.work_completions(deltas)
            &&& t.completed_cycles == m.completed_cycles + m.work_completions(deltas)
            &&& t.total_work_time == m.total_work_time + m.completed_work_time(deltas)
                + m.partial_work_time(deltas)
            &&& nanos_of(t.total_work_time / 1_000_000_000, t.total_work_time % 1_000_000_000)
                == t.total_work_time
        }),
{
    lemma_run_counts(m, deltas);
    let t = m.run(deltas).total_work_time;
    assert(nanos_of(t / 1_000_000_000, t % 1_000_000_000) == t) by (nonlinear_arith);
}

proof fn lemma_run_counts(m: PomodoroModel, deltas: Seq<nat>)
    requires
        m.shaped(),
    ensures
        ({
            let t = m.run(deltas);
            &&& t.completed_pomodoros == m.completed_pomodoros + m.work_completions(deltas)
            &&& t.completed_cycles == m.completed_cycles + m.work_completions(deltas)
            &&& t.total_work_time == m.total_work_time + m.completed_work_time(deltas)
                + m.partial_work_time(deltas)
        }),
    decreases deltas.len(),
{
    if deltas.len() > 0 {
        lemma_run_counts(m.tick(deltas[0]), deltas.drop_first());
    }
}

} // verus!
