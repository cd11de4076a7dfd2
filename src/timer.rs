//! A countdown timer set in hours, minutes and seconds.
use vstd::prelude::*;

use crate::duration::{MAX_SECONDS, NANOS_PER_SEC};
use crate::text::{padded2, push_colon, push_padded2};

verus! {

#[derive(PartialEq, Eq, Structural, Clone, Copy, Debug)]
pub enum TimerState {
    Stopped,
    Running,
    Paused,
    Completed,
}

/// The mathematical state of a [`Timer`]; times in nanoseconds.
pub struct TimerModel {
    pub state: TimerState,
    pub elapsed: nat,
    pub duration: nat,
    pub hours: nat,
    pub minutes: nat,
    pub seconds: nat,
}

/// The seconds in `h` hours, `m` minutes and `s` seconds.
pub open spec fn total_seconds(h: nat, m: nat, s: nat) -> nat {
    h * 3600 + m * 60 + s
}

/// `d` nanoseconds as a clock: "HH:MM:SS" from one hour on, "MM:SS" below.
pub open spec fn clock_text(d: nat) -> Seq<char> {
    let t = d / 1_000_000_000;
    let h = t / 3600;
    let m = t % 3600 / 60;
    let s = t % 60;
    if h > 0 {
        padded2(h) + seq![':'] + padded2(m) + seq![':'] + padded2(s)
    } else {
        padded2(m) + seq![':'] + padded2(s)
    }
}

impl TimerModel {
    pub open spec fn wf(self) -> bool {
        &&& self.elapsed <= u64::MAX
        &&& self.duration <= u64::MAX
        &&& self.hours <= u32::MAX
        &&& self.minutes <= u32::MAX
        &&& self.seconds <= u32::MAX
        &&& total_seconds(self.hours, self.minutes, self.seconds) <= MAX_SECONDS
    }

    /// The duration that the hours, minutes and seconds set.
    pub open spec fn set_duration(self) -> TimerModel {
        TimerModel {
            duration: total_seconds(self.hours, self.minutes, self.seconds) * 1_000_000_000,
            ..self
        }
    }

    /// From the stopped state: takes the set duration and, where it is
    /// positive, runs from zero.
    pub open spec fn start(self) -> TimerModel {
        if self.state is Stopped {
            let t = self.set_duration();
            if t.duration > 0 {
                TimerModel { state: TimerState::Running, elapsed: 0, ..t }
            } else {
                t
            }
        } else {
            self
        }
    }

    /// The timer after `delta` more time has passed; a running timer whose
    /// time is up completes.
    pub open spec fn tick(self, delta: nat) -> TimerModel {
        if self.state is Running {
            let elapsed = self.elapsed + delta;
            TimerModel {
                state: if elapsed >= self.duration {
                    TimerState::Completed
                } else {
                    TimerState::Running
                },
                elapsed,
                ..self
            }
        } else {
            self
        }
    }

    pub open spec fn tick_fits(self, delta: nat) -> bool {
        self.state is Running ==> self.elapsed + delta <= u64::MAX
    }

    pub open spec fn remaining(self) -> nat {
        if self.elapsed >= self.duration {
            0
        } else {
            (self.duration - self.elapsed) as nat
        }
    }
}

/// A countdown timer; times in nanoseconds.
pub struct Timer {
    state: TimerState,
    elapsed: u64,
    duration: u64,
    hours: u32,
    minutes: u32,
    seconds: u32,
}

impl View for Timer {
    type V = TimerModel;

    closed spec fn view(&self) -> TimerModel {
        TimerModel {
            state: self.state,
            elapsed: self.elapsed as nat,
            duration: self.duration as nat,
            hours: self.hours as nat,
            minutes: self.minutes as nat,
            seconds: self.seconds as nat,
        }
    }
}

impl Timer {
    /// A stopped timer set to five minutes.
    pub fn new() -> (r: Timer)
        ensures
            r@.wf(),
            r@ == (TimerModel {
                state: TimerState::Stopped,
                elapsed: 0,
                duration: 0,
                hours: 0,
                minutes: 5,
                seconds: 0,
            }),
    {
        Timer { state: TimerState::Stopped, elapsed: 0, duration: 0, hours: 0, minutes: 5, seconds: 0 }
    }

    /// Whether [`Timer::update`] may be called with `elapsed`.
    pub fn can_update(&self, elapsed: u64) -> (r: bool)
        requires
            self@.wf(),
        ensures
            r == self@.tick_fits(elapsed as nat),
    {
        self.state != TimerState::Running || self.elapsed <= u64::MAX - elapsed
    }

    /// Advances a running timer by `elapsed`; returns whether the time ran out
    /// on this tick (the caller then sounds the alarm).
    pub fn update(&mut self, elapsed: u64) -> (done: bool)
        requires
            old(self)@.wf(),
            old(self)@.tick_fits(elapsed as nat),
        ensures
            final(self)@.wf(),
            final(self)@ == old(self)@.tick(elapsed as nat),
            done == (old(self)@.state is Running && final(self)@.state is Completed),
    {
        if self.state != TimerState::Running {
            return false;
        }
        self.elapsed = self.elapsed + elapsed;
        if self.elapsed >= self.duration {
            self.state = TimerState::Completed;
            true
        } else {
            false
        }
    }

    /// The time left, zero once it has run out.
    pub fn remaining_time(&self) -> (r: u64)
        requires
            self@.wf(),
        ensures
            r == self@.remaining(),
    {
        if self.elapsed > self.duration {
            0
        } else {
            self.duration - self.elapsed
        }
    }

    /// `d` as a clock: "HH:MM:SS" from one hour on, "MM:SS" below.
    pub fn format_time(d: u64) -> (r: String)
        ensures
            r@ == clock_text(d as nat),
    {
        let t = d / NANOS_PER_SEC;
        let h = t / 3600;
        let m = t % 3600 / 60;
        let s = t % 60;
        let mut r = String::new();
        if h > 0 {
            push_padded2(&mut r, h);
            push_colon(&mut r);
        }
        push_padded2(&mut r, m);
        push_colon(&mut r);
        push_padded2(&mut r, s);
        if h > 0 {
            assert(r@ =~= padded2(h as nat) + seq![':'] + padded2(m as nat) + seq![':'] + padded2(
                s as nat,
            ));
        } else {
            assert(r@ =~= padded2(m as nat) + seq![':'] + padded2(s as nat));
        }
        r
    }

    /// How far the timer has run, as a fraction `(numerator, denominator)`
    /// with a positive denominator: zero while stopped or where the duration
    /// is zero, otherwise elapsed over duration.
    pub fn progress(&self) -> (r: (u64, u64))
        requires
            self@.wf(),
        ensures
            r.1 > 0,
            self@.state is Stopped || self@.duration == 0 ==> r == (0u64, 1u64),
            !(self@.state is Stopped) && self@.duration > 0 ==> r.0 == self@.elapsed && r.1
                == self@.duration,
    {
        if self.state == TimerState::Stopped || self.duration == 0 {
            (0, 1)
        } else {
            (self.elapsed, self.duration)
        }
    }

    /// Sets the duration from the hours, minutes and seconds.
    pub fn set_duration(&mut self)
        requires
            old(self)@.wf(),
        ensures
            final(self)@.wf(),
            final(self)@ == old(self)@.set_duration(),
    {
        let total = self.hours as u64 * 3600 + self.minutes as u64 * 60 + self.seconds as u64;
        assert(total * 1_000_000_000 <= u64::MAX) by (nonlinear_arith)
            requires
                total <= 18_446_744_073,
        ;
        self.duration = total * NANOS_PER_SEC;
    }

    /// From the stopped state, takes the set duration and, where it is
    /// positive, starts counting from zero.
    pub fn start(&mut self)
        requires
            old(self)@.wf(),
        ensures
            final(self)@.wf(),
            final(self)@ == old(self)@.start(),
    {
        if self.state != TimerState::Stopped {
            return;
        }
        self.set_duration();
        if self.duration > 0 {
            self.state = TimerState::Running;
            self.elapsed = 0;
        }
    }

    /// Pauses a running timer; otherwise does nothing.
    pub fn pause(&mut self)
        requires
            old(self)@.wf(),
        ensures
            final(self)@.wf(),
            final(self)@ == (if old(self)@.state is Running {
                TimerModel { state: TimerState::Paused, ..old(self)@ }
            } else {
                old(self)@
            }),
    {
        if self.state == TimerState::Running {
            self.state = TimerState::Paused;
        }
    }

    /// Resumes a paused timer; otherwise does nothing.
    pub fn resume(&mut self)
        requires
            old(self)@.wf(),
        ensures
            final(self)@.wf(),
            final(self)@ == (if old(self)@.state is Paused {
                TimerModel { state: TimerState::Running, ..old(self)@ }
            } else {
                old(self)@
            }),
    {
        if self.state == TimerState::Paused {
            self.state = TimerState::Running;
        }
    }

    /// Stops the timer and sets its elapsed time to zero.
    pub fn reset(&mut self)
        requires
            old(self)@.wf(),
        ensures
            final(self)@.wf(),
            final(self)@ == (TimerModel { state: TimerState::Stopped, elapsed: 0, ..old(self)@ }),
    {
        self.state = TimerState::Stopped;
        self.elapsed = 0;
    }

    /// Sets the hours, minutes and seconds that the next start takes.
    pub fn set_time(&mut self, hours: u32, minutes: u32, seconds: u32)
        requires
            old(self)@.wf(),
            total_seconds(hours as nat, minutes as nat, seconds as nat) <= MAX_SECONDS,
        ensures
            final(self)@.wf(),
            final(self)@ == (TimerModel {
                hours: hours as nat,
                minutes: minutes as nat,
                seconds: seconds as nat,
                ..old(self)@
            }),
    {
        self.hours = hours;
        self.minutes = minutes;
        self.seconds = seconds;
    }

    pub fn state(&self) -> (r: TimerState)
        ensures
            r == self@.state,
    {
        self.state
    }

    pub fn hours(&self) -> (r: u32)
        ensures
            r == self@.hours,
    {
        self.hours
    }

    pub fn minutes(&self) -> (r: u32)
        ensures
            r == self@.minutes,
    {
        self.minutes
    }

    pub fn seconds(&self) -> (r: u32)
        ensures
            r == self@.seconds,
    {
        self.seconds
    }
}

} // verus!
